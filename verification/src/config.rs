//! Configuration of the broker client.

use vstd::prelude::*;
use vstd::string::*;

verus! {

/// What every generated client identifier begins with.
pub const CLIENT_ID_PREFIX: &'static str = "aetheris-engine-";

/// Broker client configuration.
#[derive(Debug, PartialEq)]
pub struct MqttConfig {
    /// Host name of the broker.
    pub broker_host: String,
    /// TCP port of the broker.
    pub broker_port: u16,
    /// Identifier under which the client connects.
    pub client_id: String,
    /// Keep-alive interval in seconds.
    pub keep_alive_secs: u64,
    /// Whether the broker is to forget the client's earlier session.
    pub clean_session: bool,
}

/// Whether `c` is a decimal digit or one of the letters `a` to `f`.
pub open spec fn is_lower_hex_digit(c: char) -> bool {
    ('0' <= c && c <= '9') || ('a' <= c && c <= 'f')
}

/// Whether `text` has the hyphenated form of a UUID: 32 lower-case
/// hexadecimal digits in groups of 8, 4, 4, 4 and 12, with a hyphen between
/// the groups.
pub open spec fn is_hyphenated_uuid(text: Seq<char>) -> bool {
    &&& text.len() == 36
    &&& forall|i: int|
        0 <= i < 36 ==> if i == 8 || i == 13 || i == 18 || i == 23 {
            #[trigger] text[i] == '-'
        } else {
            is_lower_hex_digit(text[i])
        }
}

/// `uuid::Uuid::new_v4` and the `Display` of its result: a random version 4
/// UUID in hyphenated lower-case form. Nothing else is claimed of the text,
/// which differs from call to call. The call panics where the operating
/// system yields no random bytes.
#[verifier::external_body]
fn random_uuid_text() -> (r: String)
    ensures
        is_hyphenated_uuid(r@),
{
    uuid::Uuid::new_v4().to_string()
}

impl MqttConfig {
    /// Whether this is the default configuration of the client named by
    /// `suffix`: the broker at `localhost:1883`, a keep-alive of 30 seconds
    /// and a clean session.
    pub open spec fn is_default_for(self, suffix: Seq<char>) -> bool {
        &&& self.broker_host@ == "localhost"@
        &&& self.broker_port == 1883
        &&& self.client_id@ == CLIENT_ID_PREFIX@ + suffix
        &&& self.keep_alive_secs == 30
        &&& self.clean_session
    }

    /// The default configuration of the client named by `suffix`.
    pub fn for_client(suffix: &str) -> (r: MqttConfig)
        ensures
            r.is_default_for(suffix@),
    {
        let mut client_id = String::from_str(CLIENT_ID_PREFIX);
        client_id.append(suffix);
        MqttConfig {
            broker_host: String::from_str("localhost"),
            broker_port: 1883,
            client_id,
            keep_alive_secs: 30,
            clean_session: true,
        }
    }
}

impl Default for MqttConfig {
    /// The default configuration of a client named by a fresh random UUID.
    fn default() -> (r: MqttConfig)
        ensures
            exists|suffix: Seq<char>| is_hyphenated_uuid(suffix) && r.is_default_for(suffix),
    {
        let suffix = random_uuid_text();
        MqttConfig::for_client(suffix.as_str())
    }
}

impl Clone for MqttConfig {
    fn clone(&self) -> (r: MqttConfig)
        ensures
            r == *self,
    {
        MqttConfig {
            broker_host: self.broker_host.clone(),
            broker_port: self.broker_port,
            client_id: self.client_id.clone(),
            keep_alive_secs: self.keep_alive_secs,
            clean_session: self.clean_session,
        }
    }
}

} // verus!
