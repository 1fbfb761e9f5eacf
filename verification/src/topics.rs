//! The topic scheme: which topic carries which kind of message.

use crate::text::{same_text, starts_with};
use vstd::prelude::*;
use vstd::string::*;

verus! {

/// Base prefix of every topic.
pub const PREFIX: &'static str = "aetheris";

/// Telemetry of all units.
pub const TELEMETRY_ALL: &'static str = "aetheris/telemetry/+";

/// Heartbeats of all units.
pub const HEARTBEAT_ALL: &'static str = "aetheris/heartbeat/+";

/// Commands broadcast to all units.
pub const COMMANDS_BROADCAST: &'static str = "aetheris/commands/broadcast";

/// Commands to any unit, the broadcast included.
pub const COMMANDS_ALL: &'static str = "aetheris/commands/#";

/// Anomaly alerts.
pub const ALERTS: &'static str = "aetheris/alerts";

/// Environment readings of all sections.
pub const ENVIRONMENT_ALL: &'static str = "aetheris/environment/+";

/// Command responses of all units.
pub const RESPONSES_ALL: &'static str = "aetheris/responses/+";

/// System status.
pub const SYSTEM_STATUS: &'static str = "aetheris/system/status";

/// What the telemetry topics begin with.
pub const TELEMETRY_ROOT: &'static str = "aetheris/telemetry/";

/// What the heartbeat topics begin with.
pub const HEARTBEAT_ROOT: &'static str = "aetheris/heartbeat/";

/// What the environment topics begin with.
pub const ENVIRONMENT_ROOT: &'static str = "aetheris/environment/";

/// What the response topics begin with.
pub const RESPONSES_ROOT: &'static str = "aetheris/responses/";

/// What the command topics begin with.
pub const COMMANDS_ROOT: &'static str = "aetheris/commands/";

/// The topic of the telemetry of the unit `robot_id`.
pub open spec fn telemetry_topic(robot_id: Seq<char>) -> Seq<char> {
    PREFIX@ + "/telemetry/"@ + robot_id
}

/// The topic of the heartbeats of the unit `robot_id`.
pub open spec fn heartbeat_topic(robot_id: Seq<char>) -> Seq<char> {
    PREFIX@ + "/heartbeat/"@ + robot_id
}

/// The topic of the commands to the unit `robot_id`.
pub open spec fn commands_topic(robot_id: Seq<char>) -> Seq<char> {
    PREFIX@ + "/commands/"@ + robot_id
}

/// The topic of the readings of the section `section_id`.
pub open spec fn environment_topic(section_id: Seq<char>) -> Seq<char> {
    PREFIX@ + "/environment/"@ + section_id
}

/// The topic of the command responses of the unit `robot_id`.
pub open spec fn responses_topic(robot_id: Seq<char>) -> Seq<char> {
    PREFIX@ + "/responses/"@ + robot_id
}

fn scoped(kind: &str, id: &str) -> (r: String)
    ensures
        r@ == PREFIX@ + kind@ + id@,
{
    let mut topic = String::from_str(PREFIX);
    topic.append(kind);
    topic.append(id);
    topic
}

/// Unit telemetry: `aetheris/telemetry/{robot_id}`.
pub fn telemetry(robot_id: &str) -> (r: String)
    ensures
        r@ == telemetry_topic(robot_id@),
{
    scoped("/telemetry/", robot_id)
}

/// Unit heartbeat: `aetheris/heartbeat/{robot_id}`.
pub fn heartbeat(robot_id: &str) -> (r: String)
    ensures
        r@ == heartbeat_topic(robot_id@),
{
    scoped("/heartbeat/", robot_id)
}

/// Commands to a specific unit: `aetheris/commands/{robot_id}`.
pub fn commands(robot_id: &str) -> (r: String)
    ensures
        r@ == commands_topic(robot_id@),
{
    scoped("/commands/", robot_id)
}

/// Environment readings: `aetheris/environment/{section_id}`.
pub fn environment(section_id: &str) -> (r: String)
    ensures
        r@ == environment_topic(section_id@),
{
    scoped("/environment/", section_id)
}

/// Command responses: `aetheris/responses/{robot_id}`.
pub fn responses(robot_id: &str) -> (r: String)
    ensures
        r@ == responses_topic(robot_id@),
{
    scoped("/responses/", robot_id)
}

/// The kinds of messages that the hub understands.
#[derive(Clone, Copy, Debug, PartialEq, Eq, Structural)]
pub enum TopicClass {
    /// Full state of a unit.
    Telemetry,
    /// Liveness signal of a unit.
    Heartbeat,
    /// Anomaly alert.
    Alert,
    /// Environment reading of a section.
    Environment,
    /// Response of a unit to a command.
    Response,
    /// Command to one unit or to all.
    Command,
}

/// The kind of message that a topic carries: the first that fits of
/// telemetry, heartbeat, alerts (the exact topic), environment, responses and
/// commands, or none.
pub open spec fn spec_classify(topic: Seq<char>) -> Option<TopicClass> {
    if TELEMETRY_ROOT@.is_prefix_of(topic) {
        Some(TopicClass::Telemetry)
    } else if HEARTBEAT_ROOT@.is_prefix_of(topic) {
        Some(TopicClass::Heartbeat)
    } else if topic == ALERTS@ {
        Some(TopicClass::Alert)
    } else if ENVIRONMENT_ROOT@.is_prefix_of(topic) {
        Some(TopicClass::Environment)
    } else if RESPONSES_ROOT@.is_prefix_of(topic) {
        Some(TopicClass::Response)
    } else if COMMANDS_ROOT@.is_prefix_of(topic) {
        Some(TopicClass::Command)
    } else {
        None
    }
}

/// Classifies a topic by the kind of message that it carries.
pub fn classify(topic: &str) -> (r: Option<TopicClass>)
    ensures
        r == spec_classify(topic@),
{
    if starts_with(topic, TELEMETRY_ROOT) {
        Some(TopicClass::Telemetry)
    } else if starts_with(topic, HEARTBEAT_ROOT) {
        Some(TopicClass::Heartbeat)
    } else if same_text(topic, ALERTS) {
        Some(TopicClass::Alert)
    } else if starts_with(topic, ENVIRONMENT_ROOT) {
        Some(TopicClass::Environment)
    } else if starts_with(topic, RESPONSES_ROOT) {
        Some(TopicClass::Response)
    } else if starts_with(topic, COMMANDS_ROOT) {
        Some(TopicClass::Command)
    } else {
        None
    }
}

proof fn lemma_reveal_roots()
    ensures
        PREFIX@ + "/telemetry/"@ == TELEMETRY_ROOT@,
        PREFIX@ + "/heartbeat/"@ == HEARTBEAT_ROOT@,
        PREFIX@ + "/environment/"@ == ENVIRONMENT_ROOT@,
        PREFIX@ + "/responses/"@ == RESPONSES_ROOT@,
        PREFIX@ + "/commands/"@ == COMMANDS_ROOT@,
        TELEMETRY_ROOT@.len() == 19,
        HEARTBEAT_ROOT@.len() == 19,
        ENVIRONMENT_ROOT@.len() == 21,
        RESPONSES_ROOT@.len() == 19,
        COMMANDS_ROOT@.len() == 18,
        ALERTS@.len() == 15,
        TELEMETRY_ROOT@[9] == 't',
        HEARTBEAT_ROOT@[9] == 'h',
        ENVIRONMENT_ROOT@[9] == 'e',
        RESPONSES_ROOT@[9] == 'r',
        COMMANDS_ROOT@[9] == 'c',
        ALERTS@[9] == 'a',
{
    reveal_strlit("aetheris");
    reveal_strlit("/telemetry/");
    reveal_strlit("/heartbeat/");
    reveal_strlit("/environment/");
    reveal_strlit("/responses/");
    reveal_strlit("/commands/");
    reveal_strlit("aetheris/telemetry/");
    reveal_strlit("aetheris/heartbeat/");
    reveal_strlit("aetheris/environment/");
    reveal_strlit("aetheris/responses/");
    reveal_strlit("aetheris/commands/");
    reveal_strlit("aetheris/alerts");
}

proof fn lemma_root_decides(root: Seq<char>, other: Seq<char>, id: Seq<char>)
    requires
        root.len() > 9,
        other.len() > 9,
        root[9] != other[9],
    ensures
        root.is_prefix_of(root + id),
        !other.is_prefix_of(root + id),
        root + id != other,
{
    let topic = root + id;
    assert(topic.subrange(0, root.len() as int) =~= root);
    assert(topic[9] == root[9]);
    if other.is_prefix_of(topic) {
        assert(topic.subrange(0, other.len() as int)[9] == other[9]);
    }
}

/// Every topic that the scheme builds for a unit or a section is classified
/// as the kind of message that it was built for.
pub proof fn lemma_scheme_round_trip(id: Seq<char>)
    ensures
        spec_classify(telemetry_topic(id)) == Some(TopicClass::Telemetry),
        spec_classify(heartbeat_topic(id)) == Some(TopicClass::Heartbeat),
        spec_classify(environment_topic(id)) == Some(TopicClass::Environment),
        spec_classify(responses_topic(id)) == Some(TopicClass::Response),
        spec_classify(commands_topic(id)) == Some(TopicClass::Command),
        spec_classify(ALERTS@) == Some(TopicClass::Alert),
        spec_classify(COMMANDS_BROADCAST@) == Some(TopicClass::Command),
{
    lemma_reveal_roots();
    lemma_root_decides(TELEMETRY_ROOT@, HEARTBEAT_ROOT@, id);
    lemma_root_decides(HEARTBEAT_ROOT@, TELEMETRY_ROOT@, id);
    lemma_root_decides(HEARTBEAT_ROOT@, ALERTS@, id);
    lemma_root_decides(ENVIRONMENT_ROOT@, TELEMETRY_ROOT@, id);
    lemma_root_decides(ENVIRONMENT_ROOT@, HEARTBEAT_ROOT@, id);
    lemma_root_decides(ENVIRONMENT_ROOT@, ALERTS@, id);
    lemma_root_decides(RESPONSES_ROOT@, TELEMETRY_ROOT@, id);
    lemma_root_decides(RESPONSES_ROOT@, HEARTBEAT_ROOT@, id);
    lemma_root_decides(RESPONSES_ROOT@, ALERTS@, id);
    lemma_root_decides(RESPONSES_ROOT@, ENVIRONMENT_ROOT@, id);
    lemma_root_decides(COMMANDS_ROOT@, TELEMETRY_ROOT@, id);
    lemma_root_decides(COMMANDS_ROOT@, HEARTBEAT_ROOT@, id);
    lemma_root_decides(COMMANDS_ROOT@, ALERTS@, id);
    lemma_root_decides(COMMANDS_ROOT@, ENVIRONMENT_ROOT@, id);
    lemma_root_decides(COMMANDS_ROOT@, RESPONSES_ROOT@, id);
    let empty = Seq::<char>::empty();
    lemma_root_decides(ALERTS@, TELEMETRY_ROOT@, empty);
    lemma_root_decides(ALERTS@, HEARTBEAT_ROOT@, empty);
    assert(ALERTS@ + empty =~= ALERTS@);
    reveal_strlit("aetheris/commands/broadcast");
    reveal_strlit("broadcast");
    reveal_strlit("aetheris/commands/");
    assert(COMMANDS_BROADCAST@ =~= COMMANDS_ROOT@ + "broadcast"@);
    lemma_root_decides(COMMANDS_ROOT@, TELEMETRY_ROOT@, "broadcast"@);
    lemma_root_decides(COMMANDS_ROOT@, HEARTBEAT_ROOT@, "broadcast"@);
    lemma_root_decides(COMMANDS_ROOT@, ALERTS@, "broadcast"@);
    lemma_root_decides(COMMANDS_ROOT@, ENVIRONMENT_ROOT@, "broadcast"@);
    lemma_root_decides(COMMANDS_ROOT@, RESPONSES_ROOT@, "broadcast"@);
}

} // verus!
