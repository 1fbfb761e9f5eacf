//! The message hub: what to publish for a domain value, and what to make of
//! a delivery.
//!
//! The hub decides and the host acts: every outbound operation returns the
//! publication that the host hands to the broker, and the inbound dispatcher
//! takes the payload as the host's decoder has read it.

use crate::anomaly::{anomaly_id_text, format_anomaly_id, AnomalyReport};
use crate::clock::current_timestamp_ms;
use crate::command::Command;
use crate::config::MqttConfig;
use crate::counter::{successor, Counter};
use crate::environment::PipeEnvironment;
use crate::fleet::FleetManager;
use crate::message::{CommandResponse, Heartbeat, MqttMessage};
use crate::robot::RobotState;
use crate::synthesis::{is_synthesized, synthesize, synthesized_kind, synthesizes, Jitter};
use crate::topics;
use crate::topics::{spec_classify, TopicClass};
use vstd::prelude::*;
use vstd::string::*;
use vstd::utf8::valid_utf8;

verus! {

/// How long a unit may stay silent before the hub's tracker counts it as
/// timed out, in milliseconds.
pub const HEARTBEAT_TIMEOUT_MS: u64 = 15_000;

/// The period of the liveness sweep, in milliseconds.
pub const HEARTBEAT_CHECK_INTERVAL_MS: u64 = 5_000;

/// The source that the hub names in the commands it sends.
pub const ENGINE_SOURCE: &'static str = "engine";

/// Delivery guarantee of a publication or a subscription.
#[derive(Clone, Copy, Debug, PartialEq, Eq, Structural)]
pub enum QoS {
    /// Delivered once or not at all.
    AtMostOnce,
    /// Delivered once or more often.
    AtLeastOnce,
    /// Delivered once.
    ExactlyOnce,
}

/// A message as it is carried by a topic.
#[derive(Debug, PartialEq)]
pub enum Payload {
    /// The full state of a unit, in an envelope.
    Telemetry(MqttMessage<RobotState>),
    /// The liveness signal of a unit, as it is.
    Heartbeat(Heartbeat),
    /// An anomaly report, in an envelope.
    Alert(MqttMessage<AnomalyReport>),
    /// An environment reading, in an envelope.
    Environment(MqttMessage<PipeEnvironment>),
    /// The response of a unit to a command, as it is.
    Response(CommandResponse),
    /// A command, in an envelope.
    Command(MqttMessage<Command>),
}

impl Payload {
    /// The kind of message that the payload is.
    pub open spec fn spec_class(&self) -> TopicClass {
        match *self {
            Payload::Telemetry(_) => TopicClass::Telemetry,
            Payload::Heartbeat(_) => TopicClass::Heartbeat,
            Payload::Alert(_) => TopicClass::Alert,
            Payload::Environment(_) => TopicClass::Environment,
            Payload::Response(_) => TopicClass::Response,
            Payload::Command(_) => TopicClass::Command,
        }
    }

    /// The kind of message that the payload is.
    #[verifier::when_used_as_spec(spec_class)]
    pub fn class(&self) -> (r: TopicClass)
        ensures
            r == self.spec_class(),
    {
        match self {
            Payload::Telemetry(_) => TopicClass::Telemetry,
            Payload::Heartbeat(_) => TopicClass::Heartbeat,
            Payload::Alert(_) => TopicClass::Alert,
            Payload::Environment(_) => TopicClass::Environment,
            Payload::Response(_) => TopicClass::Response,
            Payload::Command(_) => TopicClass::Command,
        }
    }
}

/// A message for the host to publish.
#[derive(Debug, PartialEq)]
pub struct Publication {
    /// The topic to publish on.
    pub topic: String,
    /// The delivery guarantee to ask of the broker.
    pub qos: QoS,
    /// Whether the broker is to keep the message for later subscribers.
    pub retain: bool,
    /// The message to encode and send.
    pub payload: Payload,
}

impl Publication {
    /// Whether the publication goes to `topic` with the guarantee of every
    /// publication of the hub: delivered at least once, and not retained.
    pub open spec fn goes_to(self, topic: Seq<char>) -> bool {
        &&& self.topic@ == topic
        &&& self.qos == QoS::AtLeastOnce
        &&& !self.retain
    }
}

/// A topic filter for the host to subscribe to.
#[derive(Clone, Copy, Debug, PartialEq, Eq)]
pub struct Subscription {
    /// The topic filter to subscribe to.
    pub filter: &'static str,
    /// The delivery guarantee to ask of the broker.
    pub qos: QoS,
}

/// Events that the hub emits for the deliveries it understands.
#[derive(Debug, PartialEq)]
pub enum EngineMessage {
    /// The state of a unit has arrived.
    TelemetryReceived(RobotState),
    /// A unit has given a sign of life.
    HeartbeatReceived(Heartbeat),
    /// An anomaly has been reported.
    AlertReceived(AnomalyReport),
    /// A section has been measured.
    EnvironmentReceived(PipeEnvironment),
    /// A unit has responded to a command.
    CommandResponseReceived(CommandResponse),
    /// A command has arrived, from the source named with it.
    CommandReceived(Command, String),
}

/// Why a delivery could not be read.
#[derive(Clone, Copy, Debug, PartialEq, Eq, Structural)]
pub enum DecodeError {
    /// The payload is not UTF-8 text.
    InvalidUtf8,
    /// The payload is not a message of the kind that its topic carries.
    Malformed,
}

/// What the hub makes of one delivery: the event to emit, and the alert to
/// publish before the event is emitted.
#[derive(Debug, PartialEq)]
pub struct Dispatch {
    /// The event to emit, if the delivery was read.
    pub event: Option<EngineMessage>,
    /// The alert to publish, if the delivery was a command that stands for
    /// an anomaly.
    pub alert: Option<Publication>,
}

/// Whether `message` wraps `payload` with the source `source` and the
/// sequence number `seq`. The time of sending is free.
pub open spec fn envelops<T>(
    message: MqttMessage<T>,
    payload: T,
    source: Seq<char>,
    seq: u64,
) -> bool {
    &&& message.payload == payload
    &&& message.source@ == source
    &&& message.seq == seq
}

/// `std::str::from_utf8`: the bytes as text where they are valid UTF-8, and
/// nothing where they are not.
#[verifier::external_body]
fn utf8_text<'a>(bytes: &'a [u8]) -> (r: Option<&'a str>)
    ensures
        r is Some <==> valid_utf8(bytes@),
        r matches Some(text) ==> text.spec_bytes() == bytes@,
{
    match std::str::from_utf8(bytes) {
        Ok(text) => Some(text),
        Err(_) => None,
    }
}

/// `rand::random::<u8>`: a byte drawn from the thread's random number
/// generator. Nothing is claimed of its value, which differs from call to
/// call. The call panics where the generator cannot be seeded.
#[verifier::external_body]
fn random_byte() -> u8 {
    rand::random::<u8>()
}

/// Reads a delivery as far as the hub can without decoding it: the kind of
/// message that the topic carries, and the payload as text.
///
/// A topic that the hub does not understand is ignored. A payload that is
/// not text is an error, but on a command topic, where it is ignored.
pub fn frame_incoming<'a>(topic: &str, payload: &'a [u8]) -> (r: Result<
    Option<(TopicClass, &'a str)>,
    DecodeError,
>)
    ensures
        spec_classify(topic@) is None ==> r == Ok::<Option<(TopicClass, &str)>, DecodeError>(None),
        spec_classify(topic@) matches Some(class) ==> {
            &&& valid_utf8(payload@) ==> (r matches Ok(Some(framed)) && framed.0 == class
                && framed.1.spec_bytes() == payload@)
            &&& !valid_utf8(payload@) && class == TopicClass::Command ==> r == Ok::<
                Option<(TopicClass, &str)>,
                DecodeError,
            >(None)
            &&& !valid_utf8(payload@) && class != TopicClass::Command ==> r == Err::<
                Option<(TopicClass, &str)>,
                DecodeError,
            >(DecodeError::InvalidUtf8)
        },
{
    match topics::classify(topic) {
        None => Ok(None),
        Some(class) => match utf8_text(payload) {
            Some(text) => Ok(Some((class, text))),
            None => match class {
                TopicClass::Command => Ok(None),
                _ => Err(DecodeError::InvalidUtf8),
            },
        },
    }
}

/// The message hub. It owns the sequence counter of the envelopes it makes
/// and the counter of the anomalies it reports.
#[derive(Debug)]
pub struct AetherisMqtt {
    config: MqttConfig,
    sequence: Counter,
    anomaly_ids: Counter,
}

impl AetherisMqtt {
    /// The sequence number that the next envelope takes.
    pub closed spec fn next_seq(&self) -> u64 {
        self.sequence.next
    }

    /// The counter that the next synthesized anomaly takes.
    pub closed spec fn next_anomaly(&self) -> u64 {
        self.anomaly_ids.next
    }

    /// The configuration that the hub was made with.
    pub closed spec fn settings(&self) -> MqttConfig {
        self.config
    }

    /// Whether the hub is `before` after it has made one envelope.
    pub open spec fn made_envelope(&self, before: AetherisMqtt) -> bool {
        &&& self.next_seq() == successor(before.next_seq())
        &&& self.next_anomaly() == before.next_anomaly()
        &&& self.settings() == before.settings()
    }

    /// Whether the hub is `before` after it has reported one anomaly in one
    /// envelope.
    pub open spec fn made_alert(&self, before: AetherisMqtt) -> bool {
        &&& self.next_seq() == successor(before.next_seq())
        &&& self.next_anomaly() == successor(before.next_anomaly())
        &&& self.settings() == before.settings()
    }

    /// A hub that has made no envelope yet, and the liveness tracker that
    /// goes with it.
    pub fn new(config: MqttConfig) -> (r: (AetherisMqtt, FleetManager))
        ensures
            r.0.next_seq() == 0,
            r.0.next_anomaly() == 0,
            r.0.settings() == config,
            r.1.wf(),
            r.1.robots() == Map::<Seq<char>, RobotState>::empty(),
            r.1.last_heartbeat() == Map::<Seq<char>, u64>::empty(),
            r.1.timeout() == HEARTBEAT_TIMEOUT_MS,
    {
        let hub = AetherisMqtt { config, sequence: Counter::new(), anomaly_ids: Counter::new() };
        (hub, FleetManager::new(HEARTBEAT_TIMEOUT_MS))
    }

    /// The sequence number that the next envelope takes.
    pub fn sequence(&self) -> (r: u64)
        ensures
            r == self.next_seq(),
    {
        self.sequence.next
    }

    /// The configuration that the hub was made with.
    pub fn config(&self) -> (r: &MqttConfig)
        ensures
            *r == self.settings(),
    {
        &self.config
    }

    /// The topic filters that the hub listens to, in the order in which the
    /// host subscribes to them.
    pub fn subscribe_all(&self) -> (r: Vec<Subscription>)
        ensures
            r.len() == 6,
            forall|i: int| 0 <= i < r.len() ==> (#[trigger] r[i]).qos == QoS::AtLeastOnce,
            r[0].filter@ == topics::TELEMETRY_ALL@,
            r[1].filter@ == topics::HEARTBEAT_ALL@,
            r[2].filter@ == topics::ALERTS@,
            r[3].filter@ == topics::ENVIRONMENT_ALL@,
            r[4].filter@ == topics::RESPONSES_ALL@,
            r[5].filter@ == topics::COMMANDS_ALL@,
    {
        let mut filters: Vec<Subscription> = Vec::new();
        filters.push(Subscription { filter: topics::TELEMETRY_ALL, qos: QoS::AtLeastOnce });
        filters.push(Subscription { filter: topics::HEARTBEAT_ALL, qos: QoS::AtLeastOnce });
        filters.push(Subscription { filter: topics::ALERTS, qos: QoS::AtLeastOnce });
        filters.push(Subscription { filter: topics::ENVIRONMENT_ALL, qos: QoS::AtLeastOnce });
        filters.push(Subscription { filter: topics::RESPONSES_ALL, qos: QoS::AtLeastOnce });
        filters.push(Subscription { filter: topics::COMMANDS_ALL, qos: QoS::AtLeastOnce });
        filters
    }

    fn next_sequence(&mut self) -> (seq: u64)
        ensures
            seq == old(self).next_seq(),
            final(self).made_envelope(*old(self)),
    {
        self.sequence.take()
    }

    fn publication(topic: String, payload: Payload) -> (r: Publication)
        ensures
            r.goes_to(topic@),
            r.topic == topic,
            r.payload == payload,
    {
        Publication { topic, qos: QoS::AtLeastOnce, retain: false, payload }
    }

    /// A command for the unit `robot_id`, in an envelope from the engine.
    pub fn send_command(&mut self, robot_id: &str, command: Command) -> (r: Publication)
        ensures
            r.goes_to(topics::commands_topic(robot_id@)),
            r.payload matches Payload::Command(message) && envelops(
                message,
                command,
                ENGINE_SOURCE@,
                old(self).next_seq(),
            ),
            final(self).made_envelope(*old(self)),
    {
        let topic = topics::commands(robot_id);
        let seq = self.next_sequence();
        let message = MqttMessage::new(command, ENGINE_SOURCE, seq);
        AetherisMqtt::publication(topic, Payload::Command(message))
    }

    /// A command for all units, in an envelope from the engine.
    pub fn broadcast_command(&mut self, command: Command) -> (r: Publication)
        ensures
            r.goes_to(topics::COMMANDS_BROADCAST@),
            r.payload matches Payload::Command(message) && envelops(
                message,
                command,
                ENGINE_SOURCE@,
                old(self).next_seq(),
            ),
            final(self).made_envelope(*old(self)),
    {
        let seq = self.next_sequence();
        let message = MqttMessage::new(command, ENGINE_SOURCE, seq);
        AetherisMqtt::publication(
            String::from_str(topics::COMMANDS_BROADCAST),
            Payload::Command(message),
        )
    }

    /// The telemetry of a unit, in an envelope from that unit.
    pub fn publish_telemetry(&mut self, state: &RobotState) -> (r: Publication)
        ensures
            r.goes_to(topics::telemetry_topic(state.id@)),
            r.payload matches Payload::Telemetry(message) && envelops(
                message,
                *state,
                state.id@,
                old(self).next_seq(),
            ),
            final(self).made_envelope(*old(self)),
    {
        let topic = topics::telemetry(state.id.as_str());
        let seq = self.next_sequence();
        let message = MqttMessage::new(state.clone(), state.id.as_str(), seq);
        AetherisMqtt::publication(topic, Payload::Telemetry(message))
    }

    /// The heartbeat of a unit, as it is: a heartbeat takes no envelope and
    /// no sequence number.
    pub fn publish_heartbeat(&self, heartbeat: &Heartbeat) -> (r: Publication)
        ensures
            r.goes_to(topics::heartbeat_topic(heartbeat.robot_id@)),
            r.payload == Payload::Heartbeat(*heartbeat),
    {
        let topic = topics::heartbeat(heartbeat.robot_id.as_str());
        AetherisMqtt::publication(topic, Payload::Heartbeat(heartbeat.clone()))
    }

    /// An anomaly alert, in an envelope from the unit that detected the
    /// anomaly.
    pub fn publish_alert(&mut self, report: &AnomalyReport) -> (r: Publication)
        ensures
            r.goes_to(topics::ALERTS@),
            r.payload matches Payload::Alert(message) && envelops(
                message,
                *report,
                report.detected_by@,
                old(self).next_seq(),
            ),
            final(self).made_envelope(*old(self)),
    {
        let seq = self.next_sequence();
        let message = MqttMessage::new(report.clone(), report.detected_by.as_str(), seq);
        AetherisMqtt::publication(String::from_str(topics::ALERTS), Payload::Alert(message))
    }

    /// An environment reading, in an envelope from the section it was taken
    /// in.
    pub fn publish_environment(&mut self, env: &PipeEnvironment) -> (r: Publication)
        ensures
            r.goes_to(topics::environment_topic(env.section_id@)),
            r.payload matches Payload::Environment(message) && envelops(
                message,
                *env,
                env.section_id@,
                old(self).next_seq(),
            ),
            final(self).made_envelope(*old(self)),
    {
        let topic = topics::environment(env.section_id.as_str());
        let seq = self.next_sequence();
        let message = MqttMessage::new(env.clone(), env.section_id.as_str(), seq);
        AetherisMqtt::publication(topic, Payload::Environment(message))
    }

    /// Whether `publication` is the alert for `command`, received from
    /// `source`: a report that the command stands for under `jitter` and
    /// some draw, identified by its time of detection and the counter
    /// `count`, in an envelope from `source` with the sequence number `seq`.
    pub open spec fn is_alert_for(
        publication: Publication,
        command: Command,
        source: Seq<char>,
        jitter: Jitter,
        seq: u64,
        count: u64,
    ) -> bool {
        &&& publication.goes_to(topics::ALERTS@)
        &&& publication.payload matches Payload::Alert(message)
        &&& message.source@ == source
        &&& message.seq == seq
        &&& exists|draw: u8| is_synthesized(message.payload, command, source, jitter, draw)
        &&& message.payload.id@ == anomaly_id_text(message.payload.timestamp, count)
    }

    /// The alert for a received command, if the command stands for an
    /// anomaly. The hub draws the section's number and reads the clock.
    pub fn generate_alert_for_command(
        &mut self,
        command: &Command,
        source: &str,
        jitter: &Jitter,
    ) -> (r: Option<Publication>)
        ensures
            synthesized_kind(*command) is None ==> r is None && *final(self) == *old(self),
            synthesized_kind(*command) is Some ==> (r matches Some(publication)
                && AetherisMqtt::is_alert_for(
                publication,
                *command,
                source@,
                *jitter,
                old(self).next_seq(),
                old(self).next_anomaly(),
            )) && final(self).made_alert(*old(self)),
    {
        if !synthesizes(command) {
            return None;
        }
        let draw = random_byte();
        let timestamp = current_timestamp_ms();
        let id = format_anomaly_id(timestamp, self.anomaly_ids.take());
        match synthesize(command, source, jitter, draw, id, timestamp) {
            Some(report) => {
                Some(self.publish_alert(&report))
            },
            None => None,
        }
    }

    /// What a delivery on `topic` is read as: the decoded payload, if there
    /// is one and it is a message of the kind that the topic carries.
    pub open spec fn read_as(topic: Seq<char>, decoded: Option<Payload>) -> Option<Payload> {
        match (spec_classify(topic), decoded) {
            (Some(class), Some(payload)) => if payload.spec_class() == class {
                Some(payload)
            } else {
                None
            },
            _ => None,
        }
    }

    /// Whether a delivery on `topic` that cannot be read is an error: it is
    /// on every topic that the hub understands, but on the command topics.
    pub open spec fn must_be_read(topic: Seq<char>) -> bool {
        spec_classify(topic) matches Some(class) && class != TopicClass::Command
    }

    fn unreadable(class: Option<TopicClass>) -> (r: Result<Dispatch, DecodeError>)
        ensures
            class matches Some(class) && class != TopicClass::Command ==> r == Err::<
                Dispatch,
                DecodeError,
            >(DecodeError::Malformed),
            !(class matches Some(class) && class != TopicClass::Command) ==> (r matches Ok(
                dispatch,
            ) && dispatch.event is None && dispatch.alert is None),
    {
        match class {
            None => Ok(Dispatch { event: None, alert: None }),
            Some(TopicClass::Command) => Ok(Dispatch { event: None, alert: None }),
            Some(_) => Err(DecodeError::Malformed),
        }
    }

    /// Dispatches one delivery on `topic`, whose payload the host's decoder
    /// has read as `decoded`, at the instant `now` of the tracker's clock.
    ///
    /// Telemetry and heartbeats are signs of life for the tracker. A command
    /// that stands for an anomaly yields the alert to publish. Every
    /// delivery that is read yields one event. A delivery that cannot be
    /// read as a message of the kind that its topic carries is an error, but
    /// on a command topic or a topic that the hub does not understand, where
    /// it is passed over in silence.
    pub fn handle_incoming(
        &mut self,
        fleet: &mut FleetManager,
        topic: &str,
        decoded: Option<Payload>,
        jitter: &Jitter,
        now: u64,
    ) -> (r: Result<Dispatch, DecodeError>)
        requires
            old(fleet).wf(),
        ensures
            final(fleet).wf(),
            final(fleet).timeout() == old(fleet).timeout(),
            match AetherisMqtt::read_as(topic@, decoded) {
                None => {
                    &&& *final(self) == *old(self)
                    &&& *final(fleet) == *old(fleet)
                    &&& AetherisMqtt::must_be_read(topic@) ==> r == Err::<Dispatch, DecodeError>(
                        DecodeError::Malformed,
                    )
                    &&& !AetherisMqtt::must_be_read(topic@) ==> (r matches Ok(dispatch)
                        && dispatch.event is None && dispatch.alert is None)
                },
                Some(Payload::Telemetry(message)) => {
                    &&& r matches Ok(dispatch)
                    &&& dispatch.event == Some(EngineMessage::TelemetryReceived(message.payload))
                    &&& dispatch.alert is None
                    &&& *final(self) == *old(self)
                    &&& final(fleet).robots() == old(fleet).robots().insert(
                        message.payload.id@,
                        message.payload,
                    )
                    &&& final(fleet).last_heartbeat() == old(fleet).last_heartbeat().insert(
                        message.payload.id@,
                        now,
                    )
                },
                Some(Payload::Heartbeat(heartbeat)) => {
                    &&& r matches Ok(dispatch)
                    &&& dispatch.event == Some(EngineMessage::HeartbeatReceived(heartbeat))
                    &&& dispatch.alert is None
                    &&& *final(self) == *old(self)
                    &&& final(fleet).robots() == old(fleet).robots()
                    &&& final(fleet).last_heartbeat() == old(fleet).last_heartbeat().insert(
                        heartbeat.robot_id@,
                        now,
                    )
                },
                Some(Payload::Alert(message)) => {
                    &&& r matches Ok(dispatch)
                    &&& dispatch.event == Some(EngineMessage::AlertReceived(message.payload))
                    &&& dispatch.alert is None
                    &&& *final(self) == *old(self)
                    &&& *final(fleet) == *old(fleet)
                },
                Some(Payload::Environment(message)) => {
                    &&& r matches Ok(dispatch)
                    &&& dispatch.event == Some(
                        EngineMessage::EnvironmentReceived(message.payload),
                    )
                    &&& dispatch.alert is None
                    &&& *final(self) == *old(self)
                    &&& *final(fleet) == *old(fleet)
                },
                Some(Payload::Response(response)) => {
                    &&& r matches Ok(dispatch)
                    &&& dispatch.event == Some(EngineMessage::CommandResponseReceived(response))
                    &&& dispatch.alert is None
                    &&& *final(self) == *old(self)
                    &&& *final(fleet) == *old(fleet)
                },
                Some(Payload::Command(message)) => {
                    &&& r matches Ok(dispatch)
                    &&& dispatch.event == Some(
                        EngineMessage::CommandReceived(message.payload, message.source),
                    )
                    &&& *final(fleet) == *old(fleet)
                    &&& synthesized_kind(message.payload) is None ==> dispatch.alert is None
                        && *final(self) == *old(self)
                    &&& synthesized_kind(message.payload) is Some ==> (dispatch.alert matches Some(
                        publication,
                    ) && AetherisMqtt::is_alert_for(
                        publication,
                        message.payload,
                        message.source@,
                        *jitter,
                        old(self).next_seq(),
                        old(self).next_anomaly(),
                    )) && final(self).made_alert(*old(self))
                },
            },
    {
        let class = topics::classify(topic);
        let payload = match decoded {
            Some(payload) => {
                if class == Some(payload.class()) {
                    payload
                } else {
                    return AetherisMqtt::unreadable(class);
                }
            },
            None => {
                return AetherisMqtt::unreadable(class);
            },
        };
        match payload {
            Payload::Telemetry(message) => {
                fleet.update_robot(message.payload.clone(), now);
                Ok(
                    Dispatch {
                        event: Some(EngineMessage::TelemetryReceived(message.payload)),
                        alert: None,
                    },
                )
            },
            Payload::Heartbeat(heartbeat) => {
                fleet.record_heartbeat(heartbeat.robot_id.as_str(), now);
                Ok(
                    Dispatch {
                        event: Some(EngineMessage::HeartbeatReceived(heartbeat)),
                        alert: None,
                    },
                )
            },
            Payload::Alert(message) => Ok(
                Dispatch {
                    event: Some(EngineMessage::AlertReceived(message.payload)),
                    alert: None,
                },
            ),
            Payload::Environment(message) => Ok(
                Dispatch {
                    event: Some(EngineMessage::EnvironmentReceived(message.payload)),
                    alert: None,
                },
            ),
            Payload::Response(response) => Ok(
                Dispatch {
                    event: Some(EngineMessage::CommandResponseReceived(response)),
                    alert: None,
                },
            ),
            Payload::Command(message) => {
                let alert = self.generate_alert_for_command(
                    &message.payload,
                    message.source.as_str(),
                    jitter,
                );
                Ok(
                    Dispatch {
                        event: Some(
                            EngineMessage::CommandReceived(message.payload, message.source),
                        ),
                        alert,
                    },
                )
            },
        }
    }
}

/// Below the largest sequence number, making an envelope raises the hub's
/// sequence number by exactly one.
pub proof fn lemma_envelope_takes_one_number(before: AetherisMqtt, after: AetherisMqtt)
    requires
        after.made_envelope(before) || after.made_alert(before),
        before.next_seq() < u64::MAX,
    ensures
        after.next_seq() == before.next_seq() + 1,
{
}

} // verus!
