//! Communication hub for a fleet of autonomous inspection units.
//!
//! The crate holds the domain model, the topic scheme, the fleet liveness
//! tracker, the message hub and the command-to-alert synthesizer. Transport,
//! payload encoding and scheduling belong to the host process: the hub
//! decides, and the host acts.
//!
//! Outbound, the host asks the [`AetherisMqtt`] hub for the [`Publication`]
//! of a domain value, encodes its payload and hands it to the broker.
//! Inbound, the host passes a delivery to [`frame_incoming`], decodes the
//! text that comes back as a message of the kind named with it, and hands
//! the result to [`AetherisMqtt::handle_incoming`], which updates the
//! [`FleetManager`] and says what to emit and what to publish. On a fixed
//! period the host calls [`FleetManager::check_heartbeats`].
//!
//! Numbers that the units measure are held as [`Binary64`] bit patterns.
//! Instants of the liveness tracker are milliseconds of a monotonic clock
//! that the host reads.

pub mod anomaly;
pub mod binary64;
pub mod clock;
pub mod command;
pub mod config;
pub mod counter;
pub mod engine;
pub mod environment;
pub mod fleet;
pub mod message;
pub mod robot;
pub mod severity;
pub mod simulation;
pub mod spatial;
pub mod synthesis;
pub mod text;
pub mod topics;

pub use anomaly::{AnomalyReport, AnomalyType};
pub use binary64::Binary64;
pub use clock::current_timestamp_ms;
pub use command::{Command, FaultType, RobotConfig};
pub use config::MqttConfig;
pub use counter::Counter;
pub use engine::{
    frame_incoming, AetherisMqtt, DecodeError, Dispatch, EngineMessage, Payload, Publication, QoS,
    Subscription,
};
pub use environment::PipeEnvironment;
pub use fleet::FleetManager;
pub use message::{CommandResponse, Heartbeat, MqttMessage};
pub use robot::{CurrentTask, HealthStatus, RobotState, RobotStatus, RobotType, ScanType};
pub use severity::SeverityLevel;
pub use simulation::create_mock_fleet;
pub use spatial::{Position, Velocity};
pub use synthesis::{synthesize, Jitter};
pub use topics::TopicClass;
