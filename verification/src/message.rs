//! Messages as they travel over the broker.

use crate::binary64::Binary64;
use crate::clock::current_timestamp_ms;
use crate::robot::{RobotStatus, RobotType};
use vstd::prelude::*;
use vstd::string::*;

verus! {

/// Envelope that carries a payload with its source, the time of sending and
/// a sequence number.
#[derive(Debug, PartialEq)]
pub struct MqttMessage<T> {
    /// Message payload.
    pub payload: T,
    /// Identifier of the unit or component that sent the message.
    pub source: String,
    /// Unix timestamp, in milliseconds.
    pub timestamp: u64,
    /// Message sequence number.
    pub seq: u64,
}

impl<T> MqttMessage<T> {
    /// An envelope stamped with `timestamp`.
    pub fn stamped(payload: T, source: &str, seq: u64, timestamp: u64) -> (r: MqttMessage<T>)
        ensures
            r.payload == payload,
            r.source@ == source@,
            r.timestamp == timestamp,
            r.seq == seq,
    {
        MqttMessage { payload, source: String::from_str(source), timestamp, seq }
    }

    /// An envelope stamped with the wall clock's reading.
    pub fn new(payload: T, source: &str, seq: u64) -> (r: MqttMessage<T>)
        ensures
            r.payload == payload,
            r.source@ == source@,
            r.seq == seq,
    {
        MqttMessage::stamped(payload, source, seq, current_timestamp_ms())
    }
}

impl<T: Clone> Clone for MqttMessage<T> {
    fn clone(&self) -> (r: MqttMessage<T>)
        ensures
            r.source == self.source,
            r.timestamp == self.timestamp,
            r.seq == self.seq,
    {
        MqttMessage {
            payload: self.payload.clone(),
            source: self.source.clone(),
            timestamp: self.timestamp,
            seq: self.seq,
        }
    }
}

/// Liveness signal of a unit. It carries neither task nor position.
#[derive(Debug, PartialEq)]
pub struct Heartbeat {
    /// Identifier of the unit.
    pub robot_id: String,
    /// Kind of unit.
    pub robot_type: RobotType,
    /// Current status.
    pub status: RobotStatus,
    /// Battery level in percent.
    pub battery: Binary64,
    /// Signal strength in percent.
    pub signal: Binary64,
    /// Uptime in seconds.
    pub uptime: u64,
    /// Unix timestamp, in milliseconds.
    pub timestamp: u64,
}

impl Heartbeat {
    /// What a heartbeat says of its unit: everything but the time of sending.
    pub open spec fn reports(
        self,
        robot_id: Seq<char>,
        robot_type: RobotType,
        status: RobotStatus,
        battery: Binary64,
        signal: Binary64,
        uptime: u64,
    ) -> bool {
        &&& self.robot_id@ == robot_id
        &&& self.robot_type == robot_type
        &&& self.status == status
        &&& self.battery == battery
        &&& self.signal == signal
        &&& self.uptime == uptime
    }

    /// A heartbeat stamped with `timestamp`.
    pub fn stamped(
        robot_id: &str,
        robot_type: RobotType,
        status: RobotStatus,
        battery: Binary64,
        signal: Binary64,
        uptime: u64,
        timestamp: u64,
    ) -> (r: Heartbeat)
        ensures
            r.reports(robot_id@, robot_type, status, battery, signal, uptime),
            r.timestamp == timestamp,
    {
        Heartbeat {
            robot_id: String::from_str(robot_id),
            robot_type,
            status,
            battery,
            signal,
            uptime,
            timestamp,
        }
    }

    /// A heartbeat stamped with the wall clock's reading.
    pub fn new(
        robot_id: &str,
        robot_type: RobotType,
        status: RobotStatus,
        battery: Binary64,
        signal: Binary64,
        uptime: u64,
    ) -> (r: Heartbeat)
        ensures
            r.reports(robot_id@, robot_type, status, battery, signal, uptime),
    {
        Heartbeat::stamped(
            robot_id,
            robot_type,
            status,
            battery,
            signal,
            uptime,
            current_timestamp_ms(),
        )
    }
}

impl Clone for Heartbeat {
    fn clone(&self) -> (r: Heartbeat)
        ensures
            r == *self,
    {
        Heartbeat {
            robot_id: self.robot_id.clone(),
            robot_type: self.robot_type,
            status: self.status,
            battery: self.battery,
            signal: self.signal,
            uptime: self.uptime,
            timestamp: self.timestamp,
        }
    }
}

/// Response of a unit to a command.
#[derive(Debug, PartialEq)]
pub struct CommandResponse {
    /// Identifier of the command being responded to.
    pub command_id: String,
    /// Identifier of the unit.
    pub robot_id: String,
    /// Whether the command was accepted.
    pub success: bool,
    /// Error message if the command failed.
    pub error: Option<String>,
    /// Unix timestamp, in milliseconds.
    pub timestamp: u64,
}

impl Clone for CommandResponse {
    fn clone(&self) -> (r: CommandResponse)
        ensures
            r == *self,
    {
        CommandResponse {
            command_id: self.command_id.clone(),
            robot_id: self.robot_id.clone(),
            success: self.success,
            error: match &self.error {
                Some(text) => Some(text.clone()),
                None => None,
            },
            timestamp: self.timestamp,
        }
    }
}

} // verus!
