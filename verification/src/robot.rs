//! Unit identity, status and full state.

use crate::binary64::{lemma_encodes_integer, Binary64};
use crate::clock::current_timestamp_ms;
use crate::spatial::{Position, Velocity};
use vstd::arithmetic::power2::{lemma2_to64, lemma2_to64_rest, pow2};
use vstd::prelude::*;
use vstd::string::*;

verus! {

/// The bit pattern of 100.0, a full battery or a perfect signal.
pub const FULL_PERCENT_BITS: u64 = 0x4059_0000_0000_0000;

/// A full battery and a perfect signal are the number 100.
pub proof fn lemma_full_percent_is_a_hundred()
    ensures
        (Binary64 { bits: FULL_PERCENT_BITS }).scaled() == 100 * pow2(1074),
{
    lemma2_to64();
    lemma2_to64_rest();
    lemma_encodes_integer(FULL_PERCENT_BITS, 100, 0x0019_0000_0000_0000, 46);
}

/// Kinds of autonomous units in the fleet.
#[derive(Clone, Copy, Debug, PartialEq, Eq, Hash, Structural)]
pub enum RobotType {
    /// Ground-based patrol rover for external pipeline inspection.
    Rover,
    /// Aerial drone for overhead surveillance and rapid response.
    Drone,
    /// Internal crawler for in-pipe inspection.
    Crawler,
}

impl RobotType {
    /// The lower-case name of the kind.
    pub open spec fn spec_as_str(self) -> Seq<char> {
        match self {
            RobotType::Rover => "rover"@,
            RobotType::Drone => "drone"@,
            RobotType::Crawler => "crawler"@,
        }
    }

    /// The lower-case name of the kind.
    pub fn as_str(&self) -> (r: &'static str)
        ensures
            r@ == self.spec_as_str(),
    {
        match self {
            RobotType::Rover => "rover",
            RobotType::Drone => "drone",
            RobotType::Crawler => "crawler",
        }
    }
}

/// Operational status of a unit.
#[derive(Clone, Copy, Debug, PartialEq, Eq, Structural)]
pub enum RobotStatus {
    /// Actively executing a task.
    Active,
    /// Idle and awaiting commands.
    Idle,
    /// In maintenance mode (charging, repairs).
    Maintenance,
    /// Has encountered an error.
    Error,
    /// Offline or disconnected.
    Offline,
}

/// Kinds of sensor scans.
#[derive(Clone, Copy, Debug, PartialEq, Eq, Structural)]
pub enum ScanType {
    /// Full multi-sensor sweep.
    Full,
    /// Hydrogen leak detection only.
    LeakDetection,
    /// Thermal imaging scan.
    Thermal,
    /// Ultrasonic wall thickness measurement.
    Ultrasonic,
    /// Visual or camera inspection.
    Visual,
}

/// Health tier of a unit's subsystems.
#[derive(Clone, Copy, Debug, PartialEq, Eq, Structural)]
pub enum HealthStatus {
    /// All systems nominal.
    Optimal,
    /// Minor issues detected, operation continues.
    Warning,
    /// Critical issues, immediate attention required.
    Critical,
}

/// Task that a unit is executing.
#[derive(Debug, PartialEq)]
pub enum CurrentTask {
    /// No active task.
    NoTask,
    /// Patrolling a designated route.
    Patrolling { route_id: String },
    /// Moving to a specific position.
    MovingTo { target: Position },
    /// Performing a sensor scan at the current location.
    Scanning { scan_type: ScanType },
    /// Returning to the charging station.
    ReturningToBase,
    /// Investigating a detected anomaly.
    Investigating { anomaly_id: String },
}

impl Clone for CurrentTask {
    fn clone(&self) -> (r: CurrentTask)
        ensures
            r == *self,
    {
        match self {
            CurrentTask::NoTask => CurrentTask::NoTask,
            CurrentTask::Patrolling { route_id } => CurrentTask::Patrolling {
                route_id: route_id.clone(),
            },
            CurrentTask::MovingTo { target } => CurrentTask::MovingTo { target: *target },
            CurrentTask::Scanning { scan_type } => CurrentTask::Scanning { scan_type: *scan_type },
            CurrentTask::ReturningToBase => CurrentTask::ReturningToBase,
            CurrentTask::Investigating { anomaly_id } => CurrentTask::Investigating {
                anomaly_id: anomaly_id.clone(),
            },
        }
    }
}

/// Complete state of a unit.
#[derive(Debug, PartialEq)]
pub struct RobotState {
    /// Unique identifier (e.g. "RV-001", "DR-002", "CR-001").
    pub id: String,
    /// Human-readable name.
    pub name: String,
    /// Kind of unit.
    pub robot_type: RobotType,
    /// Current position.
    pub position: Position,
    /// Current velocity.
    pub velocity: Velocity,
    /// Battery level in percent.
    pub battery: Binary64,
    /// Signal strength in percent.
    pub signal: Binary64,
    /// Overall health tier.
    pub health: HealthStatus,
    /// Operational status.
    pub status: RobotStatus,
    /// Task being executed.
    pub current_task: CurrentTask,
    /// Unix timestamp of the last update, in milliseconds.
    pub timestamp: u64,
}

impl RobotState {
    /// The state of a unit that has just been commissioned at `timestamp`:
    /// at the origin, at rest, fully charged, idle and in optimal health.
    pub open spec fn is_fresh(
        self,
        id: Seq<char>,
        name: Seq<char>,
        robot_type: RobotType,
        timestamp: u64,
    ) -> bool {
        &&& self.id@ == id
        &&& self.name@ == name
        &&& self.robot_type == robot_type
        &&& self.position == Position::spec_origin()
        &&& self.velocity == Velocity::spec_zero()
        &&& self.battery.bits == FULL_PERCENT_BITS
        &&& self.signal.bits == FULL_PERCENT_BITS
        &&& self.health == HealthStatus::Optimal
        &&& self.status == RobotStatus::Idle
        &&& self.current_task == CurrentTask::NoTask
        &&& self.timestamp == timestamp
    }

    /// The same state demoted to offline status and critical health.
    pub open spec fn demoted(self) -> RobotState {
        RobotState { status: RobotStatus::Offline, health: HealthStatus::Critical, ..self }
    }

    /// A freshly commissioned unit, stamped with `timestamp`.
    pub fn commissioned(id: &str, name: &str, robot_type: RobotType, timestamp: u64) -> (r:
        RobotState)
        ensures
            r.is_fresh(id@, name@, robot_type, timestamp),
    {
        RobotState {
            id: String::from_str(id),
            name: String::from_str(name),
            robot_type,
            position: Position::origin(),
            velocity: Velocity::zero(),
            battery: Binary64::from_bits(FULL_PERCENT_BITS),
            signal: Binary64::from_bits(FULL_PERCENT_BITS),
            health: HealthStatus::Optimal,
            status: RobotStatus::Idle,
            current_task: CurrentTask::NoTask,
            timestamp,
        }
    }

    /// A freshly commissioned unit, stamped with the wall clock's reading.
    pub fn new(id: &str, name: &str, robot_type: RobotType) -> (r: RobotState)
        ensures
            r.is_fresh(id@, name@, robot_type, r.timestamp),
    {
        RobotState::commissioned(id, name, robot_type, current_timestamp_ms())
    }
}

impl Clone for RobotState {
    fn clone(&self) -> (r: RobotState)
        ensures
            r == *self,
    {
        RobotState {
            id: self.id.clone(),
            name: self.name.clone(),
            robot_type: self.robot_type,
            position: self.position,
            velocity: self.velocity,
            battery: self.battery,
            signal: self.signal,
            health: self.health,
            status: self.status,
            current_task: self.current_task.clone(),
            timestamp: self.timestamp,
        }
    }
}

} // verus!
