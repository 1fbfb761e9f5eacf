//! Commands that can be sent to units.

use crate::binary64::Binary64;
use crate::robot::ScanType;
use crate::spatial::Position;
use vstd::prelude::*;

verus! {

/// Kinds of faults that can be injected for testing.
#[derive(Clone, Copy, Debug, PartialEq, Eq, Structural)]
pub enum FaultType {
    /// Simulate low battery.
    LowBattery,
    /// Simulate sensor failure.
    SensorFailure,
    /// Simulate communication dropout.
    CommDropout,
    /// Simulate motor failure.
    MotorFailure,
    /// Simulate GPS drift.
    GpsDrift,
}

/// Configuration parameters of a unit; an absent one is left unchanged.
#[derive(Clone, Copy, Debug, PartialEq, Eq, Structural)]
pub struct RobotConfig {
    /// Maximum speed in metres per second.
    pub max_speed: Option<Binary64>,
    /// Scan interval in seconds.
    pub scan_interval: Option<u32>,
    /// Heartbeat interval in seconds.
    pub heartbeat_interval: Option<u32>,
    /// Low battery threshold in percent.
    pub low_battery_threshold: Option<Binary64>,
}

impl Default for RobotConfig {
    fn default() -> (r: RobotConfig)
        ensures
            r == (RobotConfig {
                max_speed: None,
                scan_interval: None,
                heartbeat_interval: None,
                low_battery_threshold: None,
            }),
    {
        RobotConfig {
            max_speed: None,
            scan_interval: None,
            heartbeat_interval: None,
            low_battery_threshold: None,
        }
    }
}

/// Commands that can be sent to units.
#[derive(Debug, PartialEq)]
pub enum Command {
    /// Move to a specific position, at the given speed if there is one.
    MoveTo { target: Position, speed: Option<Binary64> },
    /// Stop all movement immediately.
    Stop,
    /// Perform a sensor scan.
    PerformScan { scan_type: ScanType },
    /// Start a patrol route.
    StartPatrol { route_id: String },
    /// Return to the charging station.
    ReturnToBase,
    /// Investigate a specific anomaly.
    Investigate { anomaly_id: String },
    /// Emergency stop, of the highest priority.
    EmergencyStop,
    /// Inject a simulated fault.
    InjectFault { fault_type: FaultType },
    /// Update the unit's configuration.
    Configure { config: RobotConfig },
}

impl Clone for Command {
    fn clone(&self) -> (r: Command)
        ensures
            r == *self,
    {
        match self {
            Command::MoveTo { target, speed } => Command::MoveTo { target: *target, speed: *speed },
            Command::Stop => Command::Stop,
            Command::PerformScan { scan_type } => Command::PerformScan { scan_type: *scan_type },
            Command::StartPatrol { route_id } => Command::StartPatrol {
                route_id: route_id.clone(),
            },
            Command::ReturnToBase => Command::ReturnToBase,
            Command::Investigate { anomaly_id } => Command::Investigate {
                anomaly_id: anomaly_id.clone(),
            },
            Command::EmergencyStop => Command::EmergencyStop,
            Command::InjectFault { fault_type } => Command::InjectFault { fault_type: *fault_type },
            Command::Configure { config } => Command::Configure { config: *config },
        }
    }
}

} // verus!
