//! The simulated fleet that stands in for real units.

use crate::binary64::Binary64;
use crate::clock::current_timestamp_ms;
use crate::robot::{CurrentTask, HealthStatus, RobotState, RobotStatus, RobotType, ScanType};
use crate::spatial::{Position, Velocity};
use vstd::prelude::*;
use vstd::string::*;

verus! {

/// The numbers of a simulated unit, each by its binary64 bit pattern: where
/// it stands, how fast it moves along x, its battery and its signal.
#[derive(Clone, Copy, Debug, PartialEq, Eq, Structural)]
pub struct Gauges {
    pub x: u64,
    pub y: u64,
    pub z: u64,
    pub vx: u64,
    pub battery: u64,
    pub signal: u64,
}

/// Whether `state` is the unit `id` named `name`, of the given kind, health
/// and status, with the numbers `gauges`, moving along x alone. Its task and
/// the time of its last update are free.
pub open spec fn has_profile(
    state: RobotState,
    id: Seq<char>,
    name: Seq<char>,
    robot_type: RobotType,
    gauges: Gauges,
    health: HealthStatus,
    status: RobotStatus,
) -> bool {
    &&& state.id@ == id
    &&& state.name@ == name
    &&& state.robot_type == robot_type
    &&& state.position == (Position {
        x: Binary64 { bits: gauges.x },
        y: Binary64 { bits: gauges.y },
        z: Binary64 { bits: gauges.z },
    })
    &&& state.velocity == (Velocity {
        vx: Binary64 { bits: gauges.vx },
        vy: Binary64 { bits: 0 },
        vz: Binary64 { bits: 0 },
    })
    &&& state.battery.bits == gauges.battery
    &&& state.signal.bits == gauges.signal
    &&& state.health == health
    &&& state.status == status
}

/// Whether `fleet` is the simulated fleet: two rovers, a drone and two
/// crawlers, in this order.
pub open spec fn is_mock_fleet(fleet: Seq<RobotState>) -> bool {
    &&& fleet.len() == 5
    // Rover Alpha at (-2, 0, 1), 1.2 m/s, battery 87, signal 95.
    &&& has_profile(
        fleet[0],
        "RV-001"@,
        "Rover Alpha"@,
        RobotType::Rover,
        Gauges {
            x: 0xC000_0000_0000_0000,
            y: 0,
            z: 0x3FF0_0000_0000_0000,
            vx: 0x3FF3_3333_3333_3333,
            battery: 0x4055_C000_0000_0000,
            signal: 0x4057_C000_0000_0000,
        },
        HealthStatus::Optimal,
        RobotStatus::Active,
    )
    &&& fleet[0].current_task matches CurrentTask::Patrolling { route_id }
    &&& route_id@ == "ROUTE-A1"@
    // Rover Beta at (2, 0, -1), 0.8 m/s, battery 62, signal 78.
    &&& has_profile(
        fleet[1],
        "RV-002"@,
        "Rover Beta"@,
        RobotType::Rover,
        Gauges {
            x: 0x4000_0000_0000_0000,
            y: 0,
            z: 0xBFF0_0000_0000_0000,
            vx: 0x3FE9_9999_9999_999A,
            battery: 0x404F_0000_0000_0000,
            signal: 0x4053_8000_0000_0000,
        },
        HealthStatus::Warning,
        RobotStatus::Active,
    )
    &&& fleet[1].current_task == (CurrentTask::Scanning { scan_type: ScanType::LeakDetection })
    // Drone Hawk at (1, 3, 0), 8.5 m/s, battery 94, signal 99.
    &&& has_profile(
        fleet[2],
        "DR-001"@,
        "Drone Hawk"@,
        RobotType::Drone,
        Gauges {
            x: 0x3FF0_0000_0000_0000,
            y: 0x4008_0000_0000_0000,
            z: 0,
            vx: 0x4021_0000_0000_0000,
            battery: 0x4057_8000_0000_0000,
            signal: 0x4058_C000_0000_0000,
        },
        HealthStatus::Optimal,
        RobotStatus::Active,
    )
    &&& fleet[2].current_task matches CurrentTask::Patrolling { route_id }
    &&& route_id@ == "ROUTE-AIR-1"@
    // Crawler Alpha inside the pipeline at (0, -0.5, 5), 0.3 m/s, battery 71,
    // signal 65.
    &&& has_profile(
        fleet[3],
        "CR-001"@,
        "Crawler Alpha"@,
        RobotType::Crawler,
        Gauges {
            x: 0,
            y: 0xBFE0_0000_0000_0000,
            z: 0x4014_0000_0000_0000,
            vx: 0x3FD3_3333_3333_3333,
            battery: 0x4051_C000_0000_0000,
            signal: 0x4050_4000_0000_0000,
        },
        HealthStatus::Optimal,
        RobotStatus::Active,
    )
    &&& fleet[3].current_task == (CurrentTask::Scanning { scan_type: ScanType::Ultrasonic })
    // Crawler Beta at (3, -0.5, 8), at rest, battery 23, signal 45.
    &&& has_profile(
        fleet[4],
        "CR-002"@,
        "Crawler Beta"@,
        RobotType::Crawler,
        Gauges {
            x: 0x4008_0000_0000_0000,
            y: 0xBFE0_0000_0000_0000,
            z: 0x4020_0000_0000_0000,
            vx: 0,
            battery: 0x4037_0000_0000_0000,
            signal: 0x4046_8000_0000_0000,
        },
        HealthStatus::Critical,
        RobotStatus::Maintenance,
    )
    &&& fleet[4].current_task == CurrentTask::ReturningToBase
}

fn simulated(
    id: &str,
    name: &str,
    robot_type: RobotType,
    gauges: Gauges,
    health: HealthStatus,
    status: RobotStatus,
    current_task: CurrentTask,
) -> (r: RobotState)
    ensures
        has_profile(r, id@, name@, robot_type, gauges, health, status),
        r.current_task == current_task,
{
    RobotState {
        id: String::from_str(id),
        name: String::from_str(name),
        robot_type,
        position: Position::new(
            Binary64::from_bits(gauges.x),
            Binary64::from_bits(gauges.y),
            Binary64::from_bits(gauges.z),
        ),
        velocity: Velocity::new(
            Binary64::from_bits(gauges.vx),
            Binary64::from_bits(0),
            Binary64::from_bits(0),
        ),
        battery: Binary64::from_bits(gauges.battery),
        signal: Binary64::from_bits(gauges.signal),
        health,
        status,
        current_task,
        timestamp: current_timestamp_ms(),
    }
}

/// The simulated fleet, each unit stamped with the wall clock's reading.
pub fn create_mock_fleet() -> (r: Vec<RobotState>)
    ensures
        is_mock_fleet(r@),
{
    let mut fleet: Vec<RobotState> = Vec::new();
    fleet.push(
        simulated(
            "RV-001",
            "Rover Alpha",
            RobotType::Rover,
            Gauges {
                x: 0xC000_0000_0000_0000,
                y: 0,
                z: 0x3FF0_0000_0000_0000,
                vx: 0x3FF3_3333_3333_3333,
                battery: 0x4055_C000_0000_0000,
                signal: 0x4057_C000_0000_0000,
            },
            HealthStatus::Optimal,
            RobotStatus::Active,
            CurrentTask::Patrolling { route_id: String::from_str("ROUTE-A1") },
        ),
    );
    fleet.push(
        simulated(
            "RV-002",
            "Rover Beta",
            RobotType::Rover,
            Gauges {
                x: 0x4000_0000_0000_0000,
                y: 0,
                z: 0xBFF0_0000_0000_0000,
                vx: 0x3FE9_9999_9999_999A,
                battery: 0x404F_0000_0000_0000,
                signal: 0x4053_8000_0000_0000,
            },
            HealthStatus::Warning,
            RobotStatus::Active,
            CurrentTask::Scanning { scan_type: ScanType::LeakDetection },
        ),
    );
    fleet.push(
        simulated(
            "DR-001",
            "Drone Hawk",
            RobotType::Drone,
            Gauges {
                x: 0x3FF0_0000_0000_0000,
                y: 0x4008_0000_0000_0000,
                z: 0,
                vx: 0x4021_0000_0000_0000,
                battery: 0x4057_8000_0000_0000,
                signal: 0x4058_C000_0000_0000,
            },
            HealthStatus::Optimal,
            RobotStatus::Active,
            CurrentTask::Patrolling { route_id: String::from_str("ROUTE-AIR-1") },
        ),
    );
    fleet.push(
        simulated(
            "CR-001",
            "Crawler Alpha",
            RobotType::Crawler,
            Gauges {
                x: 0,
                y: 0xBFE0_0000_0000_0000,
                z: 0x4014_0000_0000_0000,
                vx: 0x3FD3_3333_3333_3333,
                battery: 0x4051_C000_0000_0000,
                signal: 0x4050_4000_0000_0000,
            },
            HealthStatus::Optimal,
            RobotStatus::Active,
            CurrentTask::Scanning { scan_type: ScanType::Ultrasonic },
        ),
    );
    fleet.push(
        simulated(
            "CR-002",
            "Crawler Beta",
            RobotType::Crawler,
            Gauges {
                x: 0x4008_0000_0000_0000,
                y: 0xBFE0_0000_0000_0000,
                z: 0x4020_0000_0000_0000,
                vx: 0,
                battery: 0x4037_0000_0000_0000,
                signal: 0x4046_8000_0000_0000,
            },
            HealthStatus::Critical,
            RobotStatus::Maintenance,
            CurrentTask::ReturningToBase,
        ),
    );
    fleet
}

} // verus!
