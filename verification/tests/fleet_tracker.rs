use aetheris::{
    Binary64, CurrentTask, FleetManager, HealthStatus, Position, RobotState, RobotStatus,
    RobotType, Velocity,
};

fn b(value: f64) -> Binary64 {
    Binary64::from_bits(value.to_bits())
}

fn unit(id: &str, battery: f64) -> RobotState {
    RobotState {
        id: id.into(),
        name: format!("Unit {id}"),
        robot_type: RobotType::Rover,
        position: Position::new(b(-2.0), b(0.0), b(1.0)),
        velocity: Velocity::new(b(1.2), b(0.0), b(0.0)),
        battery: b(battery),
        signal: b(95.0),
        health: HealthStatus::Optimal,
        status: RobotStatus::Active,
        current_task: CurrentTask::Patrolling { route_id: "ROUTE-A1".into() },
        timestamp: 1_700_000_000_000,
    }
}

fn sorted(mut ids: Vec<String>) -> Vec<String> {
    ids.sort();
    ids
}

#[test]
fn new_tracker_knows_no_unit() {
    let fleet = FleetManager::new(15_000);
    assert!(fleet.get_all_robots().is_empty());
    assert!(fleet.get_robot("RV-001").is_none());
    assert!(fleet.get_timed_out_robots(u64::MAX).is_empty());
    let fleet = FleetManager::default();
    assert!(fleet.get_all_robots().is_empty());
    assert!(fleet.get_timed_out_robots(u64::MAX).is_empty());
}

#[test]
fn updated_unit_is_on_record() {
    let mut fleet = FleetManager::new(15_000);
    let state = unit("RV-001", 87.0);
    fleet.update_robot(state.clone(), 1_000);
    assert_eq!(fleet.get_robot("RV-001"), Some(&state));
    assert!(fleet.get_robot("RV-002").is_none());
    assert!(fleet.get_robot("RV-00").is_none());
    assert!(fleet.get_timed_out_robots(1_000).is_empty());
    assert!(fleet.get_timed_out_robots(16_000).is_empty());
}

#[test]
fn update_replaces_the_state_of_a_known_unit() {
    let mut fleet = FleetManager::new(15_000);
    fleet.update_robot(unit("RV-001", 87.0), 1_000);
    fleet.update_robot(unit("RV-002", 62.0), 1_000);
    let newer = unit("RV-001", 50.0);
    fleet.update_robot(newer.clone(), 2_000);
    assert_eq!(fleet.get_robot("RV-001"), Some(&newer));
    assert_eq!(fleet.get_all_robots().len(), 2);
    fleet.update_robot(newer.clone(), 2_000);
    assert_eq!(fleet.get_robot("RV-001"), Some(&newer));
    assert_eq!(fleet.get_all_robots().len(), 2);
}

#[test]
fn timeout_boundary() {
    let mut fleet = FleetManager::new(15_000);
    fleet.update_robot(unit("RV-001", 87.0), 1_000);
    assert!(fleet.get_timed_out_robots(15_999).is_empty());
    assert!(fleet.get_timed_out_robots(16_000).is_empty());
    assert_eq!(fleet.get_timed_out_robots(16_001), vec!["RV-001".to_string()]);
    assert_eq!(fleet.get_timed_out_robots(u64::MAX), vec!["RV-001".to_string()]);
}

#[test]
fn a_unit_seen_after_now_is_not_timed_out() {
    let mut fleet = FleetManager::new(0);
    fleet.record_heartbeat("RV-001", 5_000);
    assert!(fleet.get_timed_out_robots(0).is_empty());
    assert!(fleet.get_timed_out_robots(5_000).is_empty());
    assert_eq!(fleet.get_timed_out_robots(5_001), vec!["RV-001".to_string()]);
}

#[test]
fn timeouts_near_the_end_of_time() {
    let mut fleet = FleetManager::new(u64::MAX);
    fleet.record_heartbeat("RV-001", 0);
    assert!(fleet.get_timed_out_robots(u64::MAX).is_empty());
    let mut fleet = FleetManager::new(10);
    fleet.record_heartbeat("RV-001", u64::MAX - 5);
    assert!(fleet.get_timed_out_robots(u64::MAX).is_empty());
}

#[test]
fn heartbeat_refreshes_liveness_only() {
    let mut fleet = FleetManager::new(15_000);
    let state = unit("RV-001", 87.0);
    fleet.update_robot(state.clone(), 1_000);
    fleet.record_heartbeat("RV-001", 10_000);
    assert_eq!(fleet.get_robot("RV-001"), Some(&state));
    assert!(fleet.get_timed_out_robots(16_001).is_empty());
    assert!(fleet.get_timed_out_robots(25_000).is_empty());
    assert_eq!(fleet.get_timed_out_robots(25_001), vec!["RV-001".to_string()]);
}

#[test]
fn heartbeat_of_an_unknown_unit_is_recorded_without_state() {
    let mut fleet = FleetManager::new(15_000);
    fleet.record_heartbeat("DR-009", 1_000);
    assert!(fleet.get_robot("DR-009").is_none());
    assert!(fleet.get_all_robots().is_empty());
    assert_eq!(fleet.get_timed_out_robots(20_000), vec!["DR-009".to_string()]);
    let state = unit("DR-009", 10.0);
    fleet.update_robot(state.clone(), 30_000);
    assert_eq!(fleet.get_robot("DR-009"), Some(&state));
    assert_eq!(fleet.get_all_robots().len(), 1);
    assert!(fleet.get_timed_out_robots(40_000).is_empty());
}

#[test]
fn mark_offline_demotes_a_unit_with_state() {
    let mut fleet = FleetManager::new(15_000);
    let state = unit("RV-001", 87.0);
    fleet.update_robot(state.clone(), 1_000);
    fleet.update_robot(unit("RV-002", 62.0), 1_000);
    fleet.mark_offline("RV-001");
    let expected =
        RobotState { status: RobotStatus::Offline, health: HealthStatus::Critical, ..state };
    assert_eq!(fleet.get_robot("RV-001"), Some(&expected));
    assert_eq!(fleet.get_robot("RV-002"), Some(&unit("RV-002", 62.0)));
    fleet.mark_offline("RV-001");
    assert_eq!(fleet.get_robot("RV-001"), Some(&expected));
}

#[test]
fn mark_offline_without_state_creates_nothing() {
    let mut fleet = FleetManager::new(15_000);
    fleet.mark_offline("RV-404");
    assert!(fleet.get_robot("RV-404").is_none());
    assert!(fleet.get_all_robots().is_empty());
    assert!(fleet.get_timed_out_robots(u64::MAX).is_empty());
    fleet.record_heartbeat("DR-009", 1_000);
    fleet.mark_offline("DR-009");
    assert!(fleet.get_robot("DR-009").is_none());
    assert!(fleet.get_all_robots().is_empty());
    assert_eq!(fleet.get_timed_out_robots(20_000), vec!["DR-009".to_string()]);
}

#[test]
fn all_robots_lists_each_unit_with_state_once() {
    let mut fleet = FleetManager::new(15_000);
    fleet.update_robot(unit("RV-001", 87.0), 1_000);
    fleet.record_heartbeat("DR-009", 1_000);
    fleet.update_robot(unit("CR-001", 71.0), 1_000);
    fleet.update_robot(unit("RV-001", 80.0), 2_000);
    let mut ids: Vec<String> = fleet.get_all_robots().iter().map(|s| s.id.clone()).collect();
    ids.sort();
    assert_eq!(ids, vec!["CR-001".to_string(), "RV-001".to_string()]);
    for state in fleet.get_all_robots() {
        assert_eq!(fleet.get_robot(&state.id), Some(state));
    }
}

#[test]
fn timed_out_units_are_each_named_once() {
    let mut fleet = FleetManager::new(100);
    fleet.update_robot(unit("A", 1.0), 10);
    fleet.update_robot(unit("B", 1.0), 500);
    fleet.record_heartbeat("C", 20);
    fleet.update_robot(unit("D", 1.0), 399);
    fleet.update_robot(unit("A", 2.0), 30);
    assert_eq!(
        sorted(fleet.get_timed_out_robots(500)),
        vec!["A".to_string(), "C".to_string(), "D".to_string()]
    );
    assert_eq!(sorted(fleet.get_timed_out_robots(130)), vec!["C".to_string()]);
}

#[test]
fn sweep_demotes_exactly_the_timed_out_units() {
    let mut fleet = FleetManager::new(100);
    fleet.update_robot(unit("A", 1.0), 10);
    fleet.update_robot(unit("B", 1.0), 500);
    fleet.record_heartbeat("C", 20);
    let marked = fleet.check_heartbeats(300);
    assert_eq!(sorted(marked), vec!["A".to_string(), "C".to_string()]);
    let a = fleet.get_robot("A").unwrap();
    assert_eq!(a.status, RobotStatus::Offline);
    assert_eq!(a.health, HealthStatus::Critical);
    assert_eq!(a.battery, b(1.0));
    assert_eq!(fleet.get_robot("B"), Some(&unit("B", 1.0)));
    assert!(fleet.get_robot("C").is_none());
    assert_eq!(sorted(fleet.get_timed_out_robots(300)), vec!["A".to_string(), "C".to_string()]);
    assert!(fleet.check_heartbeats(100).is_empty());
    assert_eq!(fleet.get_robot("B"), Some(&unit("B", 1.0)));
}

#[test]
fn telemetry_revives_a_demoted_unit() {
    let mut fleet = FleetManager::new(100);
    fleet.update_robot(unit("A", 1.0), 10);
    assert_eq!(fleet.check_heartbeats(1_000), vec!["A".to_string()]);
    fleet.update_robot(unit("A", 3.0), 1_001);
    assert_eq!(fleet.get_robot("A"), Some(&unit("A", 3.0)));
    assert!(fleet.check_heartbeats(1_050).is_empty());
    assert_eq!(fleet.get_robot("A").unwrap().status, RobotStatus::Active);
}
