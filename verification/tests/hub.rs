use aetheris::engine::{ENGINE_SOURCE, HEARTBEAT_CHECK_INTERVAL_MS, HEARTBEAT_TIMEOUT_MS};
use aetheris::topics::{
    ALERTS, COMMANDS_ALL, ENVIRONMENT_ALL, HEARTBEAT_ALL, RESPONSES_ALL, TELEMETRY_ALL,
};
use aetheris::{
    frame_incoming, AetherisMqtt, AnomalyReport, AnomalyType, Binary64, Command, CommandResponse,
    CurrentTask, DecodeError, Dispatch, EngineMessage, FaultType, FleetManager, HealthStatus,
    Heartbeat, Jitter, MqttConfig, MqttMessage, Payload, PipeEnvironment, Position, Publication,
    QoS, RobotState, RobotStatus, RobotType, ScanType, SeverityLevel, TopicClass, Velocity,
};

fn b(value: f64) -> Binary64 {
    Binary64::from_bits(value.to_bits())
}

fn jitter() -> Jitter {
    Jitter { x: b(12.5), z: b(-40.0), scan_confidence: b(0.91) }
}

fn hub() -> (AetherisMqtt, FleetManager) {
    AetherisMqtt::new(MqttConfig::for_client("test"))
}

fn unit(id: &str) -> RobotState {
    RobotState {
        id: id.into(),
        name: "Rover Alpha".into(),
        robot_type: RobotType::Rover,
        position: Position::new(b(-2.0), b(0.0), b(1.0)),
        velocity: Velocity::new(b(1.2), b(0.0), b(0.0)),
        battery: b(87.0),
        signal: b(95.0),
        health: HealthStatus::Optimal,
        status: RobotStatus::Active,
        current_task: CurrentTask::Scanning { scan_type: ScanType::LeakDetection },
        timestamp: 1_700_000_000_000,
    }
}

fn section(id: &str) -> PipeEnvironment {
    PipeEnvironment {
        section_id: id.into(),
        pressure: b(50.0),
        temperature: b(25.0),
        h2_concentration: b(100.0),
        wall_thickness: b(10.0),
        flow_rate: b(500.0),
        humidity: b(45.0),
        position: Position::origin(),
        timestamp: 5,
    }
}

fn leak(detected_by: &str) -> AnomalyReport {
    AnomalyReport::identified(
        "ANM-1-0000".to_string(),
        9,
        AnomalyType::Leak,
        SeverityLevel::High,
        Position::origin(),
        "PIPE-001",
        detected_by,
        b(0.94),
        "Hydrogen leak detected at joint H-7",
    )
}

fn beat(id: &str) -> Heartbeat {
    Heartbeat::stamped(id, RobotType::Drone, RobotStatus::Active, b(94.0), b(99.0), 60, 8)
}

fn assert_publication(publication: &Publication, topic: &str) {
    assert_eq!(publication.topic, topic);
    assert_eq!(publication.qos, QoS::AtLeastOnce);
    assert!(!publication.retain);
}

#[test]
fn new_hub_starts_at_sequence_zero_with_an_empty_tracker() {
    let (hub, fleet) = hub();
    assert_eq!(hub.sequence(), 0);
    assert_eq!(hub.config(), &MqttConfig::for_client("test"));
    assert!(fleet.get_all_robots().is_empty());
    assert_eq!(HEARTBEAT_TIMEOUT_MS, 15_000);
    assert_eq!(HEARTBEAT_CHECK_INTERVAL_MS, 5_000);
    assert_eq!(ENGINE_SOURCE, "engine");
}

#[test]
fn tracker_of_a_new_hub_allows_fifteen_seconds_of_silence() {
    let (_, mut fleet) = hub();
    fleet.record_heartbeat("RV-001", 0);
    assert!(fleet.get_timed_out_robots(15_000).is_empty());
    assert_eq!(fleet.get_timed_out_robots(15_001), vec!["RV-001".to_string()]);
}

#[test]
fn subscriptions_cover_the_topic_scheme() {
    let (hub, _) = hub();
    let filters: Vec<&str> = hub.subscribe_all().iter().map(|s| s.filter).collect();
    assert_eq!(
        filters,
        vec![
            TELEMETRY_ALL,
            HEARTBEAT_ALL,
            ALERTS,
            ENVIRONMENT_ALL,
            RESPONSES_ALL,
            COMMANDS_ALL
        ]
    );
    assert!(hub.subscribe_all().iter().all(|s| s.qos == QoS::AtLeastOnce));
}

#[test]
fn send_command_wraps_the_command_for_one_unit() {
    let (mut hub, _) = hub();
    let publication = hub.send_command("RV-001", Command::ReturnToBase);
    assert_publication(&publication, "aetheris/commands/RV-001");
    match publication.payload {
        Payload::Command(message) => {
            assert_eq!(message.payload, Command::ReturnToBase);
            assert_eq!(message.source, "engine");
            assert_eq!(message.seq, 0);
        },
        other => panic!("not a command: {other:?}"),
    }
    assert_eq!(hub.sequence(), 1);
}

#[test]
fn broadcast_command_goes_to_all_units() {
    let (mut hub, _) = hub();
    let publication = hub.broadcast_command(Command::EmergencyStop);
    assert_publication(&publication, "aetheris/commands/broadcast");
    match publication.payload {
        Payload::Command(message) => {
            assert_eq!(message.payload, Command::EmergencyStop);
            assert_eq!(message.source, "engine");
            assert_eq!(message.seq, 0);
        },
        other => panic!("not a command: {other:?}"),
    }
    assert_eq!(hub.sequence(), 1);
}

#[test]
fn telemetry_is_published_in_an_envelope_from_the_unit() {
    let (mut hub, _) = hub();
    let state = unit("RV-001");
    let publication = hub.publish_telemetry(&state);
    assert_publication(&publication, "aetheris/telemetry/RV-001");
    match publication.payload {
        Payload::Telemetry(message) => {
            assert_eq!(message.payload, state);
            assert_eq!(message.source, "RV-001");
            assert_eq!(message.seq, 0);
        },
        other => panic!("not telemetry: {other:?}"),
    }
    assert_eq!(hub.sequence(), 1);
}

#[test]
fn alert_is_published_in_an_envelope_from_the_detecting_unit() {
    let (mut hub, _) = hub();
    let report = leak("RV-007");
    let publication = hub.publish_alert(&report);
    assert_publication(&publication, "aetheris/alerts");
    match publication.payload {
        Payload::Alert(message) => {
            assert_eq!(message.payload, report);
            assert_eq!(message.source, "RV-007");
            assert_eq!(message.seq, 0);
        },
        other => panic!("not an alert: {other:?}"),
    }
    assert_eq!(hub.sequence(), 1);
}

#[test]
fn environment_is_published_in_an_envelope_from_the_section() {
    let (mut hub, _) = hub();
    let env = section("PIPE-042");
    let publication = hub.publish_environment(&env);
    assert_publication(&publication, "aetheris/environment/PIPE-042");
    match publication.payload {
        Payload::Environment(message) => {
            assert_eq!(message.payload, env);
            assert_eq!(message.source, "PIPE-042");
            assert_eq!(message.seq, 0);
        },
        other => panic!("not a reading: {other:?}"),
    }
    assert_eq!(hub.sequence(), 1);
}

#[test]
fn heartbeat_is_published_unwrapped_and_takes_no_sequence_number() {
    let (mut hub, _) = hub();
    let heartbeat = beat("DR-001");
    let publication = hub.publish_heartbeat(&heartbeat);
    assert_publication(&publication, "aetheris/heartbeat/DR-001");
    assert_eq!(publication.payload, Payload::Heartbeat(heartbeat.clone()));
    assert_eq!(hub.sequence(), 0);
    hub.publish_telemetry(&unit("RV-001"));
    hub.publish_heartbeat(&heartbeat);
    hub.publish_heartbeat(&heartbeat);
    assert_eq!(hub.sequence(), 1);
}

#[test]
fn sequence_numbers_rise_by_one_with_each_envelope() {
    let (mut hub, _) = hub();
    let mut seen = Vec::new();
    for round in 0..5u64 {
        let publications = vec![
            hub.publish_telemetry(&unit("RV-001")),
            hub.publish_alert(&leak("RV-001")),
            hub.publish_environment(&section("PIPE-001")),
            hub.send_command("RV-001", Command::Stop),
            hub.broadcast_command(Command::Stop),
        ];
        for publication in publications {
            let seq = match publication.payload {
                Payload::Telemetry(m) => m.seq,
                Payload::Alert(m) => m.seq,
                Payload::Environment(m) => m.seq,
                Payload::Command(m) => m.seq,
                other => panic!("no envelope: {other:?}"),
            };
            seen.push(seq);
        }
        assert_eq!(hub.sequence(), (round + 1) * 5);
    }
    assert_eq!(seen, (0..25u64).collect::<Vec<u64>>());
}

#[test]
fn frame_reads_the_class_and_the_text() {
    let framed = frame_incoming("aetheris/telemetry/RV-001", b"{\"seq\": 1}");
    assert_eq!(framed, Ok(Some((TopicClass::Telemetry, "{\"seq\": 1}"))));
    let framed = frame_incoming("aetheris/alerts", "grüße".as_bytes());
    assert_eq!(framed, Ok(Some((TopicClass::Alert, "grüße"))));
    let framed = frame_incoming("aetheris/commands/broadcast", b"");
    assert_eq!(framed, Ok(Some((TopicClass::Command, ""))));
}

#[test]
fn frame_ignores_unrecognized_topics() {
    assert_eq!(frame_incoming("aetheris/system/status", b"{}"), Ok(None));
    assert_eq!(frame_incoming("aetheris/system/status", &[0xFF, 0xFE]), Ok(None));
    assert_eq!(frame_incoming("", b"{}"), Ok(None));
}

#[test]
fn frame_rejects_payloads_that_are_not_text() {
    let not_text: [&[u8]; 4] = [&[0xFF], &[0xC3], &[0xE2, 0x82], &[b'a', 0x80, b'b']];
    for payload in not_text {
        for topic in [
            "aetheris/telemetry/RV-001",
            "aetheris/heartbeat/RV-001",
            "aetheris/alerts",
            "aetheris/environment/PIPE-001",
            "aetheris/responses/RV-001",
        ] {
            assert_eq!(frame_incoming(topic, payload), Err(DecodeError::InvalidUtf8));
        }
        assert_eq!(frame_incoming("aetheris/commands/RV-001", payload), Ok(None));
    }
}

#[test]
fn telemetry_updates_the_tracker_and_emits_one_event() {
    let (mut hub, mut fleet) = hub();
    let state = unit("RV-001");
    let message = MqttMessage::stamped(state.clone(), "RV-001", 17, 3);
    let dispatch = hub
        .handle_incoming(
            &mut fleet,
            "aetheris/telemetry/RV-001",
            Some(Payload::Telemetry(message)),
            &jitter(),
            1_000,
        )
        .unwrap();
    assert_eq!(
        dispatch,
        Dispatch { event: Some(EngineMessage::TelemetryReceived(state.clone())), alert: None }
    );
    assert_eq!(fleet.get_robot("RV-001"), Some(&state));
    assert!(fleet.get_timed_out_robots(16_000).is_empty());
    assert_eq!(fleet.get_timed_out_robots(16_001), vec!["RV-001".to_string()]);
    assert_eq!(hub.sequence(), 0);
}

#[test]
fn heartbeat_refreshes_liveness_and_emits_one_event() {
    let (mut hub, mut fleet) = hub();
    let heartbeat = beat("DR-001");
    let dispatch = hub
        .handle_incoming(
            &mut fleet,
            "aetheris/heartbeat/DR-001",
            Some(Payload::Heartbeat(heartbeat.clone())),
            &jitter(),
            2_000,
        )
        .unwrap();
    assert_eq!(
        dispatch,
        Dispatch { event: Some(EngineMessage::HeartbeatReceived(heartbeat)), alert: None }
    );
    assert!(fleet.get_robot("DR-001").is_none());
    assert!(fleet.get_timed_out_robots(17_000).is_empty());
    assert_eq!(fleet.get_timed_out_robots(17_001), vec!["DR-001".to_string()]);
}

#[test]
fn alerts_readings_and_responses_are_passed_on_as_events() {
    let (mut hub, mut fleet) = hub();
    let report = leak("RV-001");
    let dispatch = hub
        .handle_incoming(
            &mut fleet,
            "aetheris/alerts",
            Some(Payload::Alert(MqttMessage::stamped(report.clone(), "RV-001", 1, 1))),
            &jitter(),
            0,
        )
        .unwrap();
    assert_eq!(dispatch, Dispatch { event: Some(EngineMessage::AlertReceived(report)), alert: None });

    let env = section("PIPE-001");
    let dispatch = hub
        .handle_incoming(
            &mut fleet,
            "aetheris/environment/PIPE-001",
            Some(Payload::Environment(MqttMessage::stamped(env.clone(), "PIPE-001", 2, 1))),
            &jitter(),
            0,
        )
        .unwrap();
    assert_eq!(
        dispatch,
        Dispatch { event: Some(EngineMessage::EnvironmentReceived(env)), alert: None }
    );

    let response = CommandResponse {
        command_id: "c-1".into(),
        robot_id: "RV-001".into(),
        success: true,
        error: None,
        timestamp: 4,
    };
    let dispatch = hub
        .handle_incoming(
            &mut fleet,
            "aetheris/responses/RV-001",
            Some(Payload::Response(response.clone())),
            &jitter(),
            0,
        )
        .unwrap();
    assert_eq!(
        dispatch,
        Dispatch { event: Some(EngineMessage::CommandResponseReceived(response)), alert: None }
    );
    assert!(fleet.get_all_robots().is_empty());
    assert!(fleet.get_timed_out_robots(u64::MAX).is_empty());
    assert_eq!(hub.sequence(), 0);
}

#[test]
fn emergency_stop_yields_one_alert_and_the_command_event() {
    let (mut hub, mut fleet) = hub();
    hub.publish_telemetry(&unit("RV-001"));
    let message = MqttMessage::stamped(Command::EmergencyStop, "RV-001", 4, 2);
    let dispatch = hub
        .handle_incoming(
            &mut fleet,
            "aetheris/commands/RV-001",
            Some(Payload::Command(message)),
            &jitter(),
            0,
        )
        .unwrap();
    assert_eq!(
        dispatch.event,
        Some(EngineMessage::CommandReceived(Command::EmergencyStop, "RV-001".to_string()))
    );
    let publication = dispatch.alert.expect("an alert");
    assert_publication(&publication, "aetheris/alerts");
    match publication.payload {
        Payload::Alert(message) => {
            assert_eq!(message.source, "RV-001");
            assert_eq!(message.seq, 1);
            let report = message.payload;
            assert_eq!(report.anomaly_type, AnomalyType::Leak);
            assert_eq!(report.severity, SeverityLevel::Critical);
            assert_eq!(report.detected_by, "RV-001");
            assert_eq!(report.confidence, b(0.96));
            assert_eq!(report.position, Position::new(b(12.5), b(0.0), b(-40.0)));
            assert_eq!(
                report.description,
                "EMERGENCY: Hydrogen leak detected! All units halted."
            );
            assert!(report.section_id.starts_with("PIPE-H"));
            assert_eq!(report.section_id.len(), 7);
            assert!(report.section_id.ends_with(|c: char| c.is_ascii_digit()));
            assert_eq!(report.id, format!("ANM-{:X}-0000", report.timestamp));
            assert!(!report.acknowledged);
        },
        other => panic!("not an alert: {other:?}"),
    }
    assert_eq!(hub.sequence(), 2);
    assert!(fleet.get_all_robots().is_empty());
}

#[test]
fn synthesized_alerts_take_consecutive_anomaly_counters() {
    let (mut hub, _) = hub();
    let mut ids = Vec::new();
    for fault_type in [FaultType::LowBattery, FaultType::MotorFailure, FaultType::GpsDrift] {
        let publication = hub
            .generate_alert_for_command(&Command::InjectFault { fault_type }, "DR-001", &jitter())
            .expect("an alert");
        match publication.payload {
            Payload::Alert(message) => {
                assert_eq!(message.payload.section_id, "SYSTEM");
                assert_eq!(message.payload.detected_by, "DR-001");
                assert!(message
                    .payload
                    .id
                    .starts_with(&format!("ANM-{:X}-", message.payload.timestamp)));
                ids.push(message.payload.id);
            },
            other => panic!("not an alert: {other:?}"),
        }
    }
    assert!(ids[0].ends_with("-0000"));
    assert!(ids[1].ends_with("-0001"));
    assert!(ids[2].ends_with("-0002"));
    assert_eq!(hub.sequence(), 3);
}

#[test]
fn commands_that_stand_for_nothing_yield_the_event_alone() {
    let (mut hub, mut fleet) = hub();
    assert_eq!(hub.generate_alert_for_command(&Command::Stop, "RV-001", &jitter()), None);
    let message = MqttMessage::stamped(Command::ReturnToBase, "dashboard", 0, 0);
    let dispatch = hub
        .handle_incoming(
            &mut fleet,
            "aetheris/commands/broadcast",
            Some(Payload::Command(message)),
            &jitter(),
            0,
        )
        .unwrap();
    assert_eq!(
        dispatch,
        Dispatch {
            event: Some(EngineMessage::CommandReceived(
                Command::ReturnToBase,
                "dashboard".to_string()
            )),
            alert: None
        }
    );
    assert_eq!(hub.sequence(), 0);
}

#[test]
fn undecodable_command_is_passed_over_in_silence() {
    let (mut hub, mut fleet) = hub();
    let framed = frame_incoming("aetheris/commands/RV-001", b"not json");
    assert_eq!(framed, Ok(Some((TopicClass::Command, "not json"))));
    let dispatch =
        hub.handle_incoming(&mut fleet, "aetheris/commands/RV-001", None, &jitter(), 0);
    assert_eq!(dispatch, Ok(Dispatch { event: None, alert: None }));
    assert_eq!(hub.sequence(), 0);
    assert!(fleet.get_all_robots().is_empty());
    assert!(fleet.get_timed_out_robots(u64::MAX).is_empty());
}

#[test]
fn undecodable_payloads_of_other_kinds_are_errors() {
    let (mut hub, mut fleet) = hub();
    for topic in [
        "aetheris/telemetry/RV-001",
        "aetheris/heartbeat/RV-001",
        "aetheris/alerts",
        "aetheris/environment/PIPE-001",
        "aetheris/responses/RV-001",
    ] {
        let dispatch = hub.handle_incoming(&mut fleet, topic, None, &jitter(), 0);
        assert_eq!(dispatch, Err(DecodeError::Malformed));
    }
    assert_eq!(hub.sequence(), 0);
    assert!(fleet.get_timed_out_robots(u64::MAX).is_empty());
}

#[test]
fn a_payload_of_another_kind_is_not_read() {
    let (mut hub, mut fleet) = hub();
    let heartbeat = Payload::Heartbeat(beat("DR-001"));
    assert_eq!(heartbeat.class(), TopicClass::Heartbeat);
    let dispatch = hub.handle_incoming(
        &mut fleet,
        "aetheris/telemetry/DR-001",
        Some(heartbeat),
        &jitter(),
        0,
    );
    assert_eq!(dispatch, Err(DecodeError::Malformed));
    let dispatch = hub.handle_incoming(
        &mut fleet,
        "aetheris/commands/DR-001",
        Some(Payload::Heartbeat(beat("DR-001"))),
        &jitter(),
        0,
    );
    assert_eq!(dispatch, Ok(Dispatch { event: None, alert: None }));
    assert!(fleet.get_timed_out_robots(u64::MAX).is_empty());
}

#[test]
fn deliveries_on_unrecognized_topics_are_ignored() {
    let (mut hub, mut fleet) = hub();
    for topic in ["aetheris/system/status", "aetheris/alerts/extra", "elsewhere", ""] {
        let dispatch = hub.handle_incoming(&mut fleet, topic, None, &jitter(), 0);
        assert_eq!(dispatch, Ok(Dispatch { event: None, alert: None }));
        let message = MqttMessage::stamped(unit("RV-001"), "RV-001", 0, 0);
        let dispatch = hub.handle_incoming(
            &mut fleet,
            topic,
            Some(Payload::Telemetry(message)),
            &jitter(),
            0,
        );
        assert_eq!(dispatch, Ok(Dispatch { event: None, alert: None }));
    }
    assert!(fleet.get_all_robots().is_empty());
    assert!(fleet.get_timed_out_robots(u64::MAX).is_empty());
    assert_eq!(hub.sequence(), 0);
}
