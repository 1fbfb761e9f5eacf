//! The command-to-alert synthesizer: the anomaly report that stands for a
//! received command in test and chaos scenarios.

use crate::anomaly::{AnomalyReport, AnomalyType};
use crate::binary64::{lemma_clamped_is_within, lemma_size_follows_magnitude, Binary64};
use crate::command::{Command, FaultType};
use crate::robot::ScanType;
use crate::severity::SeverityLevel;
use crate::spatial::Position;
use crate::text::{decimal_digit, last_decimal_digit};
use vstd::prelude::*;
use vstd::string::*;

verus! {

/// The bit pattern of 0.96, the confidence of an alert for an emergency stop.
pub const EMERGENCY_CONFIDENCE_BITS: u64 = 0x3FEE_B851_EB85_1EB8;

/// The bit pattern of 0.89, the confidence of an alert for an investigation.
pub const INVESTIGATION_CONFIDENCE_BITS: u64 = 0x3FEC_7AE1_47AE_147B;

/// The bit pattern of 0.99, the confidence of an alert for an injected fault.
pub const FAULT_CONFIDENCE_BITS: u64 = 0x3FEF_AE14_7AE1_47AE;

/// The bit pattern of 0.85, the least confidence of an alert for a scan.
pub const SCAN_CONFIDENCE_MIN_BITS: u64 = 0x3FEB_3333_3333_3333;

/// The bit pattern of 0.95, the greatest confidence of an alert for a scan.
pub const SCAN_CONFIDENCE_MAX_BITS: u64 = 0x3FEE_6666_6666_6666;

/// The cosmetic noise of a synthesized report, drawn by the caller: where in
/// the horizontal plane the anomaly is placed, and how confident a scan is.
#[derive(Clone, Copy, Debug, PartialEq, Eq, Structural)]
pub struct Jitter {
    /// The x coordinate of the anomaly.
    pub x: Binary64,
    /// The z coordinate of the anomaly.
    pub z: Binary64,
    /// The confidence of an alert for a scan, which is kept between 0.85
    /// and 0.95.
    pub scan_confidence: Binary64,
}

/// The kind and the severity of the anomaly that a command stands for, if it
/// stands for one.
pub open spec fn synthesized_kind(command: Command) -> Option<(AnomalyType, SeverityLevel)> {
    match command {
        Command::EmergencyStop => Some((AnomalyType::Leak, SeverityLevel::Critical)),
        Command::Investigate { .. } => Some((AnomalyType::PressureDrop, SeverityLevel::High)),
        Command::PerformScan { scan_type } => Some(
            match scan_type {
                ScanType::Thermal => (AnomalyType::TemperatureAnomaly, SeverityLevel::Medium),
                ScanType::Ultrasonic => (AnomalyType::WallThinning, SeverityLevel::High),
                ScanType::LeakDetection => (AnomalyType::Leak, SeverityLevel::High),
                _ => (AnomalyType::Unknown, SeverityLevel::Info),
            },
        ),
        Command::InjectFault { fault_type } => Some(
            match fault_type {
                FaultType::LowBattery => (AnomalyType::Unknown, SeverityLevel::Medium),
                FaultType::SensorFailure => (AnomalyType::Unknown, SeverityLevel::High),
                FaultType::CommDropout => (AnomalyType::Unknown, SeverityLevel::Critical),
                FaultType::MotorFailure => (AnomalyType::StructuralDamage, SeverityLevel::High),
                FaultType::GpsDrift => (AnomalyType::Unknown, SeverityLevel::Low),
            },
        ),
        _ => None,
    }
}

/// The section that a synthesized report names: a prefix that goes with the
/// command, and the last decimal digit of `draw`. Injected faults name the
/// system as a whole.
pub open spec fn synthesized_section(command: Command, draw: u8) -> Seq<char> {
    match command {
        Command::EmergencyStop => "PIPE-H"@ + decimal_digit(draw as int % 10),
        Command::Investigate { .. } => "PIPE-A"@ + decimal_digit(draw as int % 10),
        Command::PerformScan { .. } => "PIPE-S"@ + decimal_digit(draw as int % 10),
        _ => "SYSTEM"@,
    }
}

/// The confidence of a synthesized report: fixed by the command, but for
/// scans, where it is the jitter's, kept between 0.85 and 0.95.
pub open spec fn synthesized_confidence(command: Command, jitter: Jitter) -> Binary64 {
    match command {
        Command::EmergencyStop => Binary64 { bits: EMERGENCY_CONFIDENCE_BITS },
        Command::Investigate { .. } => Binary64 { bits: INVESTIGATION_CONFIDENCE_BITS },
        Command::PerformScan { .. } => jitter.scan_confidence.spec_clamped(
            Binary64 { bits: SCAN_CONFIDENCE_MIN_BITS },
            Binary64 { bits: SCAN_CONFIDENCE_MAX_BITS },
        ),
        _ => Binary64 { bits: FAULT_CONFIDENCE_BITS },
    }
}

/// The confidence of an alert for a scan lies between 0.85 and 0.95,
/// whatever the jitter.
pub proof fn lemma_scan_confidence_is_narrow(scan_type: ScanType, jitter: Jitter)
    ensures
        synthesized_confidence(Command::PerformScan { scan_type }, jitter).is_within(
            Binary64 { bits: SCAN_CONFIDENCE_MIN_BITS },
            Binary64 { bits: SCAN_CONFIDENCE_MAX_BITS },
        ),
{
    let low = Binary64 { bits: SCAN_CONFIDENCE_MIN_BITS };
    let high = Binary64 { bits: SCAN_CONFIDENCE_MAX_BITS };
    lemma_size_follows_magnitude(low.magnitude(), high.magnitude());
    lemma_clamped_is_within(jitter.scan_confidence, low, high);
}

/// The description of a synthesized report.
pub open spec fn synthesized_description(command: Command, source: Seq<char>) -> Seq<char> {
    match command {
        Command::EmergencyStop => "EMERGENCY: Hydrogen leak detected! All units halted."@,
        Command::Investigate { anomaly_id } => "Pressure anomaly "@ + anomaly_id@
            + " under investigation"@,
        Command::PerformScan { scan_type } => match scan_type {
            ScanType::Thermal => "Temperature spike detected during thermal scan"@,
            ScanType::Ultrasonic => "Wall thickness below threshold detected"@,
            ScanType::LeakDetection => "Potential leak signature detected"@,
            _ => "Scan completed - no anomalies"@,
        },
        Command::InjectFault { fault_type } => match fault_type {
            FaultType::LowBattery => "Robot "@ + source + " reporting critical battery level"@,
            FaultType::SensorFailure => "Sensor malfunction detected on "@ + source,
            FaultType::CommDropout => "Communication lost with "@ + source,
            FaultType::MotorFailure => "Motor failure reported by "@ + source,
            FaultType::GpsDrift => "GPS accuracy degraded on "@ + source,
        },
        _ => Seq::empty(),
    }
}

/// Where a synthesized report places its anomaly: at the jitter's
/// coordinates in the horizontal plane, at height zero.
pub open spec fn synthesized_position(jitter: Jitter) -> Position {
    Position { x: jitter.x, y: Binary64 { bits: 0 }, z: jitter.z }
}

/// Whether `report` is what the command `command`, received from `source`,
/// stands for under the noise `jitter` and `draw`. The report is detected by
/// `source` and unacknowledged. Its identifier and time of detection are
/// free.
pub open spec fn is_synthesized(
    report: AnomalyReport,
    command: Command,
    source: Seq<char>,
    jitter: Jitter,
    draw: u8,
) -> bool {
    synthesized_kind(command) matches Some((anomaly_type, severity)) && report.describes(
        anomaly_type,
        severity,
        synthesized_position(jitter),
        synthesized_section(command, draw),
        source,
        synthesized_confidence(command, jitter),
        synthesized_description(command, source),
    )
}

/// Whether a command stands for an anomaly.
pub fn synthesizes(command: &Command) -> (r: bool)
    ensures
        r == synthesized_kind(*command) is Some,
{
    match command {
        Command::EmergencyStop => true,
        Command::Investigate { .. } => true,
        Command::PerformScan { .. } => true,
        Command::InjectFault { .. } => true,
        _ => false,
    }
}

fn numbered_section(prefix: &str, draw: u8) -> (r: String)
    ensures
        r@ == prefix@ + decimal_digit(draw as int % 10),
{
    let mut section = String::from_str(prefix);
    section.append(last_decimal_digit(draw));
    section
}

fn about_source(lead: &str, source: &str) -> (r: String)
    ensures
        r@ == lead@ + source@,
{
    let mut description = String::from_str(lead);
    description.append(source);
    description
}

/// The anomaly report that stands for `command`, received from `source`, if
/// the command stands for one. The report carries the identifier `id` and
/// the time of detection `timestamp`.
pub fn synthesize(
    command: &Command,
    source: &str,
    jitter: &Jitter,
    draw: u8,
    id: String,
    timestamp: u64,
) -> (r: Option<AnomalyReport>)
    ensures
        synthesized_kind(*command) is None ==> r is None,
        synthesized_kind(*command) is Some ==> (r matches Some(report) && report.id == id
            && report.timestamp == timestamp && is_synthesized(
            report,
            *command,
            source@,
            *jitter,
            draw,
        )),
{
    let (anomaly_type, severity, section_id, confidence, description) = match command {
        Command::EmergencyStop => (
            AnomalyType::Leak,
            SeverityLevel::Critical,
            numbered_section("PIPE-H", draw),
            Binary64::from_bits(EMERGENCY_CONFIDENCE_BITS),
            String::from_str("EMERGENCY: Hydrogen leak detected! All units halted."),
        ),
        Command::Investigate { anomaly_id } => {
            let mut description = String::from_str("Pressure anomaly ");
            description.append(anomaly_id.as_str());
            description.append(" under investigation");
            (
                AnomalyType::PressureDrop,
                SeverityLevel::High,
                numbered_section("PIPE-A", draw),
                Binary64::from_bits(INVESTIGATION_CONFIDENCE_BITS),
                description,
            )
        },
        Command::PerformScan { scan_type } => {
            let (anomaly_type, severity, description) = match scan_type {
                ScanType::Thermal => (
                    AnomalyType::TemperatureAnomaly,
                    SeverityLevel::Medium,
                    "Temperature spike detected during thermal scan",
                ),
                ScanType::Ultrasonic => (
                    AnomalyType::WallThinning,
                    SeverityLevel::High,
                    "Wall thickness below threshold detected",
                ),
                ScanType::LeakDetection => (
                    AnomalyType::Leak,
                    SeverityLevel::High,
                    "Potential leak signature detected",
                ),
                _ => (AnomalyType::Unknown, SeverityLevel::Info, "Scan completed - no anomalies"),
            };
            (
                anomaly_type,
                severity,
                numbered_section("PIPE-S", draw),
                jitter.scan_confidence.clamped(
                    Binary64::from_bits(SCAN_CONFIDENCE_MIN_BITS),
                    Binary64::from_bits(SCAN_CONFIDENCE_MAX_BITS),
                ),
                String::from_str(description),
            )
        },
        Command::InjectFault { fault_type } => {
            let (anomaly_type, severity, description) = match fault_type {
                FaultType::LowBattery => {
                    let mut description = about_source("Robot ", source);
                    description.append(" reporting critical battery level");
                    (AnomalyType::Unknown, SeverityLevel::Medium, description)
                },
                FaultType::SensorFailure => (
                    AnomalyType::Unknown,
                    SeverityLevel::High,
                    about_source("Sensor malfunction detected on ", source),
                ),
                FaultType::CommDropout => (
                    AnomalyType::Unknown,
                    SeverityLevel::Critical,
                    about_source("Communication lost with ", source),
                ),
                FaultType::MotorFailure => (
                    AnomalyType::StructuralDamage,
                    SeverityLevel::High,
                    about_source("Motor failure reported by ", source),
                ),
                FaultType::GpsDrift => (
                    AnomalyType::Unknown,
                    SeverityLevel::Low,
                    about_source("GPS accuracy degraded on ", source),
                ),
            };
            (
                anomaly_type,
                severity,
                String::from_str("SYSTEM"),
                Binary64::from_bits(FAULT_CONFIDENCE_BITS),
                description,
            )
        },
        _ => {
            return None;
        },
    };
    let position = Position::new(jitter.x, Binary64::from_bits(0), jitter.z);
    Some(
        AnomalyReport::identified(
            id,
            timestamp,
            anomaly_type,
            severity,
            position,
            section_id.as_str(),
            source,
            confidence,
            description.as_str(),
        ),
    )
}

} // verus!
