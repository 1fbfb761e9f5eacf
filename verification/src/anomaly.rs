//! Anomaly reports and their identifiers.

use crate::binary64::Binary64;
use crate::clock::current_timestamp_ms;
use crate::counter::{successor, Counter};
use crate::severity::SeverityLevel;
use crate::spatial::Position;
use crate::text::{
    lemma_tail_after_last_hyphen, lemma_upper_hex_padded_reads_back, lemma_upper_hex_reads_back,
    push_upper_hex, push_upper_hex4, upper_hex, upper_hex_padded,
};
use vstd::prelude::*;
use vstd::string::*;

verus! {

/// Kinds of anomalies that can be detected.
#[derive(Clone, Copy, Debug, PartialEq, Eq, Structural)]
pub enum AnomalyType {
    /// Gas leak detected.
    Leak,
    /// Surface or internal corrosion.
    Corrosion,
    /// Structural crack or fracture.
    Crack,
    /// Abnormal pressure drop between sections.
    PressureDrop,
    /// Abnormal temperature reading.
    TemperatureAnomaly,
    /// Wall thickness below threshold.
    WallThinning,
    /// General structural damage.
    StructuralDamage,
    /// Unknown anomaly requiring investigation.
    Unknown,
}

/// The text of an anomaly identifier: the prefix `ANM-`, the detection
/// timestamp in upper-case hexadecimal, a hyphen, and the counter in
/// upper-case hexadecimal with at least four digits.
pub open spec fn anomaly_id_text(timestamp: u64, count: u64) -> Seq<char> {
    "ANM-"@ + upper_hex(timestamp as nat) + "-"@ + upper_hex_padded(count as nat, 4)
}

/// An identifier names one time of detection and one counter: anomalies with
/// different counters have different identifiers, whenever they were
/// detected.
pub proof fn lemma_identifier_names_its_counter(
    timestamp1: u64,
    count1: u64,
    timestamp2: u64,
    count2: u64,
)
    requires
        anomaly_id_text(timestamp1, count1) == anomaly_id_text(timestamp2, count2),
    ensures
        count1 == count2,
        timestamp1 == timestamp2,
{
    reveal_strlit("-");
    reveal_strlit("ANM-");
    let head1 = "ANM-"@ + upper_hex(timestamp1 as nat);
    let head2 = "ANM-"@ + upper_hex(timestamp2 as nat);
    let tail1 = upper_hex_padded(count1 as nat, 4);
    let tail2 = upper_hex_padded(count2 as nat, 4);
    assert("-"@ =~= seq!['-']);
    lemma_upper_hex_padded_reads_back(count1 as nat, 4);
    lemma_upper_hex_padded_reads_back(count2 as nat, 4);
    lemma_tail_after_last_hyphen(head1, tail1, head2, tail2);
    lemma_upper_hex_reads_back(timestamp1 as nat);
    lemma_upper_hex_reads_back(timestamp2 as nat);
    assert(upper_hex(timestamp1 as nat) =~= head1.subrange(4, head1.len() as int));
    assert(upper_hex(timestamp2 as nat) =~= head2.subrange(4, head2.len() as int));
}

/// Two anomalies that take consecutive counters have different identifiers,
/// also where they are detected at the same time.
pub proof fn lemma_consecutive_identifiers_differ(timestamp1: u64, timestamp2: u64, count: u64)
    ensures
        anomaly_id_text(timestamp1, count) != anomaly_id_text(timestamp2, successor(count)),
{
    if anomaly_id_text(timestamp1, count) == anomaly_id_text(timestamp2, successor(count)) {
        lemma_identifier_names_its_counter(timestamp1, count, timestamp2, successor(count));
    }
}

/// The identifier of the anomaly detected at `timestamp` with counter `count`.
pub fn format_anomaly_id(timestamp: u64, count: u64) -> (r: String)
    ensures
        r@ == anomaly_id_text(timestamp, count),
{
    let mut id = String::from_str("ANM-");
    push_upper_hex(&mut id, timestamp);
    id.append("-");
    push_upper_hex4(&mut id, count);
    id
}

/// A fresh anomaly identifier: the wall clock's reading and the next counter
/// of `ids`.
pub fn generate_anomaly_id(ids: &mut Counter) -> (r: String)
    ensures
        exists|timestamp: u64| r@ == anomaly_id_text(timestamp, old(ids).next),
        final(ids).next == successor(old(ids).next),
{
    let count = ids.take();
    let timestamp = current_timestamp_ms();
    format_anomaly_id(timestamp, count)
}

/// Report of a detected anomaly.
#[derive(Debug, PartialEq)]
pub struct AnomalyReport {
    /// Unique anomaly identifier.
    pub id: String,
    /// Kind of anomaly detected.
    pub anomaly_type: AnomalyType,
    /// Severity assessment.
    pub severity: SeverityLevel,
    /// Location of the anomaly.
    pub position: Position,
    /// Identifier of the pipeline section.
    pub section_id: String,
    /// Unit that detected the anomaly.
    pub detected_by: String,
    /// Confidence score between 0 and 1.
    pub confidence: Binary64,
    /// Human-readable description.
    pub description: String,
    /// Unix timestamp of detection, in milliseconds.
    pub timestamp: u64,
    /// Whether the anomaly has been acknowledged.
    pub acknowledged: bool,
}

impl AnomalyReport {
    /// What a report says of the anomaly itself: everything but its
    /// identifier and the time of detection. A new report is unacknowledged.
    pub open spec fn describes(
        self,
        anomaly_type: AnomalyType,
        severity: SeverityLevel,
        position: Position,
        section_id: Seq<char>,
        detected_by: Seq<char>,
        confidence: Binary64,
        description: Seq<char>,
    ) -> bool {
        &&& self.anomaly_type == anomaly_type
        &&& self.severity == severity
        &&& self.position == position
        &&& self.section_id@ == section_id
        &&& self.detected_by@ == detected_by
        &&& self.confidence == confidence
        &&& self.description@ == description
        &&& !self.acknowledged
    }

    /// An unacknowledged report with the given identifier and detection time.
    pub fn identified(
        id: String,
        timestamp: u64,
        anomaly_type: AnomalyType,
        severity: SeverityLevel,
        position: Position,
        section_id: &str,
        detected_by: &str,
        confidence: Binary64,
        description: &str,
    ) -> (r: AnomalyReport)
        ensures
            r.id == id,
            r.timestamp == timestamp,
            r.describes(
                anomaly_type,
                severity,
                position,
                section_id@,
                detected_by@,
                confidence,
                description@,
            ),
    {
        AnomalyReport {
            id,
            anomaly_type,
            severity,
            position,
            section_id: String::from_str(section_id),
            detected_by: String::from_str(detected_by),
            confidence,
            description: String::from_str(description),
            timestamp,
            acknowledged: false,
        }
    }

    /// An unacknowledged report detected now by the wall clock, identified by
    /// the time of detection and the next counter of `ids`.
    pub fn new(
        ids: &mut Counter,
        anomaly_type: AnomalyType,
        severity: SeverityLevel,
        position: Position,
        section_id: &str,
        detected_by: &str,
        confidence: Binary64,
        description: &str,
    ) -> (r: AnomalyReport)
        ensures
            r.id@ == anomaly_id_text(r.timestamp, old(ids).next),
            final(ids).next == successor(old(ids).next),
            r.describes(
                anomaly_type,
                severity,
                position,
                section_id@,
                detected_by@,
                confidence,
                description@,
            ),
    {
        let timestamp = current_timestamp_ms();
        let id = format_anomaly_id(timestamp, ids.take());
        AnomalyReport::identified(
            id,
            timestamp,
            anomaly_type,
            severity,
            position,
            section_id,
            detected_by,
            confidence,
            description,
        )
    }
}

impl Clone for AnomalyReport {
    fn clone(&self) -> (r: AnomalyReport)
        ensures
            r == *self,
    {
        AnomalyReport {
            id: self.id.clone(),
            anomaly_type: self.anomaly_type,
            severity: self.severity,
            position: self.position,
            section_id: self.section_id.clone(),
            detected_by: self.detected_by.clone(),
            confidence: self.confidence,
            description: self.description.clone(),
            timestamp: self.timestamp,
            acknowledged: self.acknowledged,
        }
    }
}

} // verus!
