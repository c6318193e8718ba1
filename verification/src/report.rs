//! The document that is posted for a probe that landed.

use crate::commitment::{name_of_commitment, Commitment};
use crate::cycle::Report;
use vstd::prelude::*;

verus! {

/// What the caller's configuration adds to every document.
#[derive(Clone, Debug, PartialEq, Eq)]
pub struct ReportLabels {
    /// The commitment level at which confirmations are taken.
    pub commitment: Commitment,
    /// The percentile of recent fees that the fee estimate follows, in
    /// hundredths of a percent.
    pub priority_fee_percentile: u16,
    /// Where the probe runs.
    pub pinger_region: String,
}

/// The document, member by member.
#[derive(Clone, Debug, PartialEq, Eq)]
pub struct SinkDocument {
    /// The time latency, in milliseconds.
    pub time: u64,
    pub signature: String,
    pub transaction_type: String,
    pub success: bool,
    pub application: String,
    pub commitment_level: String,
    pub slot_sent: u64,
    pub slot_landed: u64,
    pub priority_fee_micro_lamports: u64,
    /// The percentile, in whole percent.
    pub priority_fee_percentile: u16,
    pub pinger_region: String,
}

/// Composes the document for `report`. A report exists only for a probe that
/// succeeded, so the document says so.
pub fn sink_document(report: &Report, labels: &ReportLabels) -> (document: SinkDocument)
    ensures
        document.time == report.time_latency_ms,
        document.signature@ == report.probe_id@,
        document.transaction_type@ == "transfer"@,
        document.success,
        document.application@ == "web3"@,
        document.commitment_level@ == name_of_commitment(labels.commitment),
        document.slot_sent == report.slot_sent,
        document.slot_landed == report.slot_landed,
        document.priority_fee_micro_lamports == report.fee,
        document.priority_fee_percentile == labels.priority_fee_percentile / 100,
        document.pinger_region@ == labels.pinger_region@,
{
    SinkDocument {
        time: report.time_latency_ms,
        signature: report.probe_id.clone(),
        transaction_type: "transfer".to_owned(),
        success: true,
        application: "web3".to_owned(),
        commitment_level: labels.commitment.name(),
        slot_sent: report.slot_sent,
        slot_landed: report.slot_landed,
        priority_fee_micro_lamports: report.fee,
        priority_fee_percentile: labels.priority_fee_percentile / 100,
        pinger_region: labels.pinger_region.clone(),
    }
}

} // verus!
