//! Reading a datapath report: the raw register values the program reports
//! are narrowed to the counters the flow works with, and the report is
//! classified as a loss, a timeout or a plain measurement.

use vstd::prelude::*;

verus! {

/// The integer counters of one report, as the flow uses them.
#[derive(Clone, Copy, Debug, PartialEq, Eq, Structural)]
pub struct ReportCounters {
    /// Bytes newly acknowledged.
    pub acked: u32,
    /// Latest round-trip sample, in microseconds.
    pub rtt_us: u32,
    /// Packets reported lost.
    pub loss: u32,
    /// The retransmission timer fired.
    pub was_timeout: bool,
}

/// Narrows the reported registers: the counts keep their low 32 bits, and
/// the timeout flag is set exactly when its register holds 1.
pub fn decode_report(acked: u64, rtt_us: u64, loss: u64, timeout: u64) -> (c: ReportCounters)
    ensures
        c.acked == acked % 0x1_0000_0000,
        c.rtt_us == rtt_us % 0x1_0000_0000,
        c.loss == loss % 0x1_0000_0000,
        c.was_timeout == (timeout == 1),
{
    assert(acked as u32 == acked % 0x1_0000_0000) by (bit_vector);
    assert(rtt_us as u32 == rtt_us % 0x1_0000_0000) by (bit_vector);
    assert(loss as u32 == loss % 0x1_0000_0000) by (bit_vector);
    ReportCounters {
        acked: acked as u32,
        rtt_us: rtt_us as u32,
        loss: loss as u32,
        was_timeout: timeout == 1,
    }
}

/// What a report asks of the flow.
#[derive(Clone, Copy, Debug, PartialEq, Eq, Structural)]
pub enum ReportAction {
    /// The datapath saw losses: react to a drop.
    Drop,
    /// The datapath's retransmission timer fired.
    Timeout,
    /// A plain measurement: update the estimates and the rate.
    Measure,
}

/// Losses take precedence over a timeout; a report with neither is a
/// measurement.
pub fn classify_report(loss: u32, was_timeout: bool) -> (action: ReportAction)
    ensures
        action == (if loss > 0 {
            ReportAction::Drop
        } else if was_timeout {
            ReportAction::Timeout
        } else {
            ReportAction::Measure
        }),
{
    if loss > 0 {
        ReportAction::Drop
    } else if was_timeout {
        ReportAction::Timeout
    } else {
        ReportAction::Measure
    }
}

} // verus!
