use ccp_nimbus::report::{classify_report, decode_report, ReportAction, ReportCounters};

#[test]
fn report_with_loss_is_a_drop_even_on_timeout() {
    assert_eq!(classify_report(1, true), ReportAction::Drop);
    assert_eq!(classify_report(7, false), ReportAction::Drop);
    assert_eq!(classify_report(0, true), ReportAction::Timeout);
    assert_eq!(classify_report(0, false), ReportAction::Measure);
}

#[test]
fn registers_are_narrowed_to_counters() {
    assert_eq!(
        decode_report(1448, 20_000, 0, 0),
        ReportCounters { acked: 1448, rtt_us: 20_000, loss: 0, was_timeout: false }
    );
    assert_eq!(
        decode_report((1u64 << 32) + 5, u64::MAX, 3, 1),
        ReportCounters { acked: 5, rtt_us: u32::MAX, loss: 3, was_timeout: true }
    );
}

#[test]
fn timeout_flag_needs_exactly_one() {
    assert!(!decode_report(0, 0, 0, 2).was_timeout);
    assert!(decode_report(0, 0, 0, 1).was_timeout);
}
