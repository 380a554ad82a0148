use ccp_nimbus::modes::{DelayMode, FlowMode, LossMode, ModeParseError};

#[test]
fn flow_mode_parses_its_names() {
    assert_eq!(FlowMode::from_str("XTCP").unwrap(), FlowMode::XTCP);
    assert_eq!(FlowMode::from_str("Delay").unwrap(), FlowMode::Delay);
}

#[test]
fn flow_mode_refuses_other_text() {
    for s in ["xtcp", "delay", "", "XTCP ", "Cubic", "DelayX"] {
        match FlowMode::from_str(s) {
            Err(ModeParseError::UnknownFlowMode(t)) => assert_eq!(t, s),
            other => panic!("unexpected {:?} for {:?}", other, s),
        }
    }
}

#[test]
fn delay_mode_parses_its_names() {
    assert_eq!(DelayMode::from_str("Copa").unwrap(), DelayMode::Copa);
    assert_eq!(DelayMode::from_str("Nimbus").unwrap(), DelayMode::Nimbus);
    assert_eq!(DelayMode::from_str("Vegas").unwrap(), DelayMode::Vegas);
}

#[test]
fn delay_mode_refuses_other_text() {
    for s in ["copa", "NIMBUS", "Vega", "", "MulTCP"] {
        match DelayMode::from_str(s) {
            Err(ModeParseError::UnknownDelayMode(t)) => assert_eq!(t, s),
            other => panic!("unexpected {:?} for {:?}", other, s),
        }
    }
}

#[test]
fn loss_mode_parses_its_names() {
    assert_eq!(LossMode::from_str("Cubic").unwrap(), LossMode::Cubic);
    assert_eq!(LossMode::from_str("MulTCP").unwrap(), LossMode::MulTCP);
}

#[test]
fn loss_mode_refuses_other_text() {
    for s in ["cubic", "Multcp", "Reno", "", "Cubic\n"] {
        match LossMode::from_str(s) {
            Err(ModeParseError::UnknownLossMode(t)) => assert_eq!(t, s),
            other => panic!("unexpected {:?} for {:?}", other, s),
        }
    }
}

#[test]
fn non_ascii_input_is_refused() {
    assert!(FlowMode::from_str("Délay").is_err());
    assert!(LossMode::from_str("Cubić").is_err());
}
