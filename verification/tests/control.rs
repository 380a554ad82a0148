use ccp_nimbus::control::{
    plan_mode_switch, ControlState, ElasticitySignals, RoleChange, RuleChange, SwitchPlan,
    MAX_VELOCITY, SWITCH_HOLDOFF_NS,
};
use ccp_nimbus::modes::{DelayMode, FlowMode, LossMode};

fn fresh(mode: FlowMode, switching: bool) -> ControlState {
    ControlState::new(mode, DelayMode::Copa, LossMode::MulTCP, switching)
}

fn quiet() -> ElasticitySignals {
    ElasticitySignals {
        elastic: false,
        inelastic: false,
        other_master: false,
        master_changed_rule: false,
        cross_traffic: false,
        no_master: false,
    }
}

#[test]
fn new_flow_starts_as_master_at_unit_velocity() {
    let s = fresh(FlowMode::XTCP, true);
    assert!(s.master_mode);
    assert!(!s.switching_master);
    assert_eq!(s.velocity, 1);
    assert_eq!((s.cur_direction, s.prev_direction), (0, 0));
    assert_eq!(s.flow_mode, FlowMode::XTCP);
}

#[test]
fn copa_counts_within_a_round() {
    let mut s = fresh(FlowMode::Delay, false);
    s.copa_step(true, false);
    s.copa_step(true, false);
    s.copa_step(false, false);
    assert_eq!(s.cur_direction, 1);
    assert_eq!(s.velocity, 1);
}

#[test]
fn copa_velocity_doubles_while_direction_holds_up_to_cap() {
    let mut s = fresh(FlowMode::Delay, false);
    s.copa_step(true, true); // first round: previous direction 0, reset
    assert_eq!(s.velocity, 1);
    assert_eq!(s.prev_direction, 1);
    let mut expected = 1;
    for _ in 0..8 {
        s.copa_step(true, true);
        expected = std::cmp::min(expected * 2, MAX_VELOCITY);
        assert_eq!(s.velocity, expected);
        assert_eq!(s.cur_direction, 0);
    }
    assert_eq!(s.velocity, 32);
}

#[test]
fn copa_velocity_resets_when_direction_flips() {
    let mut s = fresh(FlowMode::Delay, false);
    s.copa_step(false, true);
    s.copa_step(false, true);
    s.copa_step(false, true);
    assert_eq!(s.velocity, 4);
    s.copa_step(true, true);
    assert_eq!(s.velocity, 1);
    assert_eq!(s.prev_direction, 1);
}

#[test]
fn switch_to_delay_waits_for_holdoff() {
    let mut s = fresh(FlowMode::XTCP, true);
    assert!(!s.switch_to_delay(SWITCH_HOLDOFF_NS - 1));
    assert_eq!(s.flow_mode, FlowMode::XTCP);
    s.copa_step(true, true);
    s.copa_step(true, true);
    assert!(s.switch_to_delay(SWITCH_HOLDOFF_NS));
    assert_eq!(s.flow_mode, FlowMode::Delay);
    assert_eq!((s.velocity, s.cur_direction, s.prev_direction), (1, 0, 0));
    assert!(!s.switch_to_delay(u128::MAX));
}

#[test]
fn switch_to_xtcp_from_delay_only() {
    let mut s = fresh(FlowMode::Delay, true);
    assert!(s.switch_to_xtcp());
    assert_eq!(s.flow_mode, FlowMode::XTCP);
    assert!(!s.switch_to_xtcp());
    assert_eq!(s.flow_mode, FlowMode::XTCP);
}

#[test]
fn no_switching_keeps_the_rule() {
    let mut s = fresh(FlowMode::Delay, false);
    assert!(!s.switch_to_xtcp());
    assert!(!s.switch_to_delay(u128::MAX));
    assert_eq!(s.flow_mode, FlowMode::Delay);
    let mut t = fresh(FlowMode::XTCP, false);
    assert!(!t.switch_to_delay(u128::MAX));
    assert_eq!(t.flow_mode, FlowMode::XTCP);
}

#[test]
fn roles_are_fixed_for_new_flows() {
    let mut s = fresh(FlowMode::XTCP, true);
    assert!(!s.switch_to_slave(true));
    assert!(s.master_mode);
}

#[test]
fn roles_follow_draw_when_allowed() {
    let mut s = fresh(FlowMode::XTCP, true);
    s.switching_master = true;
    assert!(!s.switch_to_slave(false));
    assert!(s.master_mode);
    assert!(s.switch_to_slave(true));
    assert!(!s.master_mode);
    assert!(s.switch_to_master(true));
    assert!(s.master_mode);
}

#[test]
fn delay_round_trip_resets_copa_only() {
    let mut s = fresh(FlowMode::XTCP, true);
    s.copa_step(true, true);
    s.copa_step(true, false);
    assert!(s.switch_to_delay(SWITCH_HOLDOFF_NS + 1));
    assert!(s.switch_to_xtcp());
    assert_eq!(s.flow_mode, FlowMode::XTCP);
    assert_eq!((s.velocity, s.cur_direction, s.prev_direction), (1, 0, 0));
    assert!(s.master_mode);
}

#[test]
fn master_plan_prefers_elastic() {
    let mut sig = quiet();
    sig.elastic = true;
    sig.inelastic = true;
    let p = plan_mode_switch(true, FlowMode::Delay, sig);
    assert_eq!(p, SwitchPlan { rule: RuleChange::ToXtcp, role: RoleChange::Keep, restart_slave_average: false });
    sig.elastic = false;
    sig.other_master = true;
    let p = plan_mode_switch(true, FlowMode::XTCP, sig);
    assert_eq!(p, SwitchPlan { rule: RuleChange::ToDelay, role: RoleChange::ToSlave, restart_slave_average: false });
    let p = plan_mode_switch(true, FlowMode::XTCP, quiet());
    assert_eq!(p, SwitchPlan { rule: RuleChange::Keep, role: RoleChange::Keep, restart_slave_average: false });
}

#[test]
fn slave_plan_follows_master() {
    let mut sig = quiet();
    assert_eq!(plan_mode_switch(false, FlowMode::Delay, sig).rule, RuleChange::Keep);
    sig.master_changed_rule = true;
    let p = plan_mode_switch(false, FlowMode::Delay, sig);
    assert_eq!(p, SwitchPlan { rule: RuleChange::ToDelay, role: RoleChange::Keep, restart_slave_average: true });
    sig.cross_traffic = true;
    assert_eq!(plan_mode_switch(false, FlowMode::Delay, sig).rule, RuleChange::ToXtcp);
    assert_eq!(plan_mode_switch(false, FlowMode::XTCP, sig).rule, RuleChange::ToDelay);
    sig.no_master = true;
    assert_eq!(plan_mode_switch(false, FlowMode::XTCP, sig).role, RoleChange::ToMaster);
}
