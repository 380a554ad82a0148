//! The discrete part of a Nimbus flow's state, and the decisions taken on it:
//! which rule the flow follows (delay or cross-TCP), whether it is the
//! pulsing master or a watching slave, and the Copa rule's direction and
//! velocity counters. The rates and windows, which are real numbers, stay
//! with the caller; it applies them when a method reports a change.

use vstd::prelude::*;
use crate::modes::{FlowMode, DelayMode, LossMode};

verus! {

/// Largest velocity the Copa rule reaches by doubling.
pub const MAX_VELOCITY: u32 = 32;

/// Time that must pass between two switches into the delay rule.
pub const SWITCH_HOLDOFF_NS: u128 = 5_000_000_000;

/// A Copa velocity: a power of two from 1 to `MAX_VELOCITY`.
pub open spec fn valid_velocity(v: u32) -> bool {
    v == 1 || v == 2 || v == 4 || v == 8 || v == 16 || v == 32
}

/// The velocity after a round: doubled (up to the cap) when the direction
/// held, back to 1 when it changed.
pub open spec fn next_velocity(velocity: u32, prev_direction: int, cur_direction: int) -> u32 {
    if (prev_direction > 0 && cur_direction > 0) || (prev_direction < 0 && cur_direction < 0) {
        if 2 * velocity > MAX_VELOCITY {
            MAX_VELOCITY
        } else {
            (2 * velocity) as u32
        }
    } else {
        1
    }
}

/// Outcomes of the threshold tests on one elasticity analysis. The caller
/// computes them from its spectra and moving averages; which of them are
/// read depends on whether the flow is master or slave.
#[derive(Clone, Copy, Debug)]
pub struct ElasticitySignals {
    /// Master: the elasticity average is above the elastic threshold.
    pub elastic: bool,
    /// Master: the elasticity average is below the inelastic threshold.
    pub inelastic: bool,
    /// Master: another master's pulses dominate this flow's own.
    pub other_master: bool,
    /// Slave: the master's pulse frequency was seen to move.
    pub master_changed_rule: bool,
    /// Slave: the cross traffic is a sizeable share of the link.
    pub cross_traffic: bool,
    /// Slave: no master's pulses are seen at all.
    pub no_master: bool,
}

/// Which rule the analysis asks for.
#[derive(Clone, Copy, Debug, PartialEq, Eq, Structural)]
pub enum RuleChange {
    Keep,
    ToXtcp,
    ToDelay,
}

/// Which role the analysis asks for.
#[derive(Clone, Copy, Debug, PartialEq, Eq, Structural)]
pub enum RoleChange {
    Keep,
    ToSlave,
    ToMaster,
}

/// The switches an elasticity analysis asks for, to be attempted in this
/// order: first the rule, then the role. `restart_slave_average` asks the
/// caller to reset the slave's moving average before the rule switch.
#[derive(Clone, Copy, Debug, PartialEq, Eq, Structural)]
pub struct SwitchPlan {
    pub rule: RuleChange,
    pub role: RoleChange,
    pub restart_slave_average: bool,
}

/// The switches an elasticity analysis asks for. A master follows its own
/// elasticity estimate (elastic wins over inelastic) and yields to a
/// stronger master; a slave follows the master's rule changes (into the
/// cross-TCP rule only from the delay rule and with sizeable cross
/// traffic, otherwise into the delay rule) and takes over when no master
/// pulses.
pub open spec fn mode_switch_plan(master_mode: bool, flow_mode: FlowMode, signals: ElasticitySignals) -> SwitchPlan {
    if master_mode {
        SwitchPlan {
            rule: if signals.elastic {
                RuleChange::ToXtcp
            } else if signals.inelastic {
                RuleChange::ToDelay
            } else {
                RuleChange::Keep
            },
            role: if signals.other_master {
                RoleChange::ToSlave
            } else {
                RoleChange::Keep
            },
            restart_slave_average: false,
        }
    } else {
        SwitchPlan {
            rule: if !signals.master_changed_rule {
                RuleChange::Keep
            } else if flow_mode == FlowMode::Delay && signals.cross_traffic {
                RuleChange::ToXtcp
            } else {
                RuleChange::ToDelay
            },
            role: if signals.no_master {
                RoleChange::ToMaster
            } else {
                RoleChange::Keep
            },
            restart_slave_average: signals.master_changed_rule,
        }
    }
}

/// Decides the switches after an elasticity analysis (see
/// `mode_switch_plan`).
pub fn plan_mode_switch(master_mode: bool, flow_mode: FlowMode, signals: ElasticitySignals) -> (plan: SwitchPlan)
    ensures
        plan == mode_switch_plan(master_mode, flow_mode, signals),
        master_mode ==> (plan.role == RoleChange::ToSlave <==> signals.other_master),
        master_mode ==> plan.role != RoleChange::ToMaster,
        !master_mode ==> (plan.role == RoleChange::ToMaster <==> signals.no_master),
        !master_mode ==> plan.role != RoleChange::ToSlave,
{
    if master_mode {
        let rule = if signals.elastic {
            RuleChange::ToXtcp
        } else if signals.inelastic {
            RuleChange::ToDelay
        } else {
            RuleChange::Keep
        };
        let role = if signals.other_master {
            RoleChange::ToSlave
        } else {
            RoleChange::Keep
        };
        SwitchPlan { rule, role, restart_slave_average: false }
    } else {
        let rule = if !signals.master_changed_rule {
            RuleChange::Keep
        } else {
            match flow_mode {
                FlowMode::Delay => {
                    if signals.cross_traffic {
                        RuleChange::ToXtcp
                    } else {
                        RuleChange::ToDelay
                    }
                },
                FlowMode::XTCP => RuleChange::ToDelay,
            }
        };
        let role = if signals.no_master {
            RoleChange::ToMaster
        } else {
            RoleChange::Keep
        };
        SwitchPlan { rule, role, restart_slave_average: signals.master_changed_rule }
    }
}

/// Mode and counter state of one flow.
#[derive(Clone, Copy, Debug)]
pub struct ControlState {
    /// The rule in force.
    pub flow_mode: FlowMode,
    /// The delay rule used in `FlowMode::Delay`.
    pub delay_mode: DelayMode,
    /// The loss rule used in `FlowMode::XTCP`.
    pub loss_mode: LossMode,
    /// Whether the flow may switch between the two rules at all.
    pub use_switching: bool,
    /// Whether this flow pulses (master) or only watches (slave).
    pub master_mode: bool,
    /// Whether the flow may move between master and slave.
    pub switching_master: bool,
    /// Copa: how fast the window moves, a power of two up to 32.
    pub velocity: u32,
    /// Copa: net count of increase decisions in the current round.
    pub cur_direction: i64,
    /// Copa: the net count of the previous round.
    pub prev_direction: i64,
}

/// Whether `switch_to_delay` switches from state `s`.
pub open spec fn delay_switch_allowed(s: ControlState, since_last_switch_ns: u128) -> bool {
    s.use_switching && s.flow_mode == FlowMode::XTCP && since_last_switch_ns >= SWITCH_HOLDOFF_NS
}

/// State after `switch_to_delay`.
pub open spec fn after_switch_to_delay(s: ControlState, since_last_switch_ns: u128) -> ControlState {
    if delay_switch_allowed(s, since_last_switch_ns) {
        ControlState {
            flow_mode: FlowMode::Delay,
            velocity: 1,
            cur_direction: 0,
            prev_direction: 0,
            ..s
        }
    } else {
        s
    }
}

/// Whether `switch_to_xtcp` switches from state `s`.
pub open spec fn xtcp_switch_allowed(s: ControlState) -> bool {
    s.use_switching && s.flow_mode == FlowMode::Delay
}

/// State after `switch_to_xtcp`.
pub open spec fn after_switch_to_xtcp(s: ControlState) -> ControlState {
    if xtcp_switch_allowed(s) {
        ControlState { flow_mode: FlowMode::XTCP, ..s }
    } else {
        s
    }
}

/// State after `switch_to_master` (`master == true`) or `switch_to_slave`
/// (`master == false`) with the caller's draw `accepted`.
pub open spec fn after_role_switch(s: ControlState, master: bool, accepted: bool) -> ControlState {
    if s.switching_master && accepted {
        ControlState { master_mode: master, ..s }
    } else {
        s
    }
}

/// State after attempting the rule change `change` (`since_last_switch_ns`
/// is what `switch_to_delay` is given).
pub open spec fn after_rule_change(s: ControlState, change: RuleChange, since_last_switch_ns: u128) -> ControlState {
    match change {
        RuleChange::Keep => s,
        RuleChange::ToXtcp => after_switch_to_xtcp(s),
        RuleChange::ToDelay => after_switch_to_delay(s, since_last_switch_ns),
    }
}

/// State after one Copa decision.
pub open spec fn after_copa_step(s: ControlState, increase: bool, round_elapsed: bool) -> ControlState {
    let cur = s.cur_direction + if increase { 1int } else { -1int };
    if round_elapsed {
        ControlState {
            velocity: next_velocity(s.velocity, s.prev_direction as int, cur),
            prev_direction: cur as i64,
            cur_direction: 0,
            ..s
        }
    } else {
        ControlState { cur_direction: cur as i64, ..s }
    }
}

impl ControlState {
    /// The counters are in range.
    pub open spec fn wf(&self) -> bool {
        valid_velocity(self.velocity)
    }

    /// The state of a new flow: it starts as master, in the configured
    /// rule, with Copa at velocity 1 and no direction yet; moving between
    /// master and slave is off.
    pub fn new(flow_mode: FlowMode, delay_mode: DelayMode, loss_mode: LossMode, use_switching: bool) -> (s: ControlState)
        ensures
            s.wf(),
            s.flow_mode == flow_mode,
            s.delay_mode == delay_mode,
            s.loss_mode == loss_mode,
            s.use_switching == use_switching,
            s.master_mode,
            !s.switching_master,
            s.velocity == 1,
            s.cur_direction == 0,
            s.prev_direction == 0,
    {
        ControlState {
            flow_mode,
            delay_mode,
            loss_mode,
            use_switching,
            master_mode: true,
            switching_master: false,
            velocity: 1,
            cur_direction: 0,
            prev_direction: 0,
        }
    }

    /// One Copa decision: count it in the current round's direction and,
    /// when an RTT has passed since the last round ended, close the round:
    /// the velocity doubles (capped) if the direction held, else resets to 1.
    pub fn copa_step(&mut self, increase: bool, round_elapsed: bool)
        requires
            old(self).wf(),
            i64::MIN < old(self).cur_direction < i64::MAX,
        ensures
            final(self).wf(),
            *final(self) == after_copa_step(*old(self), increase, round_elapsed),
            !round_elapsed ==> final(self).velocity == old(self).velocity,
            !round_elapsed ==> final(self).prev_direction == old(self).prev_direction,
            !round_elapsed ==> final(self).cur_direction == old(self).cur_direction + if increase {
                1int
            } else {
                -1int
            },
            round_elapsed ==> final(self).cur_direction == 0,
            round_elapsed ==> final(self).prev_direction == old(self).cur_direction + if increase {
                1int
            } else {
                -1int
            },
    {
        if increase {
            self.cur_direction = self.cur_direction + 1;
        } else {
            self.cur_direction = self.cur_direction - 1;
        }
        if round_elapsed {
            if (self.prev_direction > 0 && self.cur_direction > 0) || (self.prev_direction < 0
                && self.cur_direction < 0) {
                self.velocity = self.velocity * 2;
            } else {
                self.velocity = 1;
            }
            if self.velocity > MAX_VELOCITY {
                self.velocity = MAX_VELOCITY;
            }
            self.prev_direction = self.cur_direction;
            self.cur_direction = 0;
        }
    }

    /// Switch into the delay rule, if switching is on, the flow is not in it
    /// already, and at least `SWITCH_HOLDOFF_NS` passed since the last
    /// switch. A switch restarts Copa's counters. Returns whether it switched.
    pub fn switch_to_delay(&mut self, since_last_switch_ns: u128) -> (switched: bool)
        requires
            old(self).wf(),
        ensures
            final(self).wf(),
            switched == delay_switch_allowed(*old(self), since_last_switch_ns),
            *final(self) == after_switch_to_delay(*old(self), since_last_switch_ns),
            since_last_switch_ns < SWITCH_HOLDOFF_NS ==> !switched && *final(self) == *old(self),
            final(self).flow_mode != old(self).flow_mode ==> switched,
    {
        if !self.use_switching {
            return false;
        }
        match self.flow_mode {
            FlowMode::Delay => {
                return false;
            },
            FlowMode::XTCP => {
                if since_last_switch_ns < SWITCH_HOLDOFF_NS {
                    return false;
                }
            },
        }
        self.flow_mode = FlowMode::Delay;
        self.velocity = 1;
        self.cur_direction = 0;
        self.prev_direction = 0;
        true
    }

    /// Switch into the cross-TCP rule, if switching is on and the flow is
    /// not in it already. Returns whether it switched.
    pub fn switch_to_xtcp(&mut self) -> (switched: bool)
        requires
            old(self).wf(),
        ensures
            final(self).wf(),
            switched == xtcp_switch_allowed(*old(self)),
            *final(self) == after_switch_to_xtcp(*old(self)),
    {
        if !self.use_switching {
            return false;
        }
        match self.flow_mode {
            FlowMode::XTCP => {
                return false;
            },
            FlowMode::Delay => {},
        }
        self.flow_mode = FlowMode::XTCP;
        true
    }

    /// Become the pulsing master, if moving between roles is allowed and
    /// the caller's random draw (`accepted`) says so. Returns whether the
    /// flow became master.
    pub fn switch_to_master(&mut self, accepted: bool) -> (switched: bool)
        requires
            old(self).wf(),
        ensures
            final(self).wf(),
            switched == (old(self).switching_master && accepted),
            *final(self) == after_role_switch(*old(self), true, accepted),
            !accepted ==> !switched && *final(self) == *old(self),
            final(self).master_mode != old(self).master_mode ==> switched,
    {
        if !self.switching_master {
            return false;
        }
        if accepted {
            self.master_mode = true;
            true
        } else {
            false
        }
    }

    /// Become a watching slave, if moving between roles is allowed and the
    /// caller's random draw (`accepted`) says so. Returns whether the flow
    /// became slave.
    pub fn switch_to_slave(&mut self, accepted: bool) -> (switched: bool)
        requires
            old(self).wf(),
        ensures
            final(self).wf(),
            switched == (old(self).switching_master && accepted),
            *final(self) == after_role_switch(*old(self), false, accepted),
            !accepted ==> !switched && *final(self) == *old(self),
            final(self).master_mode != old(self).master_mode ==> switched,
    {
        if !self.switching_master {
            return false;
        }
        if accepted {
            self.master_mode = false;
            true
        } else {
            false
        }
    }
}

/// Every transition keeps the Copa velocity a power of two from 1 to 32.
pub proof fn lemma_transitions_keep_wf(
    s: ControlState,
    increase: bool,
    round_elapsed: bool,
    since_last_switch_ns: u128,
    master: bool,
    accepted: bool,
)
    requires
        s.wf(),
    ensures
        after_copa_step(s, increase, round_elapsed).wf(),
        after_switch_to_delay(s, since_last_switch_ns).wf(),
        after_switch_to_xtcp(s).wf(),
        after_role_switch(s, master, accepted).wf(),
{
}

/// Switching into the delay rule twice at the same moment is switching
/// once; and once the flow is in the delay rule, a later attempt changes
/// nothing, however much time has passed.
pub proof fn lemma_switch_to_delay_idempotent(s: ControlState, first_ns: u128, second_ns: u128)
    ensures
        after_switch_to_delay(after_switch_to_delay(s, first_ns), first_ns)
            == after_switch_to_delay(s, first_ns),
        after_switch_to_delay(s, first_ns).flow_mode == FlowMode::Delay ==> after_switch_to_delay(
            after_switch_to_delay(s, first_ns),
            second_ns,
        ) == after_switch_to_delay(s, first_ns),
{
}

/// Switching into the cross-TCP rule twice is switching once.
pub proof fn lemma_switch_to_xtcp_idempotent(s: ControlState)
    ensures
        after_switch_to_xtcp(after_switch_to_xtcp(s)) == after_switch_to_xtcp(s),
{
}

/// With switching off, no transition changes the rule in force.
pub proof fn lemma_no_switching_keeps_flow_mode(
    s: ControlState,
    increase: bool,
    round_elapsed: bool,
    since_last_switch_ns: u128,
    master: bool,
    accepted: bool,
)
    requires
        !s.use_switching,
    ensures
        after_copa_step(s, increase, round_elapsed).flow_mode == s.flow_mode,
        after_switch_to_delay(s, since_last_switch_ns) == s,
        after_switch_to_xtcp(s) == s,
        after_role_switch(s, master, accepted).flow_mode == s.flow_mode,
{
}

/// With role switching off (as every new flow has it), no transition
/// changes whether the flow is master.
pub proof fn lemma_fixed_role_keeps_master_mode(
    s: ControlState,
    increase: bool,
    round_elapsed: bool,
    since_last_switch_ns: u128,
    master: bool,
    accepted: bool,
)
    requires
        !s.switching_master,
    ensures
        after_copa_step(s, increase, round_elapsed).master_mode == s.master_mode,
        after_switch_to_delay(s, since_last_switch_ns).master_mode == s.master_mode,
        after_switch_to_xtcp(s).master_mode == s.master_mode,
        after_role_switch(s, master, accepted) == s,
{
}

/// A trip into the delay rule and back leaves a cross-TCP flow as it was,
/// except that Copa's counters start afresh.
pub proof fn lemma_delay_round_trip(s: ControlState, since_last_switch_ns: u128)
    requires
        delay_switch_allowed(s, since_last_switch_ns),
    ensures
        after_switch_to_xtcp(after_switch_to_delay(s, since_last_switch_ns)) == (ControlState {
            velocity: 1,
            cur_direction: 0,
            prev_direction: 0,
            ..s
        }),
{
}

/// A master runs the cross-TCP rule once it finds the cross traffic
/// elastic, and the delay rule once it finds it inelastic (the switch into
/// the delay rule waiting out the hold-off), provided switching is on.
pub proof fn lemma_master_follows_elasticity(
    s: ControlState,
    signals: ElasticitySignals,
    since_last_switch_ns: u128,
)
    requires
        s.master_mode,
        s.use_switching,
    ensures
        ({
            let t = after_rule_change(
                s,
                mode_switch_plan(true, s.flow_mode, signals).rule,
                since_last_switch_ns,
            );
            &&& signals.elastic ==> t.flow_mode == FlowMode::XTCP
            &&& !signals.elastic && signals.inelastic && (s.flow_mode == FlowMode::Delay
                || since_last_switch_ns >= SWITCH_HOLDOFF_NS) ==> t.flow_mode == FlowMode::Delay
            &&& !signals.elastic && !signals.inelastic ==> t == s
        }),
{
}

/// Whatever rule it runs, a master yields to a stronger master exactly when
/// it sees one, and never asks to become master; its whole plan does not
/// depend on the rule it runs. A slave asks to become master exactly when it
/// sees no master, and never asks to become slave.
pub proof fn lemma_role_plans(m: FlowMode, n: FlowMode, signals: ElasticitySignals)
    ensures
        mode_switch_plan(true, m, signals).role == RoleChange::ToSlave <==> signals.other_master,
        mode_switch_plan(true, m, signals).role != RoleChange::ToMaster,
        mode_switch_plan(true, m, signals) == mode_switch_plan(true, n, signals),
        mode_switch_plan(false, m, signals).role == RoleChange::ToMaster <==> signals.no_master,
        mode_switch_plan(false, m, signals).role != RoleChange::ToSlave,
        !signals.master_changed_rule ==> mode_switch_plan(false, m, signals).rule
            == RuleChange::Keep,
{
}

/// A Copa decision that does not close a round only moves the current
/// count by one, so any number of them within a round leaves the velocity
/// as it was; closing a round moves the count into the previous one,
/// starts the count afresh, and sets the velocity to 1 or to the old
/// velocity doubled (at most 32).
pub proof fn lemma_copa_step_effect(s: ControlState, increase: bool, round_elapsed: bool)
    requires
        s.wf(),
        i64::MIN < s.cur_direction < i64::MAX,
    ensures
        ({
            let cur = s.cur_direction + if increase { 1int } else { -1int };
            let t = after_copa_step(s, increase, round_elapsed);
            &&& !round_elapsed ==> t.velocity == s.velocity && t.prev_direction
                == s.prev_direction && t.cur_direction == cur
            &&& round_elapsed ==> t.cur_direction == 0 && t.prev_direction == cur && (t.velocity
                == 1 || t.velocity == (if 2 * s.velocity > 32 {
                32
            } else {
                2 * s.velocity
            }))
            &&& t.flow_mode == s.flow_mode && t.master_mode == s.master_mode
        }),
        forall|k: nat| #[trigger] repeat_open_round(s, increase, k).velocity == s.velocity,
{
    assert forall|k: nat| #[trigger] repeat_open_round(
        s,
        increase,
        k,
    ).velocity == s.velocity by {
        lemma_open_rounds_keep_velocity(s, increase, k);
    }
}

/// `k` Copa decisions in the same direction that do not close a round.
pub open spec fn repeat_open_round(s: ControlState, increase: bool, k: nat) -> ControlState
    decreases k,
{
    if k == 0 {
        s
    } else {
        after_copa_step(repeat_open_round(s, increase, (k - 1) as nat), increase, false)
    }
}

proof fn lemma_open_rounds_keep_velocity(s: ControlState, increase: bool, k: nat)
    ensures
        repeat_open_round(s, increase, k).velocity == s.velocity,
        repeat_open_round(s, increase, k).prev_direction == s.prev_direction,
    decreases k,
{
    if k > 0 {
        lemma_open_rounds_keep_velocity(s, increase, (k - 1) as nat);
    }
}

/// Within the hold-off no switch into the delay rule happens; once it has
/// passed, a cross-TCP flow with switching on always enters the delay rule.
pub proof fn lemma_delay_holdoff(s: ControlState, since_last_switch_ns: u128)
    ensures
        since_last_switch_ns < 5_000_000_000 ==> after_switch_to_delay(s, since_last_switch_ns)
            == s,
        since_last_switch_ns >= 5_000_000_000 && s.use_switching && s.flow_mode == FlowMode::XTCP
            ==> after_switch_to_delay(s, since_last_switch_ns).flow_mode == FlowMode::Delay,
        after_switch_to_delay(s, since_last_switch_ns).master_mode == s.master_mode,
{
}

/// The role changes only on an accepted draw with role switching allowed:
/// a rejected draw leaves the state as it was, and an accepted one sets
/// exactly the requested role and nothing else.
pub proof fn lemma_role_switch_needs_draw(s: ControlState, master: bool, accepted: bool)
    ensures
        !accepted ==> after_role_switch(s, master, accepted) == s,
        !s.switching_master ==> after_role_switch(s, master, accepted) == s,
        s.switching_master && accepted ==> after_role_switch(s, master, accepted).master_mode
            == master,
        after_role_switch(s, master, accepted).master_mode != s.master_mode ==> s.switching_master
            && accepted,
        after_role_switch(s, master, accepted).flow_mode == s.flow_mode,
        after_role_switch(s, master, accepted).velocity == s.velocity,
{
}

/// A Copa round whose direction flipped, or was neutral, drops the
/// velocity back to 1; one whose direction held never lowers it.
pub proof fn lemma_copa_round_velocity(s: ControlState, increase: bool)
    requires
        s.wf(),
        i64::MIN < s.cur_direction < i64::MAX,
    ensures
        ({
            let cur = s.cur_direction + if increase { 1int } else { -1int };
            let t = after_copa_step(s, increase, true);
            &&& (s.prev_direction > 0 && cur > 0) || (s.prev_direction < 0 && cur < 0)
                ==> t.velocity >= s.velocity
            &&& !((s.prev_direction > 0 && cur > 0) || (s.prev_direction < 0 && cur < 0))
                ==> t.velocity == 1
        }),
{
}

} // verus!
