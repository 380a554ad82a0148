//! The three mode enums (flow mode, delay-based rule, loss-based rule) and
//! their parsers from the names that the command line accepts.

use vstd::prelude::*;

verus! {

/// Which of the two congestion control rules a flow currently follows.
#[derive(Clone, Copy, Debug, PartialEq, Eq, Structural)]
pub enum FlowMode {
    /// Competing cross traffic is elastic: run the loss-based rule.
    XTCP,
    /// Cross traffic is inelastic: run the delay-based rule.
    Delay,
}

/// The delay-based rule used while the flow is in `FlowMode::Delay`.
#[derive(Clone, Copy, Debug, PartialEq, Eq, Structural)]
pub enum DelayMode {
    Copa,
    Nimbus,
    Vegas,
}

/// The loss-based rule used while the flow is in `FlowMode::XTCP`.
#[derive(Clone, Copy, Debug, PartialEq, Eq, Structural)]
pub enum LossMode {
    Cubic,
    MulTCP,
}

/// Why a mode name was refused; each variant carries the refused input.
#[derive(Debug)]
pub enum ModeParseError {
    UnknownFlowMode(String),
    UnknownDelayMode(String),
    UnknownLossMode(String),
}

/// Text of a flow mode's name.
pub open spec fn flow_mode_name(m: FlowMode) -> Seq<char> {
    match m {
        FlowMode::XTCP => seq!['X', 'T', 'C', 'P'],
        FlowMode::Delay => seq!['D', 'e', 'l', 'a', 'y'],
    }
}

/// Text of a delay mode's name.
pub open spec fn delay_mode_name(m: DelayMode) -> Seq<char> {
    match m {
        DelayMode::Copa => seq!['C', 'o', 'p', 'a'],
        DelayMode::Nimbus => seq!['N', 'i', 'm', 'b', 'u', 's'],
        DelayMode::Vegas => seq!['V', 'e', 'g', 'a', 's'],
    }
}

/// Text of a loss mode's name.
pub open spec fn loss_mode_name(m: LossMode) -> Seq<char> {
    match m {
        LossMode::Cubic => seq!['C', 'u', 'b', 'i', 'c'],
        LossMode::MulTCP => seq!['M', 'u', 'l', 'T', 'C', 'P'],
    }
}

/// Byte-wise equality of two byte slices.
fn bytes_equal(a: &[u8], b: &[u8]) -> (r: bool)
    ensures
        r == (a@ == b@),
{
    if a.len() != b.len() {
        return false;
    }
    let mut i: usize = 0;
    while i < a.len()
        invariant
            a@.len() == b@.len(),
            i <= a@.len(),
            forall|k: int| 0 <= k < i ==> a@[k] == b@[k],
        decreases a@.len() - i,
    {
        if a[i] != b[i] {
            return false;
        }
        i = i + 1;
    }
    assert(a@ =~= b@);
    true
}

/// Equality of two string slices, by their characters.
fn str_equal(a: &str, b: &str) -> (r: bool)
    ensures
        r == (a@ == b@),
{
    let r = bytes_equal(a.as_bytes(), b.as_bytes());
    proof {
        vstd::utf8::encode_utf8_decode_utf8(a@);
        vstd::utf8::encode_utf8_decode_utf8(b@);
    }
    r
}

impl FlowMode {
    /// Parses a flow mode from its exact, case-sensitive name.
    pub fn from_str(s: &str) -> (r: Result<FlowMode, ModeParseError>)
        ensures
            r matches Ok(m) ==> s@ == flow_mode_name(m),
            forall|m: FlowMode| s@ == flow_mode_name(m) ==> (r matches Ok(k) && k == m),
            r is Err <==> (forall|m: FlowMode| s@ != flow_mode_name(m)),
            r matches Err(e) ==> (e matches ModeParseError::UnknownFlowMode(t) && t@ == s@),
    {
        proof {
            reveal_strlit("XTCP");
            reveal_strlit("Delay");
            assert("XTCP"@ =~= flow_mode_name(FlowMode::XTCP));
            assert("Delay"@ =~= flow_mode_name(FlowMode::Delay));
            assert forall|m: FlowMode, n: FlowMode| flow_mode_name(m) == flow_mode_name(n) implies m == n by {
                lemma_flow_mode_names(m, n);
            }
        }
        if str_equal(s, "XTCP") {
            Ok(FlowMode::XTCP)
        } else if str_equal(s, "Delay") {
            Ok(FlowMode::Delay)
        } else {
            proof {
                assert forall|m: FlowMode| s@ != flow_mode_name(m) by {
                    match m {
                        FlowMode::XTCP => {},
                        FlowMode::Delay => {},
                    }
                }
            }
            Err(ModeParseError::UnknownFlowMode(s.to_owned()))
        }
    }
}

impl DelayMode {
    /// Parses a delay mode from its exact, case-sensitive name.
    pub fn from_str(s: &str) -> (r: Result<DelayMode, ModeParseError>)
        ensures
            r matches Ok(m) ==> s@ == delay_mode_name(m),
            forall|m: DelayMode| s@ == delay_mode_name(m) ==> (r matches Ok(k) && k == m),
            r is Err <==> (forall|m: DelayMode| s@ != delay_mode_name(m)),
            r matches Err(e) ==> (e matches ModeParseError::UnknownDelayMode(t) && t@ == s@),
    {
        proof {
            reveal_strlit("Copa");
            reveal_strlit("Nimbus");
            reveal_strlit("Vegas");
            assert("Copa"@ =~= delay_mode_name(DelayMode::Copa));
            assert("Nimbus"@ =~= delay_mode_name(DelayMode::Nimbus));
            assert("Vegas"@ =~= delay_mode_name(DelayMode::Vegas));
            assert forall|m: DelayMode, n: DelayMode| delay_mode_name(m) == delay_mode_name(n) implies m == n by {
                lemma_delay_mode_names(m, n);
            }
        }
        if str_equal(s, "Copa") {
            Ok(DelayMode::Copa)
        } else if str_equal(s, "Nimbus") {
            Ok(DelayMode::Nimbus)
        } else if str_equal(s, "Vegas") {
            Ok(DelayMode::Vegas)
        } else {
            proof {
                assert forall|m: DelayMode| s@ != delay_mode_name(m) by {
                    match m {
                        DelayMode::Copa => {},
                        DelayMode::Nimbus => {},
                        DelayMode::Vegas => {},
                    }
                }
            }
            Err(ModeParseError::UnknownDelayMode(s.to_owned()))
        }
    }
}

impl LossMode {
    /// Parses a loss mode from its exact, case-sensitive name.
    pub fn from_str(s: &str) -> (r: Result<LossMode, ModeParseError>)
        ensures
            r matches Ok(m) ==> s@ == loss_mode_name(m),
            forall|m: LossMode| s@ == loss_mode_name(m) ==> (r matches Ok(k) && k == m),
            r is Err <==> (forall|m: LossMode| s@ != loss_mode_name(m)),
            r matches Err(e) ==> (e matches ModeParseError::UnknownLossMode(t) && t@ == s@),
    {
        proof {
            reveal_strlit("Cubic");
            reveal_strlit("MulTCP");
            assert("Cubic"@ =~= loss_mode_name(LossMode::Cubic));
            assert("MulTCP"@ =~= loss_mode_name(LossMode::MulTCP));
            assert forall|m: LossMode, n: LossMode| loss_mode_name(m) == loss_mode_name(n) implies m == n by {
                lemma_loss_mode_names(m, n);
            }
        }
        if str_equal(s, "Cubic") {
            Ok(LossMode::Cubic)
        } else if str_equal(s, "MulTCP") {
            Ok(LossMode::MulTCP)
        } else {
            proof {
                assert forall|m: LossMode| s@ != loss_mode_name(m) by {
                    match m {
                        LossMode::Cubic => {},
                        LossMode::MulTCP => {},
                    }
                }
            }
            Err(ModeParseError::UnknownLossMode(s.to_owned()))
        }
    }
}

/// The names of distinct flow modes differ.
pub proof fn lemma_flow_mode_names(m: FlowMode, n: FlowMode)
    ensures
        flow_mode_name(m) == flow_mode_name(n) <==> m == n,
{
    assert(flow_mode_name(FlowMode::XTCP).len() != flow_mode_name(FlowMode::Delay).len());
}

/// The names of distinct delay modes differ.
pub proof fn lemma_delay_mode_names(m: DelayMode, n: DelayMode)
    ensures
        delay_mode_name(m) == delay_mode_name(n) <==> m == n,
{
    assert(delay_mode_name(DelayMode::Copa).len() != delay_mode_name(DelayMode::Nimbus).len());
    assert(delay_mode_name(DelayMode::Copa).len() != delay_mode_name(DelayMode::Vegas).len());
    assert(delay_mode_name(DelayMode::Nimbus)[0] != delay_mode_name(DelayMode::Vegas)[0]);
}

/// The names of distinct loss modes differ.
pub proof fn lemma_loss_mode_names(m: LossMode, n: LossMode)
    ensures
        loss_mode_name(m) == loss_mode_name(n) <==> m == n,
{
    assert(loss_mode_name(LossMode::Cubic).len() != loss_mode_name(LossMode::MulTCP).len());
}

} // verus!
