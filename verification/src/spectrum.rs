//! Length of the sample window handed to the FFT: the measurement count of
//! the analysis period rounded up to a power of two.

use vstd::prelude::*;
use vstd::arithmetic::power2::{
    pow2,
    lemma_pow2_pos,
    lemma_pow2_unfold,
    lemma_pow2_strictly_increases,
    lemma2_to64,
};

verus! {

/// Number of binary digits of `n` (zero has none).
pub open spec fn bit_length(n: nat) -> nat
    decreases n,
{
    if n == 0 {
        0
    } else {
        1 + bit_length(n / 2)
    }
}

/// `x` is `2^k` for some `k`.
pub open spec fn is_power_of_two(x: int) -> bool {
    exists|k: nat| pow2(k) == x
}

/// Least power of two that is at least `n` (one for zero).
pub open spec fn next_power_of_two(n: nat) -> nat {
    if n <= 1 {
        1
    } else {
        pow2(bit_length((n - 1) as nat))
    }
}

/// Largest window length whose next power of two is still an `i32`.
pub open spec fn max_exact_window() -> int {
    0x4000_0000
}

/// What `fft_length` gives for `n`: the next power of two, except that
/// lengths past 2^30 wrap to `i32::MIN`, which is also kept as it is.
pub open spec fn spec_fft_length(n: int) -> int {
    if n == i32::MIN {
        i32::MIN as int
    } else if 0 <= n <= max_exact_window() {
        next_power_of_two(n as nat) as int
    } else {
        i32::MIN as int
    }
}

proof fn lemma_pow2_le(a: nat, b: nat)
    requires
        a <= b,
    ensures
        pow2(a) <= pow2(b),
{
    if a < b {
        lemma_pow2_strictly_increases(a, b);
    }
}

/// A positive `n` lies between the two powers of two around its bit length.
pub proof fn lemma_bit_length_bounds(n: nat)
    requires
        n > 0,
    ensures
        bit_length(n) >= 1,
        pow2((bit_length(n) - 1) as nat) <= n < pow2(bit_length(n)),
    decreases n,
{
    if n / 2 == 0 {
        assert(n == 1);
        assert(bit_length(0) == 0);
        assert(bit_length(1) == 1);
        lemma2_to64();
    } else {
        lemma_bit_length_bounds(n / 2);
        let b = bit_length(n / 2);
        assert(bit_length(n) == b + 1);
        lemma_pow2_unfold(b + 1);
        if b >= 1 {
            lemma_pow2_unfold(b);
        }
        assert(pow2(b) <= n) by {
            if b >= 1 {
                assert(pow2(b) == 2 * pow2((b - 1) as nat));
            } else {
                lemma2_to64();
            }
        }
    }
}

/// The bit length is the one exponent `k` with `2^(k-1) <= n < 2^k`.
pub proof fn lemma_bit_length_unique(n: nat, k: nat)
    requires
        k >= 1,
        pow2((k - 1) as nat) <= n < pow2(k),
    ensures
        bit_length(n) == k,
{
    lemma_pow2_pos((k - 1) as nat);
    lemma_bit_length_bounds(n);
    let b = bit_length(n);
    if b < k {
        lemma_pow2_le(b, (k - 1) as nat);
    } else if b > k {
        lemma_pow2_le(k, (b - 1) as nat);
    }
}

/// The window length for `n` samples is a power of two that holds all `n`
/// samples, and no smaller power of two does: for `n >= 2` it is below `2n`.
pub proof fn lemma_next_power_of_two_is_least(n: nat)
    ensures
        is_power_of_two(next_power_of_two(n) as int),
        n <= next_power_of_two(n),
        n >= 2 ==> next_power_of_two(n) < 2 * n,
        n >= 2 ==> next_power_of_two(n) / 2 < n,
{
    if n <= 1 {
        lemma2_to64();
        assert(pow2(0) == 1);
    } else {
        let m: nat = (n - 1) as nat;
        lemma_bit_length_bounds(m);
        let b = bit_length(m);
        lemma_pow2_unfold(b);
        assert(pow2(b) == next_power_of_two(n));
    }
}

/// Rounding up to a power of two twice is rounding up once: a power of two
/// is its own window length.
pub proof fn lemma_next_power_of_two_idempotent(n: nat)
    ensures
        next_power_of_two(next_power_of_two(n)) == next_power_of_two(n),
{
    lemma_next_power_of_two_is_least(n);
    let p = next_power_of_two(n);
    let k = choose|k: nat| pow2(k) == p;
    lemma_power_of_two_fixed(k);
}

/// `2^k` is its own next power of two.
pub proof fn lemma_power_of_two_fixed(k: nat)
    ensures
        next_power_of_two(pow2(k)) == pow2(k),
{
    lemma2_to64();
    if k >= 1 {
        lemma_pow2_unfold(k);
        lemma_pow2_pos((k - 1) as nat);
        if k >= 2 {
            lemma_pow2_unfold((k - 1) as nat);
            lemma_pow2_pos((k - 2) as nat);
        }
        lemma_bit_length_unique((pow2(k) - 1) as nat, k);
    }
}

/// `fft_length` is idempotent on the inputs it accepts.
pub proof fn lemma_fft_length_idempotent(n: int)
    requires
        0 <= n <= max_exact_window() || n == i32::MIN,
    ensures
        spec_fft_length(spec_fft_length(n)) == spec_fft_length(n),
{
    if n != i32::MIN {
        lemma_next_power_of_two_idempotent(n as nat);
        lemma_next_power_of_two_is_least(n as nat);
        let p = next_power_of_two(n as nat);
        let k = choose|k: nat| pow2(k) == p;
        if k > 30 {
            lemma_pow2_le(31, k);
            lemma2_to64();
            if n >= 2 {
                assert(false);
            } else {
                assert(p == 1);
            }
        } else {
            lemma_pow2_le(k, 30);
            lemma2_to64();
        }
    }
}

/// Facts about the leading-zero count of a nonzero `u32`.
proof fn lemma_leading_zeros_bounds(u: u32)
    requires
        u != 0,
    ensures
        u.leading_zeros() < 32,
        pow2((31 - u.leading_zeros()) as nat) <= u,
        u < pow2((32 - u.leading_zeros()) as nat),
{
    vstd::std_specs::bits::axiom_u32_leading_zeros(u);
    let lz = u.leading_zeros();
    let s: u32 = (31 - lz) as u32;
    vstd::bits::lemma_u32_shr_is_div(u, s);
    assert((u >> s) & 1u32 != 0u32);
    assert((u >> s) & 1u32 != 0u32 ==> (u >> s) != 0u32) by (bit_vector);
    lemma_pow2_pos(s as nat);
    assert(u as nat / pow2(s as nat) >= 1);
    assert(pow2(s as nat) <= u) by (nonlinear_arith)
        requires
            u as nat / pow2(s as nat) >= 1,
            pow2(s as nat) > 0,
    ;
    if lz >= 1 {
        let t: u32 = (32 - lz) as u32;
        vstd::bits::lemma_u32_shr_is_div(u, t);
        assert(u >> t == 0);
        lemma_pow2_pos(t as nat);
        assert(u < pow2(t as nat)) by (nonlinear_arith)
            requires
                u as nat / pow2(t as nat) == 0,
                pow2(t as nat) > 0,
        ;
    } else {
        lemma2_to64();
    }
}

/// Length of the FFT window for `n` measurements: `n` itself when it is a
/// power of two, else the next higher power of two, as the bit-twiddling
/// `1 << (32 - leading_zeros)` computes it (past 2^30 this lands on the
/// sign bit).
pub fn fft_length(n: i32) -> (r: i32)
    requires
        n >= 0 || n == i32::MIN,
    ensures
        r as int == spec_fft_length(n as int),
{
    let u: u32 = n as u32;
    if n == i32::MIN {
        assert(n as u32 == 0x8000_0000u32) by (bit_vector)
            requires
                n == i32::MIN,
        ;
    }
    let lz: u32 = u.leading_zeros();
    if u == 0 {
        proof {
            vstd::std_specs::bits::axiom_u32_leading_zeros(u);
            lemma2_to64();
        }
        assert(1u32 << 0u32 == 1u32) by (bit_vector);
        return 1;
    }
    proof {
        lemma_leading_zeros_bounds(u);
    }
    let top: u32 = 1u32 << (31 - lz);
    proof {
        vstd::bits::lemma_u32_shl_is_mul(1u32, (31 - lz) as u32);
    }
    if top == u {
        // `n` is a power of two (the sign bit counts as one).
        proof {
            if n != i32::MIN {
                let k: nat = (31 - lz) as nat;
                if k == 0 {
                    lemma2_to64();
                } else {
                    lemma_pow2_pos((k - 1) as nat);
                    lemma_pow2_unfold(k);
                    lemma_bit_length_unique((n - 1) as nat, k);
                }
                assert(n < 0x8000_0000);
                lemma2_to64();
            }
        }
        n
    } else {
        let k: u32 = 32 - lz;
        proof {
            lemma2_to64();
        }
        if k == 32 {
            assert(false);
        }
        let r: u32 = 1u32 << k;
        proof {
            vstd::bits::lemma_u32_shl_is_mul(1u32, k);
            lemma_bit_length_unique((n - 1) as nat, k as nat);
            if k <= 30 {
                lemma_pow2_le(k as nat, 30);
            } else {
                lemma_pow2_le(30, (31 - lz) as nat);
            }
        }
        if k == 31 {
            assert(r == 0x8000_0000u32);
            assert((0x8000_0000u32) as i32 == i32::MIN) by (bit_vector);
        }
        r as i32
    }
}

/// Whether sample `i` of a window of `window_len` measurements has its
/// aligned partner inside the window: the cross-traffic sample taken two
/// round trips (`rtt_steps` measurement intervals each) after it.
pub open spec fn partner_in_window(i: int, rtt_step: int, window_len: int) -> bool {
    i < window_len && i + 2 * rtt_step < window_len
}

/// Pairs each of the first `n` samples of a window with the cross-traffic
/// sample two round trips later: `Some` list of partner indices when every
/// sample and its partner lie in the window, `None` (give up this analysis)
/// otherwise. `rtt_steps[i]` is sample `i`'s round trip in measurement
/// intervals.
pub fn align_samples(n: i32, window_len: usize, rtt_steps: &Vec<usize>) -> (r: Option<Vec<usize>>)
    requires
        rtt_steps@.len() >= window_len,
        forall|i: int| 0 <= i < n && i < window_len ==> i + 2 * #[trigger] rtt_steps@[i] <= usize::MAX,
    ensures
        r is Some <==> forall|i: int| 0 <= i < n ==> #[trigger] partner_in_window(i, rtt_steps@[i] as int, window_len as int),
        r matches Some(js) ==> {
            &&& n >= 0 ==> js@.len() == n
            &&& n < 0 ==> js@.len() == 0
            &&& forall|i: int| 0 <= i < js@.len() ==> #[trigger] js@[i] == i + 2 * rtt_steps@[i]
        },
{
    let mut js: Vec<usize> = Vec::new();
    if n <= 0 {
        return Some(js);
    }
    let count: usize = n as usize;
    let mut i: usize = 0;
    while i < count
        invariant
            count == n,
            i <= count,
            rtt_steps@.len() >= window_len,
            forall|k: int| 0 <= k < n && k < window_len ==> k + 2 * #[trigger] rtt_steps@[k] <= usize::MAX,
            js@.len() == i,
            forall|k: int| 0 <= k < i ==> #[trigger] js@[k] == k + 2 * rtt_steps@[k],
            forall|k: int| 0 <= k < i ==> #[trigger] partner_in_window(k, rtt_steps@[k] as int, window_len as int),
        decreases count - i,
    {
        if i >= window_len {
            assert(!partner_in_window(i as int, rtt_steps@[i as int] as int, window_len as int));
            return None;
        }
        let j: usize = i + 2 * rtt_steps[i];
        if j >= window_len {
            assert(!partner_in_window(i as int, rtt_steps@[i as int] as int, window_len as int));
            return None;
        }
        js.push(j);
        i = i + 1;
    }
    Some(js)
}

} // verus!
