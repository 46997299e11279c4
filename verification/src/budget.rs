//! Token budget planning: how many tokens of prompt context are available,
//! whether a request needs truncation, and which token ranges survive it.

use vstd::prelude::*;

verus! {

/// Tokens left for prompt content once `reserved` tokens are set aside for
/// the model's own output; never negative.
pub open spec fn spec_available(max_context: int, reserved: int) -> int {
    if max_context > reserved {
        max_context - reserved
    } else {
        0
    }
}

/// The prefix's share of a scarce budget: three quarters, rounded down.
pub open spec fn spec_max_prefix(available: int) -> int {
    (3 * available) / 4
}

/// Compute the usable prompt budget from the configured context size and
/// the reserved prediction length.
pub fn available_budget(max_context: usize, reserved: usize) -> (r: usize)
    ensures
        r == spec_available(max_context as int, reserved as int),
{
    if max_context > reserved {
        max_context - reserved
    } else {
        0
    }
}

/// The available budget equals `max(max_context - reserved, 0)` and is
/// never negative, for any nonnegative configuration.
pub proof fn lemma_available_nonnegative(max_context: int, reserved: int)
    requires
        max_context >= 0,
        reserved >= 0,
    ensures
        spec_available(max_context, reserved) >= 0,
        spec_available(max_context, reserved) == vstd::math::max(max_context - reserved, 0),
{
}

/// The suffix's share of a scarce budget: whatever the prefix share leaves.
pub open spec fn spec_max_suffix(available: int) -> int {
    available - spec_max_prefix(available)
}

/// The last `n` elements of `s`, or all of `s` when it is shorter.
pub open spec fn spec_keep_last(s: Seq<u32>, n: int) -> Seq<u32> {
    if s.len() <= n {
        s
    } else {
        s.subrange(s.len() - n, s.len() as int)
    }
}

/// The first `n` elements of `s`, or all of `s` when it is shorter.
pub open spec fn spec_keep_first(s: Seq<u32>, n: int) -> Seq<u32> {
    if s.len() <= n {
        s
    } else {
        s.take(n)
    }
}

/// Prefix tokens that survive truncation: the tail, up to the prefix share.
pub open spec fn spec_kept_prefix(prefix: Seq<u32>, available: int) -> Seq<u32> {
    spec_keep_last(prefix, spec_max_prefix(available))
}

/// Suffix tokens that survive truncation: the head, up to the suffix share.
pub open spec fn spec_kept_suffix(suffix: Seq<u32>, available: int) -> Seq<u32> {
    spec_keep_first(suffix, spec_max_suffix(available))
}

/// Outcome of budget planning: either the request fits as it is, or it must
/// be truncated to the two per-side caps.
#[derive(Clone, Copy, PartialEq, Eq, Structural, Debug)]
pub enum PlanDecision {
    NoTruncation,
    Truncate { max_prefix: usize, max_suffix: usize },
}

/// Decide whether a request with the given token counts fits the available
/// budget. It fits exactly when the counts sum to at most `available`;
/// otherwise the caps split the budget three quarters to the prefix
/// (rounded down) and the remainder to the suffix.
pub fn plan(prefix_len: usize, suffix_len: usize, available: usize) -> (d: PlanDecision)
    ensures
        d is NoTruncation <==> prefix_len + suffix_len <= available,
        match d {
            PlanDecision::NoTruncation => prefix_len + suffix_len <= available,
            PlanDecision::Truncate { max_prefix, max_suffix } => {
                &&& prefix_len + suffix_len > available
                &&& max_prefix == spec_max_prefix(available as int)
                &&& max_suffix == spec_max_suffix(available as int)
            },
        },
{
    let fits = prefix_len <= available && suffix_len <= available - prefix_len;
    if fits {
        PlanDecision::NoTruncation
    } else {
        let max_prefix = (available / 4) * 3 + ((available % 4) * 3) / 4;
        proof {
            lemma_max_prefix_split(available as int);
        }
        PlanDecision::Truncate { max_prefix, max_suffix: available - max_prefix }
    }
}

/// Three quarters of `a`, rounded down, computed without overflow as
/// three times the quotient plus three quarters of the remainder; the
/// result always lies between zero and `a`.
pub proof fn lemma_max_prefix_split(a: int)
    requires
        a >= 0,
    ensures
        spec_max_prefix(a) == (a / 4) * 3 + ((a % 4) * 3) / 4,
        0 <= spec_max_prefix(a) <= a,
{
    let q = a / 4;
    let r = a % 4;
    assert(a == 4 * q + r && 0 <= r < 4 && q >= 0) by (nonlinear_arith)
        requires
            a >= 0,
            q == a / 4,
            r == a % 4,
    ;
    assert((3 * a) / 4 == 3 * q + (3 * r) / 4) by (nonlinear_arith)
        requires
            a == 4 * q + r,
            0 <= r < 4,
    ;
    assert((3 * r) / 4 <= r);
    assert(3 * q + (3 * r) / 4 <= 4 * q + r);
}

/// Keep the last `n` tokens of `tokens` (all of them when fewer).
pub fn keep_last(tokens: &Vec<u32>, n: usize) -> (r: Vec<u32>)
    ensures
        r@ == spec_keep_last(tokens@, n as int),
{
    let len = tokens.len();
    let start = if len <= n {
        0
    } else {
        len - n
    };
    let s = vstd::slice::slice_subrange(tokens.as_slice(), start, len);
    let r = vstd::slice::slice_to_vec(s);
    proof {
        if tokens@.len() <= n {
            assert(tokens@.subrange(0, len as int) =~= tokens@);
        }
    }
    r
}

/// Keep the first `n` tokens of `tokens` (all of them when fewer).
pub fn keep_first(tokens: &Vec<u32>, n: usize) -> (r: Vec<u32>)
    ensures
        r@ == spec_keep_first(tokens@, n as int),
{
    let len = tokens.len();
    let end = if len <= n {
        len
    } else {
        n
    };
    let s = vstd::slice::slice_subrange(tokens.as_slice(), 0, end);
    let r = vstd::slice::slice_to_vec(s);
    proof {
        if tokens@.len() <= n {
            assert(tokens@.subrange(0, len as int) =~= tokens@);
        } else {
            assert(tokens@.subrange(0, n as int) =~= tokens@.take(n as int));
        }
    }
    r
}

/// What survives truncation stays within the budget: the kept counts sum to
/// at most `available`, the kept prefix stays within its three-quarter
/// share, and the kept sequences are a tail of the original prefix and a
/// head of the original suffix.
pub proof fn lemma_truncation_within_budget(prefix: Seq<u32>, suffix: Seq<u32>, available: int)
    requires
        available >= 0,
    ensures
        spec_kept_prefix(prefix, available).len() + spec_kept_suffix(suffix, available).len()
            <= available,
        spec_kept_prefix(prefix, available).len() <= spec_max_prefix(available),
        spec_kept_prefix(prefix, available) == prefix.skip(
            prefix.len() - spec_kept_prefix(prefix, available).len(),
        ),
        spec_kept_suffix(suffix, available) == suffix.take(
            spec_kept_suffix(suffix, available).len() as int,
        ),
{
    lemma_max_prefix_split(available);
    let kp = spec_kept_prefix(prefix, available);
    let ks = spec_kept_suffix(suffix, available);
    assert(kp =~= prefix.skip(prefix.len() - kp.len()));
    assert(ks =~= suffix.take(ks.len() as int));
}

/// With no budget at all, truncation keeps nothing on either side, and no
/// error arises: the degenerate prompt is empty.
pub proof fn lemma_zero_budget_keeps_nothing(prefix: Seq<u32>, suffix: Seq<u32>)
    ensures
        spec_kept_prefix(prefix, 0).len() == 0,
        spec_kept_suffix(suffix, 0).len() == 0,
{
    assert(spec_max_prefix(0) == 0);
}

} // verus!
