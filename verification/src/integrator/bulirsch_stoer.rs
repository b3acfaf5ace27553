//! The integer skeleton of the Bulirsch–Stoer scheme: the sub-step sequence
//! and the polynomial-extrapolation tableau.
use vstd::prelude::*;

verus! {

/// Number of entries in the sub-step sequence; also the most refinement
/// rounds one step may try.
pub const MAX_TRIES: usize = 20;

/// Sub-step counts used for refinement round `r`.
pub const SEQUENCE: [u8; 20] = [
    2, 4, 6, 8, 10, 12, 14, 16, 18, 20, 22, 24, 26, 28, 30, 32, 34, 36, 38, 40,
];

/// The sub-step count of round `r`: the even numbers 2, 4, ..., 40.
pub open spec fn substeps_spec(r: int) -> int {
    2 * (r + 1)
}

/// The sub-step counts grow strictly from one refinement round to the next.
pub proof fn lemma_substeps_increase(a: int, b: int)
    requires
        0 <= a < b < MAX_TRIES,
    ensures
        2 <= substeps_spec(a) < substeps_spec(b) <= 40,
{
}

/// Every refinement that extrapolation makes in round `r` against the entry
/// of an earlier round `r - c - 1` sees a sub-step ratio above one, so the
/// factor `ratio * ratio - 1` it divides by is never zero.
pub proof fn lemma_refinement_ratio_above_one(r: int, c: int)
    requires
        0 <= c < r < MAX_TRIES,
    ensures
        0 <= r - c - 1 < r,
        2 <= substeps_spec(r - c - 1) < substeps_spec(r) <= 40,
{
    lemma_substeps_increase(r - c - 1, r);
}

/// Sub-step count of refinement round `r`.
pub fn substeps(r: usize) -> (n: u8)
    requires
        r < MAX_TRIES,
    ensures
        n == substeps_spec(r as int),
{
    assert(SEQUENCE@ =~= seq![2u8, 4, 6, 8, 10, 12, 14, 16, 18, 20, 22, 24, 26, 28, 30, 32, 34, 36, 38, 40]);
    SEQUENCE[r]
}

/// The number of refinement rounds actually tried: the request, capped at
/// the length of the sub-step sequence.
pub fn clamp_tries(n_try: usize) -> (k: usize)
    ensures
        k == (if n_try > MAX_TRIES { MAX_TRIES } else { n_try }),
        k <= MAX_TRIES,
{
    if n_try > MAX_TRIES { MAX_TRIES } else { n_try }
}

/// One row of polynomial extrapolation.
///
/// `t_prevs` holds the previous row of the tableau (one entry per earlier
/// round), `t_next` the fresh estimate of round `r`. Walking the row, each
/// entry is replaced by the running estimate and the estimate is refined
/// against the old entry with `refine(estimate, old, n_r, n_k)`, where
/// `n_r`, `n_k` are the sub-step counts of round `r` and of the entry's round;
/// the final estimate is appended.
pub fn extrapolate<T: Copy, F: Fn(T, T, u8, u8) -> T>(
    t_prevs: &mut Vec<T>,
    t_next: T,
    r: usize,
    refine: &F,
)
    requires
        old(t_prevs).len() <= r < MAX_TRIES,
        forall|a: T, b: T, nr: u8, nk: u8| call_requires(*refine, (a, b, nr, nk)),
    ensures
        final(t_prevs).len() == old(t_prevs).len() + 1,
        final(t_prevs)[0] == t_next,
        forall|c: int|
            #![trigger old(t_prevs)[c]]
            0 <= c < old(t_prevs).len() ==> call_ensures(
                *refine,
                (
                    final(t_prevs)[c],
                    old(t_prevs)[c],
                    substeps_spec(r as int) as u8,
                    substeps_spec(r - c - 1) as u8,
                ),
                final(t_prevs)[c + 1],
            ),
{
    let ghost old_row = t_prevs@;
    let n = t_prevs.len();
    let ghost t_first = t_next;
    let mut t_next = t_next;
    for c in 0..n
        invariant
            n == old_row.len(),
            n <= r < MAX_TRIES,
            forall|a: T, b: T, nr: u8, nk: u8| call_requires(*refine, (a, b, nr, nk)),
            t_prevs.len() == n,
            forall|k: int| c <= k < n ==> #[trigger] t_prevs@[k] == old_row[k],
            c == 0 ==> t_next == t_first,
            c > 0 ==> t_prevs@[0] == t_first,
            forall|k: int|
                #![trigger old_row[k]]
                0 <= k < c ==> call_ensures(
                    *refine,
                    (
                        t_prevs@[k],
                        old_row[k],
                        substeps_spec(r as int) as u8,
                        substeps_spec(r - k - 1) as u8,
                    ),
                    if k + 1 < c { t_prevs@[k + 1] } else { t_next },
                ),
    {
        let n_r = substeps(r);
        let n_k = substeps(r - c - 1);
        let t_prev = t_prevs[c];
        let t_target = refine(t_next, t_prev, n_r, n_k);
        t_prevs.set(c, t_next);
        t_next = t_target;
    }
    t_prevs.push(t_next);
}

} // verus!
