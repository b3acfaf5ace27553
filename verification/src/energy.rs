use vstd::prelude::*;

verus! {

/// A record with no trajectories: nothing to compute an energy from.
#[derive(Debug, Clone, Copy, PartialEq, Eq, Structural)]
pub struct EmptyRecord;

/// Some trajectory has no sample at or around the requested time.
#[derive(Debug, Clone, Copy, PartialEq, Eq, Structural)]
pub struct MissingTime;

/// Where a sample lies relative to a requested time.
#[derive(Debug, Clone, Copy, PartialEq, Eq, Structural)]
pub enum Placement {
    /// Sampled before the requested time (or not comparable with it).
    Before,
    /// Sampled exactly at the requested time.
    At,
    /// Sampled after the requested time.
    After,
}

/// The classifier `place` can answer `p` for the sample `l`.
pub open spec fn placed<L, F: Fn(&L) -> Placement>(place: F, l: &L, p: Placement) -> bool {
    call_ensures(place, (l,), p)
}

/// The line to read at a requested time, searching `path` from `index` on.
///
/// The first sample at or after the requested time is found; its own index
/// is returned when it lies exactly at that time or is the very first
/// sample, otherwise the index before it (the segment that spans the
/// time). `None` when every sample from `index` on lies before the time.
pub fn get_line_idx<L, F: Fn(&L) -> Placement>(path: &[L], index: usize, place: &F) -> (o: Option<
    usize,
>)
    requires
        forall|l: &L| call_requires(*place, (l,)),
    ensures
        o matches Some(i) ==> i < path@.len() && index <= i + 1,
        o is None ==> forall|j: int|
            index <= j < path@.len() ==> #[trigger] placed(*place, &path@[j], Placement::Before),
        o matches Some(i) ==> exists|k: int, p: Placement|
            {
                &&& index <= k < path@.len()
                &&& forall|j: int|
                    index <= j < k ==> #[trigger] placed(*place, &path@[j], Placement::Before)
                &&& placed(*place, &path@[k], p)
                &&& p != Placement::Before
                &&& i == (if k == 0 || p == Placement::At { k } else { k - 1 })
            },
{
    let mut i = index;
    while i < path.len()
        invariant
            forall|l: &L| call_requires(*place, (l,)),
            index <= i,
            forall|j: int| index <= j < i ==> #[trigger] placed(*place, &path@[j], Placement::Before),
        decreases path.len() - i,
    {
        let p = place(&path[i]);
        assert(placed(*place, &path@[i as int], p));
        match p {
            Placement::Before => {},
            Placement::At => {
                return Some(i);
            },
            Placement::After => {
                if i == 0 {
                    return Some(i);
                } else {
                    return Some(i - 1);
                }
            },
        }
        i = i + 1;
    }
    None
}

/// Moves every object's read position to the sample for the current time.
///
/// Objects are visited in order; `locate(i, from)` finds object `i`'s sample
/// searching from its current position `from`. All positions are updated
/// when every object has one; at the first object without one the walk
/// stops with `MissingTime`, the objects before it having been moved and
/// the rest left where they were.
pub fn advance_indices<F: Fn(usize, usize) -> Option<usize>>(
    indices: &mut Vec<usize>,
    locate: &F,
) -> (res: Result<(), MissingTime>)
    requires
        forall|i: usize, from: usize| call_requires(*locate, (i, from)),
    ensures
        final(indices).len() == old(indices).len(),
        res is Ok ==> forall|i: int|
            0 <= i < old(indices).len() ==> call_ensures(
                *locate,
                (i as usize, #[trigger] old(indices)[i]),
                Some(final(indices)[i]),
            ),
        res is Err ==> exists|m: int|
            {
                &&& 0 <= m < old(indices).len()
                &&& call_ensures(*locate, (m as usize, old(indices)[m]), None::<usize>)
                &&& forall|i: int|
                    0 <= i < m ==> call_ensures(
                        *locate,
                        (i as usize, #[trigger] old(indices)[i]),
                        Some(final(indices)[i]),
                    )
                &&& forall|i: int|
                    m <= i < old(indices).len() ==> #[trigger] final(indices)[i] == old(indices)[i]
            },
{
    let ghost start = indices@;
    let n = indices.len();
    for i in 0..n
        invariant
            n == start.len(),
            start == old(indices)@,
            indices.len() == n,
            forall|a: usize, from: usize| call_requires(*locate, (a, from)),
            forall|k: int|
                0 <= k < i ==> call_ensures(
                    *locate,
                    (k as usize, #[trigger] start[k]),
                    Some(indices@[k]),
                ),
            forall|k: int| i <= k < n ==> #[trigger] indices@[k] == start[k],
    {
        match locate(i, indices[i]) {
            Some(idx) => {
                indices.set(i, idx);
            },
            None => {
                assert(call_ensures(*locate, (i as usize, start[i as int]), None::<usize>));
                return Err(MissingTime);
            },
        }
    }
    Ok(())
}

/// Index `i` holds a shortest length, and no earlier index holds one as short.
pub open spec fn is_first_shortest(lengths: Seq<usize>, i: int) -> bool {
    &&& 0 <= i < lengths.len()
    &&& forall|j: int| 0 <= j < lengths.len() ==> lengths[i] <= #[trigger] lengths[j]
    &&& forall|j: int| 0 <= j < i ==> lengths[i] < #[trigger] lengths[j]
}

/// The trajectory whose samples give the time series of a record: the
/// first among the shortest ones; `None` when there is no trajectory.
pub fn shortest_index(lengths: &Vec<usize>) -> (o: Option<usize>)
    ensures
        o is None <==> lengths.len() == 0,
        o matches Some(i) ==> is_first_shortest(lengths@, i as int),
{
    if lengths.len() == 0 {
        return None;
    }
    let mut best: usize = 0;
    for k in 1..lengths.len()
        invariant
            lengths.len() > 0,
            is_first_shortest(lengths@.take(k as int), best as int),
    {
        assert(lengths@.take(k as int + 1).take(k as int) =~= lengths@.take(k as int));
        if lengths[k] < lengths[best] {
            best = k;
        }
        assert(forall|j: int| 0 <= j < k + 1 ==> lengths@.take(k as int + 1)[j] == lengths@[j]);
        assert(forall|j: int| 0 <= j < k ==> lengths@.take(k as int)[j] == lengths@[j]);
    }
    assert(lengths@.take(lengths.len() as int) =~= lengths@);
    Some(best)
}

/// How many trajectories take part in an energy computation: an error for
/// an empty record, otherwise the request capped at the record's size.
pub fn active_objects(n_objects: usize, n_active: usize) -> (res: Result<usize, EmptyRecord>)
    ensures
        res is Err <==> n_objects == 0,
        res matches Ok(k) ==> k == (if n_active > n_objects { n_objects } else { n_active }),
{
    if n_objects == 0 {
        return Err(EmptyRecord);
    }
    if n_active > n_objects {
        Ok(n_objects)
    } else {
        Ok(n_active)
    }
}

} // verus!
