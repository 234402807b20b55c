//! Bound on the rows that a partition of a scan hands out.

use vstd::prelude::*;

verus! {

/// How many of the next `rows` rows pass when `remaining` more may: `None` when
/// the batch is dropped because nothing more may pass.
pub open spec fn passing(remaining: nat, rows: nat) -> Option<nat> {
    if remaining == 0 {
        None
    } else if rows <= remaining {
        Some(rows)
    } else {
        Some(remaining)
    }
}

/// How many rows of each batch pass when `remaining` rows may pass in all.
pub open spec fn passing_rows(remaining: nat, batches: Seq<nat>) -> Seq<nat>
    decreases batches.len(),
{
    if batches.len() == 0 {
        seq![]
    } else {
        let passed = match passing(remaining, batches[0]) {
            Some(rows) => rows,
            None => 0,
        };
        seq![passed] + passing_rows((remaining - passed) as nat, batches.drop_first())
    }
}

/// Rows in all batches.
pub open spec fn total_rows(batches: Seq<nat>) -> nat
    decreases batches.len(),
{
    if batches.len() == 0 {
        0
    } else {
        batches[0] + total_rows(batches.drop_first())
    }
}

/// A bound on the rows of a stream of record batches. In eager planning this is
/// only a per-partition bound; the planner remains responsible for enforcing the
/// final global limit.
#[derive(Clone, Copy, Debug, PartialEq, Eq)]
pub struct RowLimit {
    /// How many more rows may pass.
    pub remaining: usize,
}

impl RowLimit {
    pub fn new(limit: usize) -> (bound: Self)
        ensures
            bound.remaining == limit,
    {
        RowLimit { remaining: limit }
    }

    /// Decides on the next batch: `None` drops it, `Some(rows)` hands out its
    /// first `rows` rows.
    pub fn take_rows(&mut self, num_rows: usize) -> (rows: Option<usize>)
        ensures
            match passing(old(self).remaining as nat, num_rows as nat) {
                Some(passed) => {
                    &&& rows matches Some(r)
                    &&& r == passed
                    &&& final(self).remaining == old(self).remaining - passed
                },
                None => rows is None && final(self).remaining == old(self).remaining,
            },
            old(self).remaining == 0 ==> rows is None && final(self).remaining == 0,
            0 < old(self).remaining && num_rows <= old(self).remaining ==> rows == Some(num_rows)
                && final(self).remaining == old(self).remaining - num_rows,
            0 < old(self).remaining < num_rows ==> rows == Some(old(self).remaining)
                && final(self).remaining == 0,
    {
        if self.remaining == 0 {
            None
        } else if num_rows <= self.remaining {
            self.remaining = self.remaining - num_rows;
            Some(num_rows)
        } else {
            let rows = self.remaining;
            self.remaining = 0;
            Some(rows)
        }
    }
}

/// As many rows pass as the stream has, up to the limit.
pub proof fn law_limit_passes_exactly(limit: nat, batches: Seq<nat>)
    ensures
        passing_rows(limit, batches).len() == batches.len(),
        total_rows(passing_rows(limit, batches)) == if total_rows(batches) <= limit {
            total_rows(batches)
        } else {
            limit
        },
    decreases batches.len(),
{
    if batches.len() > 0 {
        let passed = match passing(limit, batches[0]) {
            Some(rows) => rows,
            None => 0,
        };
        let rest = passing_rows((limit - passed) as nat, batches.drop_first());
        law_limit_passes_exactly((limit - passed) as nat, batches.drop_first());
        assert((seq![passed] + rest).drop_first() =~= rest);
    }
}

/// The rows that pass are the first rows of the stream: no batch passes more
/// rows than it has, and once a batch is cut nothing of a later one passes.
pub proof fn law_limit_passes_a_prefix(limit: nat, batches: Seq<nat>, i: int, j: int)
    requires
        0 <= i < batches.len(),
    ensures
        passing_rows(limit, batches).len() == batches.len(),
        passing_rows(limit, batches)[i] <= batches[i],
        i < j < batches.len() && passing_rows(limit, batches)[i] < batches[i] ==> passing_rows(
            limit,
            batches,
        )[j] == 0,
    decreases batches.len(),
{
    let passed = match passing(limit, batches[0]) {
        Some(rows) => rows,
        None => 0,
    };
    let left = (limit - passed) as nat;
    law_limit_passes_exactly(limit, batches);
    law_limit_passes_exactly(left, batches.drop_first());
    if i > 0 {
        law_limit_passes_a_prefix(left, batches.drop_first(), i - 1, j - 1);
    } else if j < batches.len() && 0 < j && passed < batches[0] {
        lemma_exhausted(batches.drop_first(), j - 1);
    }
}

/// Where nothing may pass, nothing does.
proof fn lemma_exhausted(batches: Seq<nat>, j: int)
    requires
        0 <= j < batches.len(),
    ensures
        passing_rows(0, batches).len() == batches.len(),
        passing_rows(0, batches)[j] == 0,
    decreases batches.len(),
{
    law_limit_passes_exactly(0, batches);
    if j > 0 {
        lemma_exhausted(batches.drop_first(), j - 1);
    }
}

/// A batch passes whole while there is room for it, is cut to the room that is
/// left, and is dropped once there is none.
pub proof fn law_batch_passes_up_to_the_room(remaining: nat, rows: nat)
    ensures
        remaining == 0 ==> passing(remaining, rows) is None,
        remaining > 0 ==> (passing(remaining, rows) matches Some(passed) && passed <= rows
            && passed <= remaining && (passed == rows || passed == remaining)),
{
}

}
