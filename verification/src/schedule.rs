//! The mint schedule: a piecewise-constant mint rate over block heights.
//!
//! A schedule is a list of segments. Each segment names the last block it
//! covers and the amount minted in every block it covers. The rate at a block
//! is that of the first segment that ends at or after the block; beyond the
//! last segment nothing is minted.

use vstd::prelude::*;

verus! {

/// One segment of a schedule: up to and including `end_block`,
/// `mint_per_block` is minted in every block.
#[derive(Clone, Copy, Debug, PartialEq, Eq)]
pub struct ScheduleUnit {
    pub end_block: u64,
    pub mint_per_block: u128,
}

pub type Schedule = Vec<ScheduleUnit>;

/// Segments come in the order of their end blocks.
pub open spec fn is_sorted(s: Seq<ScheduleUnit>) -> bool {
    forall|i: int, j: int| 0 <= i < j < s.len() ==> s[i].end_block <= s[j].end_block
}

/// Segments come in the order of their end blocks and no two end at the same
/// block.
pub open spec fn is_strictly_sorted(s: Seq<ScheduleUnit>) -> bool {
    forall|i: int, j: int| 0 <= i < j < s.len() ==> s[i].end_block < s[j].end_block
}

/// The test "this segment ends at `end_block`".
pub open spec fn ends_at(end_block: u64) -> spec_fn(ScheduleUnit) -> bool {
    |unit: ScheduleUnit| unit.end_block == end_block
}

/// `a` and `b` hold the same segments, and the segments that end at one and
/// the same block stand in the same order in both.
pub open spec fn same_segments(a: Seq<ScheduleUnit>, b: Seq<ScheduleUnit>) -> bool {
    forall|end_block: u64| #[trigger] a.filter(ends_at(end_block)) == b.filter(ends_at(end_block))
}

/// The amount minted in block `block`: the rate of the first segment that
/// ends at or after it, and nothing when there is no such segment.
pub open spec fn rate_at(s: Seq<ScheduleUnit>, block: int) -> int
    decreases s.len(),
{
    if s.len() == 0 {
        0
    } else if block <= s[0].end_block {
        s[0].mint_per_block as int
    } else {
        rate_at(s.drop_first(), block)
    }
}

/// The amount minted after block `from_block` up to and including block
/// `to_block`.
pub open spec fn minted_between(s: Seq<ScheduleUnit>, from_block: int, to_block: int) -> int
    decreases to_block - from_block,
{
    if to_block <= from_block {
        0
    } else {
        minted_between(s, from_block, to_block - 1) + rate_at(s, to_block)
    }
}

/// Exchanging two neighbours that end at different blocks keeps the segments
/// of every end block, in their order.
proof fn lemma_swap_keeps_segments(s: Seq<ScheduleUnit>, j: int)
    requires
        0 < j < s.len(),
        s[j - 1].end_block != s[j].end_block,
    ensures
        same_segments(s.update(j - 1, s[j]).update(j, s[j - 1]), s),
{
    let swapped = s.update(j - 1, s[j]).update(j, s[j - 1]);
    let head = s.subrange(0, j - 1);
    let tail = s.subrange(j + 1, s.len() as int);
    let pair = seq![s[j - 1], s[j]];
    let riap = seq![s[j], s[j - 1]];
    assert(s =~= head + pair + tail);
    assert(swapped =~= head + riap + tail);
    assert forall|end_block: u64| #[trigger]
        swapped.filter(ends_at(end_block)) == s.filter(ends_at(end_block)) by {
        let test = ends_at(end_block);
        Seq::filter_distributes_over_add(head + pair, tail, test);
        Seq::filter_distributes_over_add(head, pair, test);
        Seq::filter_distributes_over_add(head + riap, tail, test);
        Seq::filter_distributes_over_add(head, riap, test);
        reveal_with_fuel(Seq::filter, 3);
        assert(pair.drop_last() =~= seq![s[j - 1]]);
        assert(riap.drop_last() =~= seq![s[j]]);
        assert(pair.drop_last().drop_last() =~= Seq::<ScheduleUnit>::empty());
        assert(riap.drop_last().drop_last() =~= Seq::<ScheduleUnit>::empty());
        assert(pair.filter(test) =~= riap.filter(test));
    }
}

/// Sorts the schedule by end block. Segments that end at the same block keep
/// their order; a sorted schedule is left as it is.
pub fn sort_schedule(s: &mut Schedule)
    ensures
        is_sorted(final(s)@),
        same_segments(final(s)@, old(s)@),
        final(s)@.len() == old(s)@.len(),
        is_sorted(old(s)@) ==> final(s)@ == old(s)@,
{
    let ghost initial = s@;
    let n = s.len();
    let mut i: usize = 1;
    while i < n
        invariant
            n == s@.len(),
            n == initial.len(),
            1 <= i,
            forall|a: int, b: int| 0 <= a < b < i && b < n ==> s@[a].end_block <= s@[b].end_block,
            same_segments(s@, initial),
            is_sorted(initial) ==> s@ == initial,
        decreases n - i,
    {
        let mut j: usize = i;
        while j > 0 && s[j - 1].end_block > s[j].end_block
            invariant
                n == s@.len(),
                n == initial.len(),
                j <= i < n,
                forall|a: int, b: int|
                    0 <= a < b <= i && a != j && b != j ==> s@[a].end_block <= s@[b].end_block,
                forall|b: int| j < b <= i ==> s@[j as int].end_block <= s@[b].end_block,
                same_segments(s@, initial),
                is_sorted(initial) ==> s@ == initial,
            decreases j,
        {
            let ghost before = s@;
            let left = s[j - 1];
            let right = s[j];
            s[j - 1] = right;
            s[j] = left;
            proof {
                lemma_swap_keeps_segments(before, j as int);
                assert(s@ == before.update(j - 1, before[j as int]).update(
                    j as int,
                    before[j - 1],
                ));
            }
            j -= 1;
        }
        i += 1;
    }
}

/// Whether no two segments of a sorted schedule end at the same block.
pub fn has_unique_end_blocks(s: &Schedule) -> (unique: bool)
    requires
        is_sorted(s@),
    ensures
        unique == is_strictly_sorted(s@),
{
    let mut i: usize = 1;
    while i < s.len()
        invariant
            1 <= i,
            is_sorted(s@),
            forall|a: int| 0 < a < i && a < s@.len() ==> s@[a - 1].end_block < #[trigger] s@[a].end_block,
        decreases s@.len() - i,
    {
        if s[i - 1].end_block >= s[i].end_block {
            return false;
        }
        i += 1;
    }
    proof {
        assert forall|a: int, b: int| 0 <= a < b < s@.len() implies s@[a].end_block
            < s@[b].end_block by {
            assert(s@[b - 1].end_block < s@[b].end_block);
            assert(a < b - 1 ==> s@[a].end_block <= s@[b - 1].end_block);
        }
    }
    true
}

/// Within a segment that no earlier segment reaches into, the rate is the
/// segment's own.
proof fn lemma_rate_in_segment(s: Seq<ScheduleUnit>, i: int, block: int)
    requires
        0 <= i < s.len(),
        forall|j: int| 0 <= j < i ==> s[j].end_block < block,
        block <= s[i].end_block,
    ensures
        rate_at(s, block) == s[i].mint_per_block,
    decreases i,
{
    if i > 0 {
        let rest = s.drop_first();
        assert(s[0].end_block < block);
        assert forall|j: int| 0 <= j < i - 1 implies rest[j].end_block < block by {
            assert(rest[j] == s[j + 1]);
        }
        lemma_rate_in_segment(rest, i - 1, block);
    }
}

/// Beyond the end of every segment nothing is minted.
proof fn lemma_rate_beyond_schedule(s: Seq<ScheduleUnit>, block: int)
    requires
        forall|j: int| 0 <= j < s.len() ==> s[j].end_block < block,
    ensures
        rate_at(s, block) == 0,
    decreases s.len(),
{
    if s.len() > 0 {
        let rest = s.drop_first();
        assert(s[0].end_block < block);
        assert forall|j: int| 0 <= j < rest.len() implies rest[j].end_block < block by {
            assert(rest[j] == s[j + 1]);
        }
        lemma_rate_beyond_schedule(rest, block);
    }
}

/// No block mints a negative amount.
pub proof fn lemma_rate_nonnegative(s: Seq<ScheduleUnit>, block: int)
    ensures
        0 <= rate_at(s, block),
    decreases s.len(),
{
    if s.len() > 0 && block > s[0].end_block {
        lemma_rate_nonnegative(s.drop_first(), block);
    }
}

/// No range of blocks mints a negative amount.
pub proof fn lemma_minted_nonnegative(s: Seq<ScheduleUnit>, from_block: int, to_block: int)
    ensures
        0 <= minted_between(s, from_block, to_block),
    decreases to_block - from_block,
{
    if to_block > from_block {
        lemma_minted_nonnegative(s, from_block, to_block - 1);
        lemma_rate_nonnegative(s, to_block);
    }
}

/// What is minted over a range is what is minted over its two parts.
pub proof fn lemma_minted_splits(s: Seq<ScheduleUnit>, from_block: int, mid_block: int, to_block: int)
    requires
        from_block <= mid_block <= to_block,
    ensures
        minted_between(s, from_block, to_block) == minted_between(s, from_block, mid_block)
            + minted_between(s, mid_block, to_block),
    decreases to_block - mid_block,
{
    if mid_block < to_block {
        lemma_minted_splits(s, from_block, mid_block, to_block - 1);
    }
}

/// Over a range of constant rate, the amount minted is the rate times the
/// number of blocks.
proof fn lemma_minted_at_constant_rate(s: Seq<ScheduleUnit>, from_block: int, to_block: int, rate: int)
    requires
        from_block <= to_block,
        forall|block: int| from_block < block <= to_block ==> rate_at(s, block) == rate,
    ensures
        minted_between(s, from_block, to_block) == (to_block - from_block) * rate,
    decreases to_block - from_block,
{
    if from_block < to_block {
        lemma_minted_at_constant_rate(s, from_block, to_block - 1, rate);
        assert((to_block - from_block) * rate == (to_block - 1 - from_block) * rate + rate)
            by (nonlinear_arith);
    } else {
        assert((to_block - from_block) * rate == 0) by (nonlinear_arith)
            requires
                to_block == from_block,
        ;
    }
}

/// No block mints more than the highest rate of the schedule.
pub proof fn lemma_rate_bounded(s: Seq<ScheduleUnit>, block: int, bound: int)
    requires
        0 <= bound,
        forall|i: int| 0 <= i < s.len() ==> s[i].mint_per_block <= bound,
    ensures
        rate_at(s, block) <= bound,
    decreases s.len(),
{
    if s.len() > 0 {
        assert(s[0].mint_per_block <= bound);
        if block > s[0].end_block {
            let rest = s.drop_first();
            assert forall|i: int| 0 <= i < rest.len() implies rest[i].mint_per_block <= bound by {
                assert(rest[i] == s[i + 1]);
            }
            lemma_rate_bounded(rest, block, bound);
        }
    }
}

/// A range of blocks mints no more than its length times the highest rate
/// of the schedule.
pub proof fn lemma_minted_bounded(s: Seq<ScheduleUnit>, from_block: int, to_block: int, bound: int)
    requires
        from_block <= to_block,
        0 <= bound,
        forall|i: int| 0 <= i < s.len() ==> s[i].mint_per_block <= bound,
    ensures
        minted_between(s, from_block, to_block) <= (to_block - from_block) * bound,
    decreases to_block - from_block,
{
    if from_block < to_block {
        lemma_minted_bounded(s, from_block, to_block - 1, bound);
        lemma_rate_bounded(s, to_block, bound);
        assert((to_block - from_block) * bound == (to_block - 1 - from_block) * bound + bound)
            by (nonlinear_arith);
    } else {
        assert((to_block - from_block) * bound == 0) by (nonlinear_arith)
            requires
                to_block == from_block,
        ;
    }
}

/// Over a stretch of at most 2^63 blocks, a schedule whose rates fit in 64
/// bits mints an amount that fits in 128 bits.
pub proof fn lemma_integral_fits(s: Seq<ScheduleUnit>, from_block: u64, to_block: u64)
    requires
        from_block <= to_block,
        to_block - from_block <= 0x8000_0000_0000_0000,
        forall|i: int| 0 <= i < s.len() ==> s[i].mint_per_block <= u64::MAX,
    ensures
        minted_between(s, from_block as int, to_block as int) <= u128::MAX,
{
    let length = to_block - from_block;
    lemma_minted_bounded(s, from_block as int, to_block as int, u64::MAX as int);
    assert(length * (u64::MAX as int) <= u128::MAX) by (nonlinear_arith)
        requires
            0 <= length <= 0x8000_0000_0000_0000,
    ;
}

/// The total minted after `from_block` up to and including `to_block`, or
/// `None` when that total does not fit in 128 bits.
pub fn integrate(schedule: &Schedule, from_block: u64, to_block: u64) -> (total: Option<u128>)
    ensures
        total is Some <==> minted_between(schedule@, from_block as int, to_block as int)
            <= u128::MAX,
        total is Some ==> total->0 == minted_between(
            schedule@,
            from_block as int,
            to_block as int,
        ),
{
    let ghost s = schedule@;
    if from_block >= to_block {
        return Some(0);
    }
    let mut last: u64 = from_block;
    let mut minted: u128 = 0;
    let mut i: usize = 0;
    while i < schedule.len()
        invariant
            s == schedule@,
            i <= s.len(),
            from_block <= last < to_block,
            minted == minted_between(s, from_block as int, last as int),
            forall|j: int| 0 <= j < i ==> s[j].end_block <= last,
        decreases s.len() - i,
    {
        let unit = schedule[i];
        if last < unit.end_block {
            let reach: u64 = if to_block > unit.end_block {
                unit.end_block
            } else {
                to_block
            };
            let blocks: u128 = (reach - last) as u128;
            proof {
                assert forall|block: int| last < block <= reach implies rate_at(s, block)
                    == unit.mint_per_block by {
                    lemma_rate_in_segment(s, i as int, block);
                }
                lemma_minted_at_constant_rate(s, last as int, reach as int, unit.mint_per_block as int);
                lemma_minted_splits(s, from_block as int, last as int, reach as int);
                lemma_minted_splits(s, from_block as int, reach as int, to_block as int);
                lemma_minted_nonnegative(s, reach as int, to_block as int);
            }
            let amount = match blocks.checked_mul(unit.mint_per_block) {
                Some(amount) => amount,
                None => {
                    return None;
                },
            };
            minted = match minted.checked_add(amount) {
                Some(sum) => sum,
                None => {
                    return None;
                },
            };
            if to_block <= unit.end_block {
                return Some(minted);
            }
            last = unit.end_block;
        }
        i += 1;
    }
    proof {
        assert forall|block: int| last < block <= to_block implies rate_at(s, block) == 0 by {
            lemma_rate_beyond_schedule(s, block);
        }
        lemma_minted_at_constant_rate(s, last as int, to_block as int, 0);
        lemma_minted_splits(s, from_block as int, last as int, to_block as int);
    }
    Some(minted)
}

} // verus!
