//! Batch sizes and the cut of an entity's records into pages.
use crate::database::pagination::PaginationOptions;
use vstd::prelude::*;

verus! {

/// Bytes in one mebibyte.
pub const MEBIBYTE: u64 = 1_048_576;

/// Bytes in one kibibyte.
pub const KIBIBYTE: u64 = 1024;

/// The logical batch size and the fetch granularity hinted to the source.
#[derive(Debug, Clone, Copy, PartialEq, Eq, Structural)]
pub struct BatchingOptions {
    pub batch_size: u64,
    pub cursor_batch_size: u64,
}

pub open spec fn to_mb_spec(size: int) -> int {
    size * 1_048_576
}

/// `size` mebibytes, in bytes.
pub fn to_mb(size: u64) -> (bytes: u64)
    requires
        to_mb_spec(size as int) <= u64::MAX,
    ensures
        bytes == to_mb_spec(size as int),
{
    size * MEBIBYTE
}

/// Bytes to aim for in one batch, by the average size of a record: small
/// records get large batches to amortise I/O, huge records get small batches
/// to bound memory.
pub open spec fn optimal_target_bytes_spec(average_document_size: int) -> int {
    if average_document_size < 1024 {
        to_mb_spec(75)
    } else if average_document_size < 10 * 1024 {
        to_mb_spec(50)
    } else if average_document_size < 100 * 1024 {
        to_mb_spec(30)
    } else if average_document_size < 500 * 1024 {
        to_mb_spec(15)
    } else {
        to_mb_spec(5)
    }
}

pub fn calculate_optimal_target_bytes(average_document_size: u64) -> (target: u64)
    ensures
        target == optimal_target_bytes_spec(average_document_size as int),
{
    if average_document_size < KIBIBYTE {
        return to_mb(75);
    }
    if average_document_size < 10 * KIBIBYTE {
        return to_mb(50);
    }
    if average_document_size < 100 * KIBIBYTE {
        return to_mb(30);
    }
    if average_document_size < 500 * KIBIBYTE {
        return to_mb(15);
    }
    to_mb(5)
}

/// The least whole number that is at least 1.2 times `batch_size`.
pub open spec fn aligned_cursor_spec(batch_size: int) -> int {
    (6 * batch_size + 4) / 5
}

/// `aligned_cursor_spec` is the ceiling of `6 * batch_size / 5`: the least
/// `c` with `5 * c >= 6 * batch_size`.
pub proof fn lemma_aligned_cursor_is_ceiling(batch_size: int)
    requires
        batch_size >= 0,
    ensures
        5 * aligned_cursor_spec(batch_size) >= 6 * batch_size,
        5 * (aligned_cursor_spec(batch_size) - 1) < 6 * batch_size,
{
}

/// The cursor batch size that goes with a logical batch size: 1.2 times it,
/// rounded up, and capped at the largest `u64`.
pub fn aligned_batch_cursor_size(batch_size: u64) -> (cursor_batch_size: u64)
    ensures
        cursor_batch_size == if aligned_cursor_spec(batch_size as int) <= u64::MAX {
            aligned_cursor_spec(batch_size as int)
        } else {
            u64::MAX as int
        },
{
    let fifth: u64 = batch_size / 5;
    let extra: u64 = if batch_size % 5 == 0 {
        fifth
    } else {
        fifth + 1
    };
    if extra > u64::MAX - batch_size {
        u64::MAX
    } else {
        batch_size + extra
    }
}

/// The batch size that fills `target_bytes` with records of
/// `average_document_size` bytes, and at least one record.
pub open spec fn adaptive_batch_size_spec(average_document_size: int, target_bytes: int) -> int
    recommends
        average_document_size > 0,
{
    let count = target_bytes / average_document_size;
    if count < 1 {
        1
    } else {
        count
    }
}

/// The bytes aimed for: the caller's own target where there is one, else the
/// one that goes with the average record size.
pub open spec fn effective_target_bytes_spec(
    average_document_size: int,
    target_bytes: Option<u64>,
) -> int {
    match target_bytes {
        Some(bytes) => bytes as int,
        None => optimal_target_bytes_spec(average_document_size),
    }
}

/// Sizes a batch by the average size of the entity's records.
pub fn setup_adaptive_batching(average_document_size: u64, target_bytes: Option<u64>) -> (options:
    BatchingOptions)
    requires
        average_document_size > 0,
    ensures
        options.batch_size == adaptive_batch_size_spec(
            average_document_size as int,
            effective_target_bytes_spec(average_document_size as int, target_bytes),
        ),
        options.cursor_batch_size == if aligned_cursor_spec(options.batch_size as int)
            <= u64::MAX {
            aligned_cursor_spec(options.batch_size as int)
        } else {
            u64::MAX as int
        },
{
    let target: u64 = match target_bytes {
        Some(bytes) => bytes,
        None => calculate_optimal_target_bytes(average_document_size),
    };
    let optimal_document_count: u64 = target / average_document_size;
    let batch_size: u64 = if optimal_document_count < 1 {
        1
    } else {
        optimal_document_count
    };
    let cursor_batch_size = aligned_batch_cursor_size(batch_size);
    BatchingOptions { batch_size, cursor_batch_size }
}

/// The number of batches of `batch_size` records that hold `total` records.
pub open spec fn batch_count_spec(total: int, batch_size: int) -> int
    recommends
        batch_size > 0,
{
    (total + batch_size - 1) / batch_size
}

/// The page of the batch with the given index.
pub open spec fn batch_at_spec(total: int, batch_size: int, index: int) -> PaginationOptions
    recommends
        batch_size > 0,
        0 <= index < batch_count_spec(total, batch_size),
{
    let start = index * batch_size;
    let remaining = total - start;
    PaginationOptions {
        start_position: start as u64,
        limit: (if batch_size < remaining {
            batch_size
        } else {
            remaining
        }) as u64,
    }
}

/// All pages of an entity, in ascending order of their start.
pub open spec fn plan_spec(total: int, batch_size: int) -> Seq<PaginationOptions>
    recommends
        batch_size > 0,
        total >= 0,
{
    Seq::new(
        batch_count_spec(total, batch_size) as nat,
        |index: int| batch_at_spec(total, batch_size, index),
    )
}

/// Facts about the quotient that counts the batches.
pub proof fn lemma_batch_count_bounds(total: int, batch_size: int)
    requires
        total >= 0,
        batch_size > 0,
    ensures
        batch_count_spec(total, batch_size) >= 0,
        (batch_count_spec(total, batch_size) - 1) * batch_size < total || total == 0,
        batch_count_spec(total, batch_size) * batch_size >= total,
        total == 0 <==> batch_count_spec(total, batch_size) == 0,
        batch_count_spec(total, batch_size) <= total,
{
    let count = batch_count_spec(total, batch_size);
    assert(count * batch_size <= total + batch_size - 1 < count * batch_size + batch_size)
        by (nonlinear_arith)
        requires
            count == (total + batch_size - 1) / batch_size,
            batch_size > 0,
    ;
    assert(count >= 0) by (nonlinear_arith)
        requires
            total + batch_size - 1 < count * batch_size + batch_size,
            total >= 0,
            batch_size > 0,
    ;
    assert((count - 1) * batch_size == count * batch_size - batch_size) by (nonlinear_arith);
    assert(count <= total) by (nonlinear_arith)
        requires
            count * batch_size <= total + batch_size - 1,
            batch_size >= 1,
            count >= 0,
            total >= 0,
    ;
    if total == 0 {
        assert(count == 0) by (nonlinear_arith)
            requires
                count * batch_size <= batch_size - 1,
                count >= 0,
                batch_size > 0,
        ;
    }
    if count == 0 {
        assert(count * batch_size == 0) by (nonlinear_arith)
            requires
                count == 0,
        ;
    }
}

/// How many batches an entity with `total` records is cut into.
pub fn batch_count(total: u64, batch_size: u64) -> (count: u64)
    requires
        batch_size > 0,
    ensures
        count == batch_count_spec(total as int, batch_size as int),
{
    let whole: u64 = total / batch_size;
    let rest: u64 = total % batch_size;
    proof {
        let t = total as int;
        let b = batch_size as int;
        lemma_batch_count_bounds(t, b);
        assert(t == b * (t / b) + t % b) by (nonlinear_arith)
            requires
                b > 0,
        ;
        let c = batch_count_spec(t, b);
        assert(c * b <= t + b - 1 < c * b + b) by (nonlinear_arith)
            requires
                c == (t + b - 1) / b,
                b > 0,
        ;
        if t % b == 0 {
            assert(c == t / b) by (nonlinear_arith)
                requires
                    c * b <= t + b - 1 < c * b + b,
                    t == b * (t / b),
                    b > 0,
            ;
        } else {
            assert(c == t / b + 1) by (nonlinear_arith)
                requires
                    c * b <= t + b - 1 < c * b + b,
                    t == b * (t / b) + t % b,
                    0 < t % b < b,
                    b > 0,
            ;
        }
    }
    if rest == 0 {
        whole
    } else {
        whole + 1
    }
}

/// The page of the batch with the given index, or `None` past the last batch.
pub fn batch_at(total: u64, batch_size: u64, index: u64) -> (page: Option<PaginationOptions>)
    requires
        batch_size > 0,
    ensures
        page.is_some() <==> index < batch_count_spec(total as int, batch_size as int),
        page.is_some() ==> page.unwrap() == batch_at_spec(
            total as int,
            batch_size as int,
            index as int,
        ),
        page.is_some() ==> page.unwrap().start_position == index * batch_size,
        page.is_some() ==> 0 < page.unwrap().limit <= batch_size,
        page.is_some() ==> page.unwrap().start_position + page.unwrap().limit <= total,
{
    let count = batch_count(total, batch_size);
    if index >= count {
        return None;
    }
    proof {
        let t = total as int;
        let b = batch_size as int;
        let c = count as int;
        let i = index as int;
        lemma_batch_count_bounds(t, b);
        assert(i * b <= (c - 1) * b) by (nonlinear_arith)
            requires
                0 <= i <= c - 1,
                b > 0,
        ;
        assert(i * b >= 0) by (nonlinear_arith)
            requires
                i >= 0,
                b > 0,
        ;
    }
    let start: u64 = index * batch_size;
    let remaining: u64 = total - start;
    let limit: u64 = if batch_size < remaining {
        batch_size
    } else {
        remaining
    };
    Some(PaginationOptions { start_position: start, limit })
}

/// Cuts an entity of `total` records into pages of at most `batch_size`
/// records, in ascending order of their start.
pub fn plan_batches(total: u64, batch_size: u64) -> (plan: Vec<PaginationOptions>)
    requires
        batch_size > 0,
    ensures
        plan@ == plan_spec(total as int, batch_size as int),
{
    let count = batch_count(total, batch_size);
    let mut plan: Vec<PaginationOptions> = Vec::new();
    let mut index: u64 = 0;
    while index < count
        invariant
            batch_size > 0,
            count == batch_count_spec(total as int, batch_size as int),
            index <= count,
            plan@.len() == index,
            forall|k: int|
                0 <= k < index ==> plan@[k] == batch_at_spec(total as int, batch_size as int, k),
        decreases count - index,
    {
        let page = batch_at(total, batch_size, index);
        plan.push(page.unwrap());
        index = index + 1;
    }
    assert(plan@ =~= plan_spec(total as int, batch_size as int));
    plan
}

/// The records that a read of `page` returns from an entity whose records,
/// in the stable order of the read, are `source`: at most `limit` of them,
/// starting with the one at `start_position`.
pub open spec fn read_window<T>(source: Seq<T>, page: PaginationOptions) -> Seq<T> {
    let from = if page.start_position <= source.len() {
        page.start_position as int
    } else {
        source.len() as int
    };
    let to = if page.end() <= source.len() {
        page.end()
    } else {
        source.len() as int
    };
    source.subrange(from, to)
}

/// What the pages of `plan` return, one page after the other.
pub open spec fn concat_windows<T>(source: Seq<T>, plan: Seq<PaginationOptions>) -> Seq<T>
    decreases plan.len(),
{
    if plan.len() == 0 {
        Seq::empty()
    } else {
        concat_windows(source, plan.drop_last()) + read_window(source, plan.last())
    }
}

/// Every page of the plan starts at its index times the batch size, holds at
/// least one record and at most `batch_size`, and ends within the entity.
pub proof fn lemma_plan_pages(total: int, batch_size: int, index: int)
    requires
        0 <= total <= u64::MAX,
        batch_size > 0,
        0 <= index < batch_count_spec(total, batch_size),
    ensures
        plan_spec(total, batch_size)[index].well_formed(),
        plan_spec(total, batch_size)[index].start_position == index * batch_size,
        0 < plan_spec(total, batch_size)[index].limit <= batch_size,
        plan_spec(total, batch_size)[index].end() <= total,
        index + 1 < batch_count_spec(total, batch_size) ==> plan_spec(
            total,
            batch_size,
        )[index].limit == batch_size,
        index + 1 == batch_count_spec(total, batch_size) ==> plan_spec(
            total,
            batch_size,
        )[index].end() == total,
{
    let count = batch_count_spec(total, batch_size);
    lemma_batch_count_bounds(total, batch_size);
    assert(index * batch_size <= (count - 1) * batch_size) by (nonlinear_arith)
        requires
            0 <= index <= count - 1,
            batch_size > 0,
    ;
    assert(index * batch_size >= 0) by (nonlinear_arith)
        requires
            index >= 0,
            batch_size > 0,
    ;
    if index + 1 < count {
        assert((index + 1) * batch_size <= (count - 1) * batch_size) by (nonlinear_arith)
            requires
                index + 1 <= count - 1,
                batch_size > 0,
        ;
        assert((index + 1) * batch_size == index * batch_size + batch_size)
            by (nonlinear_arith);
    } else {
        assert(count * batch_size == index * batch_size + batch_size) by (nonlinear_arith)
            requires
                count == index + 1,
        ;
    }
}

/// Within an entity the pages start in ascending order, and none starts
/// before the one before it ends.
pub proof fn lemma_plan_ascending(total: int, batch_size: int, earlier: int, later: int)
    requires
        0 <= total <= u64::MAX,
        batch_size > 0,
        0 <= earlier < later < batch_count_spec(total, batch_size),
    ensures
        plan_spec(total, batch_size)[earlier].start_position < plan_spec(
            total,
            batch_size,
        )[later].start_position,
        plan_spec(total, batch_size)[earlier].end() <= plan_spec(
            total,
            batch_size,
        )[later].start_position,
{
    lemma_plan_pages(total, batch_size, earlier);
    lemma_plan_pages(total, batch_size, later);
    assert((earlier + 1) * batch_size <= later * batch_size) by (nonlinear_arith)
        requires
            earlier + 1 <= later,
            batch_size > 0,
    ;
    assert((earlier + 1) * batch_size == earlier * batch_size + batch_size) by (nonlinear_arith);
}

/// Pagination coverage, position by position: each position of the entity
/// lies in the page whose index is the position divided by the batch size,
/// and in no other page of the plan.
pub proof fn lemma_each_position_in_one_page(total: int, batch_size: int, position: int)
    requires
        0 <= position < total <= u64::MAX,
        batch_size > 0,
    ensures
        0 <= position / batch_size < plan_spec(total, batch_size).len(),
        plan_spec(total, batch_size)[position / batch_size].covers(position),
        forall|k: int|
            0 <= k < plan_spec(total, batch_size).len() && #[trigger] plan_spec(
                total,
                batch_size,
            )[k].covers(position) ==> k == position / batch_size,
{
    let count = batch_count_spec(total, batch_size);
    let home = position / batch_size;
    lemma_batch_count_bounds(total, batch_size);
    assert(home * batch_size <= position < home * batch_size + batch_size && home >= 0)
        by (nonlinear_arith)
        requires
            home == position / batch_size,
            position >= 0,
            batch_size > 0,
    ;
    assert(home < count) by (nonlinear_arith)
        requires
            home * batch_size <= position,
            position < total,
            count * batch_size >= total,
            batch_size > 0,
    ;
    lemma_plan_pages(total, batch_size, home);
    assert forall|k: int|
        0 <= k < plan_spec(total, batch_size).len() && #[trigger] plan_spec(
            total,
            batch_size,
        )[k].covers(position) implies k == home by {
        lemma_plan_pages(total, batch_size, k);
        assert(k == home) by (nonlinear_arith)
            requires
                k * batch_size <= position < k * batch_size + batch_size,
                home * batch_size <= position < home * batch_size + batch_size,
                batch_size > 0,
        ;
    }
}

/// What the first `pages` pages of the plan return is the start of the
/// entity's records, up to the end of the last of those pages.
proof fn lemma_concat_prefix<T>(source: Seq<T>, batch_size: int, pages: int)
    requires
        source.len() <= u64::MAX,
        batch_size > 0,
        0 <= pages <= batch_count_spec(source.len() as int, batch_size),
    ensures
        concat_windows(source, plan_spec(source.len() as int, batch_size).take(pages))
            == source.subrange(
            0,
            if pages * batch_size <= source.len() {
                pages * batch_size
            } else {
                source.len() as int
            },
        ),
    decreases pages,
{
    let total = source.len() as int;
    let plan = plan_spec(total, batch_size);
    if pages == 0 {
        assert(0 * batch_size == 0) by (nonlinear_arith);
        assert(concat_windows(source, plan.take(0)) =~= source.subrange(0, 0));
    } else {
        lemma_concat_prefix(source, batch_size, pages - 1);
        lemma_plan_pages(total, batch_size, pages - 1);
        lemma_batch_count_bounds(total, batch_size);
        assert(pages * batch_size == (pages - 1) * batch_size + batch_size) by (nonlinear_arith);
        assert(plan.take(pages).drop_last() =~= plan.take(pages - 1));
        assert(plan.take(pages).last() == plan[pages - 1]);
        let before = (pages - 1) * batch_size;
        let after = if pages * batch_size <= total {
            pages * batch_size
        } else {
            total
        };
        assert(plan[pages - 1].end() == after);
        assert(read_window(source, plan[pages - 1]) == source.subrange(before, after));
        assert(source.subrange(0, before) + source.subrange(before, after) =~= source.subrange(
            0,
            after,
        ));
    }
}

/// Pagination coverage: read page after page, the plan returns exactly the
/// entity's records, each once and none missing.
pub proof fn lemma_pagination_covers<T>(source: Seq<T>, batch_size: int)
    requires
        source.len() <= u64::MAX,
        batch_size > 0,
    ensures
        concat_windows(source, plan_spec(source.len() as int, batch_size)) == source,
{
    let total = source.len() as int;
    let plan = plan_spec(total, batch_size);
    let count = batch_count_spec(total, batch_size);
    lemma_batch_count_bounds(total, batch_size);
    lemma_concat_prefix(source, batch_size, count);
    assert(plan.take(count) =~= plan);
    assert(source.subrange(0, total) =~= source);
}

} // verus!
