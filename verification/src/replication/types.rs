//! How records travel from the source to the destination.
use crate::database::pagination::PaginationOptions;
use crate::mask::Mask;
use crate::replication::batching::{
    concat_windows, lemma_pagination_covers, plan_spec, read_window,
};
use crate::text::str_equal;
use vstd::prelude::*;

verus! {

/// What happens to a record between the read and the write.
#[derive(Debug, Clone, Copy, PartialEq, Eq, Structural)]
pub enum ReplicationStrategy {
    /// Records pass through unchanged.
    Clone,
    /// Each record is masked before it is written.
    Mask,
}

/// What a batch may look like after the strategy has been applied to it:
/// under `Clone` it is unchanged, under `Mask` each record is a masked form
/// of the record that stood in its place.
pub open spec fn strategy_applied<T: Mask>(
    strategy: ReplicationStrategy,
    before: Seq<T>,
    after: Seq<T>,
) -> bool {
    match strategy {
        ReplicationStrategy::Clone => after == before,
        ReplicationStrategy::Mask => after.len() == before.len() && forall|i: int|
            #![trigger before[i]]
            #![trigger after[i]]
            0 <= i < before.len() ==> before[i].masks_to(&after[i]),
    }
}

/// Applies the strategy to a batch of records, in place.
pub fn apply_strategy<T: Mask>(strategy: ReplicationStrategy, records: &mut Vec<T>)
    ensures
        strategy_applied(strategy, old(records)@, final(records)@),
{
    match strategy {
        ReplicationStrategy::Clone => {},
        ReplicationStrategy::Mask => {
            let mut position: usize = 0;
            while position < records.len()
                invariant
                    position <= records@.len(),
                    records@.len() == old(records)@.len(),
                    forall|i: int|
                        0 <= i < position ==> (#[trigger] old(records)@[i]).masks_to(&records@[i]),
                    forall|i: int|
                        position <= i < records@.len() ==> records@[i] == old(records)@[i],
                decreases records.len() - position,
            {
                records[position].mask();
                position = position + 1;
            }
        },
    }
}

/// `rayon::iter::ParallelIterator::for_each` over
/// `rayon::iter::IntoParallelRefMutIterator::par_iter_mut`: runs `mask` on
/// each record of the batch, once, on the threads of the pool.
#[verifier::external_body]
fn mask_each_in_parallel<T: Mask + Send>(records: &mut Vec<T>)
    ensures
        strategy_applied(ReplicationStrategy::Mask, old(records)@, final(records)@),
{
    rayon::iter::ParallelIterator::for_each(
        rayon::iter::IntoParallelRefMutIterator::par_iter_mut(records),
        T::mask,
    );
}

/// Applies the strategy to a batch of records, in place; records are
/// masked side by side on the threads of the pool.
pub fn apply_strategy_in_parallel<T: Mask + Send>(
    strategy: ReplicationStrategy,
    records: &mut Vec<T>,
)
    ensures
        strategy_applied(strategy, old(records)@, final(records)@),
{
    match strategy {
        ReplicationStrategy::Clone => {},
        ReplicationStrategy::Mask => {
            mask_each_in_parallel(records);
        },
    }
}

/// The lowercase form of a text, as the Unicode character tables define it.
pub uninterp spec fn lowercase_of(text: Seq<char>) -> Seq<char>;

/// `str::to_lowercase`: the lowercase equivalent of the text, as a new
/// string.
#[verifier::external_body]
fn to_lowercase(text: &str) -> (lower: String)
    ensures
        lower@ == lowercase_of(text@),
{
    text.to_lowercase()
}

/// The strategy that a lowercase word names, or the complaint about a word
/// that names none.
pub open spec fn strategy_of_word(word: Seq<char>) -> Result<ReplicationStrategy, Seq<char>> {
    if word == "clone"@ {
        Ok(ReplicationStrategy::Clone)
    } else if word == "mask"@ {
        Ok(ReplicationStrategy::Mask)
    } else {
        Err(word + " is not a supported replication strategy."@)
    }
}

/// Whether the outcome of reading a strategy is the one that `expected`
/// describes.
pub open spec fn strategy_outcome_is(
    outcome: Result<ReplicationStrategy, String>,
    expected: Result<ReplicationStrategy, Seq<char>>,
) -> bool {
    match outcome {
        Ok(strategy) => expected == Ok::<ReplicationStrategy, Seq<char>>(strategy),
        Err(complaint) => expected == Err::<ReplicationStrategy, Seq<char>>(complaint@),
    }
}

impl ReplicationStrategy {
    /// Reads a strategy from a word in lowercase: `clone` or `mask`.
    pub fn from_lowercase(word: &str) -> (outcome: Result<ReplicationStrategy, String>)
        ensures
            strategy_outcome_is(outcome, strategy_of_word(word@)),
    {
        if str_equal(word, "clone") {
            Ok(ReplicationStrategy::Clone)
        } else if str_equal(word, "mask") {
            Ok(ReplicationStrategy::Mask)
        } else {
            let mut complaint = word.to_owned();
            complaint.append(" is not a supported replication strategy.");
            Err(complaint)
        }
    }

    /// Reads a strategy from its name, whatever the case of its letters.
    pub fn try_from(value: String) -> (outcome: Result<ReplicationStrategy, String>)
        ensures
            strategy_outcome_is(outcome, strategy_of_word(lowercase_of(value@))),
    {
        let lower = to_lowercase(value.as_str());
        ReplicationStrategy::from_lowercase(lower.as_str())
    }

    /// Whether records are masked on their way.
    pub fn masks(&self) -> (masks: bool)
        ensures
            masks == (*self == ReplicationStrategy::Mask),
    {
        match self {
            ReplicationStrategy::Clone => false,
            ReplicationStrategy::Mask => true,
        }
    }
}

/// Masking boundary: where every masked form of a record satisfies
/// `is_masked`, every record of a batch that went through `Mask` satisfies
/// it; and where no record of a batch satisfies it, none does after the
/// batch went through `Clone`.
pub proof fn lemma_masking_boundary<T: Mask>(
    strategy: ReplicationStrategy,
    before: Seq<T>,
    after: Seq<T>,
    is_masked: spec_fn(T) -> bool,
)
    requires
        strategy_applied(strategy, before, after),
        strategy == ReplicationStrategy::Mask ==> forall|record: T, masked: T|
            #[trigger] record.masks_to(&masked) ==> is_masked(masked),
        strategy == ReplicationStrategy::Clone ==> forall|i: int|
            0 <= i < before.len() ==> !is_masked(#[trigger] before[i]),
    ensures
        after.len() == before.len(),
        strategy == ReplicationStrategy::Mask ==> forall|i: int|
            0 <= i < after.len() ==> is_masked(#[trigger] after[i]),
        strategy == ReplicationStrategy::Clone ==> forall|i: int|
            0 <= i < after.len() ==> !is_masked(#[trigger] after[i]),
{
    if strategy == ReplicationStrategy::Mask {
        assert forall|i: int| 0 <= i < after.len() implies is_masked(#[trigger] after[i]) by {
            assert(before[i].masks_to(&after[i]));
        }
    }
}

/// What the destination holds of an entity once the batches in `written`
/// have been appended to it, one after the other.
pub open spec fn appended<T>(written: Seq<Seq<T>>) -> Seq<T>
    decreases written.len(),
{
    if written.len() == 0 {
        Seq::empty()
    } else {
        appended(written.drop_last()) + written.last()
    }
}

/// Whether `written` holds, page by page of `plan`, what the strategy made
/// of the records that the page reads from `source`.
pub open spec fn run_of<T: Mask>(
    strategy: ReplicationStrategy,
    source: Seq<T>,
    plan: Seq<PaginationOptions>,
    written: Seq<Seq<T>>,
) -> bool {
    written.len() == plan.len() && forall|k: int|
        0 <= k < plan.len() ==> strategy_applied(
            strategy,
            read_window(source, #[trigger] plan[k]),
            written[k],
        )
}

/// Under `Clone` the batches written for a plan are the pages of the plan.
proof fn lemma_clone_run_is_windows<T: Mask>(
    source: Seq<T>,
    plan: Seq<PaginationOptions>,
    written: Seq<Seq<T>>,
)
    requires
        run_of(ReplicationStrategy::Clone, source, plan, written),
    ensures
        appended(written) == concat_windows(source, plan),
    decreases plan.len(),
{
    if plan.len() > 0 {
        let front = plan.drop_last();
        let written_front = written.drop_last();
        assert(run_of(ReplicationStrategy::Clone, source, front, written_front)) by {
            assert forall|k: int| 0 <= k < front.len() implies strategy_applied(
                ReplicationStrategy::Clone,
                read_window(source, #[trigger] front[k]),
                written_front[k],
            ) by {
                assert(front[k] == plan[k]);
            }
        }
        lemma_clone_run_is_windows(source, front, written_front);
        assert(plan.last() == plan[plan.len() - 1]);
    }
}

/// Completeness under `Clone`: when every batch of the plan for an entity
/// has been read, passed through `Clone` and appended to a cleared
/// destination, the destination holds exactly the entity's records: as many
/// as the source, and each equal to the source's.
pub proof fn lemma_clone_is_complete<T: Mask>(
    source: Seq<T>,
    batch_size: int,
    written: Seq<Seq<T>>,
)
    requires
        source.len() <= u64::MAX,
        batch_size > 0,
        run_of(
            ReplicationStrategy::Clone,
            source,
            plan_spec(source.len() as int, batch_size),
            written,
        ),
    ensures
        appended(written) == source,
        appended(written).len() == source.len(),
{
    lemma_clone_run_is_windows(source, plan_spec(source.len() as int, batch_size), written);
    lemma_pagination_covers(source, batch_size);
}

} // verus!
