//! Completeness of a replication whose tasks end in any order.
//!
//! Tasks run side by side, so the batches reach the destination in no
//! fixed order. What the destination holds in the end does not depend on
//! that order: it holds the records of every batch, each as often as the
//! batches hold it.
use crate::mask::Mask;
use crate::replication::batching::plan_spec;
use crate::replication::types::{appended, lemma_clone_is_complete, run_of, ReplicationStrategy};
use vstd::multiset::Multiset;
use vstd::prelude::*;
use vstd::seq_lib::lemma_multiset_commutative;

verus! {

/// What the destination holds once the batches have been appended to it
/// in the order in which their tasks ended: `order` names, for each end,
/// the batch that was written.
pub open spec fn appended_in_order<T>(written: Seq<Seq<T>>, order: Seq<int>) -> Seq<T>
    decreases order.len(),
{
    if order.len() == 0 {
        Seq::empty()
    } else {
        appended_in_order(written, order.drop_last()) + written[order.last()]
    }
}

/// Whether `order` names the batch.
pub open spec fn names_batch(order: Seq<int>, batch: int) -> bool {
    exists|j: int| 0 <= j < order.len() && #[trigger] order[j] == batch
}

/// Whether `order` names each of `count` batches exactly once.
pub open spec fn names_each_once(order: Seq<int>, count: int) -> bool {
    &&& order.len() == count
    &&& forall|j: int| 0 <= j < order.len() ==> 0 <= #[trigger] order[j] < count
    &&& forall|j: int, k: int| 0 <= j < k < order.len() ==> order[j] != order[k]
    &&& forall|batch: int| 0 <= batch < count ==> #[trigger] names_batch(order, batch)
}

/// The records of the batches that `order` names, as a multiset.
pub open spec fn records_in_order<T>(written: Seq<Seq<T>>, order: Seq<int>) -> Multiset<T>
    decreases order.len(),
{
    if order.len() == 0 {
        Multiset::empty()
    } else {
        records_in_order(written, order.drop_last()).add(written[order.last()].to_multiset())
    }
}

/// The order in which the batches were planned: `0`, `1`, and so on.
pub open spec fn planned_order(count: int) -> Seq<int> {
    Seq::new(
        if count > 0 {
            count as nat
        } else {
            0
        },
        |j: int| j,
    )
}

/// The destination holds the records of the batches that were appended.
proof fn lemma_appended_records<T>(written: Seq<Seq<T>>, order: Seq<int>)
    ensures
        appended_in_order(written, order).to_multiset() == records_in_order(written, order),
    decreases order.len(),
{
    if order.len() == 0 {
        let nothing = appended_in_order(written, order);
        nothing.to_multiset_ensures();
        assert forall|record: T| nothing.to_multiset().count(record) == 0 by {
            assert(!nothing.contains(record));
        }
        assert(nothing.to_multiset() =~= Multiset::<T>::empty());
    } else {
        lemma_appended_records(written, order.drop_last());
        lemma_multiset_commutative(
            appended_in_order(written, order.drop_last()),
            written[order.last()],
        );
    }
}

/// Appended in the order of the plan, the batches give what they give
/// appended one after the other.
proof fn lemma_planned_order_appends<T>(written: Seq<Seq<T>>, count: int)
    requires
        0 <= count <= written.len(),
    ensures
        appended_in_order(written, planned_order(count)) == appended(written.take(count)),
    decreases count,
{
    if count == 0 {
        assert(written.take(0).len() == 0);
    } else {
        lemma_planned_order_appends(written, count - 1);
        assert(planned_order(count).drop_last() =~= planned_order(count - 1));
        assert(written.take(count).drop_last() =~= written.take(count - 1));
        assert(written.take(count).last() == written[count - 1]);
    }
}

/// To leave one batch out of an order is to leave its records out.
proof fn lemma_records_without<T>(written: Seq<Seq<T>>, order: Seq<int>, position: int)
    requires
        0 <= position < order.len(),
    ensures
        records_in_order(written, order) == records_in_order(
            written,
            order.remove(position),
        ).add(written[order[position]].to_multiset()),
    decreases order.len(),
{
    let shorter = order.remove(position);
    if position == order.len() - 1 {
        assert(shorter =~= order.drop_last());
    } else {
        lemma_records_without(written, order.drop_last(), position);
        assert(shorter.drop_last() =~= order.drop_last().remove(position));
        assert(shorter.last() == order.last());
        assert(records_in_order(written, order) =~= records_in_order(written, shorter).add(
            written[order[position]].to_multiset(),
        ));
    }
}

/// The records of the batches do not depend on the order in which the
/// batches are named, as long as each is named exactly once.
proof fn lemma_records_in_any_order<T>(written: Seq<Seq<T>>, order: Seq<int>, count: int)
    requires
        0 <= count <= written.len(),
        names_each_once(order, count),
    ensures
        records_in_order(written, order) == records_in_order(written, planned_order(count)),
    decreases count,
{
    if count == 0 {
        assert(order =~= planned_order(0));
    } else {
        let last = count - 1;
        assert(names_batch(order, last));
        let position = choose|j: int| 0 <= j < order.len() && #[trigger] order[j] == last;
        let shorter = order.remove(position);
        order.remove_ensures(position);
        assert(names_each_once(shorter, last)) by {
            assert forall|j: int| 0 <= j < shorter.len() implies 0 <= #[trigger] shorter[j]
                < last by {
                if j < position {
                    assert(shorter[j] == order[j]);
                } else {
                    assert(shorter[j] == order[j + 1]);
                }
            }
            assert forall|j: int, k: int| 0 <= j < k < shorter.len() implies shorter[j]
                != shorter[k] by {
                let from_j = if j < position {
                    j
                } else {
                    j + 1
                };
                let from_k = if k < position {
                    k
                } else {
                    k + 1
                };
                assert(shorter[j] == order[from_j]);
                assert(shorter[k] == order[from_k]);
            }
            assert forall|batch: int| 0 <= batch < last implies #[trigger] names_batch(
                shorter,
                batch,
            ) by {
                assert(names_batch(order, batch));
                let at = choose|j: int| 0 <= j < order.len() && #[trigger] order[j] == batch;
                if at < position {
                    assert(shorter[at] == batch);
                } else {
                    assert(shorter[at - 1] == batch);
                }
            }
        }
        lemma_records_in_any_order(written, shorter, last);
        lemma_records_without(written, order, position);
        assert(planned_order(count).drop_last() =~= planned_order(last));
    }
}

/// Completeness under `Clone`, whatever the order of the writes: when
/// every batch of the plan for an entity has been read, passed through
/// `Clone` and appended to a cleared destination, in whatever order the
/// tasks ended, the destination holds exactly the records of the source:
/// as many, and each record as often as the source holds it.
pub proof fn lemma_clone_is_complete_in_any_order<T: Mask>(
    source: Seq<T>,
    batch_size: int,
    written: Seq<Seq<T>>,
    order: Seq<int>,
)
    requires
        source.len() <= u64::MAX,
        batch_size > 0,
        run_of(
            ReplicationStrategy::Clone,
            source,
            plan_spec(source.len() as int, batch_size),
            written,
        ),
        names_each_once(order, written.len() as int),
    ensures
        appended_in_order(written, order).to_multiset() == source.to_multiset(),
        appended_in_order(written, order).len() == source.len(),
{
    let count = written.len() as int;
    lemma_clone_is_complete(source, batch_size, written);
    lemma_appended_records(written, order);
    lemma_appended_records(written, planned_order(count));
    lemma_records_in_any_order(written, order, count);
    lemma_planned_order_appends(written, count);
    assert(written.take(count) =~= written);
    appended_in_order(written, order).to_multiset_ensures();
    source.to_multiset_ensures();
}

} // verus!
