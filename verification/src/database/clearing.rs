//! Which entities of the destination may be dropped before a run.
//!
//! Only entities that the run is about to fill are dropped, and never one
//! that belongs to the store itself.
use crate::text::{ends_with, starts_with, str_equal};
use vstd::prelude::*;

verus! {

/// What happens to one entity of the destination when it is cleared.
#[derive(Debug, Clone, Copy, PartialEq, Eq, Structural)]
pub enum ClearDecision {
    /// The entity belongs to the store and is left alone.
    SkipSystem,
    /// The entity is scheduled for replication and is dropped.
    Drop,
    /// The entity is not scheduled for replication and is left alone.
    SkipUnlisted,
}

/// Whether the name marks an entity of the store itself: one that starts
/// with `system.`, `admin.` or `config.`, or ends with the name of one of the
/// store's own collections.
pub open spec fn is_protected_name(name: Seq<char>) -> bool {
    ||| "system."@.is_prefix_of(name)
    ||| "admin."@.is_prefix_of(name)
    ||| "config."@.is_prefix_of(name)
    ||| ".system.roles"@.is_suffix_of(name)
    ||| ".system.users"@.is_suffix_of(name)
    ||| ".system.version"@.is_suffix_of(name)
    ||| ".system.buckets"@.is_suffix_of(name)
    ||| ".system.profile"@.is_suffix_of(name)
    ||| ".system.js"@.is_suffix_of(name)
    ||| ".system.views"@.is_suffix_of(name)
}

/// The names held by a list of strings.
pub open spec fn names_of(list: Seq<String>) -> Seq<Seq<char>> {
    Seq::new(list.len(), |i: int| list[i]@)
}

pub open spec fn decision_spec(name: Seq<char>, allow: Seq<Seq<char>>) -> ClearDecision {
    if is_protected_name(name) {
        ClearDecision::SkipSystem
    } else if allow.contains(name) {
        ClearDecision::Drop
    } else {
        ClearDecision::SkipUnlisted
    }
}

/// The entities left on the destination once it has been cleared with the
/// allow-list `allow`, in their former order.
pub open spec fn remaining_names(existing: Seq<Seq<char>>, allow: Seq<Seq<char>>) -> Seq<
    Seq<char>,
>
    decreases existing.len(),
{
    if existing.len() == 0 {
        Seq::empty()
    } else {
        let before = remaining_names(existing.drop_last(), allow);
        if decision_spec(existing.last(), allow) == ClearDecision::Drop {
            before
        } else {
            before.push(existing.last())
        }
    }
}

/// The entities that a clear with the allow-list `allow` drops, in order.
pub open spec fn dropped_names(existing: Seq<Seq<char>>, allow: Seq<Seq<char>>) -> Seq<
    Seq<char>,
>
    decreases existing.len(),
{
    if existing.len() == 0 {
        Seq::empty()
    } else {
        let before = dropped_names(existing.drop_last(), allow);
        if decision_spec(existing.last(), allow) == ClearDecision::Drop {
            before.push(existing.last())
        } else {
            before
        }
    }
}

pub fn is_protected(name: &str) -> (protected: bool)
    ensures
        protected == is_protected_name(name@),
{
    starts_with(name, "system.") || starts_with(name, "admin.") || starts_with(name, "config.")
        || ends_with(name, ".system.roles") || ends_with(name, ".system.users") || ends_with(
        name,
        ".system.version",
    ) || ends_with(name, ".system.buckets") || ends_with(name, ".system.profile") || ends_with(
        name,
        ".system.js",
    ) || ends_with(name, ".system.views")
}

/// Whether `name` is one of `names`.
pub fn is_listed(names: &Vec<String>, name: &str) -> (found: bool)
    ensures
        found == names_of(names@).contains(name@),
{
    let mut position: usize = 0;
    while position < names.len()
        invariant
            position <= names.len(),
            forall|k: int| 0 <= k < position ==> names_of(names@)[k] != name@,
        decreases names.len() - position,
    {
        if str_equal(names[position].as_str(), name) {
            assert(names_of(names@)[position as int] == name@);
            return true;
        }
        position = position + 1;
    }
    false
}

/// Decides what a clear with the allow-list `entity_names` does to the
/// entity `name`.
pub fn clear_decision(name: &str, entity_names: &Vec<String>) -> (decision: ClearDecision)
    ensures
        decision == decision_spec(name@, names_of(entity_names@)),
{
    if is_protected(name) {
        ClearDecision::SkipSystem
    } else if is_listed(entity_names, name) {
        ClearDecision::Drop
    } else {
        ClearDecision::SkipUnlisted
    }
}

/// Decides, for each entity found on the destination, whether a clear with
/// the allow-list `entity_names` drops it. The decisions come in the order
/// of `existing`, one for each entity, so that each can be logged.
pub fn plan_clear(existing: &Vec<String>, entity_names: &Vec<String>) -> (plan: Vec<
    ClearDecision,
>)
    ensures
        plan@.len() == existing@.len(),
        forall|i: int|
            0 <= i < plan@.len() ==> plan@[i] == decision_spec(
                #[trigger] existing@[i]@,
                names_of(entity_names@),
            ),
{
    let mut plan: Vec<ClearDecision> = Vec::new();
    let mut position: usize = 0;
    while position < existing.len()
        invariant
            position <= existing.len(),
            plan@.len() == position,
            forall|i: int|
                0 <= i < position ==> plan@[i] == decision_spec(
                    #[trigger] existing@[i]@,
                    names_of(entity_names@),
                ),
        decreases existing.len() - position,
    {
        let decision = clear_decision(existing[position].as_str(), entity_names);
        plan.push(decision);
        position = position + 1;
    }
    plan
}

/// The entities that a clear with the allow-list `entity_names` drops, in
/// the order in which the destination lists them.
pub fn entities_to_drop(existing: &Vec<String>, entity_names: &Vec<String>) -> (dropped: Vec<
    String,
>)
    ensures
        names_of(dropped@) == dropped_names(names_of(existing@), names_of(entity_names@)),
{
    let mut dropped: Vec<String> = Vec::new();
    let mut position: usize = 0;
    while position < existing.len()
        invariant
            position <= existing.len(),
            names_of(dropped@) == dropped_names(
                names_of(existing@).take(position as int),
                names_of(entity_names@),
            ),
        decreases existing.len() - position,
    {
        let decision = clear_decision(existing[position].as_str(), entity_names);
        proof {
            let names = names_of(existing@);
            assert(names.take(position + 1).drop_last() =~= names.take(position as int));
            assert(names.take(position + 1).last() == existing@[position as int]@);
        }
        if decision == ClearDecision::Drop {
            let ghost before = names_of(dropped@);
            dropped.push(existing[position].clone());
            assert(names_of(dropped@) =~= before.push(existing@[position as int]@));
        }
        position = position + 1;
    }
    assert(names_of(existing@).take(position as int) =~= names_of(existing@));
    dropped
}

/// Nothing that a clear leaves behind would be dropped by the same clear.
pub proof fn lemma_remaining_are_kept(existing: Seq<Seq<char>>, allow: Seq<Seq<char>>)
    ensures
        forall|i: int|
            0 <= i < remaining_names(existing, allow).len() ==> decision_spec(
                #[trigger] remaining_names(existing, allow)[i],
                allow,
            ) != ClearDecision::Drop,
    decreases existing.len(),
{
    if existing.len() > 0 {
        lemma_remaining_are_kept(existing.drop_last(), allow);
    }
}

/// A clear drops nothing from a destination on which it would drop nothing.
pub proof fn lemma_clear_without_drops(existing: Seq<Seq<char>>, allow: Seq<Seq<char>>)
    requires
        forall|i: int|
            0 <= i < existing.len() ==> decision_spec(#[trigger] existing[i], allow)
                != ClearDecision::Drop,
    ensures
        remaining_names(existing, allow) == existing,
    decreases existing.len(),
{
    if existing.len() > 0 {
        lemma_clear_without_drops(existing.drop_last(), allow);
        assert(existing.drop_last().push(existing.last()) =~= existing);
    }
}

/// Clearing is idempotent: to clear a destination twice in a row with one
/// allow-list leaves what clearing it once leaves.
pub proof fn lemma_clear_idempotent(existing: Seq<Seq<char>>, allow: Seq<Seq<char>>)
    ensures
        remaining_names(remaining_names(existing, allow), allow) == remaining_names(
            existing,
            allow,
        ),
{
    lemma_remaining_are_kept(existing, allow);
    lemma_clear_without_drops(remaining_names(existing, allow), allow);
}

/// Every entity that stays was there before, and every entity that was
/// there and is not dropped stays.
pub proof fn lemma_remaining_membership(
    existing: Seq<Seq<char>>,
    allow: Seq<Seq<char>>,
    name: Seq<char>,
)
    ensures
        remaining_names(existing, allow).contains(name) <==> existing.contains(name)
            && decision_spec(name, allow) != ClearDecision::Drop,
    decreases existing.len(),
{
    if existing.len() > 0 {
        let front = existing.drop_last();
        let last = existing.last();
        lemma_remaining_membership(front, allow, name);
        let kept = remaining_names(front, allow);
        assert(existing.contains(name) <==> front.contains(name) || last == name) by {
            if existing.contains(name) {
                let i = choose|i: int| 0 <= i < existing.len() && existing[i] == name;
                if i < front.len() {
                    assert(front[i] == name);
                }
            }
            if front.contains(name) {
                let i = choose|i: int| 0 <= i < front.len() && front[i] == name;
                assert(existing[i] == name);
            }
            if last == name {
                assert(existing[existing.len() - 1] == name);
            }
        }
        if decision_spec(last, allow) != ClearDecision::Drop {
            assert(kept.push(last).contains(name) <==> kept.contains(name) || last == name) by {
                if kept.push(last).contains(name) {
                    let i = choose|i: int| 0 <= i < kept.push(last).len() && kept.push(last)[i]
                        == name;
                    if i < kept.len() {
                        assert(kept[i] == name);
                    }
                }
                if kept.contains(name) {
                    let i = choose|i: int| 0 <= i < kept.len() && kept[i] == name;
                    assert(kept.push(last)[i] == name);
                }
                if last == name {
                    assert(kept.push(last)[kept.len() as int] == name);
                }
            }
        }
    }
}

/// System-entity safety: whatever the allow-list holds, an entity of the
/// store itself that is on the destination is still there after the clear.
pub proof fn lemma_protected_survive_clear(
    existing: Seq<Seq<char>>,
    allow: Seq<Seq<char>>,
    name: Seq<char>,
)
    requires
        existing.contains(name),
        is_protected_name(name),
    ensures
        remaining_names(existing, allow).contains(name),
        !dropped_names(existing, allow).contains(name),
{
    lemma_remaining_membership(existing, allow, name);
    lemma_dropped_membership(existing, allow, name);
}

/// Exactly the entities that were there, are in the allow-list and do not
/// belong to the store are dropped.
pub proof fn lemma_dropped_membership(
    existing: Seq<Seq<char>>,
    allow: Seq<Seq<char>>,
    name: Seq<char>,
)
    ensures
        dropped_names(existing, allow).contains(name) <==> existing.contains(name)
            && allow.contains(name) && !is_protected_name(name),
    decreases existing.len(),
{
    if existing.len() > 0 {
        let front = existing.drop_last();
        let last = existing.last();
        lemma_dropped_membership(front, allow, name);
        let gone = dropped_names(front, allow);
        assert(existing.contains(name) <==> front.contains(name) || last == name) by {
            if existing.contains(name) {
                let i = choose|i: int| 0 <= i < existing.len() && existing[i] == name;
                if i < front.len() {
                    assert(front[i] == name);
                }
            }
            if front.contains(name) {
                let i = choose|i: int| 0 <= i < front.len() && front[i] == name;
                assert(existing[i] == name);
            }
            if last == name {
                assert(existing[existing.len() - 1] == name);
            }
        }
        if decision_spec(last, allow) == ClearDecision::Drop {
            assert(gone.push(last).contains(name) <==> gone.contains(name) || last == name) by {
                if gone.push(last).contains(name) {
                    let i = choose|i: int| 0 <= i < gone.push(last).len() && gone.push(last)[i]
                        == name;
                    if i < gone.len() {
                        assert(gone[i] == name);
                    }
                }
                if gone.contains(name) {
                    let i = choose|i: int| 0 <= i < gone.len() && gone[i] == name;
                    assert(gone.push(last)[i] == name);
                }
                if last == name {
                    assert(gone.push(last)[gone.len() as int] == name);
                }
            }
        }
    }
}

} // verus!
