//! Comparisons of strings, character by character.
use vstd::prelude::*;

verus! {

/// Whether two strings hold the same characters.
pub fn str_equal(left: &str, right: &str) -> (same: bool)
    ensures
        same == (left@ == right@),
{
    let length = left.unicode_len();
    if right.unicode_len() != length {
        return false;
    }
    let mut position: usize = 0;
    while position < length
        invariant
            length == left@.len(),
            length == right@.len(),
            position <= length,
            forall|k: int| 0 <= k < position ==> left@[k] == right@[k],
        decreases length - position,
    {
        if left.get_char(position) != right.get_char(position) {
            return false;
        }
        position = position + 1;
    }
    assert(left@ =~= right@);
    true
}

/// Whether `text` begins with `prefix`.
pub fn starts_with(text: &str, prefix: &str) -> (found: bool)
    ensures
        found == prefix@.is_prefix_of(text@),
{
    let length = prefix.unicode_len();
    if text.unicode_len() < length {
        return false;
    }
    let mut position: usize = 0;
    while position < length
        invariant
            length == prefix@.len(),
            length <= text@.len(),
            position <= length,
            forall|k: int| 0 <= k < position ==> text@[k] == prefix@[k],
        decreases length - position,
    {
        if text.get_char(position) != prefix.get_char(position) {
            assert(text@.subrange(0, length as int)[position as int] != prefix@[position as int]);
            return false;
        }
        position = position + 1;
    }
    assert(text@.subrange(0, length as int) =~= prefix@);
    true
}

/// Whether `text` ends with `suffix`.
pub fn ends_with(text: &str, suffix: &str) -> (found: bool)
    ensures
        found == suffix@.is_suffix_of(text@),
{
    let length = suffix.unicode_len();
    let whole = text.unicode_len();
    if whole < length {
        return false;
    }
    let offset: usize = whole - length;
    let mut position: usize = 0;
    while position < length
        invariant
            length == suffix@.len(),
            whole == text@.len(),
            offset == whole - length,
            position <= length,
            forall|k: int| 0 <= k < position ==> text@[offset + k] == suffix@[k],
        decreases length - position,
    {
        if text.get_char(offset + position) != suffix.get_char(position) {
            assert(text@.subrange(offset as int, whole as int)[position as int]
                != suffix@[position as int]);
            return false;
        }
        position = position + 1;
    }
    assert(text@.subrange(offset as int, whole as int) =~= suffix@);
    true
}

} // verus!
