//! A description of secondary indexes that does not depend on any store.
use crate::text::str_equal;
use vstd::prelude::*;

verus! {

/// The kind of an index.
#[derive(Debug, Clone, Copy, PartialEq, Eq, Structural)]
pub enum IndexType {
    Unique,
    Text,
    Geo2DSphere,
    /// Regular 2D geospatial index.
    Geo2D,
    Hashed,
    Compound,
    Partial,
    Standard,
}

/// The order in which an index walks one of its fields.
#[derive(Debug, Clone, Copy, PartialEq, Eq, Structural)]
pub enum IndexDirection {
    Ascending,
    Descending,
}

/// The word that stands for a direction in a generated index name.
pub open spec fn direction_label(direction: IndexDirection) -> Seq<char> {
    match direction {
        IndexDirection::Ascending => "asc"@,
        IndexDirection::Descending => "desc"@,
    }
}

impl IndexDirection {
    /// `asc` or `desc`.
    pub fn label(&self) -> (label: String)
        ensures
            label@ == direction_label(*self),
    {
        match self {
            IndexDirection::Ascending => "asc".to_owned(),
            IndexDirection::Descending => "desc".to_owned(),
        }
    }
}

/// One field of an index.
#[derive(Debug, Clone, PartialEq, Eq)]
pub struct IndexField {
    pub name: String,
    pub direction: IndexDirection,
}

/// What an [`IndexField`] holds.
pub struct IndexFieldView {
    pub name: Seq<char>,
    pub direction: IndexDirection,
}

impl View for IndexField {
    type V = IndexFieldView;

    open spec fn view(&self) -> IndexFieldView {
        IndexFieldView { name: self.name@, direction: self.direction }
    }
}

/// What a list of fields holds, field by field.
pub open spec fn fields_view(fields: Seq<IndexField>) -> Seq<IndexFieldView> {
    Seq::new(fields.len(), |i: int| fields[i]@)
}

/// The value of an index option.
#[derive(Debug, Clone, PartialEq, Eq)]
pub enum OptionValue {
    Null,
    Bool(bool),
    Integer(i64),
    Text(String),
}

/// What an [`OptionValue`] holds.
pub enum OptionValueView {
    Null,
    Bool(bool),
    Integer(i64),
    Text(Seq<char>),
}

impl View for OptionValue {
    type V = OptionValueView;

    open spec fn view(&self) -> OptionValueView {
        match self {
            OptionValue::Null => OptionValueView::Null,
            OptionValue::Bool(flag) => OptionValueView::Bool(*flag),
            OptionValue::Integer(number) => OptionValueView::Integer(*number),
            OptionValue::Text(text) => OptionValueView::Text(text@),
        }
    }
}

impl OptionValue {
    /// The flag, where the value is one.
    pub fn as_bool(&self) -> (flag: Option<bool>)
        ensures
            flag == match self@ {
                OptionValueView::Bool(held) => Some(held),
                _ => None,
            },
    {
        match self {
            OptionValue::Bool(held) => Some(*held),
            _ => None,
        }
    }

    /// The text, where the value is one.
    pub fn as_str(&self) -> (text: Option<&str>)
        ensures
            match self@ {
                OptionValueView::Text(held) => text.is_some() && text.unwrap()@ == held,
                _ => text.is_none(),
            },
    {
        match self {
            OptionValue::Text(held) => Some(held.as_str()),
            _ => None,
        }
    }
}

/// One option of an index: a key and its value.
#[derive(Debug, Clone, PartialEq, Eq)]
pub struct IndexOption {
    pub key: String,
    pub value: OptionValue,
}

/// The map that a list of options stands for: each key with the value of
/// its last entry.
pub open spec fn entries_map(entries: Seq<IndexOption>) -> Map<Seq<char>, OptionValueView>
    decreases entries.len(),
{
    if entries.len() == 0 {
        Map::empty()
    } else {
        entries_map(entries.drop_last()).insert(entries.last().key@, entries.last().value@)
    }
}

/// A key whose last entry is at `position` has that entry's value.
pub proof fn lemma_entries_found(entries: Seq<IndexOption>, position: int)
    requires
        0 <= position < entries.len(),
        forall|later: int|
            position < later < entries.len() ==> entries[later].key@ != entries[position].key@,
    ensures
        entries_map(entries).contains_key(entries[position].key@),
        entries_map(entries)[entries[position].key@] == entries[position].value@,
    decreases entries.len(),
{
    if position < entries.len() - 1 {
        lemma_entries_found(entries.drop_last(), position);
    }
}

/// A key that no entry has is not in the map.
pub proof fn lemma_entries_absent(entries: Seq<IndexOption>, key: Seq<char>)
    requires
        forall|position: int| 0 <= position < entries.len() ==> entries[position].key@ != key,
    ensures
        !entries_map(entries).contains_key(key),
    decreases entries.len(),
{
    if entries.len() > 0 {
        lemma_entries_absent(entries.drop_last(), key);
    }
}

/// To replace the last entry of a key is to give the key a new value.
pub proof fn lemma_entries_replaced(entries: Seq<IndexOption>, position: int, entry: IndexOption)
    requires
        0 <= position < entries.len(),
        entries[position].key@ == entry.key@,
        forall|later: int|
            position < later < entries.len() ==> entries[later].key@ != entry.key@,
    ensures
        entries_map(entries.update(position, entry)) == entries_map(entries).insert(
            entry.key@,
            entry.value@,
        ),
    decreases entries.len(),
{
    let replaced = entries.update(position, entry);
    if position == entries.len() - 1 {
        assert(replaced.drop_last() =~= entries.drop_last());
        assert(entries_map(replaced) =~= entries_map(entries).insert(entry.key@, entry.value@));
    } else {
        lemma_entries_replaced(entries.drop_last(), position, entry);
        assert(replaced.drop_last() =~= entries.drop_last().update(position, entry));
        assert(replaced.last() == entries.last());
        assert(entries_map(replaced) =~= entries_map(entries).insert(entry.key@, entry.value@));
    }
}

/// The free-form options of an index, by key.
#[derive(Debug, Clone, PartialEq, Eq)]
pub struct IndexOptionMap {
    entries: Vec<IndexOption>,
}

impl View for IndexOptionMap {
    type V = Map<Seq<char>, OptionValueView>;

    closed spec fn view(&self) -> Map<Seq<char>, OptionValueView> {
        entries_map(self.entries@)
    }
}

impl IndexOptionMap {
    /// No options.
    pub fn new() -> (options: IndexOptionMap)
        ensures
            options@ == Map::<Seq<char>, OptionValueView>::empty(),
    {
        IndexOptionMap { entries: Vec::new() }
    }

    /// The position of the last entry for `key`.
    fn position_of(&self, key: &str) -> (position: Option<usize>)
        ensures
            match position {
                Some(found) => found < self.entries@.len() && self.entries@[found as int].key@
                    == key@ && forall|later: int|
                    found < later < self.entries@.len() ==> self.entries@[later].key@ != key@,
                None => forall|any: int|
                    0 <= any < self.entries@.len() ==> self.entries@[any].key@ != key@,
            },
    {
        let mut position: usize = self.entries.len();
        while position > 0
            invariant
                position <= self.entries@.len(),
                forall|later: int|
                    position <= later < self.entries@.len() ==> self.entries@[later].key@
                        != key@,
            decreases position,
        {
            position = position - 1;
            if str_equal(self.entries[position].key.as_str(), key) {
                return Some(position);
            }
        }
        None
    }

    /// The value of `key`, where the options hold one.
    pub fn get(&self, key: &str) -> (value: Option<&OptionValue>)
        ensures
            value.is_some() == self@.contains_key(key@),
            value.is_some() ==> value.unwrap()@ == self@[key@],
    {
        match self.position_of(key) {
            Some(found) => {
                proof {
                    lemma_entries_found(self.entries@, found as int);
                }
                Some(&self.entries[found].value)
            },
            None => {
                proof {
                    lemma_entries_absent(self.entries@, key@);
                }
                None
            },
        }
    }

    /// Whether the options hold a value for `key`.
    pub fn contains_key(&self, key: &str) -> (found: bool)
        ensures
            found == self@.contains_key(key@),
    {
        self.get(key).is_some()
    }

    /// Gives `key` the value `value`, in place of any it had.
    pub fn insert(&mut self, key: String, value: OptionValue)
        ensures
            final(self)@ == old(self)@.insert(key@, value@),
    {
        let entry = IndexOption { key, value };
        match self.position_of(entry.key.as_str()) {
            Some(found) => {
                proof {
                    lemma_entries_replaced(self.entries@, found as int, entry);
                }
                self.entries.set(found, entry);
            },
            None => {
                let ghost before = self.entries@;
                self.entries.push(entry);
                assert(self.entries@.drop_last() =~= before);
            },
        }
    }

    /// The options, one entry for each key.
    pub fn entries(&self) -> (entries: &Vec<IndexOption>)
        ensures
            entries_map(entries@) == self@,
    {
        &self.entries
    }
}

/// The description of one index.
#[derive(Debug, Clone, PartialEq, Eq)]
pub struct IndexConfig {
    pub name: String,
    pub fields: Vec<IndexField>,
    pub index_type: IndexType,
    pub options: IndexOptionMap,
}

/// What an [`IndexConfig`] holds.
pub struct IndexConfigView {
    pub name: Seq<char>,
    pub fields: Seq<IndexFieldView>,
    pub index_type: IndexType,
    pub options: Map<Seq<char>, OptionValueView>,
}

impl View for IndexConfig {
    type V = IndexConfigView;

    open spec fn view(&self) -> IndexConfigView {
        IndexConfigView {
            name: self.name@,
            fields: fields_view(self.fields@),
            index_type: self.index_type,
            options: self.options@,
        }
    }
}

impl IndexConfigView {
    /// The invariants of a description: it has a name and at least one field.
    pub open spec fn well_formed(self) -> bool {
        self.name.len() > 0 && self.fields.len() > 0
    }
}

/// What a list of descriptions holds, one by one.
pub open spec fn configs_view(configs: Seq<IndexConfig>) -> Seq<IndexConfigView> {
    Seq::new(configs.len(), |i: int| configs[i]@)
}

/// The indexes of one entity: the unit exchanged between adapters.
#[derive(Debug, Clone, PartialEq, Eq)]
pub struct SourceIndexes {
    pub entity_name: String,
    pub indexes: Vec<IndexConfig>,
}

} // verus!
