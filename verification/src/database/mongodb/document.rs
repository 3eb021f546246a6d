//! The ordered documents of the store, as far as the index logic reads them.
use vstd::prelude::*;

verus! {

#[verifier::external_type_specification]
#[verifier::external_body]
pub struct ExDocument(bson::Document);

/// What the index logic reads of the value under a key: the two whole-number
/// forms, a string, or anything else.
#[derive(Debug, Clone, PartialEq, Eq)]
pub enum NativeValue {
    Int32(i32),
    Int64(i64),
    Text(String),
    Other,
}

/// What a [`NativeValue`] holds.
pub enum NativeValueView {
    Int32(i32),
    Int64(i64),
    Text(Seq<char>),
    Other,
}

impl View for NativeValue {
    type V = NativeValueView;

    open spec fn view(&self) -> NativeValueView {
        match self {
            NativeValue::Int32(number) => NativeValueView::Int32(*number),
            NativeValue::Int64(number) => NativeValueView::Int64(*number),
            NativeValue::Text(text) => NativeValueView::Text(text@),
            NativeValue::Other => NativeValueView::Other,
        }
    }
}

/// One entry of a document: a key and what is read of its value.
#[derive(Debug, Clone, PartialEq, Eq)]
pub struct NativeKey {
    pub name: String,
    pub value: NativeValue,
}

/// What a [`NativeKey`] holds.
pub struct NativeKeyView {
    pub name: Seq<char>,
    pub value: NativeValueView,
}

impl View for NativeKey {
    type V = NativeKeyView;

    open spec fn view(&self) -> NativeKeyView {
        NativeKeyView { name: self.name@, value: self.value@ }
    }
}

/// What a list of entries holds, entry by entry.
pub open spec fn keys_view(keys: Seq<NativeKey>) -> Seq<NativeKeyView> {
    Seq::new(keys.len(), |i: int| keys[i]@)
}

/// The entries of a document, in the order in which their keys were first
/// inserted, each value read as a [`NativeValue`].
pub uninterp spec fn document_entries(document: bson::Document) -> Seq<NativeKeyView>;

/// Whether some entry has the key `name`.
pub open spec fn has_key(entries: Seq<NativeKeyView>, name: Seq<char>) -> bool {
    exists|i: int| 0 <= i < entries.len() && #[trigger] entries[i].name == name
}

/// The entries after `value` has been put under `name`: a key that is
/// there keeps its place and takes the new value, a new key goes last.
pub open spec fn upsert_key(
    entries: Seq<NativeKeyView>,
    name: Seq<char>,
    value: NativeValueView,
) -> Seq<NativeKeyView> {
    if has_key(entries, name) {
        Seq::new(
            entries.len(),
            |i: int|
                if entries[i].name == name {
                    NativeKeyView { name, value }
                } else {
                    entries[i]
                },
        )
    } else {
        entries.push(NativeKeyView { name, value })
    }
}

/// `bson::Document::new`: a document without entries.
#[verifier::external_body]
pub(crate) fn document_new() -> (document: bson::Document)
    ensures
        document_entries(document) == Seq::<NativeKeyView>::empty(),
{
    bson::Document::new()
}

/// `Clone::clone` of `bson::Document`: the copy is the same document, with
/// every key and every value, nested ones too, as the one it was made of.
pub assume_specification[ <bson::Document as Clone>::clone ](document: &bson::Document) -> (copy:
    bson::Document)
    ensures
        copy == *document,
        document_entries(copy) == document_entries(*document),
;

/// `bson::Document::insert`: puts a value under a key. The document keeps
/// its keys in insertion order; a key that is already there stays in its
/// place and only its value changes, a new key is added last.
#[verifier::external_body]
pub(crate) fn document_insert(document: &mut bson::Document, name: String, value: NativeValue)
    requires
        !(value@ is Other),
    ensures
        document_entries(*final(document)) == upsert_key(
            document_entries(*old(document)),
            name@,
            value@,
        ),
{
    let native = match value {
        NativeValue::Int32(number) => bson::Bson::Int32(number),
        NativeValue::Int64(number) => bson::Bson::Int64(number),
        NativeValue::Text(text) => bson::Bson::String(text),
        NativeValue::Other => bson::Bson::Null,
    };
    document.insert(name, native);
}

/// `bson::Document::iter`: hands out the entries in the document's order,
/// each value read as a [`NativeValue`].
#[verifier::external_body]
pub(crate) fn document_items(document: &bson::Document) -> (items: Vec<NativeKey>)
    ensures
        keys_view(items@) == document_entries(*document),
{
    document.iter().map(
        |(name, value)|
            NativeKey {
                name: name.clone(),
                value: match value {
                    bson::Bson::Int32(number) => NativeValue::Int32(*number),
                    bson::Bson::Int64(number) => NativeValue::Int64(*number),
                    bson::Bson::String(text) => NativeValue::Text(text.clone()),
                    _ => NativeValue::Other,
                },
            },
    ).collect()
}

/// `bson::Document::get`: whether the document holds a value under the key.
#[verifier::external_body]
pub(crate) fn document_has_key(document: &bson::Document, name: &str) -> (found: bool)
    ensures
        found == has_key(document_entries(*document), name@),
{
    document.get(name).is_some()
}

} // verus!
