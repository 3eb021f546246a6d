//! The settings of the document store that the engine reads or sets.
use crate::database::mongodb::document::{document_entries, NativeKeyView};
use vstd::prelude::*;

verus! {

/// A compression algorithm for the wire.
#[derive(Debug, Clone, Copy, PartialEq, Eq, Structural)]
pub enum Compressor {
    /// Best compression ratio.
    Zstd { level: Option<i32> },
    /// A balance of speed and compression.
    Zlib { level: Option<u32> },
    /// Fastest, with the lowest compression ratio.
    Snappy,
}

/// The settings of a connection, as far as the engine sets them.
#[derive(Debug, Clone, PartialEq, Eq)]
pub struct ClientOptions {
    pub max_pool_size: Option<u32>,
    pub min_pool_size: Option<u32>,
    pub max_connecting: Option<u32>,
    pub compressors: Option<Vec<Compressor>>,
    /// Whether reads ask for data acknowledged by a majority.
    pub majority_read_concern: bool,
}

/// What a [`ClientOptions`] holds.
pub struct ClientOptionsView {
    pub max_pool_size: Option<u32>,
    pub min_pool_size: Option<u32>,
    pub max_connecting: Option<u32>,
    pub compressors: Option<Seq<Compressor>>,
    pub majority_read_concern: bool,
}

/// What an optional list of compressors holds.
pub open spec fn compressors_view(compressors: Option<Vec<Compressor>>) -> Option<
    Seq<Compressor>,
> {
    match compressors {
        Some(list) => Some(list@),
        None => None,
    }
}

impl View for ClientOptions {
    type V = ClientOptionsView;

    open spec fn view(&self) -> ClientOptionsView {
        ClientOptionsView {
            max_pool_size: self.max_pool_size,
            min_pool_size: self.min_pool_size,
            max_connecting: self.max_connecting,
            compressors: compressors_view(self.compressors),
            majority_read_concern: self.majority_read_concern,
        }
    }
}

/// A copy of an optional list of compressors.
pub fn duplicate_compressors(compressors: &Option<Vec<Compressor>>) -> (copy: Option<
    Vec<Compressor>,
>)
    ensures
        compressors_view(copy) == compressors_view(*compressors),
{
    match compressors {
        None => None,
        Some(list) => {
            let mut copy: Vec<Compressor> = Vec::new();
            let mut position: usize = 0;
            while position < list.len()
                invariant
                    position <= list@.len(),
                    copy@ == list@.take(position as int),
                decreases list.len() - position,
            {
                copy.push(list[position]);
                assert(copy@ =~= list@.take(position + 1));
                position = position + 1;
            }
            assert(list@.take(position as int) =~= list@);
            Some(copy)
        },
    }
}

impl ClientOptions {
    /// A copy of the settings.
    pub fn duplicate(&self) -> (copy: ClientOptions)
        ensures
            copy@ == self@,
    {
        ClientOptions {
            max_pool_size: self.max_pool_size,
            min_pool_size: self.min_pool_size,
            max_connecting: self.max_connecting,
            compressors: duplicate_compressors(&self.compressors),
            majority_read_concern: self.majority_read_concern,
        }
    }
}

impl Default for ClientOptions {
    fn default() -> (options: ClientOptions)
        ensures
            options.max_pool_size.is_none(),
            options.min_pool_size.is_none(),
            options.max_connecting.is_none(),
            options.compressors.is_none(),
            !options.majority_read_concern,
    {
        ClientOptions {
            max_pool_size: None,
            min_pool_size: None,
            max_connecting: None,
            compressors: None,
            majority_read_concern: false,
        }
    }
}

/// The settings of a read.
#[derive(Debug, Clone)]
pub struct FindOptions {
    /// The order of the records, as a document of fields and directions.
    pub sort: Option<bson::Document>,
    /// How many records to pass over.
    pub skip: Option<u64>,
    /// How many records to return at most.
    pub limit: Option<i64>,
    /// How many records the store sends in one round trip.
    pub batch_size: Option<u32>,
}

/// What a [`FindOptions`] holds.
pub struct FindOptionsView {
    pub sort: Option<Seq<NativeKeyView>>,
    pub skip: Option<u64>,
    pub limit: Option<i64>,
    pub batch_size: Option<u32>,
}

/// What optional read settings hold.
pub open spec fn find_options_view(options: Option<FindOptions>) -> Option<FindOptionsView> {
    match options {
        Some(held) => Some(held@),
        None => None,
    }
}

/// What optional connection settings hold.
pub open spec fn client_options_view(options: Option<ClientOptions>) -> Option<
    ClientOptionsView,
> {
    match options {
        Some(held) => Some(held@),
        None => None,
    }
}

/// What an optional sort document holds.
pub open spec fn sort_view(sort: Option<bson::Document>) -> Option<Seq<NativeKeyView>> {
    match sort {
        Some(document) => Some(document_entries(document)),
        None => None,
    }
}

impl View for FindOptions {
    type V = FindOptionsView;

    open spec fn view(&self) -> FindOptionsView {
        FindOptionsView {
            sort: sort_view(self.sort),
            skip: self.skip,
            limit: self.limit,
            batch_size: self.batch_size,
        }
    }
}

impl Default for FindOptions {
    fn default() -> (options: FindOptions)
        ensures
            options.sort.is_none(),
            options.skip.is_none(),
            options.limit.is_none(),
            options.batch_size.is_none(),
    {
        FindOptions { sort: None, skip: None, limit: None, batch_size: None }
    }
}

impl FindOptions {
    /// A copy of the settings.
    pub fn duplicate(&self) -> (copy: FindOptions)
        ensures
            copy@ == self@,
            copy.sort == self.sort,
    {
        let sort = match &self.sort {
            Some(document) => Some(document.clone()),
            None => None,
        };
        FindOptions { sort, skip: self.skip, limit: self.limit, batch_size: self.batch_size }
    }
}

/// The settings of a count.
#[derive(Debug, Clone, Copy, PartialEq, Eq, Structural)]
pub struct CountOptions {
    pub limit: Option<u64>,
    pub skip: Option<u64>,
}

/// The settings of a write of many records.
#[derive(Debug, Clone, Copy, PartialEq, Eq, Structural)]
pub struct InsertManyOptions {
    /// Whether the store stops at the first record that it refuses.
    pub ordered: Option<bool>,
    /// Whether the store skips its validation of the records.
    pub bypass_document_validation: Option<bool>,
}

impl Default for InsertManyOptions {
    fn default() -> (options: InsertManyOptions)
        ensures
            options.ordered.is_none(),
            options.bypass_document_validation.is_none(),
    {
        InsertManyOptions { ordered: None, bypass_document_validation: None }
    }
}

} // verus!
