//! The adapter for a document store: settings, index conversion.
use crate::database::mongodb::options::Compressor;
use vstd::prelude::*;

pub mod conversions;
pub mod destination;
pub mod destination_builder;
pub mod document;
pub mod options;
pub mod source;
pub mod source_builder;

pub use destination::MongodbDestination;
pub use destination_builder::MongodbDestinationBuilder;
pub use source::MongodbSource;
pub use source_builder::MongodbSourceBuilder;

verus! {

/// The compressors in the order in which they are preferred: Zstd for the
/// best ratio, Zlib for balance, Snappy for speed. The store settles with
/// the client on the first that both support.
pub open spec fn preferred_compressors() -> Seq<Compressor> {
    seq![
        Compressor::Zstd { level: None },
        Compressor::Zlib { level: None },
        Compressor::Snappy,
    ]
}

/// All compressors, in the order in which they are preferred.
pub fn get_compressors() -> (compressors: Option<Vec<Compressor>>)
    ensures
        compressors.is_some(),
        compressors.unwrap()@ == preferred_compressors(),
{
    let mut list: Vec<Compressor> = Vec::new();
    list.push(Compressor::Zstd { level: None });
    list.push(Compressor::Zlib { level: None });
    list.push(Compressor::Snappy);
    assert(list@ =~= preferred_compressors());
    Some(list)
}

} // verus!
