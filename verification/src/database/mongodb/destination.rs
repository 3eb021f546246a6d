//! The destination side of the document store: what it writes and clears.
use crate::database::clearing::{decision_spec, names_of, plan_clear, ClearDecision};
use crate::database::index::SourceIndexes;
use crate::database::mongodb::conversions::{config_to_native_spec, IndexModel};
use crate::database::mongodb::destination_builder::MongodbDestinationBuilder;
use crate::database::mongodb::options::{ClientOptions, InsertManyOptions};
use vstd::prelude::*;

verus! {

/// The settings of a destination: where it connects and how it writes.
#[derive(Debug, Clone)]
pub struct MongodbDestination {
    pub database_name: String,
    pub client_options: ClientOptions,
    pub write_options: Option<InsertManyOptions>,
}

impl MongodbDestination {
    pub fn builder() -> (builder: MongodbDestinationBuilder)
        ensures
            builder.is_empty(),
    {
        MongodbDestinationBuilder::new()
    }

    pub fn new(
        database_name: String,
        client_options: ClientOptions,
        write_options: Option<InsertManyOptions>,
    ) -> (destination: MongodbDestination)
        ensures
            destination.database_name == database_name,
            destination.client_options == client_options,
            destination.write_options == write_options,
    {
        MongodbDestination { database_name, client_options, write_options }
    }

    /// Decides, for each collection that the destination lists, whether
    /// the clear before a run drops it: only collections that the run is
    /// about to fill, and never one of the store itself. The decisions
    /// come in the order of `collections`, for the log.
    pub fn clear_database(&self, collections: &Vec<String>, entity_names: &Vec<String>) -> (plan:
        Vec<ClearDecision>)
        ensures
            plan@.len() == collections@.len(),
            forall|i: int|
                0 <= i < plan@.len() ==> plan@[i] == decision_spec(
                    #[trigger] collections@[i]@,
                    names_of(entity_names@),
                ),
    {
        plan_clear(collections, entity_names)
    }

    /// The native indexes to create for an entity, or `None` where the
    /// entity has no index to create and the store need not be asked.
    pub fn create_indexes(&self, source_indexes: &SourceIndexes) -> (models: Option<
        Vec<IndexModel>,
    >)
        ensures
            models.is_some() <==> source_indexes.indexes@.len() > 0,
            models.is_some() ==> models.unwrap()@.len() == source_indexes.indexes@.len(),
            models.is_some() ==> forall|i: int|
                0 <= i < source_indexes.indexes@.len() ==> (#[trigger] models.unwrap()@[i])@
                    == config_to_native_spec(source_indexes.indexes@[i]@),
    {
        let models = source_indexes.to_models();
        if models.len() == 0 {
            None
        } else {
            Some(models)
        }
    }
}

} // verus!
