//! The source side of the document store: what it reads and how.
use crate::database::index::{
    configs_view, direction_label, fields_view, IndexConfig, IndexConfigView, IndexField,
    IndexFieldView, SourceIndexes,
};
use crate::database::mongodb::conversions::{
    is_primary_key_index, models_view, native_name, native_to_config_spec, IndexModel,
    IndexModelView,
};
use crate::database::mongodb::options::{
    ClientOptions, CountOptions, FindOptions, FindOptionsView,
};
use crate::database::mongodb::source_builder::MongodbSourceBuilder;
use crate::database::pagination::PaginationOptions;
use crate::replication::task::{limit_setting, limit_setting_spec};
use crate::text::str_equal;
use vstd::prelude::*;

verus! {

/// The settings of a source: where it connects and how it reads.
#[derive(Debug, Clone)]
pub struct MongodbSource {
    pub database_name: String,
    pub client_options: ClientOptions,
    pub read_options: FindOptions,
    pub count_options: Option<CountOptions>,
    pub batch_size: u64,
}

/// The part of a generated index name that stands for one field: its name
/// and the word for its direction.
pub open spec fn field_label(field: IndexFieldView) -> Seq<char> {
    field.name + "_"@ + direction_label(field.direction)
}

/// The parts of all fields, joined by underscores.
pub open spec fn joined_labels(fields: Seq<IndexFieldView>) -> Seq<char>
    decreases fields.len(),
{
    if fields.len() == 0 {
        Seq::empty()
    } else if fields.len() == 1 {
        field_label(fields[0])
    } else {
        joined_labels(fields.drop_last()) + "_"@ + field_label(fields.last())
    }
}

/// The name generated for an index that the source lists without one:
/// `idx_`, the entity, and each field with its direction.
pub open spec fn default_index_name_spec(collection_name: Seq<char>, fields: Seq<IndexFieldView>)
    -> Seq<char> {
    "idx_"@ + collection_name + "_"@ + joined_labels(fields)
}

/// A description with the generated name in place of the stand-in for a
/// missing one.
pub open spec fn named_config(config: IndexConfigView, collection_name: Seq<char>)
    -> IndexConfigView {
    if config.name == "unnamed_index"@ {
        IndexConfigView {
            name: default_index_name_spec(collection_name, config.fields),
            fields: config.fields,
            index_type: config.index_type,
            options: config.options,
        }
    } else {
        config
    }
}

/// The indexes that a source reports for an entity, from what the store
/// lists: the index on the primary key is left out, and an index without a
/// name gets the generated one.
pub open spec fn listed_configs(models: Seq<IndexModelView>, collection_name: Seq<char>) -> Seq<
    IndexConfigView,
>
    decreases models.len(),
{
    if models.len() == 0 {
        Seq::empty()
    } else {
        let before = listed_configs(models.drop_last(), collection_name);
        if is_primary_key_index(models.last()) {
            before
        } else {
            before.push(named_config(native_to_config_spec(models.last()), collection_name))
        }
    }
}

/// Generates the name of an index from its entity and its fields.
pub fn generate_default_index_name(collection_name: &str, fields: &[IndexField]) -> (name: String)
    ensures
        name@ == default_index_name_spec(collection_name@, fields_view(fields@)),
{
    let mut labels = String::new();
    let mut position: usize = 0;
    while position < fields.len()
        invariant
            position <= fields@.len(),
            labels@ == joined_labels(fields_view(fields@).take(position as int)),
        decreases fields.len() - position,
    {
        let field = &fields[position];
        proof {
            let all = fields_view(fields@);
            assert(all.take(position + 1).drop_last() =~= all.take(position as int));
            assert(all.take(position + 1).last() == field@);
            assert(all.take(position + 1)[0] == all[0]);
        }
        if position > 0 {
            labels.append("_");
        }
        let ghost before = labels@;
        labels.append(field.name.as_str());
        labels.append("_");
        let word = field.direction.label();
        labels.append(word.as_str());
        assert(labels@ =~= before + field_label(field@));
        assert(labels@ =~= joined_labels(fields_view(fields@).take(position + 1)));
        position = position + 1;
    }
    assert(fields_view(fields@).take(position as int) =~= fields_view(fields@));
    let mut name = "idx_".to_owned();
    name.append(collection_name);
    name.append("_");
    name.append(labels.as_str());
    name
}

impl MongodbSource {
    pub fn builder() -> (builder: MongodbSourceBuilder)
        ensures
            builder.is_empty(),
    {
        MongodbSourceBuilder::new()
    }

    pub fn new(
        database_name: String,
        client_options: ClientOptions,
        read_options: FindOptions,
        count_options: Option<CountOptions>,
        batch_size: u64,
    ) -> (source: MongodbSource)
        ensures
            source.database_name == database_name,
            source.client_options == client_options,
            source.read_options == read_options,
            source.count_options == count_options,
            source.batch_size == batch_size,
    {
        MongodbSource { database_name, client_options, read_options, count_options, batch_size }
    }

    /// Generates the name of an index from its entity and its fields.
    pub fn generate_default_index_name(&self, collection_name: &str, fields: &[IndexField]) -> (name:
        String)
        ensures
            name@ == default_index_name_spec(collection_name@, fields_view(fields@)),
    {
        generate_default_index_name(collection_name, fields)
    }

    /// The read settings for one page: the source's own, with the page put
    /// in.
    pub fn build_chunk_read_options(&self, options: &PaginationOptions) -> (read_options:
        FindOptions)
        ensures
            read_options@ == (FindOptionsView {
                sort: self.read_options@.sort,
                skip: Some(options.start_position),
                limit: Some(limit_setting_spec(options.limit)),
                batch_size: self.read_options@.batch_size,
            }),
    {
        let mut read_options = self.read_options.duplicate();
        read_options.skip = Some(options.start_position);
        read_options.limit = Some(limit_setting(options.limit));
        read_options
    }

    /// The indexes of an entity, from the native indexes that the store
    /// lists for it: without the index on the primary key, and with a
    /// generated name for each index that has none.
    pub fn list_indexes(&self, collection_name: &str, listed: &Vec<IndexModel>) -> (source_indexes:
        SourceIndexes)
        ensures
            source_indexes.entity_name@ == collection_name@,
            configs_view(source_indexes.indexes@) == listed_configs(
                models_view(listed@),
                collection_name@,
            ),
    {
        let mut indexes: Vec<IndexConfig> = Vec::new();
        let mut position: usize = 0;
        while position < listed.len()
            invariant
                position <= listed@.len(),
                configs_view(indexes@) == listed_configs(
                    models_view(listed@).take(position as int),
                    collection_name@,
                ),
            decreases listed.len() - position,
        {
            let model = &listed[position];
            proof {
                let all = models_view(listed@);
                assert(all.take(position + 1).drop_last() =~= all.take(position as int));
                assert(all.take(position + 1).last() == model@);
            }
            if !model.is_primary_key() {
                let ghost before = configs_view(indexes@);
                let mut config = IndexConfig::of_model(model);
                if str_equal(config.name.as_str(), "unnamed_index") {
                    config.name = generate_default_index_name(
                        collection_name,
                        config.fields.as_slice(),
                    );
                }
                indexes.push(config);
                assert(configs_view(indexes@) =~= before.push(
                    named_config(native_to_config_spec(model@), collection_name@),
                ));
            }
            position = position + 1;
        }
        assert(models_view(listed@).take(position as int) =~= models_view(listed@));
        SourceIndexes { entity_name: collection_name.to_owned(), indexes }
    }
}

/// What a source reports keeps the invariants of index descriptions: of
/// native indexes that have at least one key and no empty name, every
/// index reported has a name and at least one field, and each stems from a
/// native index that is not the one on the primary key.
pub proof fn lemma_listed_configs_well_formed(
    models: Seq<IndexModelView>,
    collection_name: Seq<char>,
)
    requires
        forall|i: int|
            0 <= i < models.len() ==> (#[trigger] models[i]).keys.len() > 0 && native_name(
                models[i].options,
            ).len() > 0,
    ensures
        listed_configs(models, collection_name).len() <= models.len(),
        forall|j: int|
            0 <= j < listed_configs(models, collection_name).len() ==> (#[trigger] listed_configs(
                models,
                collection_name,
            )[j]).well_formed(),
        forall|j: int|
            0 <= j < listed_configs(models, collection_name).len() ==> exists|i: int|
                0 <= i < models.len() && !is_primary_key_index(models[i])
                    && #[trigger] listed_configs(models, collection_name)[j] == named_config(
                    native_to_config_spec(#[trigger] models[i]),
                    collection_name,
                ),
    decreases models.len(),
{
    if models.len() > 0 {
        let front = models.drop_last();
        let last = models.last();
        assert forall|i: int| 0 <= i < front.len() implies (#[trigger] front[i]).keys.len() > 0
            && native_name(front[i].options).len() > 0 by {
            assert(front[i] == models[i]);
        }
        lemma_listed_configs_well_formed(front, collection_name);
        let before = listed_configs(front, collection_name);
        let all = listed_configs(models, collection_name);
        assert(last == models[models.len() - 1]);
        reveal_strlit("idx_");
        assert forall|j: int| 0 <= j < all.len() implies (#[trigger] all[j]).well_formed() by {
            if j < before.len() {
                assert(all[j] == before[j]);
            }
        }
        assert forall|j: int| 0 <= j < all.len() implies exists|i: int|
            0 <= i < models.len() && !is_primary_key_index(models[i]) && #[trigger] all[j]
                == named_config(native_to_config_spec(#[trigger] models[i]), collection_name) by {
            if j < before.len() {
                assert(all[j] == before[j]);
                let i = choose|i: int|
                    0 <= i < front.len() && !is_primary_key_index(front[i]) && #[trigger] before[j]
                        == named_config(
                        native_to_config_spec(#[trigger] front[i]),
                        collection_name,
                    );
                assert(front[i] == models[i]);
            } else {
                assert(all[j] == named_config(native_to_config_spec(last), collection_name));
            }
        }
    }
}

} // verus!
