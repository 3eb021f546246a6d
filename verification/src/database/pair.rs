//! A source and a destination, and what concerns both: which indexes and
//! views go from the one to the other.
use crate::database::clearing::{decision_spec, names_of, plan_clear, ClearDecision};
use crate::database::mongodb::conversions::{
    is_primary_key_index, models_view, IndexModel, IndexModelView, IndexOptions,
};
use crate::database::mongodb::destination::MongodbDestination;
use crate::database::mongodb::source::MongodbSource;
use crate::error::{TuxedoError, TuxedoResult};
use vstd::prelude::*;

verus! {

/// The average size of a record that is assumed where the store reports
/// none: one kibibyte.
pub const DEFAULT_AVERAGE_DOCUMENT_SIZE: u64 = 1024;

/// What the store lists of a collection or view.
#[derive(Debug, Clone)]
pub struct CollectionSpecification {
    pub name: String,
    /// The collection that a view is defined on.
    pub view_on: Option<String>,
    /// The stages by which a view is computed.
    pub pipeline: Option<Vec<bson::Document>>,
}

/// What a [`CollectionSpecification`] holds.
pub struct CollectionSpecificationView {
    pub name: Seq<char>,
    pub view_on: Option<Seq<char>>,
    pub pipeline: Option<Seq<bson::Document>>,
}

impl View for CollectionSpecification {
    type V = CollectionSpecificationView;

    open spec fn view(&self) -> CollectionSpecificationView {
        CollectionSpecificationView {
            name: self.name@,
            view_on: match self.view_on {
                Some(on) => Some(on@),
                None => None,
            },
            pipeline: match self.pipeline {
                Some(stages) => Some(stages@),
                None => None,
            },
        }
    }
}

/// What a list of specifications holds, one by one.
pub open spec fn specifications_view(listed: Seq<CollectionSpecification>) -> Seq<
    CollectionSpecificationView,
> {
    Seq::new(listed.len(), |i: int| listed[i]@)
}

/// The command that creates a view on the destination.
#[derive(Debug, Clone)]
pub struct CreateView {
    pub create: String,
    pub view_on: String,
    pub pipeline: Vec<bson::Document>,
}

/// Whether the specification has what it takes to create the view again.
pub open spec fn is_complete_view(specification: CollectionSpecificationView) -> bool {
    specification.view_on.is_some() && specification.pipeline.is_some()
}

/// The specifications that are views to copy, in their order.
pub open spec fn complete_views(listed: Seq<CollectionSpecificationView>) -> Seq<
    CollectionSpecificationView,
>
    decreases listed.len(),
{
    if listed.len() == 0 {
        Seq::empty()
    } else {
        let before = complete_views(listed.drop_last());
        if is_complete_view(listed.last()) {
            before.push(listed.last())
        } else {
            before
        }
    }
}

/// The native indexes that are copied: all but the index on the primary
/// key, in their order.
pub open spec fn copied_models(listed: Seq<IndexModelView>) -> Seq<IndexModelView>
    decreases listed.len(),
{
    if listed.len() == 0 {
        Seq::empty()
    } else {
        let before = copied_models(listed.drop_last());
        if is_primary_key_index(listed.last()) {
            before
        } else {
            before.push(listed.last())
        }
    }
}

/// The complaint about a view that lacks the collection it is defined on.
pub open spec fn missing_view_on_spec(name: Seq<char>) -> Seq<char> {
    "View '"@ + name + "' missing viewOn"@
}

/// The complaint about a view that lacks its pipeline.
pub open spec fn missing_pipeline_spec(name: Seq<char>) -> Seq<char> {
    "View '"@ + name + "' missing pipeline"@
}

/// A copy of the stages of a pipeline.
fn duplicate_stages(stages: &Vec<bson::Document>) -> (copy: Vec<bson::Document>)
    ensures
        copy@ == stages@,
{
    let mut copy: Vec<bson::Document> = Vec::new();
    let mut position: usize = 0;
    while position < stages.len()
        invariant
            position <= stages@.len(),
            copy@ == stages@.take(position as int),
        decreases stages.len() - position,
    {
        copy.push(stages[position].clone());
        assert(copy@ =~= stages@.take(position + 1));
        position = position + 1;
    }
    assert(stages@.take(position as int) =~= stages@);
    copy
}

impl CollectionSpecification {
    /// A copy of the specification, with the stages of the pipeline as
    /// they are.
    pub fn duplicate(&self) -> (copy: CollectionSpecification)
        ensures
            copy@ == self@,
    {
        CollectionSpecification {
            name: self.name.clone(),
            view_on: match &self.view_on {
                Some(on) => Some(on.clone()),
                None => None,
            },
            pipeline: match &self.pipeline {
                Some(stages) => Some(duplicate_stages(stages)),
                None => None,
            },
        }
    }

    /// Whether the specification has what it takes to create the view
    /// again: the collection it is defined on, and its pipeline.
    pub fn is_complete(&self) -> (complete: bool)
        ensures
            complete == is_complete_view(self@),
    {
        self.view_on.is_some() && self.pipeline.is_some()
    }
}

impl IndexModel {
    /// A copy of the native index.
    pub fn duplicate(&self) -> (copy: IndexModel)
        ensures
            copy@ == self@,
            copy.keys == self.keys,
    {
        let options = match &self.options {
            None => None,
            Some(held) => Some(
                IndexOptions {
                    name: match &held.name {
                        Some(name) => Some(name.clone()),
                        None => None,
                    },
                    unique: held.unique,
                    sparse: held.sparse,
                    default_language: match &held.default_language {
                        Some(language) => Some(language.clone()),
                        None => None,
                    },
                    language_override: match &held.language_override {
                        Some(language) => Some(language.clone()),
                        None => None,
                    },
                },
            ),
        };
        IndexModel { keys: self.keys.clone(), options }
    }
}

/// The average size of a record, in bytes: what the store reports, or one
/// kibibyte where it reports none.
pub open spec fn average_document_size_spec(reported: Option<u64>) -> u64 {
    match reported {
        Some(bytes) => bytes,
        None => DEFAULT_AVERAGE_DOCUMENT_SIZE,
    }
}

/// The average size of a record of an entity, in bytes, from what the
/// store reports of it.
pub fn average_document_size(reported: Option<u64>) -> (size: u64)
    ensures
        size == average_document_size_spec(reported),
{
    match reported {
        Some(bytes) => bytes,
        None => DEFAULT_AVERAGE_DOCUMENT_SIZE,
    }
}

/// A source and a destination.
#[derive(Debug, Clone)]
pub struct DatabasePair {
    pub source: MongodbSource,
    pub destination: MongodbDestination,
}

impl DatabasePair {
    pub fn new(source: MongodbSource, destination: MongodbDestination) -> (pair: DatabasePair)
        ensures
            pair.source == source,
            pair.destination == destination,
    {
        DatabasePair { source, destination }
    }

    /// The average size of a record of an entity, in bytes: what the store
    /// reports, or one kibibyte where it reports none.
    pub fn get_average_document_size(&self, reported: Option<u64>) -> (size: u64)
        ensures
            size == average_document_size_spec(reported),
    {
        average_document_size(reported)
    }

    /// The native indexes to create on the destination, of those that the
    /// source lists for an entity: all but the index on the primary key,
    /// which the destination creates by itself. `None` where nothing is
    /// left to copy.
    pub fn copy_indexes(&self, listed: &Vec<IndexModel>) -> (indexes: Option<Vec<IndexModel>>)
        ensures
            indexes.is_some() <==> copied_models(models_view(listed@)).len() > 0,
            indexes.is_some() ==> models_view(indexes.unwrap()@) == copied_models(
                models_view(listed@),
            ),
    {
        let mut indexes: Vec<IndexModel> = Vec::new();
        let mut position: usize = 0;
        while position < listed.len()
            invariant
                position <= listed@.len(),
                models_view(indexes@) == copied_models(models_view(listed@).take(position as int)),
            decreases listed.len() - position,
        {
            let model = &listed[position];
            proof {
                let all = models_view(listed@);
                assert(all.take(position + 1).drop_last() =~= all.take(position as int));
                assert(all.take(position + 1).last() == model@);
            }
            if !model.is_primary_key() {
                let ghost before = models_view(indexes@);
                indexes.push(model.duplicate());
                assert(models_view(indexes@) =~= before.push(model@));
            }
            position = position + 1;
        }
        assert(models_view(listed@).take(position as int) =~= models_view(listed@));
        if indexes.len() == 0 {
            None
        } else {
            Some(indexes)
        }
    }

    /// Decides, for each collection of the destination, whether the clear
    /// before a run drops it.
    pub fn clear_target_collections(
        &self,
        target_collections: &Vec<String>,
        collection_names: &Vec<String>,
    ) -> (plan: Vec<ClearDecision>)
        ensures
            plan@.len() == target_collections@.len(),
            forall|i: int|
                0 <= i < plan@.len() ==> plan@[i] == decision_spec(
                    #[trigger] target_collections@[i]@,
                    names_of(collection_names@),
                ),
    {
        plan_clear(target_collections, collection_names)
    }

    /// The views to copy, of what the source lists as views: those that
    /// name the collection they are defined on and their pipeline.
    pub fn list_source_views(&self, listed: &Vec<CollectionSpecification>) -> (views: Vec<
        CollectionSpecification,
    >)
        ensures
            specifications_view(views@) == complete_views(specifications_view(listed@)),
    {
        let mut views: Vec<CollectionSpecification> = Vec::new();
        let mut position: usize = 0;
        while position < listed.len()
            invariant
                position <= listed@.len(),
                specifications_view(views@) == complete_views(
                    specifications_view(listed@).take(position as int),
                ),
            decreases listed.len() - position,
        {
            let specification = &listed[position];
            proof {
                let all = specifications_view(listed@);
                assert(all.take(position + 1).drop_last() =~= all.take(position as int));
                assert(all.take(position + 1).last() == specification@);
            }
            if specification.is_complete() {
                let ghost before = specifications_view(views@);
                views.push(specification.duplicate());
                assert(specifications_view(views@) =~= before.push(specification@));
            }
            position = position + 1;
        }
        assert(specifications_view(listed@).take(position as int) =~= specifications_view(
            listed@,
        ));
        views
    }

    /// The names of the views, in their order.
    pub fn get_source_view_names(&self, views: &Vec<CollectionSpecification>) -> (names: Vec<
        String,
    >)
        ensures
            names@.len() == views@.len(),
            forall|i: int| 0 <= i < names@.len() ==> (#[trigger] names@[i])@ == views@[i].name@,
    {
        let mut names: Vec<String> = Vec::new();
        let mut position: usize = 0;
        while position < views.len()
            invariant
                position <= views@.len(),
                names@.len() == position,
                forall|i: int| 0 <= i < position ==> (#[trigger] names@[i])@ == views@[i].name@,
            decreases views.len() - position,
        {
            names.push(views[position].name.clone());
            position = position + 1;
        }
        names
    }

    /// The command that creates a view on the destination as the source
    /// has it, or the complaint about what the specification lacks.
    pub fn copy_single_view(&self, view_spec: &CollectionSpecification) -> (command: TuxedoResult<
        CreateView,
    >)
        ensures
            match command {
                Ok(create) => is_complete_view(view_spec@) && create.create@ == view_spec.name@
                    && Some(create.view_on@) == view_spec@.view_on && Some(create.pipeline@)
                    == view_spec@.pipeline,
                Err(error) => error is Generic && !is_complete_view(view_spec@)
                    && error.message_spec() == if view_spec.view_on.is_none() {
                    missing_view_on_spec(view_spec.name@)
                } else {
                    missing_pipeline_spec(view_spec.name@)
                },
            },
    {
        let view_on = match &view_spec.view_on {
            Some(on) => on.clone(),
            None => {
                let mut complaint = "View '".to_owned();
                complaint.append(view_spec.name.as_str());
                complaint.append("' missing viewOn");
                return Err(TuxedoError::Generic(complaint));
            },
        };
        let pipeline = match &view_spec.pipeline {
            Some(stages) => duplicate_stages(stages),
            None => {
                let mut complaint = "View '".to_owned();
                complaint.append(view_spec.name.as_str());
                complaint.append("' missing pipeline");
                return Err(TuxedoError::Generic(complaint));
            },
        };
        Ok(CreateView { create: view_spec.name.clone(), view_on, pipeline })
    }
}

} // verus!
