//! What the source and the destination decide: read settings, index names,
//! which indexes and views go over, and the kinds of errors.

use tuxedo::database::clearing::ClearDecision;
use tuxedo::database::index::{
    IndexConfig, IndexDirection, IndexField, IndexOptionMap, IndexType, SourceIndexes,
};
use tuxedo::database::mongodb::conversions::{IndexModel, IndexOptions};
use tuxedo::database::mongodb::options::{ClientOptions, FindOptions, InsertManyOptions};
use tuxedo::database::mongodb::source::generate_default_index_name;
use tuxedo::database::mongodb::{MongodbDestination, MongodbSource};
use tuxedo::database::pair::{CollectionSpecification, DatabasePair};
use tuxedo::error::ErrorKind;
use tuxedo::replication::manager::ReplicationConfig;
use tuxedo::replication::processor::{
    ModelProcessor, ProcessorConfig, ReplicatorConfig, ReplicatorProcessor,
};
use tuxedo::replication::task::{
    batch_read_options, cursor_setting, limit_setting, TaskAction, TaskEvent, TaskState,
};
use tuxedo::{PaginationOptions, ReplicationStrategy, TuxedoError};

fn source() -> MongodbSource {
    let mut read_options = FindOptions::default();
    read_options.batch_size = Some(1000);
    MongodbSource::new("prod".to_string(), ClientOptions::default(), read_options, None, 5000)
}

fn destination() -> MongodbDestination {
    MongodbDestination::new("staging".to_string(), ClientOptions::default(), None)
}

fn field(name: &str, direction: IndexDirection) -> IndexField {
    IndexField { name: name.to_string(), direction }
}

fn model(key: &str, name: Option<&str>) -> IndexModel {
    let mut keys = bson::Document::new();
    keys.insert(key, bson::Bson::Int32(1));
    let mut model = IndexModel::new(keys);
    let mut options = IndexOptions::default();
    options.name = name.map(|n| n.to_string());
    model.options = Some(options);
    model
}

#[test]
fn default_index_names() {
    assert_eq!(
        generate_default_index_name("users", &[field("email", IndexDirection::Ascending)]),
        "idx_users_email_asc"
    );
    assert_eq!(
        generate_default_index_name(
            "orders",
            &[
                field("created", IndexDirection::Descending),
                field("status", IndexDirection::Ascending),
                field("id", IndexDirection::Ascending),
            ]
        ),
        "idx_orders_created_desc_status_asc_id_asc"
    );
    assert_eq!(generate_default_index_name("users", &[]), "idx_users_");
    assert_eq!(
        source().generate_default_index_name("test", &[field("name", IndexDirection::Ascending)]),
        "idx_test_name_asc"
    );
}

#[test]
fn listed_indexes_get_names_and_lose_the_primary_key() {
    let listed = vec![
        model("_id", Some("_id_")),
        model("email", Some("idx_users_email_asc")),
        model("nick", None),
        model("age", Some("unnamed_index")),
    ];
    let indexes = source().list_indexes("users", &listed);
    assert_eq!(indexes.entity_name, "users");
    let names: Vec<&str> = indexes.indexes.iter().map(|index| index.name.as_str()).collect();
    assert_eq!(names, vec!["idx_users_email_asc", "idx_users_nick_asc", "idx_users_age_asc"]);
    for index in indexes.indexes.iter() {
        assert!(!index.name.is_empty());
        assert!(!index.fields.is_empty());
    }
    assert!(source().list_indexes("users", &Vec::new()).indexes.is_empty());
}

#[test]
fn chunk_read_options_carry_the_page() {
    let options = source().build_chunk_read_options(&PaginationOptions::new(2000, 500));
    assert_eq!(options.skip, Some(2000));
    assert_eq!(options.limit, Some(500));
    assert_eq!(options.batch_size, Some(1000));
    assert!(options.sort.is_none());
}

#[test]
fn batch_read_options_impose_a_stable_order() {
    let options = batch_read_options(&FindOptions::default(), PaginationOptions::new(1000, 1000), 1200);
    let sort = options.sort.expect("an order");
    assert_eq!(sort.len(), 1);
    assert_eq!(sort.get("_id").and_then(|v| v.as_i32()), Some(1));
    assert_eq!(options.skip, Some(1000));
    assert_eq!(options.limit, Some(1000));
    assert_eq!(options.batch_size, Some(1200));
}

#[test]
fn batch_read_options_keep_a_given_order() {
    let mut order = bson::Document::new();
    order.insert("created", bson::Bson::Int32(-1));
    let mut defaults = FindOptions::default();
    defaults.sort = Some(order.clone());
    defaults.batch_size = Some(3);
    defaults.skip = Some(9);
    let options = batch_read_options(&defaults, PaginationOptions::new(0, 7), 117_965);
    assert_eq!(options.sort, Some(order));
    assert_eq!(options.skip, Some(0));
    assert_eq!(options.limit, Some(7));
    assert_eq!(options.batch_size, Some(117_965));
}

#[test]
fn store_settings_of_large_numbers() {
    assert_eq!(limit_setting(0), 0);
    assert_eq!(limit_setting(i64::MAX as u64), i64::MAX);
    assert_eq!(limit_setting(i64::MAX as u64 + 1), i64::MIN);
    assert_eq!(limit_setting(u64::MAX), -1);
    assert_eq!(cursor_setting(0), 0);
    assert_eq!(cursor_setting(u32::MAX as u64), u32::MAX);
    assert_eq!(cursor_setting(u32::MAX as u64 + 1), 0);
    assert_eq!(cursor_setting((1u64 << 32) + 5), 5);
}

#[test]
fn tasks_are_built_for_a_page() {
    let mut query = bson::Document::new();
    query.insert("active", true);
    let mut config = ProcessorConfig::default();
    config.query = query.clone();
    let processor = ModelProcessor::new("users".to_string(), config);
    let mut defaults = ReplicationConfig::with_thread_count(4);
    defaults.strategy = ReplicationStrategy::Clone;
    defaults.write_options =
        InsertManyOptions { ordered: Some(false), bypass_document_validation: None };

    let task = processor.task_for(&defaults, PaginationOptions::new(2000, 500), 1200);
    assert_eq!(task.collection_name, "users");
    assert_eq!(task.strategy, ReplicationStrategy::Clone);
    assert_eq!(task.config.query, query);
    assert_eq!(task.config.write_options, defaults.write_options);
    assert_eq!(task.config.read_options.skip, Some(2000));
    assert_eq!(task.config.read_options.limit, Some(500));
    assert_eq!(task.config.read_options.batch_size, Some(1200));
    assert!(task.config.read_options.sort.as_ref().expect("an order").contains_key("_id"));
    let step = task.step(TaskState::Reading, TaskEvent::ChunkRead(Some(500))).expect("fits");
    assert_eq!(step.action, TaskAction::WriteChunk { mask: false, records: 500 });

    let mut masked = ReplicatorConfig::default();
    masked.masked = true;
    let replicator = ReplicatorProcessor::new(masked, "events".to_string());
    assert_eq!(replicator.collection_name(), "events");
    let task = replicator.task_for(&defaults, PaginationOptions::new(0, 7), 9);
    assert_eq!(task.collection_name, "events");
    assert!(task.masked);
    assert_eq!(task.config.read_options.limit, Some(7));
    let step = task.step(TaskState::Reading, TaskEvent::ChunkRead(Some(7))).expect("fits");
    assert_eq!(step.action, TaskAction::WriteChunk { mask: true, records: 7 });
}

#[test]
fn destination_clears_only_what_the_run_fills() {
    let collections: Vec<String> =
        ["users", "system.views", "events"].iter().map(|n| n.to_string()).collect();
    let entity_names: Vec<String> =
        ["users", "system.views"].iter().map(|n| n.to_string()).collect();
    let expected =
        vec![ClearDecision::Drop, ClearDecision::SkipSystem, ClearDecision::SkipUnlisted];
    assert_eq!(destination().clear_database(&collections, &entity_names), expected);
    let pair = DatabasePair::new(source(), destination());
    assert_eq!(pair.clear_target_collections(&collections, &entity_names), expected);
}

#[test]
fn destination_creates_indexes_only_when_there_are_some() {
    let none = SourceIndexes { entity_name: "users".to_string(), indexes: Vec::new() };
    assert!(destination().create_indexes(&none).is_none());
    let some = SourceIndexes {
        entity_name: "users".to_string(),
        indexes: vec![IndexConfig {
            name: "idx_users_email_asc".to_string(),
            fields: vec![field("email", IndexDirection::Ascending)],
            index_type: IndexType::Unique,
            options: IndexOptionMap::new(),
        }],
    };
    let models = destination().create_indexes(&some).expect("one index");
    assert_eq!(models.len(), 1);
    assert_eq!(models[0].options.as_ref().and_then(|o| o.unique), Some(true));
}

#[test]
fn pair_copies_all_indexes_but_the_primary_key() {
    let pair = DatabasePair::new(source(), destination());
    let listed = vec![model("_id", Some("_id_")), model("email", Some("by_email"))];
    let copied = pair.copy_indexes(&listed).expect("one index to copy");
    assert_eq!(copied.len(), 1);
    assert!(copied[0].keys.contains_key("email"));
    assert_eq!(copied[0].options.as_ref().and_then(|o| o.name.clone()), Some("by_email".to_string()));
    assert!(pair.copy_indexes(&vec![model("_id", Some("_id_"))]).is_none());
    assert!(pair.copy_indexes(&Vec::new()).is_none());
}

#[test]
fn average_document_size_defaults_to_a_kibibyte() {
    let pair = DatabasePair::new(source(), destination());
    assert_eq!(pair.get_average_document_size(Some(800)), 800);
    assert_eq!(pair.get_average_document_size(None), 1024);
    assert_eq!(tuxedo::database::pair::average_document_size(Some(0)), 0);
    assert_eq!(tuxedo::database::pair::average_document_size(None), 1024);
}

fn view(name: &str, view_on: Option<&str>, with_pipeline: bool) -> CollectionSpecification {
    let mut stage = bson::Document::new();
    stage.insert("$match", bson::Document::new());
    CollectionSpecification {
        name: name.to_string(),
        view_on: view_on.map(|on| on.to_string()),
        pipeline: if with_pipeline { Some(vec![stage]) } else { None },
    }
}

#[test]
fn only_complete_views_are_copied() {
    let pair = DatabasePair::new(source(), destination());
    let listed = vec![
        view("active_users", Some("users"), true),
        view("broken", None, true),
        view("half", Some("users"), false),
        view("recent_orders", Some("orders"), true),
    ];
    let views = pair.list_source_views(&listed);
    assert_eq!(pair.get_source_view_names(&views), vec!["active_users", "recent_orders"]);
    assert!(listed[0].is_complete());
    assert!(!listed[1].is_complete());
    assert!(!listed[2].is_complete());
}

#[test]
fn view_commands() {
    let pair = DatabasePair::new(source(), destination());
    let command = pair.copy_single_view(&view("active_users", Some("users"), true)).expect("complete");
    assert_eq!(command.create, "active_users");
    assert_eq!(command.view_on, "users");
    assert_eq!(command.pipeline.len(), 1);
    assert!(command.pipeline[0].contains_key("$match"));

    match pair.copy_single_view(&view("broken", None, true)) {
        Err(TuxedoError::Generic(message)) => assert_eq!(message, "View 'broken' missing viewOn"),
        other => panic!("unexpected outcome: {:?}", other),
    }
    match pair.copy_single_view(&view("half", Some("users"), false)) {
        Err(TuxedoError::Generic(message)) => assert_eq!(message, "View 'half' missing pipeline"),
        other => panic!("unexpected outcome: {:?}", other),
    }
    match pair.copy_single_view(&view("nothing", None, false)) {
        Err(TuxedoError::Generic(message)) => assert_eq!(message, "View 'nothing' missing viewOn"),
        other => panic!("unexpected outcome: {:?}", other),
    }
}

#[test]
fn errors_have_kinds_and_messages() {
    let errors = vec![
        (TuxedoError::TaskError("t".to_string()), ErrorKind::Task, false),
        (TuxedoError::ConfigError("c".to_string()), ErrorKind::Config, true),
        (TuxedoError::ConnectionError("n".to_string()), ErrorKind::Connection, true),
        (TuxedoError::Database("d".to_string()), ErrorKind::Database, true),
        (TuxedoError::Serialization("s".to_string()), ErrorKind::Serialization, false),
        (TuxedoError::DispatchClosed("x".to_string()), ErrorKind::DispatchClosed, false),
        (TuxedoError::IndexError("i".to_string()), ErrorKind::Index, false),
        (TuxedoError::Generic("g".to_string()), ErrorKind::Generic, false),
    ];
    let messages = ["t", "c", "n", "d", "s", "x", "i", "g"];
    for ((error, kind, fatal), message) in errors.iter().zip(messages.iter()) {
        assert_eq!(error.kind(), *kind);
        assert_eq!(error.is_fatal_at_start(), *fatal);
        assert_eq!(error.message(), *message);
    }
}
