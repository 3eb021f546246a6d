//! The builders of a source, of a destination and of a run.

use tuxedo::database::mongodb::options::{
    ClientOptions, Compressor, CountOptions, FindOptions, InsertManyOptions,
};
use tuxedo::database::mongodb::{
    get_compressors, MongodbDestination, MongodbDestinationBuilder, MongodbSource,
    MongodbSourceBuilder,
};
use tuxedo::error::ErrorKind;
use tuxedo::replication::manager_builder::db_name_from_path;
use tuxedo::replication::processor::{
    ProcessorConfig, Processor, ReplicatorConfig,
};
use tuxedo::{
    ProcessorConfigBuilder, ReplicationConfigBuilder, ReplicationManager,
    ReplicationManagerBuilder, ReplicationStrategy, TuxedoError,
};

fn all_compressors() -> Vec<Compressor> {
    vec![
        Compressor::Zstd { level: None },
        Compressor::Zlib { level: None },
        Compressor::Snappy,
    ]
}

#[test]
fn compressors_come_in_order_of_preference() {
    assert_eq!(get_compressors(), Some(all_compressors()));
}

#[test]
fn new_source_builder_is_empty() {
    let builder = MongodbSourceBuilder::new();
    assert_eq!(builder.database_name, None);
    assert_eq!(builder.client_options, None);
    assert!(builder.read_options.is_none());
    assert_eq!(builder.count_options, None);
    assert_eq!(builder.batch_size, None);
    assert_eq!(builder.cursor_batch_size, None);
    assert_eq!(builder.compressors, None);
    assert_eq!(MongodbSource::builder().database_name, None);
}

#[test]
fn source_builder_takes_each_setting() {
    let mut read_options = FindOptions::default();
    read_options.limit = Some(5);
    let builder = MongodbSourceBuilder::new()
        .database_name("shop")
        .client_options(Some(ClientOptions::default()))
        .read_options(Some(read_options))
        .count_options(Some(CountOptions { limit: Some(9), skip: None }))
        .batch_size(250)
        .cursor_batch_size(300);
    assert_eq!(builder.database_name, Some("shop".to_string()));
    assert_eq!(builder.client_options, Some(ClientOptions::default()));
    assert_eq!(builder.read_options.as_ref().and_then(|o| o.limit), Some(5));
    assert_eq!(builder.count_options, Some(CountOptions { limit: Some(9), skip: None }));
    assert_eq!(builder.batch_size, Some(250));
    assert_eq!(builder.cursor_batch_size, Some(300));
    assert_eq!(builder.compressors, None);
}

#[test]
fn source_builder_aligns_cursor_with_batch_size() {
    let builder = MongodbSourceBuilder::new().batch_size(1000).align_with_batch_size();
    assert_eq!(builder.cursor_batch_size, Some(1200));
    assert_eq!(builder.batch_size, Some(1000));
    let rounded = MongodbSourceBuilder::new().batch_size(251).align_with_batch_size();
    assert_eq!(rounded.cursor_batch_size, Some(302));
    let default = MongodbSourceBuilder::new().align_with_batch_size();
    assert_eq!(default.cursor_batch_size, Some(6000));
    assert_eq!(default.batch_size, None);
    // Only the low 32 bits of what is a fifth more than the batch size fit the setting.
    let wide = MongodbSourceBuilder::new().batch_size((1u64 << 32) + 7).align_with_batch_size();
    assert_eq!(wide.cursor_batch_size, Some(858_993_468));
    let widest = MongodbSourceBuilder::new().batch_size(u64::MAX).align_with_batch_size();
    assert_eq!(widest.cursor_batch_size, Some(u32::MAX));
}

#[test]
fn source_builder_enables_compression() {
    let builder = MongodbSourceBuilder::new().enable_compression();
    assert_eq!(builder.compressors, Some(all_compressors()));
}

#[test]
fn source_builder_optimizes_for_performance() {
    let base = MongodbSourceBuilder::new().database_name("shop").batch_size(700);
    let plain = base.optimize_for_performance(false);
    assert_eq!(plain.compressors, None);
    assert_eq!(plain.cursor_batch_size, Some(840));
    assert_eq!(plain.database_name, Some("shop".to_string()));
    assert_eq!(plain.batch_size, Some(700));

    let compressed = base.optimize_for_performance(true);
    assert_eq!(compressed.compressors, Some(all_compressors()));

    let kept = base.duplicate().cursor_batch_size(42).optimize_for_performance(false);
    assert_eq!(kept.cursor_batch_size, Some(42));
}

#[test]
fn source_needs_a_database_name_and_client_options() {
    let missing_name = MongodbSourceBuilder::new()
        .client_options(Some(ClientOptions::default()))
        .assemble(4);
    match missing_name {
        Err(TuxedoError::Generic(message)) => {
            assert_eq!(message, "No database name provided for mongodb source database")
        }
        other => panic!("unexpected outcome: {:?}", other),
    }
    let missing_options = MongodbSourceBuilder::new().database_name("shop").assemble(4);
    match missing_options {
        Err(TuxedoError::Generic(message)) => {
            assert_eq!(message, "No client options provided for mongodb source database")
        }
        other => panic!("unexpected outcome: {:?}", other),
    }
    assert!(MongodbSourceBuilder::new().build().is_err());
}

#[test]
fn source_gets_pool_sizes_from_the_cores() {
    let source = MongodbSourceBuilder::new()
        .database_name("shop")
        .client_options(Some(ClientOptions::default()))
        .assemble(6)
        .expect("complete");
    assert_eq!(source.database_name, "shop");
    assert_eq!(source.client_options.max_pool_size, Some(12));
    assert_eq!(source.client_options.min_pool_size, Some(6));
    assert_eq!(source.client_options.compressors, None);
    assert_eq!(source.read_options.batch_size, Some(1000));
    assert_eq!(source.batch_size, 5000);
    assert_eq!(source.count_options, None);

    let small = MongodbSourceBuilder::new()
        .database_name("shop")
        .client_options(Some(ClientOptions::default()))
        .assemble(2)
        .expect("complete");
    assert_eq!(small.client_options.max_pool_size, Some(8));
    assert_eq!(small.client_options.min_pool_size, Some(2));
}

#[test]
fn source_keeps_settings_that_were_given() {
    let mut client_options = ClientOptions::default();
    client_options.max_pool_size = Some(3);
    client_options.min_pool_size = Some(1);
    let mut read_options = FindOptions::default();
    read_options.batch_size = Some(64);
    let source = MongodbSourceBuilder::new()
        .database_name("shop")
        .client_options(Some(client_options))
        .read_options(Some(read_options))
        .cursor_batch_size(500)
        .batch_size(123)
        .enable_compression()
        .assemble(16)
        .expect("complete");
    assert_eq!(source.client_options.max_pool_size, Some(3));
    assert_eq!(source.client_options.min_pool_size, Some(1));
    assert_eq!(source.client_options.compressors, Some(all_compressors()));
    assert_eq!(source.read_options.batch_size, Some(64));
    assert_eq!(source.batch_size, 123);

    let with_cursor = MongodbSourceBuilder::new()
        .database_name("shop")
        .client_options(Some(ClientOptions::default()))
        .cursor_batch_size(500)
        .assemble(16)
        .expect("complete");
    assert_eq!(with_cursor.read_options.batch_size, Some(500));
}

#[test]
fn source_is_built_on_this_machine() {
    let source = MongodbSourceBuilder::new()
        .database_name("shop")
        .client_options(Some(ClientOptions::default()))
        .build()
        .expect("complete");
    let min = source.client_options.min_pool_size.expect("set");
    let max = source.client_options.max_pool_size.expect("set");
    assert!(min >= 1);
    assert_eq!(max, std::cmp::max(min * 2, 8));
}

#[test]
fn new_destination_builder_is_empty() {
    let builder = MongodbDestinationBuilder::new();
    assert_eq!(builder.database_name, None);
    assert_eq!(builder.client_options, None);
    assert_eq!(builder.write_options, None);
    assert_eq!(builder.compressors, None);
    assert_eq!(MongodbDestination::builder().database_name, None);
}

#[test]
fn destination_builder_takes_each_setting() {
    let write_options = InsertManyOptions { ordered: Some(true), bypass_document_validation: None };
    let builder = MongodbDestinationBuilder::new()
        .database_name("staging")
        .client_options(ClientOptions::default())
        .write_options(write_options)
        .enable_compression();
    assert_eq!(builder.database_name, Some("staging".to_string()));
    assert_eq!(builder.client_options, Some(ClientOptions::default()));
    assert_eq!(builder.write_options, Some(write_options));
    assert_eq!(builder.compressors, Some(all_compressors()));
}

#[test]
fn high_throughput_writes_are_unordered_and_unvalidated() {
    let fast = InsertManyOptions { ordered: Some(false), bypass_document_validation: Some(true) };
    let builder = MongodbDestinationBuilder::new().high_throughput_writes();
    assert_eq!(builder.write_options, Some(fast));
    let overridden = MongodbDestinationBuilder::new()
        .write_options(InsertManyOptions { ordered: Some(true), bypass_document_validation: None })
        .high_throughput_writes();
    assert_eq!(overridden.write_options, Some(fast));
}

#[test]
fn destination_builder_optimizes_for_performance() {
    let fast = InsertManyOptions { ordered: Some(false), bypass_document_validation: Some(true) };
    let base = MongodbDestinationBuilder::new().database_name("staging");
    let plain = base.optimize_for_performance(false);
    assert_eq!(plain.write_options, Some(fast));
    assert_eq!(plain.compressors, None);
    assert_eq!(plain.database_name, Some("staging".to_string()));
    let compressed = base.optimize_for_performance(true);
    assert_eq!(compressed.write_options, Some(fast));
    assert_eq!(compressed.compressors, Some(all_compressors()));
}

#[test]
fn destination_needs_a_database_name_and_client_options() {
    match MongodbDestinationBuilder::new().client_options(ClientOptions::default()).assemble(4) {
        Err(TuxedoError::Generic(message)) => {
            assert_eq!(message, "No database name provided for mongodb destination database")
        }
        other => panic!("unexpected outcome: {:?}", other),
    }
    match MongodbDestinationBuilder::new().database_name("staging").assemble(4) {
        Err(TuxedoError::Generic(message)) => {
            assert_eq!(message, "No client options provided for mongodb destination database")
        }
        other => panic!("unexpected outcome: {:?}", other),
    }
    assert!(MongodbDestinationBuilder::new().build().is_err());
}

#[test]
fn destination_gets_pool_sizes_from_the_cores() {
    let destination = MongodbDestinationBuilder::new()
        .database_name("staging")
        .client_options(ClientOptions::default())
        .assemble(8)
        .expect("complete");
    assert_eq!(destination.client_options.max_pool_size, Some(13));
    assert_eq!(destination.client_options.min_pool_size, Some(8));
    assert_eq!(destination.write_options, None);

    let small = MongodbDestinationBuilder::new()
        .database_name("staging")
        .client_options(ClientOptions::default())
        .assemble(2)
        .expect("complete");
    assert_eq!(small.client_options.max_pool_size, Some(10));

    let built = MongodbDestinationBuilder::new()
        .database_name("staging")
        .client_options(ClientOptions::default())
        .build()
        .expect("complete");
    let min = built.client_options.min_pool_size.expect("set");
    assert!(min >= 1);
    assert_eq!(built.client_options.max_pool_size, Some(std::cmp::max(min + 5, 10)));
}

#[test]
fn destination_new_holds_what_it_is_given() {
    let destination = MongodbDestination::new(
        "staging".to_string(),
        ClientOptions::default(),
        Some(InsertManyOptions::default()),
    );
    assert_eq!(destination.database_name, "staging");
    assert_eq!(destination.write_options, Some(InsertManyOptions::default()));
}

#[test]
fn processor_config_builder_sets_each_field() {
    let mut query = bson::Document::new();
    query.insert("active", true);
    let config = ProcessorConfigBuilder::new()
        .batch_size(50)
        .cursor_batch_size(60)
        .target_batch_bytes(Some(1 << 20))
        .adaptive_batching(true)
        .query(query.clone())
        .build();
    assert_eq!(config.batch_size, Some(50));
    assert_eq!(config.cursor_batch_size, Some(60));
    assert_eq!(config.target_batch_bytes, Some(1 << 20));
    assert_eq!(config.adaptive_batching, Some(true));
    assert_eq!(config.query, query);

    let empty = ProcessorConfig::builder().build();
    assert_eq!(empty.batch_size, None);
    assert_eq!(empty.cursor_batch_size, None);
    assert_eq!(empty.target_batch_bytes, None);
    assert_eq!(empty.adaptive_batching, None);
    assert!(empty.query.is_empty());
    assert!(ProcessorConfig::default().query.is_empty());
}

#[test]
fn replication_config_builder_sets_each_field() {
    let mut query = bson::Document::new();
    query.insert("kind", "order");
    let config = ReplicationConfigBuilder::new()
        .batch_size(Some(50))
        .cursor_batch_size(Some(60))
        .target_batch_bytes(Some(4096))
        .adaptive_batching(false)
        .query(query.clone())
        .mask()
        .build();
    assert_eq!(config.batch_size, Some(50));
    assert_eq!(config.cursor_batch_size, Some(60));
    assert_eq!(config.target_batch_bytes, Some(4096));
    assert_eq!(config.adaptive_batching, Some(false));
    assert_eq!(config.query, query);
    assert!(config.masked);

    let empty = ReplicatorConfig::builder().build();
    assert_eq!(empty.batch_size, None);
    assert!(!empty.masked);
    assert!(empty.query.is_empty());
    assert!(!ReplicatorConfig::default().masked);
}

#[test]
fn manager_builder_starts_with_the_defaults() {
    let builder = ReplicationManagerBuilder::with_thread_count(3);
    assert_eq!(builder.thread_count, 3);
    assert_eq!(builder.config.thread_count, 3);
    assert_eq!(builder.config.batch_size, 1000);
    assert_eq!(builder.config.strategy, ReplicationStrategy::Mask);
    assert_eq!(builder.source_uri, None);
    assert_eq!(builder.target_uri, None);
    assert!(builder.processors.is_empty());
    let on_this_machine = ReplicationManagerBuilder::new();
    assert!(on_this_machine.thread_count >= 1);
    assert_eq!(on_this_machine.config.thread_count, on_this_machine.thread_count);
}

#[test]
fn manager_builder_takes_each_setting() {
    let builder = ReplicationManagerBuilder::with_thread_count(3)
        .source_uri("mongodb://a/prod")
        .target_uri("mongodb://b/staging")
        .source_db("prod")
        .target_db("staging")
        .thread_count(5)
        .strategy(ReplicationStrategy::Clone)
        .batch_size(77)
        .write_batch_size(88)
        .target_batch_bytes(4096)
        .cursor_batch_size(99)
        .write_options(InsertManyOptions { ordered: Some(true), bypass_document_validation: None })
        .adaptive_batching()
        .add_compression();
    assert_eq!(builder.source_uri, Some("mongodb://a/prod".to_string()));
    assert_eq!(builder.target_uri, Some("mongodb://b/staging".to_string()));
    assert_eq!(builder.source_db, Some("prod".to_string()));
    assert_eq!(builder.target_db, Some("staging".to_string()));
    assert_eq!(builder.thread_count, 5);
    assert_eq!(builder.config.thread_count, 5);
    assert_eq!(builder.config.strategy, ReplicationStrategy::Clone);
    assert_eq!(builder.config.batch_size, 77);
    assert_eq!(builder.config.write_batch_size, 88);
    assert_eq!(builder.config.target_batch_bytes, Some(4096));
    assert_eq!(builder.config.cursor_batch_size, Some(99));
    assert_eq!(builder.config.write_options.ordered, Some(true));
    assert!(builder.config.adaptive_batching);
    assert_eq!(builder.compressors, Some(all_compressors()));
}

#[test]
fn manager_builder_optimizes_for_performance() {
    let fast = InsertManyOptions { ordered: Some(false), bypass_document_validation: Some(true) };
    let plain = ReplicationManagerBuilder::with_thread_count(2).optimize_for_performance(false);
    assert_eq!(plain.config.write_options, fast);
    assert_eq!(plain.compressors, None);
    let compressed = ReplicationManagerBuilder::with_thread_count(2).optimize_for_performance(true);
    assert_eq!(compressed.config.write_options, fast);
    assert_eq!(compressed.compressors, Some(all_compressors()));
}

#[test]
fn manager_builder_reads_options_for_reads() {
    let mut read_options = FindOptions::default();
    read_options.batch_size = Some(17);
    let builder = ReplicationManagerBuilder::with_thread_count(2).read_options(read_options);
    assert_eq!(builder.config.read_options.batch_size, Some(17));
}

#[test]
fn manager_builder_collects_processors_in_order() {
    let builder = ReplicationManagerBuilder::with_thread_count(2)
        .add_processor("users")
        .add_replicator("events")
        .add_processor_with_config("orders", ProcessorConfigBuilder::new().batch_size(5).build())
        .add_replicator_with_config("audit", ReplicationConfigBuilder::new().mask().build());
    assert_eq!(builder.collection_names(), vec!["users", "events", "orders", "audit"]);
    assert!(matches!(builder.processors[0], Processor::Model(_)));
    assert!(matches!(builder.processors[1], Processor::Replicator(_)));
    match &builder.processors[2] {
        Processor::Model(processor) => {
            assert_eq!(processor.config.batch_size, Some(5));
            assert_eq!(processor.collection_name(), "orders");
        }
        other => panic!("unexpected processor: {:?}", other),
    }
    match &builder.processors[3] {
        Processor::Replicator(processor) => {
            assert!(processor.config.masked);
            assert_eq!(processor.collection_name(), "audit");
        }
        other => panic!("unexpected processor: {:?}", other),
    }
    assert_eq!(builder.processors[1].collection_name(), "events");
}

#[test]
fn build_needs_both_addresses() {
    let missing_source = ReplicationManagerBuilder::with_thread_count(2)
        .target_uri("mongodb://b/staging")
        .build();
    match missing_source {
        Err(error) => {
            assert_eq!(error.kind(), ErrorKind::Config);
            assert_eq!(error.message(), "No source_uri provided.");
        }
        Ok(_) => panic!("a run without a source"),
    }
    let missing_target = ReplicationManagerBuilder::with_thread_count(2)
        .source_uri("mongodb://a/prod")
        .build();
    match missing_target {
        Err(error) => {
            assert_eq!(error.kind(), ErrorKind::Config);
            assert_eq!(error.message(), "No target_uri provided.");
        }
        Ok(_) => panic!("a run without a target"),
    }
}

#[test]
fn build_needs_the_names_of_both_databases() {
    let unnamed = ReplicationManagerBuilder::with_thread_count(2)
        .source_uri("mongodb://a:27017")
        .target_uri("mongodb://b/staging")
        .build();
    match unnamed {
        Err(error) => {
            assert_eq!(error.kind(), ErrorKind::Config);
            assert_eq!(
                error.message(),
                "Could not parse database name from URI and no database name provided."
            );
        }
        Ok(_) => panic!("a run without a source database"),
    }
    let unreadable = ReplicationManagerBuilder::with_thread_count(2)
        .source_uri("mongodb://a/prod")
        .target_uri("not an address")
        .target_db("staging")
        .build();
    match unreadable {
        Err(error) => {
            assert_eq!(error.kind(), ErrorKind::Config);
            assert_eq!(error.message(), "relative URL without a base");
        }
        Ok(_) => panic!("a run with an unreadable address"),
    }
}

#[test]
fn build_makes_the_plan_of_the_run() {
    let plan = ReplicationManagerBuilder::with_thread_count(3)
        .source_uri("mongodb://a:27017/prod?retryWrites=true")
        .target_uri("mongodb://b:27017")
        .source_db("ignored")
        .target_db("staging")
        .add_compression()
        .add_processor("users")
        .add_replicator("orders")
        .build()
        .expect("complete");
    assert_eq!(plan.source.uri, "mongodb://a:27017/prod?retryWrites=true");
    assert_eq!(plan.source.database_name, "prod");
    assert_eq!(plan.target.uri, "mongodb://b:27017");
    assert_eq!(plan.target.database_name, "staging");
    assert_eq!(plan.source.client_options.max_pool_size, Some(6));
    assert_eq!(plan.source.client_options.min_pool_size, Some(3));
    assert_eq!(plan.source.client_options.max_connecting, Some(3));
    assert_eq!(plan.source.client_options.compressors, Some(all_compressors()));
    assert!(plan.source.client_options.majority_read_concern);
    assert_eq!(plan.target.client_options.max_pool_size, Some(6));
    assert_eq!(plan.target.client_options.compressors, Some(all_compressors()));
    assert!(!plan.target.client_options.majority_read_concern);
    assert_eq!(plan.collection_names, vec!["users", "orders"]);
    assert_eq!(plan.channel_capacity, 12);
    assert_eq!(
        plan.manager,
        ReplicationManager { processors: 2, thread_count: 3, copy_views: false }
    );
    assert_eq!(plan.processors.len(), 2);
    assert_eq!(plan.config.thread_count, 3);
}

#[test]
fn database_name_comes_from_the_address_first() {
    let builder = ReplicationManagerBuilder::with_thread_count(1);
    assert_eq!(
        builder.parse_db_name_from_uri("mongodb://localhost:27017/mydb").expect("readable"),
        Some("mydb".to_string())
    );
    assert_eq!(
        builder
            .parse_db_name_from_uri("mongodb://localhost:27017/mydb?retryWrites=true")
            .expect("readable"),
        Some("mydb".to_string())
    );
    assert_eq!(builder.parse_db_name_from_uri("mongodb://localhost:27017").expect("readable"), None);
    assert_eq!(
        builder.parse_db_name_from_uri("mongodb://localhost:27017/").expect("readable"),
        None
    );
    match builder.parse_db_name_from_uri("localhost/mydb") {
        Err(error) => assert_eq!(error.kind(), ErrorKind::Config),
        Ok(name) => panic!("read {:?} from an address without a scheme", name),
    }

    assert_eq!(
        builder.get_db_name("mongodb://h/fromuri", Some("given".to_string())).expect("named"),
        "fromuri"
    );
    assert_eq!(
        builder.get_db_name("mongodb://h", Some("given".to_string())).expect("named"),
        "given"
    );
    assert!(builder.get_db_name("mongodb://h", None).is_err());
}

#[test]
fn database_name_from_a_path() {
    assert_eq!(db_name_from_path(""), None);
    assert_eq!(db_name_from_path("/"), None);
    assert_eq!(db_name_from_path("/mydb"), Some("mydb".to_string()));
    assert_eq!(db_name_from_path("mydb"), Some("mydb".to_string()));
    assert_eq!(db_name_from_path("//mydb"), Some("mydb".to_string()));
    assert_eq!(db_name_from_path("///"), None);
    assert_eq!(db_name_from_path("/mydb?x=1"), Some("mydb".to_string()));
    assert_eq!(db_name_from_path("/?x=1"), None);
    assert_eq!(db_name_from_path("/a/b"), Some("a/b".to_string()));
    assert_eq!(db_name_from_path("/données"), Some("données".to_string()));
}

#[test]
fn choose_db_name_for_each_outcome() {
    let named = ReplicationManagerBuilder::choose_db_name(Ok("/prod".to_string()), None);
    assert_eq!(named.expect("named"), "prod");
    let given =
        ReplicationManagerBuilder::choose_db_name(Ok("/".to_string()), Some("x".to_string()));
    assert_eq!(given.expect("named"), "x");
    match ReplicationManagerBuilder::choose_db_name(Err("bad".to_string()), Some("x".to_string())) {
        Err(TuxedoError::ConfigError(message)) => assert_eq!(message, "bad"),
        other => panic!("unexpected outcome: {:?}", other),
    }
}

#[test]
fn manager_builder_asks_for_views() {
    let builder = ReplicationManagerBuilder::with_thread_count(2).copy_views(true);
    assert!(builder.config.copy_views);
    let plan = builder
        .source_uri("mongodb://a/prod")
        .target_uri("mongodb://b/staging")
        .build()
        .expect("complete");
    assert!(plan.manager.copy_views);
    assert_eq!(plan.manager.processors, 0);
}

#[test]
fn copies_hold_what_their_sources_hold() {
    let mut sort = bson::Document::new();
    sort.insert("created", -1);
    let read_options =
        FindOptions { sort: Some(sort.clone()), skip: Some(1), limit: Some(2), batch_size: Some(3) };
    let copy = read_options.duplicate();
    assert_eq!(copy.sort, Some(sort));
    assert_eq!(copy.skip, Some(1));
    assert_eq!(copy.limit, Some(2));
    assert_eq!(copy.batch_size, Some(3));

    let mut client_options = ClientOptions::default();
    client_options.max_pool_size = Some(9);
    client_options.compressors = Some(all_compressors());
    client_options.majority_read_concern = true;
    assert_eq!(client_options.duplicate(), client_options);

    let mut config = tuxedo::replication::manager::ReplicationConfig::with_thread_count(7);
    config.batch_size = 12;
    config.read_options = read_options;
    config.copy_views = true;
    let copy = config.duplicate();
    assert_eq!(copy.thread_count, 7);
    assert_eq!(copy.batch_size, 12);
    assert_eq!(copy.read_options.limit, Some(2));
    assert!(copy.copy_views);

    let builder = MongodbDestinationBuilder::new()
        .database_name("staging")
        .client_options(client_options.duplicate())
        .enable_compression();
    let copy = builder.duplicate();
    assert_eq!(copy.database_name, builder.database_name);
    assert_eq!(copy.client_options, builder.client_options);
    assert_eq!(copy.compressors, builder.compressors);
}

#[test]
fn default_builders_are_new_builders() {
    let source = MongodbSourceBuilder::default();
    assert_eq!(source.database_name, None);
    assert_eq!(source.batch_size, None);
    assert_eq!(source.cursor_batch_size, None);
    let destination = MongodbDestinationBuilder::default();
    assert_eq!(destination.database_name, None);
    assert_eq!(destination.write_options, None);
    let manager = ReplicationManagerBuilder::default();
    assert!(manager.thread_count >= 1);
    assert_eq!(manager.config.batch_size, 1000);
    assert_eq!(manager.source_uri, None);
    assert!(manager.processors.is_empty());
    let processor = ProcessorConfigBuilder::default().build();
    assert_eq!(processor.batch_size, None);
    assert!(processor.query.is_empty());
    let replicator = ReplicationConfigBuilder::default().build();
    assert_eq!(replicator.batch_size, None);
    assert!(!replicator.masked);
}
