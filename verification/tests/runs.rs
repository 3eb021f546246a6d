//! Whole courses: a run, a producer and a task from start to end.

use tuxedo::error::ErrorKind;
use tuxedo::replication::manager::{ManagerAction, ReplicationConfig, RunReport};
use tuxedo::replication::processor::{
    run_producer, resolve_settings, ModelProcessor, ProcessorConfig, ProducerOutcome,
    ProducerRun, ReplicatorConfig, ReplicatorProcessor,
};
use tuxedo::replication::task::{
    mask_documents, run_task, ModelTask, ReplicatorTask, TaskConfig, TaskOutcome,
};
use tuxedo::replication::types::apply_strategy_in_parallel;
use tuxedo::database::mongodb::options::{FindOptions, InsertManyOptions};
use tuxedo::{Mask, PaginationOptions, ReplicationManager, ReplicationStrategy};

fn launch(manager: &ReplicationManager) -> ManagerAction {
    ManagerAction::Launch {
        channel_capacity: manager.thread_count * 4,
        producers: manager.processors,
        workers: manager.thread_count,
    }
}

#[test]
fn run_of_two_entities_without_views() {
    let manager = ReplicationManager { processors: 2, thread_count: 4, copy_views: false };
    let report = manager.run(true, true, true, None);
    assert_eq!(
        report,
        RunReport {
            result: Ok(()),
            actions: vec![
                ManagerAction::VerifySource,
                ManagerAction::VerifyDestination,
                ManagerAction::ClearTarget,
                launch(&manager),
                ManagerAction::Wait,
                ManagerAction::CloseChannel,
                ManagerAction::CopyIndexes { count: 2 },
                ManagerAction::Wait,
                ManagerAction::ReturnOk,
            ],
        }
    );
}

#[test]
fn run_of_one_entity_with_views() {
    let manager = ReplicationManager { processors: 1, thread_count: 2, copy_views: true };
    let report = manager.run(true, true, true, Some(3));
    assert_eq!(report.result, Ok(()));
    assert_eq!(
        report.actions,
        vec![
            ManagerAction::VerifySource,
            ManagerAction::VerifyDestination,
            ManagerAction::ClearTarget,
            launch(&manager),
            ManagerAction::CloseChannel,
            ManagerAction::CopyIndexes { count: 1 },
            ManagerAction::ListViews,
            ManagerAction::CopyViews { count: 3 },
            ManagerAction::Wait,
            ManagerAction::Wait,
            ManagerAction::ReturnOk,
        ]
    );
    let unlisted = manager.run(true, true, true, None);
    assert_eq!(unlisted.result, Ok(()));
    assert_eq!(
        unlisted.actions[6..],
        [ManagerAction::ListViews, ManagerAction::ReturnOk]
    );
    let none = manager.run(true, true, true, Some(0));
    assert_eq!(none.actions[6..], [ManagerAction::ListViews, ManagerAction::ReturnOk]);
}

#[test]
fn run_without_entities() {
    let manager = ReplicationManager { processors: 0, thread_count: 2, copy_views: false };
    let report = manager.run(true, true, true, None);
    assert_eq!(report.result, Ok(()));
    assert_eq!(
        report.actions,
        vec![
            ManagerAction::VerifySource,
            ManagerAction::VerifyDestination,
            ManagerAction::ClearTarget,
            launch(&manager),
            ManagerAction::ReturnOk,
        ]
    );
}

#[test]
fn run_that_cannot_reach_a_store() {
    let manager = ReplicationManager { processors: 2, thread_count: 4, copy_views: true };
    let no_source = manager.run(false, true, true, Some(1));
    assert_eq!(no_source.result, Err(ErrorKind::Connection));
    assert_eq!(
        no_source.actions,
        vec![ManagerAction::VerifySource, ManagerAction::ReturnError(ErrorKind::Connection)]
    );
    let no_destination = manager.run(true, false, true, Some(1));
    assert_eq!(no_destination.result, Err(ErrorKind::Connection));
    assert_eq!(
        no_destination.actions,
        vec![
            ManagerAction::VerifySource,
            ManagerAction::VerifyDestination,
            ManagerAction::ReturnError(ErrorKind::Connection),
        ]
    );
    let neither = manager.run(false, false, false, None);
    assert_eq!(neither.result, Err(ErrorKind::Connection));
    assert_eq!(neither.actions.len(), 2);
}

#[test]
fn run_whose_clear_fails() {
    let manager = ReplicationManager { processors: 2, thread_count: 4, copy_views: true };
    let report = manager.run(true, true, false, Some(1));
    assert_eq!(report.result, Err(ErrorKind::Database));
    assert_eq!(
        report.actions,
        vec![
            ManagerAction::VerifySource,
            ManagerAction::VerifyDestination,
            ManagerAction::ClearTarget,
            ManagerAction::ReturnError(ErrorKind::Database),
        ]
    );
}

fn pages(list: &[(u64, u64)]) -> Vec<PaginationOptions> {
    list.iter().map(|(start, limit)| PaginationOptions::new(*start, *limit)).collect()
}

#[test]
fn producer_runs_for_empty_and_uncounted_entities() {
    let settings = resolve_settings(None, None, None, None, &ReplicationConfig::with_thread_count(4));
    assert_eq!(
        run_producer(&settings, Some(0), None, u64::MAX),
        ProducerRun { sent: Vec::new(), outcome: ProducerOutcome::Empty }
    );
    assert_eq!(
        run_producer(&settings, None, None, u64::MAX),
        ProducerRun { sent: Vec::new(), outcome: ProducerOutcome::Skipped }
    );
}

#[test]
fn producer_runs_send_the_plan() {
    let defaults = ReplicationConfig::with_thread_count(4);
    let mut config = ProcessorConfig::default();
    config.batch_size = Some(100);
    let users = ModelProcessor::new("users".to_string(), config);
    assert_eq!(
        users.run(&defaults, Some(7), None, u64::MAX),
        ProducerRun { sent: pages(&[(0, 7)]), outcome: ProducerOutcome::Completed }
    );

    let orders = ReplicatorProcessor::new(ReplicatorConfig::default(), "orders".to_string());
    assert_eq!(
        orders.run(&defaults, Some(2500), None, u64::MAX),
        ProducerRun {
            sent: pages(&[(0, 1000), (1000, 1000), (2000, 500)]),
            outcome: ProducerOutcome::Completed,
        }
    );
    assert_eq!(
        orders.run(&defaults, Some(2500), None, 3).outcome,
        ProducerOutcome::Completed
    );
}

#[test]
fn producer_runs_stop_when_the_channel_closes() {
    let settings =
        resolve_settings(Some(1000), None, None, None, &ReplicationConfig::with_thread_count(4));
    assert_eq!(
        run_producer(&settings, Some(2500), None, 2),
        ProducerRun {
            sent: pages(&[(0, 1000), (1000, 1000)]),
            outcome: ProducerOutcome::DispatchClosed,
        }
    );
    assert_eq!(
        run_producer(&settings, Some(2500), None, 0),
        ProducerRun { sent: Vec::new(), outcome: ProducerOutcome::DispatchClosed }
    );
}

#[test]
fn producer_runs_adapt_only_when_asked() {
    let defaults = ReplicationConfig::with_thread_count(4);
    let adaptive = resolve_settings(None, None, None, Some(true), &defaults);
    let run = run_producer(&adaptive, Some(200_000), Some(800), u64::MAX);
    assert_eq!(
        run.sent,
        pages(&[(0, 98_304), (98_304, 98_304), (196_608, 200_000 - 196_608)])
    );
    let unmeasured = run_producer(&adaptive, Some(2500), None, u64::MAX);
    assert_eq!(unmeasured.sent.len(), 3);

    let fixed = resolve_settings(None, None, None, None, &defaults);
    let run = run_producer(&fixed, Some(2500), Some(800), u64::MAX);
    assert_eq!(run.sent, pages(&[(0, 1000), (1000, 1000), (2000, 500)]));
}

#[test]
fn task_runs() {
    assert_eq!(run_task(true, None, true), TaskOutcome::ReadFailed);
    assert_eq!(run_task(true, Some(0), true), TaskOutcome::Empty);
    assert_eq!(run_task(true, Some(7), true), TaskOutcome::Written(7));
    assert_eq!(run_task(false, Some(7), true), TaskOutcome::Written(7));
    assert_eq!(run_task(false, Some(7), false), TaskOutcome::WriteFailed);

    let config = TaskConfig {
        query: bson::Document::new(),
        read_options: FindOptions::default(),
        write_options: InsertManyOptions::default(),
    };
    let model = ModelTask::new("users".to_string(), config.clone(), ReplicationStrategy::Mask);
    assert_eq!(model.run(Some(10), true), TaskOutcome::Written(10));
    assert_eq!(model.run(None, true), TaskOutcome::ReadFailed);
    let replicator = ReplicatorTask::new("users".to_string(), config, false);
    assert_eq!(replicator.run(Some(10), false), TaskOutcome::WriteFailed);
    assert_eq!(replicator.run(Some(0), true), TaskOutcome::Empty);
}

#[derive(Debug, Clone, PartialEq)]
struct Account {
    number: u32,
    holder: String,
}

impl Mask for Account {
    fn mask(&mut self) {
        self.holder = format!("holder-{}", self.number);
    }
}

#[test]
fn parallel_masking_masks_each_record_once() {
    let mut accounts: Vec<Account> =
        (0..500).map(|number| Account { number, holder: "Alice".to_string() }).collect();
    apply_strategy_in_parallel(ReplicationStrategy::Mask, &mut accounts);
    assert_eq!(accounts.len(), 500);
    for (position, account) in accounts.iter().enumerate() {
        assert_eq!(account.number as usize, position);
        assert_eq!(account.holder, format!("holder-{}", position));
    }
}

#[test]
fn parallel_clone_leaves_records_unchanged() {
    let before: Vec<Account> =
        (0..50).map(|number| Account { number, holder: "Alice".to_string() }).collect();
    let mut accounts = before.clone();
    apply_strategy_in_parallel(ReplicationStrategy::Clone, &mut accounts);
    assert_eq!(accounts, before);
}

fn documents(count: i32) -> Vec<bson::Document> {
    (0..count)
        .map(|number| {
            let mut nested = bson::Document::new();
            nested.insert("city", "Bern");
            let mut document = bson::Document::new();
            document.insert("_id", number);
            document.insert("email", "alice@x.com");
            document.insert("address", nested);
            document
        })
        .collect()
}

fn hide_email(mut document: bson::Document) -> bson::Document {
    let number = document.get_i32("_id").expect("an id");
    document.insert("email", format!("user{}@example.com", number));
    document
}

#[test]
fn documents_are_masked_one_by_one_in_read_order() {
    let written = mask_documents(true, documents(5), &hide_email);
    assert_eq!(written.len(), 5);
    for (position, document) in written.iter().enumerate() {
        assert_eq!(document.get_i32("_id"), Ok(position as i32));
        assert_eq!(
            document.get_str("email"),
            Ok(format!("user{}@example.com", position).as_str())
        );
        assert_eq!(document.get_document("address").expect("nested").get_str("city"), Ok("Bern"));
    }
}

#[test]
fn documents_are_written_as_read_without_masking() {
    assert_eq!(mask_documents(false, documents(5), &hide_email), documents(5));
    assert_eq!(mask_documents(true, Vec::new(), &hide_email), Vec::new());
}

#[test]
fn masking_is_called_once_for_each_document() {
    let calls = std::cell::RefCell::new(Vec::new());
    let counting = |document: bson::Document| -> bson::Document {
        calls.borrow_mut().push(document.get_i32("_id").expect("an id"));
        document
    };
    let written = mask_documents(true, documents(4), &counting);
    assert_eq!(written, documents(4));
    assert_eq!(*calls.borrow(), vec![0, 1, 2, 3]);
}

#[test]
fn replicator_task_masks_only_when_it_is_a_masking_task() {
    let config = TaskConfig {
        query: bson::Document::new(),
        read_options: FindOptions::default(),
        write_options: InsertManyOptions::default(),
    };
    let masking = ReplicatorTask::new("users".to_string(), config.clone(), true);
    let written = masking.mask_documents(documents(2), &hide_email);
    assert_eq!(written[1].get_str("email"), Ok("user1@example.com"));
    let plain = ReplicatorTask::new("users".to_string(), config, false);
    assert_eq!(plain.mask_documents(documents(2), &hide_email), documents(2));
}

#[test]
fn producer_runs_without_adapting_take_any_measure() {
    let settings =
        resolve_settings(Some(1000), None, None, None, &ReplicationConfig::with_thread_count(4));
    let run = run_producer(&settings, Some(2500), Some(0), u64::MAX);
    assert_eq!(run.sent, pages(&[(0, 1000), (1000, 1000), (2000, 500)]));
}
