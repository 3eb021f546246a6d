//! The courses of a run, of its consumer, of a producer and of a task.

use tuxedo::error::ErrorKind;
use tuxedo::replication::batching::BatchingOptions;
use tuxedo::replication::consumer::{
    consumer_start, consumer_step, ConsumerAction, ConsumerEvent, ConsumerState, ConsumerStep,
};
use tuxedo::replication::manager::{
    channel_capacity, ManagerAction, ManagerEvent, ManagerState, ManagerStep, ReplicationConfig,
};
use tuxedo::replication::processor::{
    no_records_message, producer_start, producer_step, resolve_settings, ProducerAction,
    ProducerEvent, ProducerOutcome, ProducerSettings, ProducerState, ProducerStep, ProgressUpdate,
};
use tuxedo::replication::task::{
    task_start, task_step, TaskAction, TaskEvent, TaskOutcome, TaskState, TaskStep,
};
use tuxedo::{PaginationOptions, ReplicationManager, ReplicationStrategy};

fn fixed(batch_size: u64) -> ProducerSettings {
    resolve_settings(Some(batch_size), None, None, None, &ReplicationConfig::with_thread_count(4))
}

/// Runs a producer on an entity with `total` records whose sends all
/// succeed, and hands back the pages sent and how it ended.
fn produce(settings: &ProducerSettings, total: u64, average: Option<u64>) -> (Vec<PaginationOptions>, Vec<u64>, ProducerState) {
    let mut pages = Vec::new();
    let mut cursors = Vec::new();
    let mut step = producer_step(settings, producer_start(), ProducerEvent::Started)
        .expect("a producer can start");
    loop {
        let event = match step.action {
            ProducerAction::CountRecords => ProducerEvent::Counted(Some(total)),
            ProducerAction::MeasureAverageSize => ProducerEvent::Measured(average),
            ProducerAction::CopyIndexes => ProducerEvent::IndexesCopied,
            ProducerAction::SendTask { page, cursor_batch_size } => {
                pages.push(page);
                cursors.push(cursor_batch_size);
                ProducerEvent::TaskSent(true)
            }
            ProducerAction::Stop => return (pages, cursors, step.state),
        };
        step = producer_step(settings, step.state, event).expect("the event fits the state");
    }
}

#[test]
fn producer_of_an_empty_entity_sends_nothing() {
    let settings = fixed(1000);
    let counting = producer_step(&settings, producer_start(), ProducerEvent::Started);
    assert_eq!(
        counting,
        Some(ProducerStep {
            state: ProducerState::Counting,
            action: ProducerAction::CountRecords,
            progress: ProgressUpdate::Unchanged,
        })
    );
    let step = producer_step(&settings, ProducerState::Counting, ProducerEvent::Counted(Some(0)));
    assert_eq!(
        step,
        Some(ProducerStep {
            state: ProducerState::Finished(ProducerOutcome::Empty),
            action: ProducerAction::Stop,
            progress: ProgressUpdate::FinishEmpty,
        })
    );
    assert_eq!(no_records_message(), "No records to process.");
    for name in ["users", "orders"] {
        let (pages, _, state) = produce(&settings, 0, None);
        assert!(pages.is_empty(), "{} has no batch", name);
        assert_eq!(state, ProducerState::Finished(ProducerOutcome::Empty));
    }
}

#[test]
fn producer_sends_one_task_for_seven_records() {
    let settings = fixed(100);
    let (pages, cursors, state) = produce(&settings, 7, None);
    assert_eq!(pages, vec![PaginationOptions::new(0, 7)]);
    assert_eq!(cursors, vec![120]);
    assert_eq!(state, ProducerState::Finished(ProducerOutcome::Completed));
}

#[test]
fn producer_sends_three_tasks_in_order() {
    let settings = fixed(1000);
    let (pages, _, state) = produce(&settings, 2500, None);
    assert_eq!(
        pages,
        vec![
            PaginationOptions::new(0, 1000),
            PaginationOptions::new(1000, 1000),
            PaginationOptions::new(2000, 500),
        ]
    );
    assert_eq!(state, ProducerState::Finished(ProducerOutcome::Completed));
}

#[test]
fn producer_sets_the_progress_length_to_the_total() {
    let settings = fixed(1000);
    let step = producer_step(&settings, ProducerState::Counting, ProducerEvent::Counted(Some(2500)))
        .expect("counted");
    assert_eq!(step.progress, ProgressUpdate::SetLength(2500));
    assert_eq!(step.action, ProducerAction::CopyIndexes);
    assert_eq!(
        step.state,
        ProducerState::CopyingIndexes {
            total: 2500,
            batching: BatchingOptions { batch_size: 1000, cursor_batch_size: 1200 },
        }
    );
}

#[test]
fn producer_skips_an_entity_that_cannot_be_counted() {
    let settings = fixed(1000);
    let step = producer_step(&settings, ProducerState::Counting, ProducerEvent::Counted(None));
    assert_eq!(
        step,
        Some(ProducerStep {
            state: ProducerState::Finished(ProducerOutcome::Skipped),
            action: ProducerAction::Stop,
            progress: ProgressUpdate::FinishSkipped,
        })
    );
}

#[test]
fn producer_stops_when_the_channel_is_closed() {
    let settings = fixed(1000);
    let batching = BatchingOptions { batch_size: 1000, cursor_batch_size: 1200 };
    let step = producer_step(
        &settings,
        ProducerState::Sending { total: 2500, batching, index: 0 },
        ProducerEvent::TaskSent(false),
    );
    assert_eq!(
        step,
        Some(ProducerStep {
            state: ProducerState::Finished(ProducerOutcome::DispatchClosed),
            action: ProducerAction::Stop,
            progress: ProgressUpdate::Unchanged,
        })
    );
}

#[test]
fn producer_adapts_to_small_records() {
    let defaults = ReplicationConfig::with_thread_count(4);
    let settings = resolve_settings(None, None, None, Some(true), &defaults);
    assert!(settings.adaptive);
    assert_eq!(settings.batching, BatchingOptions { batch_size: 1000, cursor_batch_size: 1200 });

    let counted =
        producer_step(&settings, ProducerState::Counting, ProducerEvent::Counted(Some(500_000)))
            .expect("counted");
    assert_eq!(counted.action, ProducerAction::MeasureAverageSize);
    assert_eq!(counted.progress, ProgressUpdate::SetLength(500_000));
    assert_eq!(counted.state, ProducerState::Measuring { total: 500_000 });

    let measured = producer_step(&settings, counted.state, ProducerEvent::Measured(Some(800)))
        .expect("measured");
    assert_eq!(measured.action, ProducerAction::CopyIndexes);
    assert_eq!(
        measured.state,
        ProducerState::CopyingIndexes {
            total: 500_000,
            batching: BatchingOptions { batch_size: 98_304, cursor_batch_size: 117_965 },
        }
    );

    let (pages, cursors, _) = produce(&settings, 500_000, Some(800));
    assert_eq!(pages.len(), 6);
    assert_eq!(pages[0], PaginationOptions::new(0, 98_304));
    assert_eq!(pages[5], PaginationOptions::new(5 * 98_304, 500_000 - 5 * 98_304));
    assert!(cursors.iter().all(|cursor| *cursor == 117_965));
}

#[test]
fn producer_keeps_its_sizes_when_the_source_cannot_measure() {
    let defaults = ReplicationConfig::with_thread_count(4);
    let settings = resolve_settings(Some(50), Some(77), None, Some(true), &defaults);
    let step = producer_step(
        &settings,
        ProducerState::Measuring { total: 120 },
        ProducerEvent::Measured(None),
    )
    .expect("measured");
    assert_eq!(
        step.state,
        ProducerState::CopyingIndexes {
            total: 120,
            batching: BatchingOptions { batch_size: 50, cursor_batch_size: 77 },
        }
    );
}

#[test]
fn producer_refuses_events_that_do_not_fit() {
    let settings = fixed(10);
    assert_eq!(producer_step(&settings, producer_start(), ProducerEvent::IndexesCopied), None);
    assert_eq!(producer_step(&settings, ProducerState::Counting, ProducerEvent::Started), None);
    assert_eq!(
        producer_step(
            &settings,
            ProducerState::Finished(ProducerOutcome::Completed),
            ProducerEvent::Started
        ),
        None
    );
}

#[test]
fn settings_come_from_the_entity_then_from_the_run() {
    let mut defaults = ReplicationConfig::with_thread_count(2);
    defaults.batch_size = 400;
    defaults.cursor_batch_size = Some(900);
    defaults.target_batch_bytes = Some(1 << 20);
    defaults.adaptive_batching = false;

    let own = resolve_settings(Some(10), Some(20), Some(30), Some(true), &defaults);
    assert_eq!(own.batching, BatchingOptions { batch_size: 10, cursor_batch_size: 20 });
    assert_eq!(own.target_batch_bytes, Some(30));
    assert!(own.adaptive);

    let shared = resolve_settings(None, None, None, None, &defaults);
    assert_eq!(shared.batching, BatchingOptions { batch_size: 400, cursor_batch_size: 900 });
    assert_eq!(shared.target_batch_bytes, Some(1 << 20));
    assert!(!shared.adaptive);

    defaults.cursor_batch_size = None;
    defaults.adaptive_batching = true;
    let derived = resolve_settings(None, None, None, Some(false), &defaults);
    assert_eq!(derived.batching, BatchingOptions { batch_size: 400, cursor_batch_size: 480 });
    assert!(derived.adaptive);
}

#[test]
fn task_reads_masks_writes_and_advances_progress() {
    let started = task_step(true, task_start(), TaskEvent::Started);
    assert_eq!(
        started,
        Some(TaskStep { state: TaskState::Reading, action: TaskAction::ReadChunk })
    );
    let read = task_step(true, TaskState::Reading, TaskEvent::ChunkRead(Some(7)));
    assert_eq!(
        read,
        Some(TaskStep {
            state: TaskState::Writing { records: 7 },
            action: TaskAction::WriteChunk { mask: true, records: 7 },
        })
    );
    let written = task_step(true, TaskState::Writing { records: 7 }, TaskEvent::ChunkWritten(true));
    assert_eq!(
        written,
        Some(TaskStep {
            state: TaskState::Finished(TaskOutcome::Written(7)),
            action: TaskAction::AdvanceProgress { records: 7 },
        })
    );
}

#[test]
fn task_under_clone_does_not_mask() {
    let read = task_step(false, TaskState::Reading, TaskEvent::ChunkRead(Some(3)));
    assert_eq!(
        read,
        Some(TaskStep {
            state: TaskState::Writing { records: 3 },
            action: TaskAction::WriteChunk { mask: false, records: 3 },
        })
    );
}

#[test]
fn task_gives_up_on_a_failed_read_an_empty_batch_or_a_failed_write() {
    assert_eq!(
        task_step(true, TaskState::Reading, TaskEvent::ChunkRead(None)),
        Some(TaskStep {
            state: TaskState::Finished(TaskOutcome::ReadFailed),
            action: TaskAction::GiveUp,
        })
    );
    assert_eq!(
        task_step(true, TaskState::Reading, TaskEvent::ChunkRead(Some(0))),
        Some(TaskStep { state: TaskState::Finished(TaskOutcome::Empty), action: TaskAction::GiveUp })
    );
    assert_eq!(
        task_step(true, TaskState::Writing { records: 9 }, TaskEvent::ChunkWritten(false)),
        Some(TaskStep {
            state: TaskState::Finished(TaskOutcome::WriteFailed),
            action: TaskAction::GiveUp,
        })
    );
}

#[test]
fn task_refuses_events_that_do_not_fit() {
    assert_eq!(task_step(true, task_start(), TaskEvent::ChunkWritten(true)), None);
    assert_eq!(task_step(true, TaskState::Reading, TaskEvent::Started), None);
    assert_eq!(
        task_step(true, TaskState::Finished(TaskOutcome::Empty), TaskEvent::Started),
        None
    );
}

#[test]
fn consumer_keeps_at_most_thread_count_tasks_in_flight() {
    let workers = 3;
    let mut state = consumer_start();
    assert_eq!(state, ConsumerState::Receiving { in_flight: 0 });
    let mut in_flight = 0usize;
    let mut received = 0;
    let mut highest = 0;
    // Ten tasks arrive as fast as the consumer takes them.
    while received < 10 {
        let event = match state {
            ConsumerState::Receiving { .. } => {
                received += 1;
                in_flight += 1;
                ConsumerEvent::TaskReceived
            }
            _ => {
                in_flight -= 1;
                ConsumerEvent::TaskCompleted
            }
        };
        let step = consumer_step(workers, state, event).expect("the event fits the state");
        state = step.state;
        highest = highest.max(in_flight);
        assert!(in_flight <= workers);
    }
    assert_eq!(highest, 3);
    // The channel closes once the consumer receives again.
    while !matches!(state, ConsumerState::Receiving { .. }) {
        in_flight -= 1;
        state = consumer_step(workers, state, ConsumerEvent::TaskCompleted).expect("fits").state;
    }
    let mut step = consumer_step(workers, state, ConsumerEvent::ChannelClosed).expect("fits");
    while step.action != ConsumerAction::Finish {
        assert_eq!(step.action, ConsumerAction::AwaitCompletion);
        in_flight -= 1;
        step = consumer_step(workers, step.state, ConsumerEvent::TaskCompleted).expect("fits");
    }
    assert_eq!(step.state, ConsumerState::Done);
    assert_eq!(in_flight, 0);
}

#[test]
fn consumer_steps_one_by_one() {
    assert_eq!(
        consumer_step(2, ConsumerState::Receiving { in_flight: 0 }, ConsumerEvent::TaskReceived),
        Some(ConsumerStep {
            state: ConsumerState::Receiving { in_flight: 1 },
            action: ConsumerAction::SpawnAndReceive,
        })
    );
    assert_eq!(
        consumer_step(2, ConsumerState::Receiving { in_flight: 1 }, ConsumerEvent::TaskReceived),
        Some(ConsumerStep {
            state: ConsumerState::Throttled { in_flight: 2 },
            action: ConsumerAction::SpawnAndAwait,
        })
    );
    assert_eq!(
        consumer_step(2, ConsumerState::Throttled { in_flight: 2 }, ConsumerEvent::TaskCompleted),
        Some(ConsumerStep {
            state: ConsumerState::Receiving { in_flight: 1 },
            action: ConsumerAction::Receive,
        })
    );
    assert_eq!(
        consumer_step(2, ConsumerState::Receiving { in_flight: 1 }, ConsumerEvent::ChannelClosed),
        Some(ConsumerStep {
            state: ConsumerState::Draining { in_flight: 1 },
            action: ConsumerAction::AwaitCompletion,
        })
    );
    assert_eq!(
        consumer_step(2, ConsumerState::Draining { in_flight: 1 }, ConsumerEvent::TaskCompleted),
        Some(ConsumerStep { state: ConsumerState::Done, action: ConsumerAction::Finish })
    );
    assert_eq!(
        consumer_step(2, ConsumerState::Receiving { in_flight: 0 }, ConsumerEvent::ChannelClosed),
        Some(ConsumerStep { state: ConsumerState::Done, action: ConsumerAction::Finish })
    );
    assert_eq!(consumer_step(2, ConsumerState::Done, ConsumerEvent::TaskReceived), None);
    assert_eq!(
        consumer_step(2, ConsumerState::Receiving { in_flight: 0 }, ConsumerEvent::TaskCompleted),
        None
    );
}

#[test]
fn consumer_without_workers_runs_one_task_at_a_time() {
    let step = consumer_step(0, consumer_start(), ConsumerEvent::TaskReceived).expect("fits");
    assert_eq!(
        step,
        ConsumerStep {
            state: ConsumerState::Throttled { in_flight: 1 },
            action: ConsumerAction::SpawnAndAwait,
        }
    );
    let step = consumer_step(0, step.state, ConsumerEvent::TaskCompleted).expect("fits");
    assert_eq!(
        step,
        ConsumerStep {
            state: ConsumerState::Receiving { in_flight: 0 },
            action: ConsumerAction::Receive,
        }
    );
}

#[test]
fn channel_holds_four_tasks_for_each_worker() {
    assert_eq!(channel_capacity(1), 4);
    assert_eq!(channel_capacity(8), 32);
    assert_eq!(channel_capacity(0), 0);
    assert_eq!(channel_capacity(usize::MAX), usize::MAX);
    assert_eq!(channel_capacity(usize::MAX / 4), usize::MAX / 4 * 4);
    assert_eq!(channel_capacity(usize::MAX / 4 + 1), usize::MAX);
}

fn manager(processors: usize, copy_views: bool) -> ReplicationManager {
    ReplicationManager { processors, thread_count: 4, copy_views }
}

/// Takes a run through events that all fit, and hands back its actions.
fn run(manager: &ReplicationManager, events: &[ManagerEvent]) -> (Vec<ManagerAction>, ManagerState) {
    let mut state = manager.start();
    let mut actions = Vec::new();
    for event in events {
        let step = manager.step(state, *event).expect("the event fits the state");
        actions.push(step.action);
        state = step.state;
    }
    (actions, state)
}

#[test]
fn run_with_two_empty_entities_succeeds() {
    let manager = manager(2, false);
    let (actions, state) = run(
        &manager,
        &[
            ManagerEvent::Started,
            ManagerEvent::SourceVerified(true),
            ManagerEvent::DestinationVerified(true),
            ManagerEvent::Cleared(true),
            ManagerEvent::ProducerFinished,
            ManagerEvent::ProducerFinished,
            ManagerEvent::ConsumerFinished,
            ManagerEvent::IndexCopyFinished,
            ManagerEvent::IndexCopyFinished,
        ],
    );
    assert_eq!(
        actions,
        vec![
            ManagerAction::VerifySource,
            ManagerAction::VerifyDestination,
            ManagerAction::ClearTarget,
            ManagerAction::Launch { channel_capacity: 16, producers: 2, workers: 4 },
            ManagerAction::Wait,
            ManagerAction::CloseChannel,
            ManagerAction::CopyIndexes { count: 2 },
            ManagerAction::Wait,
            ManagerAction::ReturnOk,
        ]
    );
    assert_eq!(state, ManagerState::Finished);
}

#[test]
fn run_fails_fast_when_a_store_does_not_answer() {
    let manager = manager(1, false);
    let (actions, state) = run(&manager, &[ManagerEvent::Started, ManagerEvent::SourceVerified(false)]);
    assert_eq!(
        actions,
        vec![ManagerAction::VerifySource, ManagerAction::ReturnError(ErrorKind::Connection)]
    );
    assert_eq!(state, ManagerState::Failed(ErrorKind::Connection));

    let (actions, state) = run(
        &manager,
        &[
            ManagerEvent::Started,
            ManagerEvent::SourceVerified(true),
            ManagerEvent::DestinationVerified(false),
        ],
    );
    assert_eq!(actions.last(), Some(&ManagerAction::ReturnError(ErrorKind::Connection)));
    assert!(!actions.contains(&ManagerAction::ClearTarget));
    assert_eq!(state, ManagerState::Failed(ErrorKind::Connection));
}

#[test]
fn run_fails_when_the_clear_fails() {
    let manager = manager(1, false);
    let (actions, state) = run(
        &manager,
        &[
            ManagerEvent::Started,
            ManagerEvent::SourceVerified(true),
            ManagerEvent::DestinationVerified(true),
            ManagerEvent::Cleared(false),
        ],
    );
    assert_eq!(actions.last(), Some(&ManagerAction::ReturnError(ErrorKind::Database)));
    assert_eq!(state, ManagerState::Failed(ErrorKind::Database));
}

#[test]
fn run_copies_views_at_the_end_when_asked() {
    let manager = manager(1, true);
    let before_views = [
        ManagerEvent::Started,
        ManagerEvent::SourceVerified(true),
        ManagerEvent::DestinationVerified(true),
        ManagerEvent::Cleared(true),
        ManagerEvent::ProducerFinished,
        ManagerEvent::ConsumerFinished,
        ManagerEvent::IndexCopyFinished,
    ];
    let (actions, state) = run(&manager, &before_views);
    assert_eq!(actions.last(), Some(&ManagerAction::ListViews));
    assert_eq!(state, ManagerState::ListingViews);

    assert_eq!(
        manager.step(state, ManagerEvent::ViewsListed(None)),
        Some(ManagerStep { state: ManagerState::Finished, action: ManagerAction::ReturnOk })
    );
    assert_eq!(
        manager.step(state, ManagerEvent::ViewsListed(Some(0))),
        Some(ManagerStep { state: ManagerState::Finished, action: ManagerAction::ReturnOk })
    );
    let copying = manager.step(state, ManagerEvent::ViewsListed(Some(2))).expect("fits");
    assert_eq!(copying.action, ManagerAction::CopyViews { count: 2 });
    let first = manager.step(copying.state, ManagerEvent::ViewCopyFinished).expect("fits");
    assert_eq!(first.action, ManagerAction::Wait);
    let second = manager.step(first.state, ManagerEvent::ViewCopyFinished).expect("fits");
    assert_eq!(second.action, ManagerAction::ReturnOk);
    assert_eq!(second.state, ManagerState::Finished);
}

#[test]
fn run_does_not_return_while_the_consumer_runs() {
    let manager = manager(2, false);
    let replicating = ManagerState::Replicating { producers_left: 2 };
    // The consumer cannot have finished while a producer holds the channel open.
    assert_eq!(manager.step(replicating, ManagerEvent::ConsumerFinished), None);
    let one_left = manager.step(replicating, ManagerEvent::ProducerFinished).expect("fits");
    assert_eq!(one_left.action, ManagerAction::Wait);
    assert_eq!(manager.step(one_left.state, ManagerEvent::ConsumerFinished), None);
    let closed = manager.step(one_left.state, ManagerEvent::ProducerFinished).expect("fits");
    assert_eq!(closed.action, ManagerAction::CloseChannel);
    assert_eq!(closed.state, ManagerState::Replicating { producers_left: 0 });
    assert_eq!(manager.step(closed.state, ManagerEvent::ProducerFinished), None);
}

#[test]
fn run_refuses_events_once_it_has_returned() {
    let manager = manager(1, false);
    assert_eq!(manager.step(ManagerState::Finished, ManagerEvent::Started), None);
    assert_eq!(
        manager.step(ManagerState::Failed(ErrorKind::Database), ManagerEvent::Cleared(true)),
        None
    );
    assert_eq!(manager.step(ManagerState::Created, ManagerEvent::Cleared(true)), None);
}

#[test]
fn default_settings_of_a_run() {
    let config = ReplicationConfig::with_thread_count(6);
    assert_eq!(config.thread_count, 6);
    assert_eq!(config.batch_size, 1000);
    assert_eq!(config.write_batch_size, 1000);
    assert_eq!(config.strategy, ReplicationStrategy::Mask);
    assert!(!config.adaptive_batching);
    assert!(!config.copy_views);
    assert_eq!(config.target_batch_bytes, None);
    assert_eq!(config.cursor_batch_size, None);

    let config = ReplicationConfig::default();
    assert!(config.thread_count >= 1);
    assert_eq!(config.batch_size, 1000);
    assert_eq!(config.strategy, ReplicationStrategy::Mask);
}
