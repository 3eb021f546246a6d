//! The course of one replication run.
//!
//! The manager verifies both stores, clears the destination, lets the
//! producers and the consumer run, and copies the indexes and views at the
//! end. What it does next depends only on where it stands and on what has
//! just happened: `ReplicationManager::step` is that function. The caller
//! performs the action that a step names and reports the outcome as the
//! next event.
use crate::database::mongodb::options::{FindOptions, FindOptionsView, InsertManyOptions};
use crate::error::ErrorKind;
use crate::replication::types::ReplicationStrategy;
use vstd::prelude::*;

verus! {

/// `num_cpus::get`: the number of logical cores that this process may use,
/// which is at least one.
#[verifier::external_body]
pub(crate) fn available_threads() -> (count: usize)
    ensures
        count >= 1,
{
    num_cpus::get()
}

/// The settings of a run that hold for every entity unless the entity's own
/// settings say otherwise.
#[derive(Debug, Clone)]
pub struct ReplicationConfig {
    pub thread_count: usize,
    pub batch_size: u64,
    pub write_batch_size: u64,
    pub strategy: ReplicationStrategy,
    pub adaptive_batching: bool,
    pub target_batch_bytes: Option<u64>,
    pub cursor_batch_size: Option<u64>,
    pub write_options: InsertManyOptions,
    pub read_options: FindOptions,
    pub copy_views: bool,
}

/// What a [`ReplicationConfig`] holds.
pub struct ReplicationConfigView {
    pub thread_count: usize,
    pub batch_size: u64,
    pub write_batch_size: u64,
    pub strategy: ReplicationStrategy,
    pub adaptive_batching: bool,
    pub target_batch_bytes: Option<u64>,
    pub cursor_batch_size: Option<u64>,
    pub write_options: InsertManyOptions,
    pub read_options: FindOptionsView,
    pub copy_views: bool,
}

impl View for ReplicationConfig {
    type V = ReplicationConfigView;

    open spec fn view(&self) -> ReplicationConfigView {
        ReplicationConfigView {
            thread_count: self.thread_count,
            batch_size: self.batch_size,
            write_batch_size: self.write_batch_size,
            strategy: self.strategy,
            adaptive_batching: self.adaptive_batching,
            target_batch_bytes: self.target_batch_bytes,
            cursor_batch_size: self.cursor_batch_size,
            write_options: self.write_options,
            read_options: self.read_options@,
            copy_views: self.copy_views,
        }
    }
}

/// The settings of a run with the given number of workers when nobody says
/// otherwise: batches of a thousand records, masked, of a fixed size,
/// without views.
pub open spec fn default_config_spec(thread_count: usize) -> ReplicationConfigView {
    ReplicationConfigView {
        thread_count,
        batch_size: 1000,
        write_batch_size: 1000,
        strategy: ReplicationStrategy::Mask,
        adaptive_batching: false,
        target_batch_bytes: None,
        cursor_batch_size: None,
        write_options: InsertManyOptions { ordered: None, bypass_document_validation: None },
        read_options: FindOptionsView { sort: None, skip: None, limit: None, batch_size: None },
        copy_views: false,
    }
}

impl ReplicationConfig {
    /// The settings of a run with the given number of workers and
    /// everything else as it is when nobody says otherwise: batches of a
    /// thousand records, masked, of a fixed size, without views.
    pub fn with_thread_count(thread_count: usize) -> (config: ReplicationConfig)
        ensures
            config@ == default_config_spec(thread_count),
    {
        ReplicationConfig {
            thread_count,
            batch_size: 1000,
            write_batch_size: 1000,
            strategy: ReplicationStrategy::Mask,
            adaptive_batching: false,
            target_batch_bytes: None,
            cursor_batch_size: None,
            write_options: InsertManyOptions::default(),
            read_options: FindOptions::default(),
            copy_views: false,
        }
    }

    /// A copy of the settings.
    pub fn duplicate(&self) -> (copy: ReplicationConfig)
        ensures
            copy@ == self@,
            copy.read_options.sort == self.read_options.sort,
    {
        ReplicationConfig {
            thread_count: self.thread_count,
            batch_size: self.batch_size,
            write_batch_size: self.write_batch_size,
            strategy: self.strategy,
            adaptive_batching: self.adaptive_batching,
            target_batch_bytes: self.target_batch_bytes,
            cursor_batch_size: self.cursor_batch_size,
            write_options: self.write_options,
            read_options: self.read_options.duplicate(),
            copy_views: self.copy_views,
        }
    }
}

impl Default for ReplicationConfig {
    /// The settings of a run when nobody says otherwise, with one worker
    /// for each core that the process may use.
    fn default() -> (config: ReplicationConfig)
        ensures
            config.thread_count >= 1,
            config@ == default_config_spec(config.thread_count),
    {
        ReplicationConfig::with_thread_count(available_threads())
    }
}

/// How many tasks the dispatch channel holds before a producer has to
/// wait: four for each worker.
pub open spec fn channel_capacity_spec(thread_count: int) -> int {
    if thread_count * 4 <= usize::MAX {
        thread_count * 4
    } else {
        usize::MAX as int
    }
}

pub fn channel_capacity(thread_count: usize) -> (capacity: usize)
    ensures
        capacity == channel_capacity_spec(thread_count as int),
        thread_count > 0 ==> capacity > 0,
{
    if thread_count > usize::MAX / 4 {
        usize::MAX
    } else {
        thread_count * 4
    }
}

/// Where a run stands.
#[derive(Debug, Clone, Copy, PartialEq, Eq, Structural)]
pub enum ManagerState {
    /// The run has not begun.
    Created,
    /// The liveness probe of the source is under way.
    VerifyingSource,
    /// The liveness probe of the destination is under way.
    VerifyingDestination,
    /// The entities to be filled are being dropped from the destination.
    Clearing,
    /// Producers and consumer are at work. `producers_left` producers have
    /// not finished yet; the channel is open as long as there is one.
    Replicating { producers_left: usize },
    /// The consumer has finished, and `left` index copies have not.
    CopyingIndexes { left: usize },
    /// The views of the source are being listed.
    ListingViews,
    /// `left` view copies have not finished.
    CopyingViews { left: usize },
    /// The run has returned success.
    Finished,
    /// The run has returned an error of the given kind.
    Failed(ErrorKind),
}

/// What has just happened.
#[derive(Debug, Clone, Copy, PartialEq, Eq, Structural)]
pub enum ManagerEvent {
    /// The run was asked to begin.
    Started,
    /// The source answered its probe, or did not.
    SourceVerified(bool),
    /// The destination answered its probe, or did not.
    DestinationVerified(bool),
    /// The destination was cleared, or the clear failed.
    Cleared(bool),
    /// One producer has finished, with or without an error of its own.
    ProducerFinished,
    /// The consumer has finished: the channel is closed and drained, and no
    /// task is in flight.
    ConsumerFinished,
    /// One index copy has finished, with or without an error of its own.
    IndexCopyFinished,
    /// The views of the source were listed, this many; `None` where the
    /// listing failed.
    ViewsListed(Option<usize>),
    /// One view copy has finished, with or without an error of its own.
    ViewCopyFinished,
}

/// What the caller does next.
#[derive(Debug, Clone, Copy, PartialEq, Eq, Structural)]
pub enum ManagerAction {
    /// Probe the source.
    VerifySource,
    /// Probe the destination.
    VerifyDestination,
    /// Drop from the destination the entities that the processors fill.
    ClearTarget,
    /// Open the dispatch channel with the given capacity, start one
    /// producer for each processor and the consumer with its workers. The
    /// sender is closed as soon as no producer is left.
    Launch { channel_capacity: usize, producers: usize, workers: usize },
    /// Close the sender: every producer has finished.
    CloseChannel,
    /// Start nothing; wait for what is under way.
    Wait,
    /// Start one index copy for each processor.
    CopyIndexes { count: usize },
    /// List the views of the source.
    ListViews,
    /// Start one copy for each view.
    CopyViews { count: usize },
    /// Return success.
    ReturnOk,
    /// Return an error of the given kind.
    ReturnError(ErrorKind),
}

/// A step of the run: the action to perform and the state in which its
/// outcome is awaited.
#[derive(Debug, Clone, Copy, PartialEq, Eq, Structural)]
pub struct ManagerStep {
    pub state: ManagerState,
    pub action: ManagerAction,
}

/// What a run is made of, as far as its course depends on it.
#[derive(Debug, Clone, Copy, PartialEq, Eq, Structural)]
pub struct ReplicationManager {
    /// The number of processors, one for each entity.
    pub processors: usize,
    /// The number of tasks that may be in flight at once.
    pub thread_count: usize,
    /// Whether the views of the source are copied at the end.
    pub copy_views: bool,
}

/// The step that follows once the consumer and every index copy have
/// finished: the views, where they are wanted, and else the end.
pub open spec fn after_indexes_spec(copy_views: bool) -> ManagerStep {
    if copy_views {
        ManagerStep { state: ManagerState::ListingViews, action: ManagerAction::ListViews }
    } else {
        ManagerStep { state: ManagerState::Finished, action: ManagerAction::ReturnOk }
    }
}

/// The step that follows once the consumer has finished: one index copy
/// for each processor.
pub open spec fn after_consumer_spec(manager: ReplicationManager) -> ManagerStep {
    if manager.processors == 0 {
        after_indexes_spec(manager.copy_views)
    } else {
        ManagerStep {
            state: ManagerState::CopyingIndexes { left: manager.processors },
            action: ManagerAction::CopyIndexes { count: manager.processors },
        }
    }
}

impl ReplicationManager {
    /// The step that an event leads to from a state, or `None` where the
    /// event cannot happen in that state.
    pub open spec fn step_spec(self, state: ManagerState, event: ManagerEvent) -> Option<
        ManagerStep,
    > {
        match (state, event) {
            (ManagerState::Created, ManagerEvent::Started) => Some(
                ManagerStep {
                    state: ManagerState::VerifyingSource,
                    action: ManagerAction::VerifySource,
                },
            ),
            (ManagerState::VerifyingSource, ManagerEvent::SourceVerified(alive)) => Some(
                if alive {
                    ManagerStep {
                        state: ManagerState::VerifyingDestination,
                        action: ManagerAction::VerifyDestination,
                    }
                } else {
                    ManagerStep {
                        state: ManagerState::Failed(ErrorKind::Connection),
                        action: ManagerAction::ReturnError(ErrorKind::Connection),
                    }
                },
            ),
            (ManagerState::VerifyingDestination, ManagerEvent::DestinationVerified(alive)) => Some(
                if alive {
                    ManagerStep {
                        state: ManagerState::Clearing,
                        action: ManagerAction::ClearTarget,
                    }
                } else {
                    ManagerStep {
                        state: ManagerState::Failed(ErrorKind::Connection),
                        action: ManagerAction::ReturnError(ErrorKind::Connection),
                    }
                },
            ),
            (ManagerState::Clearing, ManagerEvent::Cleared(done)) => Some(
                if done {
                    ManagerStep {
                        state: ManagerState::Replicating { producers_left: self.processors },
                        action: ManagerAction::Launch {
                            channel_capacity: channel_capacity_spec(
                                self.thread_count as int,
                            ) as usize,
                            producers: self.processors,
                            workers: self.thread_count,
                        },
                    }
                } else {
                    ManagerStep {
                        state: ManagerState::Failed(ErrorKind::Database),
                        action: ManagerAction::ReturnError(ErrorKind::Database),
                    }
                },
            ),
            (ManagerState::Replicating { producers_left }, ManagerEvent::ProducerFinished) => {
                if producers_left == 0 {
                    None
                } else if producers_left == 1 {
                    Some(
                        ManagerStep {
                            state: ManagerState::Replicating { producers_left: 0 },
                            action: ManagerAction::CloseChannel,
                        },
                    )
                } else {
                    Some(
                        ManagerStep {
                            state: ManagerState::Replicating {
                                producers_left: (producers_left - 1) as usize,
                            },
                            action: ManagerAction::Wait,
                        },
                    )
                }
            },
            (ManagerState::Replicating { producers_left }, ManagerEvent::ConsumerFinished) => {
                if producers_left == 0 {
                    Some(after_consumer_spec(self))
                } else {
                    None
                }
            },
            (ManagerState::CopyingIndexes { left }, ManagerEvent::IndexCopyFinished) => {
                if left == 0 {
                    None
                } else if left == 1 {
                    Some(after_indexes_spec(self.copy_views))
                } else {
                    Some(
                        ManagerStep {
                            state: ManagerState::CopyingIndexes { left: (left - 1) as usize },
                            action: ManagerAction::Wait,
                        },
                    )
                }
            },
            (ManagerState::ListingViews, ManagerEvent::ViewsListed(listed)) => Some(
                match listed {
                    Some(count) => if count == 0 {
                        ManagerStep {
                            state: ManagerState::Finished,
                            action: ManagerAction::ReturnOk,
                        }
                    } else {
                        ManagerStep {
                            state: ManagerState::CopyingViews { left: count },
                            action: ManagerAction::CopyViews { count },
                        }
                    },
                    None => ManagerStep {
                        state: ManagerState::Finished,
                        action: ManagerAction::ReturnOk,
                    },
                },
            ),
            (ManagerState::CopyingViews { left }, ManagerEvent::ViewCopyFinished) => {
                if left == 0 {
                    None
                } else if left == 1 {
                    Some(
                        ManagerStep {
                            state: ManagerState::Finished,
                            action: ManagerAction::ReturnOk,
                        },
                    )
                } else {
                    Some(
                        ManagerStep {
                            state: ManagerState::CopyingViews { left: (left - 1) as usize },
                            action: ManagerAction::Wait,
                        },
                    )
                }
            },
            _ => None,
        }
    }

    /// The step that follows the end of the index copies.
    fn after_indexes(&self) -> (step: ManagerStep)
        ensures
            step == after_indexes_spec(self.copy_views),
    {
        if self.copy_views {
            ManagerStep { state: ManagerState::ListingViews, action: ManagerAction::ListViews }
        } else {
            ManagerStep { state: ManagerState::Finished, action: ManagerAction::ReturnOk }
        }
    }

    /// The step that follows the end of the consumer.
    fn after_consumer(&self) -> (step: ManagerStep)
        ensures
            step == after_consumer_spec(*self),
    {
        if self.processors == 0 {
            self.after_indexes()
        } else {
            ManagerStep {
                state: ManagerState::CopyingIndexes { left: self.processors },
                action: ManagerAction::CopyIndexes { count: self.processors },
            }
        }
    }

    /// The first state of a run.
    pub fn start(&self) -> (state: ManagerState)
        ensures
            state == ManagerState::Created,
    {
        ManagerState::Created
    }

    /// Decides what the run does next: the action to perform and the state
    /// in which its outcome is awaited. `None` where the event cannot
    /// happen in the state; the run then stays where it is.
    pub fn step(&self, state: ManagerState, event: ManagerEvent) -> (step: Option<ManagerStep>)
        ensures
            step == self.step_spec(state, event),
    {
        let failed = ManagerStep {
            state: ManagerState::Failed(ErrorKind::Connection),
            action: ManagerAction::ReturnError(ErrorKind::Connection),
        };
        let finished = ManagerStep {
            state: ManagerState::Finished,
            action: ManagerAction::ReturnOk,
        };
        match state {
            ManagerState::Created => match event {
                ManagerEvent::Started => Some(
                    ManagerStep {
                        state: ManagerState::VerifyingSource,
                        action: ManagerAction::VerifySource,
                    },
                ),
                _ => None,
            },
            ManagerState::VerifyingSource => match event {
                ManagerEvent::SourceVerified(alive) => if alive {
                    Some(
                        ManagerStep {
                            state: ManagerState::VerifyingDestination,
                            action: ManagerAction::VerifyDestination,
                        },
                    )
                } else {
                    Some(failed)
                },
                _ => None,
            },
            ManagerState::VerifyingDestination => match event {
                ManagerEvent::DestinationVerified(alive) => if alive {
                    Some(
                        ManagerStep {
                            state: ManagerState::Clearing,
                            action: ManagerAction::ClearTarget,
                        },
                    )
                } else {
                    Some(failed)
                },
                _ => None,
            },
            ManagerState::Clearing => match event {
                ManagerEvent::Cleared(done) => if done {
                    Some(
                        ManagerStep {
                            state: ManagerState::Replicating { producers_left: self.processors },
                            action: ManagerAction::Launch {
                                channel_capacity: channel_capacity(self.thread_count),
                                producers: self.processors,
                                workers: self.thread_count,
                            },
                        },
                    )
                } else {
                    Some(
                        ManagerStep {
                            state: ManagerState::Failed(ErrorKind::Database),
                            action: ManagerAction::ReturnError(ErrorKind::Database),
                        },
                    )
                },
                _ => None,
            },
            ManagerState::Replicating { producers_left } => match event {
                ManagerEvent::ProducerFinished => if producers_left == 0 {
                    None
                } else if producers_left == 1 {
                    Some(
                        ManagerStep {
                            state: ManagerState::Replicating { producers_left: 0 },
                            action: ManagerAction::CloseChannel,
                        },
                    )
                } else {
                    Some(
                        ManagerStep {
                            state: ManagerState::Replicating {
                                producers_left: producers_left - 1,
                            },
                            action: ManagerAction::Wait,
                        },
                    )
                },
                ManagerEvent::ConsumerFinished => if producers_left == 0 {
                    Some(self.after_consumer())
                } else {
                    None
                },
                _ => None,
            },
            ManagerState::CopyingIndexes { left } => match event {
                ManagerEvent::IndexCopyFinished => if left == 0 {
                    None
                } else if left == 1 {
                    Some(self.after_indexes())
                } else {
                    Some(
                        ManagerStep {
                            state: ManagerState::CopyingIndexes { left: left - 1 },
                            action: ManagerAction::Wait,
                        },
                    )
                },
                _ => None,
            },
            ManagerState::ListingViews => match event {
                ManagerEvent::ViewsListed(listed) => match listed {
                    Some(count) => if count == 0 {
                        Some(finished)
                    } else {
                        Some(
                            ManagerStep {
                                state: ManagerState::CopyingViews { left: count },
                                action: ManagerAction::CopyViews { count },
                            },
                        )
                    },
                    None => Some(finished),
                },
                _ => None,
            },
            ManagerState::CopyingViews { left } => match event {
                ManagerEvent::ViewCopyFinished => if left == 0 {
                    None
                } else if left == 1 {
                    Some(finished)
                } else {
                    Some(
                        ManagerStep {
                            state: ManagerState::CopyingViews { left: left - 1 },
                            action: ManagerAction::Wait,
                        },
                    )
                },
                _ => None,
            },
            ManagerState::Finished => None,
            ManagerState::Failed(_) => None,
        }
    }
}

/// Whether a run in this state has returned.
pub open spec fn has_returned(state: ManagerState) -> bool {
    state is Finished || state is Failed
}

/// Nothing destructive happens before both stores have answered: the
/// destination is cleared only as the step that follows the destination's
/// answer to its probe, which is asked only after the source's.
pub proof fn lemma_clear_follows_verification(
    manager: ReplicationManager,
    state: ManagerState,
    event: ManagerEvent,
)
    requires
        manager.step_spec(state, event).is_some(),
    ensures
        manager.step_spec(state, event).unwrap().action == ManagerAction::ClearTarget ==> state
            == ManagerState::VerifyingDestination && event == ManagerEvent::DestinationVerified(
            true,
        ),
        manager.step_spec(state, event).unwrap().action == ManagerAction::VerifyDestination
            ==> state == ManagerState::VerifyingSource && event == ManagerEvent::SourceVerified(
            true,
        ),
        manager.step_spec(state, event).unwrap().action is Launch ==> state
            == ManagerState::Clearing && event == ManagerEvent::Cleared(true),
{
}

/// A run returns only from a state in which the consumer is idle: success
/// is returned only once the consumer has finished, and an error only
/// before it was started.
pub proof fn lemma_return_waits_for_consumer(
    manager: ReplicationManager,
    state: ManagerState,
    event: ManagerEvent,
)
    requires
        manager.step_spec(state, event).is_some(),
    ensures
        manager.step_spec(state, event).unwrap().action == ManagerAction::ReturnOk ==> (state
            is CopyingIndexes || state is ListingViews || state is CopyingViews || (state
            == ManagerState::Replicating { producers_left: 0 } && event
            == ManagerEvent::ConsumerFinished)),
        manager.step_spec(state, event).unwrap().action is ReturnError ==> (state
            is VerifyingSource || state is VerifyingDestination || state is Clearing),
        has_returned(manager.step_spec(state, event).unwrap().state) <==> (manager.step_spec(
            state,
            event,
        ).unwrap().action == ManagerAction::ReturnOk || manager.step_spec(
            state,
            event,
        ).unwrap().action is ReturnError),
        has_returned(state) ==> false,
{
}

/// The kinds of the errors that end a run: a store that does not answer
/// its probe ends it with a connection error, a failed clear with a
/// database error, and nothing else ends it with an error.
pub proof fn lemma_fatal_errors(
    manager: ReplicationManager,
    state: ManagerState,
    event: ManagerEvent,
)
    requires
        manager.step_spec(state, event).is_some(),
    ensures
        manager.step_spec(state, event).unwrap().action == ManagerAction::ReturnError(
            ErrorKind::Connection,
        ) <==> (state == ManagerState::VerifyingSource && event == ManagerEvent::SourceVerified(
            false,
        )) || (state == ManagerState::VerifyingDestination && event
            == ManagerEvent::DestinationVerified(false)),
        manager.step_spec(state, event).unwrap().action == ManagerAction::ReturnError(
            ErrorKind::Database,
        ) <==> state == ManagerState::Clearing && event == ManagerEvent::Cleared(false),
        manager.step_spec(state, event).unwrap().action is ReturnError ==> manager.step_spec(
            state,
            event,
        ).unwrap().action == ManagerAction::ReturnError(ErrorKind::Connection)
            || manager.step_spec(state, event).unwrap().action == ManagerAction::ReturnError(
            ErrorKind::Database,
        ),
{
}

/// What a run has done by its end.
#[derive(Debug, PartialEq, Eq)]
pub struct RunReport {
    /// What the run returned.
    pub result: Result<(), ErrorKind>,
    /// The actions of the run, in their order.
    pub actions: Vec<ManagerAction>,
}

/// `count` times the action to wait.
pub open spec fn waits(count: int) -> Seq<ManagerAction> {
    Seq::new(
        if count > 0 {
            count as nat
        } else {
            0
        },
        |i: int| ManagerAction::Wait,
    )
}

/// The actions to which `count` things that end one after the other lead:
/// to wait for all but the last, and then `last`.
pub open spec fn countdown(count: int, last: ManagerAction) -> Seq<ManagerAction> {
    if count <= 0 {
        Seq::empty()
    } else {
        waits(count - 1).push(last)
    }
}

impl ReplicationManager {
    /// What a run returns: a connection error where a store does not
    /// answer, a database error where the clear fails, and success
    /// otherwise, whatever becomes of single batches, indexes and views.
    pub open spec fn run_result_spec(
        self,
        source_alive: bool,
        destination_alive: bool,
        cleared: bool,
    ) -> Result<(), ErrorKind> {
        if !source_alive || !destination_alive {
            Err(ErrorKind::Connection)
        } else if !cleared {
            Err(ErrorKind::Database)
        } else {
            Ok(())
        }
    }

    /// The actions of a run once the views have been listed: a copy for
    /// each view, and the return.
    pub open spec fn after_listing_spec(self, views: Option<usize>) -> Seq<ManagerAction> {
        match views {
            Some(count) => if count == 0 {
                seq![ManagerAction::ReturnOk]
            } else {
                seq![ManagerAction::CopyViews { count }] + countdown(
                    count as int,
                    ManagerAction::ReturnOk,
                )
            },
            None => seq![ManagerAction::ReturnOk],
        }
    }

    /// The actions of a run once the indexes have been copied: the views,
    /// where they are wanted, and the return.
    pub open spec fn after_indexes_actions_spec(self, views: Option<usize>) -> Seq<ManagerAction> {
        if self.copy_views {
            seq![ManagerAction::ListViews] + self.after_listing_spec(views)
        } else {
            seq![ManagerAction::ReturnOk]
        }
    }

    /// The actions of a run once the destination has been cleared: the
    /// launch, the closing of the channel after the last producer, the
    /// index copies after the consumer, and what follows them.
    pub open spec fn after_clear_actions_spec(self, views: Option<usize>) -> Seq<ManagerAction> {
        seq![
            ManagerAction::Launch {
                channel_capacity: channel_capacity_spec(self.thread_count as int) as usize,
                producers: self.processors,
                workers: self.thread_count,
            },
        ] + countdown(self.processors as int, ManagerAction::CloseChannel) + (if self.processors
            == 0 {
            Seq::empty()
        } else {
            seq![ManagerAction::CopyIndexes { count: self.processors }] + waits(
                self.processors - 1,
            )
        }) + self.after_indexes_actions_spec(views)
    }

    /// The actions of a whole run, in their order, by what its probes,
    /// its clear and the listing of the views come to.
    pub open spec fn run_actions_spec(
        self,
        source_alive: bool,
        destination_alive: bool,
        cleared: bool,
        views: Option<usize>,
    ) -> Seq<ManagerAction> {
        if !source_alive {
            seq![ManagerAction::VerifySource, ManagerAction::ReturnError(ErrorKind::Connection)]
        } else if !destination_alive {
            seq![
                ManagerAction::VerifySource,
                ManagerAction::VerifyDestination,
                ManagerAction::ReturnError(ErrorKind::Connection),
            ]
        } else if !cleared {
            seq![
                ManagerAction::VerifySource,
                ManagerAction::VerifyDestination,
                ManagerAction::ClearTarget,
                ManagerAction::ReturnError(ErrorKind::Database),
            ]
        } else {
            seq![
                ManagerAction::VerifySource,
                ManagerAction::VerifyDestination,
                ManagerAction::ClearTarget,
            ] + self.after_clear_actions_spec(views)
        }
    }

    /// Takes a run from its start to its end, step by step: the two
    /// stores answer their probes or do not, the clear succeeds or fails,
    /// every producer, task, index copy and view copy ends, and the
    /// listing of the views gives `views`.
    pub fn run(&self, source_alive: bool, destination_alive: bool, cleared: bool, views: Option<
        usize,
    >) -> (report: RunReport)
        ensures
            report.result == self.run_result_spec(source_alive, destination_alive, cleared),
            report.actions@ == self.run_actions_spec(
                source_alive,
                destination_alive,
                cleared,
                views,
            ),
    {
        let mut actions: Vec<ManagerAction> = Vec::new();
        let mut step = self.step(self.start(), ManagerEvent::Started).unwrap();
        actions.push(step.action);
        step = self.step(step.state, ManagerEvent::SourceVerified(source_alive)).unwrap();
        actions.push(step.action);
        if !source_alive {
            assert(actions@ =~= self.run_actions_spec(
                source_alive,
                destination_alive,
                cleared,
                views,
            ));
            return RunReport { result: Err(ErrorKind::Connection), actions };
        }
        step = self.step(step.state, ManagerEvent::DestinationVerified(destination_alive)).unwrap();
        actions.push(step.action);
        if !destination_alive {
            assert(actions@ =~= self.run_actions_spec(
                source_alive,
                destination_alive,
                cleared,
                views,
            ));
            return RunReport { result: Err(ErrorKind::Connection), actions };
        }
        step = self.step(step.state, ManagerEvent::Cleared(cleared)).unwrap();
        actions.push(step.action);
        if !cleared {
            assert(actions@ =~= self.run_actions_spec(
                source_alive,
                destination_alive,
                cleared,
                views,
            ));
            return RunReport { result: Err(ErrorKind::Database), actions };
        }
        let ghost launched = actions@;
        assert(launched =~= seq![
            ManagerAction::VerifySource,
            ManagerAction::VerifyDestination,
            ManagerAction::ClearTarget,
            ManagerAction::Launch {
                channel_capacity: channel_capacity_spec(self.thread_count as int) as usize,
                producers: self.processors,
                workers: self.thread_count,
            },
        ]);
        let count = self.processors;
        if count > 0 {
            let mut left: usize = count;
            while left > 1
                invariant
                    1 <= left <= count,
                    count == self.processors,
                    step.state == (ManagerState::Replicating { producers_left: left }),
                    actions@ == launched + waits(count - left),
                decreases left,
            {
                step = self.step(step.state, ManagerEvent::ProducerFinished).unwrap();
                actions.push(step.action);
                left = left - 1;
                assert(actions@ =~= launched + waits(count - left));
            }
            step = self.step(step.state, ManagerEvent::ProducerFinished).unwrap();
            actions.push(step.action);
            assert(actions@ =~= launched + countdown(count as int, ManagerAction::CloseChannel));
        } else {
            assert(actions@ =~= launched + countdown(count as int, ManagerAction::CloseChannel));
        }
        let ghost closed = actions@;
        step = self.step(step.state, ManagerEvent::ConsumerFinished).unwrap();
        actions.push(step.action);
        if count > 0 {
            let mut left: usize = count;
            while left > 1
                invariant
                    1 <= left <= count,
                    count == self.processors,
                    step.state == (ManagerState::CopyingIndexes { left }),
                    actions@ == closed.push(ManagerAction::CopyIndexes { count }) + waits(
                        count - left,
                    ),
                decreases left,
            {
                step = self.step(step.state, ManagerEvent::IndexCopyFinished).unwrap();
                actions.push(step.action);
                left = left - 1;
                assert(actions@ =~= closed.push(ManagerAction::CopyIndexes { count }) + waits(
                    count - left,
                ));
            }
            step = self.step(step.state, ManagerEvent::IndexCopyFinished).unwrap();
            actions.push(step.action);
        }
        let ghost indexed = closed + (if count == 0 {
            Seq::<ManagerAction>::empty()
        } else {
            seq![ManagerAction::CopyIndexes { count }] + waits(count - 1)
        });
        assert(actions@ =~= indexed.push(step.action));
        assert(step == after_indexes_spec(self.copy_views));
        if self.copy_views {
            step = self.step(step.state, ManagerEvent::ViewsListed(views)).unwrap();
            actions.push(step.action);
            match step.state {
                ManagerState::CopyingViews { left: listed } => {
                    let ghost copying = actions@;
                    let mut left: usize = listed;
                    while left > 1
                        invariant
                            1 <= left <= listed,
                            step.state == (ManagerState::CopyingViews { left }),
                            actions@ == copying + waits(listed - left),
                        decreases left,
                    {
                        step = self.step(step.state, ManagerEvent::ViewCopyFinished).unwrap();
                        actions.push(step.action);
                        left = left - 1;
                        assert(actions@ =~= copying + waits(listed - left));
                    }
                    step = self.step(step.state, ManagerEvent::ViewCopyFinished).unwrap();
                    actions.push(step.action);
                    assert(actions@ =~= copying + countdown(
                        listed as int,
                        ManagerAction::ReturnOk,
                    ));
                    assert(actions@ =~= indexed + self.after_indexes_actions_spec(views));
                },
                _ => {
                    assert(actions@ =~= indexed + self.after_indexes_actions_spec(views));
                },
            }
        } else {
            assert(actions@ =~= indexed + self.after_indexes_actions_spec(views));
        }
        assert(actions@ =~= self.run_actions_spec(source_alive, destination_alive, cleared, views));
        RunReport { result: Ok(()), actions }
    }
}

/// Every run ends with its return, and returns nothing before: the last
/// action of a run is the return of what the run returns, and no action
/// before it is a return. The destination is cleared only in a run in which
/// both stores have answered, and only before anything is launched.
pub proof fn lemma_run_returns_last(
    manager: ReplicationManager,
    source_alive: bool,
    destination_alive: bool,
    cleared: bool,
    views: Option<usize>,
)
    ensures
        ({
            let actions = manager.run_actions_spec(source_alive, destination_alive, cleared, views);
            let result = manager.run_result_spec(source_alive, destination_alive, cleared);
            &&& actions.len() >= 2
            &&& actions.last() == match result {
                Ok(_) => ManagerAction::ReturnOk,
                Err(kind) => ManagerAction::ReturnError(kind),
            }
            &&& forall|i: int|
                0 <= i < actions.len() - 1 ==> actions[i] != ManagerAction::ReturnOk && !(
                #[trigger] actions[i] is ReturnError)
            &&& actions.contains(ManagerAction::ClearTarget) <==> source_alive
                && destination_alive
            &&& actions[0] == ManagerAction::VerifySource
        }),
{
    let actions = manager.run_actions_spec(source_alive, destination_alive, cleared, views);
    if source_alive && destination_alive {
        assert(actions[2] == ManagerAction::ClearTarget);
    }
    if source_alive && destination_alive && cleared {
        let head = seq![
            ManagerAction::VerifySource,
            ManagerAction::VerifyDestination,
            ManagerAction::ClearTarget,
        ];
        let launch = seq![
            ManagerAction::Launch {
                channel_capacity: channel_capacity_spec(manager.thread_count as int) as usize,
                producers: manager.processors,
                workers: manager.thread_count,
            },
        ];
        let closing = countdown(manager.processors as int, ManagerAction::CloseChannel);
        let copying = if manager.processors == 0 {
            Seq::<ManagerAction>::empty()
        } else {
            seq![ManagerAction::CopyIndexes { count: manager.processors }] + waits(
                manager.processors - 1,
            )
        };
        let tail = manager.after_indexes_actions_spec(views);
        let middle = head + launch + closing + copying;
        assert(actions =~= middle + tail);
        assert forall|i: int| 0 <= i < middle.len() implies middle[i] != ManagerAction::ReturnOk
            && !(#[trigger] middle[i] is ReturnError) by {}
        assert(tail.len() >= 1);
        assert(tail.last() == ManagerAction::ReturnOk);
        assert forall|i: int| 0 <= i < tail.len() - 1 implies tail[i] != ManagerAction::ReturnOk
            && !(#[trigger] tail[i] is ReturnError) by {}
        assert forall|i: int| 0 <= i < actions.len() - 1 implies actions[i]
            != ManagerAction::ReturnOk && !(#[trigger] actions[i] is ReturnError) by {
            if i < middle.len() {
                assert(actions[i] == middle[i]);
            } else {
                assert(actions[i] == tail[i - middle.len()]);
            }
        }
        assert(actions.last() == tail.last());
    } else {
        assert forall|i: int| 0 <= i < actions.len() implies actions[i]
            != ManagerAction::ClearTarget || (source_alive && destination_alive) by {}
    }
}

} // verus!
