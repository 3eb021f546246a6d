//! The producer of one entity: it sizes the batches, names them one after
//! the other and hands each to the dispatch channel as a task.
//!
//! What a producer does next depends only on where it stands and on what
//! has just happened: `producer_step` is that function. The caller
//! performs the action that a step names and reports the outcome as the
//! next event.
use crate::database::mongodb::document::{document_entries, document_new, NativeKeyView};
use crate::database::pagination::PaginationOptions;
use crate::replication::batching::{
    adaptive_batch_size_spec, aligned_batch_cursor_size, aligned_cursor_spec, batch_at,
    batch_at_spec, batch_count_spec, effective_target_bytes_spec, lemma_batch_count_bounds,
    plan_spec, setup_adaptive_batching, BatchingOptions,
};
use crate::replication::manager::ReplicationConfig;
use crate::replication::task::{
    batch_read_options, batch_read_options_spec, ModelTask, ReplicatorTask, TaskConfig,
};
use vstd::prelude::*;

verus! {

/// The settings of one entity that differ from those of the run.
#[derive(Debug, Clone)]
pub struct ProcessorConfig {
    pub adaptive_batching: Option<bool>,
    pub target_batch_bytes: Option<u64>,
    pub batch_size: Option<u64>,
    pub cursor_batch_size: Option<u64>,
    /// The filter on the entity's records; an empty one selects all.
    pub query: bson::Document,
}

impl Default for ProcessorConfig {
    fn default() -> (config: ProcessorConfig)
        ensures
            config.adaptive_batching.is_none(),
            config.target_batch_bytes.is_none(),
            config.batch_size.is_none(),
            config.cursor_batch_size.is_none(),
            document_entries(config.query) == Seq::<NativeKeyView>::empty(),
    {
        ProcessorConfig {
            adaptive_batching: None,
            target_batch_bytes: None,
            batch_size: None,
            cursor_batch_size: None,
            query: document_new(),
        }
    }
}

impl ProcessorConfig {
    pub fn builder() -> (builder: ProcessorConfigBuilder)
        ensures
            builder.config.adaptive_batching.is_none(),
            builder.config.target_batch_bytes.is_none(),
            builder.config.batch_size.is_none(),
            builder.config.cursor_batch_size.is_none(),
            document_entries(builder.config.query) == Seq::<NativeKeyView>::empty(),
    {
        ProcessorConfigBuilder::new()
    }
}

/// Puts the settings of one entity together, one at a time.
#[derive(Debug, Clone)]
pub struct ProcessorConfigBuilder {
    pub config: ProcessorConfig,
}

impl Default for ProcessorConfigBuilder {
    fn default() -> (builder: ProcessorConfigBuilder)
        ensures
            builder.config.adaptive_batching.is_none(),
            builder.config.target_batch_bytes.is_none(),
            builder.config.batch_size.is_none(),
            builder.config.cursor_batch_size.is_none(),
            document_entries(builder.config.query) == Seq::<NativeKeyView>::empty(),
    {
        ProcessorConfigBuilder::new()
    }
}

impl ProcessorConfigBuilder {
    pub fn new() -> (builder: ProcessorConfigBuilder)
        ensures
            builder.config.adaptive_batching.is_none(),
            builder.config.target_batch_bytes.is_none(),
            builder.config.batch_size.is_none(),
            builder.config.cursor_batch_size.is_none(),
            document_entries(builder.config.query) == Seq::<NativeKeyView>::empty(),
    {
        ProcessorConfigBuilder { config: ProcessorConfig::default() }
    }

    pub fn batch_size(self, size: u64) -> (builder: ProcessorConfigBuilder)
        ensures
            builder.config.batch_size == Some(size),
            builder.config.adaptive_batching == self.config.adaptive_batching,
            builder.config.target_batch_bytes == self.config.target_batch_bytes,
            builder.config.cursor_batch_size == self.config.cursor_batch_size,
            builder.config.query == self.config.query,
    {
        let mut builder = self;
        builder.config.batch_size = Some(size);
        builder
    }

    pub fn cursor_batch_size(self, size: u64) -> (builder: ProcessorConfigBuilder)
        ensures
            builder.config.cursor_batch_size == Some(size),
            builder.config.adaptive_batching == self.config.adaptive_batching,
            builder.config.target_batch_bytes == self.config.target_batch_bytes,
            builder.config.batch_size == self.config.batch_size,
            builder.config.query == self.config.query,
    {
        let mut builder = self;
        builder.config.cursor_batch_size = Some(size);
        builder
    }

    pub fn target_batch_bytes(self, size: Option<u64>) -> (builder: ProcessorConfigBuilder)
        ensures
            builder.config.target_batch_bytes == size,
            builder.config.adaptive_batching == self.config.adaptive_batching,
            builder.config.batch_size == self.config.batch_size,
            builder.config.cursor_batch_size == self.config.cursor_batch_size,
            builder.config.query == self.config.query,
    {
        let mut builder = self;
        builder.config.target_batch_bytes = size;
        builder
    }

    pub fn query(self, query: bson::Document) -> (builder: ProcessorConfigBuilder)
        ensures
            builder.config.query == query,
            builder.config.adaptive_batching == self.config.adaptive_batching,
            builder.config.target_batch_bytes == self.config.target_batch_bytes,
            builder.config.batch_size == self.config.batch_size,
            builder.config.cursor_batch_size == self.config.cursor_batch_size,
    {
        let mut builder = self;
        builder.config.query = query;
        builder
    }

    pub fn adaptive_batching(self, enabled: bool) -> (builder: ProcessorConfigBuilder)
        ensures
            builder.config.adaptive_batching == Some(enabled),
            builder.config.target_batch_bytes == self.config.target_batch_bytes,
            builder.config.batch_size == self.config.batch_size,
            builder.config.cursor_batch_size == self.config.cursor_batch_size,
            builder.config.query == self.config.query,
    {
        let mut builder = self;
        builder.config.adaptive_batching = Some(enabled);
        builder
    }

    pub fn build(self) -> (config: ProcessorConfig)
        ensures
            config == self.config,
    {
        self.config
    }
}

/// The settings of one entity whose records are copied as plain documents.
#[derive(Debug, Clone)]
pub struct ReplicatorConfig {
    pub adaptive_batching: Option<bool>,
    pub target_batch_bytes: Option<u64>,
    pub batch_size: Option<u64>,
    pub cursor_batch_size: Option<u64>,
    pub query: bson::Document,
    /// Whether the documents are masked on their way.
    pub masked: bool,
}

impl Default for ReplicatorConfig {
    fn default() -> (config: ReplicatorConfig)
        ensures
            config.adaptive_batching.is_none(),
            config.target_batch_bytes.is_none(),
            config.batch_size.is_none(),
            config.cursor_batch_size.is_none(),
            document_entries(config.query) == Seq::<NativeKeyView>::empty(),
            !config.masked,
    {
        ReplicatorConfig {
            adaptive_batching: None,
            target_batch_bytes: None,
            batch_size: None,
            cursor_batch_size: None,
            query: document_new(),
            masked: false,
        }
    }
}

impl ReplicatorConfig {
    pub fn builder() -> (builder: ReplicationConfigBuilder)
        ensures
            builder.adaptive_batching.is_none(),
            builder.target_batch_bytes.is_none(),
            builder.batch_size.is_none(),
            builder.cursor_batch_size.is_none(),
            document_entries(builder.query) == Seq::<NativeKeyView>::empty(),
            !builder.masked,
    {
        ReplicationConfigBuilder::new()
    }
}

/// Puts the settings of a plain-document entity together, one at a time.
#[derive(Debug, Clone)]
pub struct ReplicationConfigBuilder {
    pub batch_size: Option<u64>,
    pub cursor_batch_size: Option<u64>,
    pub target_batch_bytes: Option<u64>,
    pub query: bson::Document,
    pub adaptive_batching: Option<bool>,
    pub masked: bool,
}

impl Default for ReplicationConfigBuilder {
    fn default() -> (builder: ReplicationConfigBuilder)
        ensures
            builder.adaptive_batching.is_none(),
            builder.target_batch_bytes.is_none(),
            builder.batch_size.is_none(),
            builder.cursor_batch_size.is_none(),
            document_entries(builder.query) == Seq::<NativeKeyView>::empty(),
            !builder.masked,
    {
        ReplicationConfigBuilder::new()
    }
}

impl ReplicationConfigBuilder {
    pub fn new() -> (builder: ReplicationConfigBuilder)
        ensures
            builder.adaptive_batching.is_none(),
            builder.target_batch_bytes.is_none(),
            builder.batch_size.is_none(),
            builder.cursor_batch_size.is_none(),
            document_entries(builder.query) == Seq::<NativeKeyView>::empty(),
            !builder.masked,
    {
        ReplicationConfigBuilder {
            batch_size: None,
            cursor_batch_size: None,
            target_batch_bytes: None,
            query: document_new(),
            adaptive_batching: None,
            masked: false,
        }
    }

    pub fn batch_size(self, size: Option<u64>) -> (builder: ReplicationConfigBuilder)
        ensures
            builder.batch_size == size,
            builder.cursor_batch_size == self.cursor_batch_size,
            builder.target_batch_bytes == self.target_batch_bytes,
            builder.query == self.query,
            builder.adaptive_batching == self.adaptive_batching,
            builder.masked == self.masked,
    {
        let mut builder = self;
        builder.batch_size = size;
        builder
    }

    pub fn cursor_batch_size(self, size: Option<u64>) -> (builder: ReplicationConfigBuilder)
        ensures
            builder.cursor_batch_size == size,
            builder.batch_size == self.batch_size,
            builder.target_batch_bytes == self.target_batch_bytes,
            builder.query == self.query,
            builder.adaptive_batching == self.adaptive_batching,
            builder.masked == self.masked,
    {
        let mut builder = self;
        builder.cursor_batch_size = size;
        builder
    }

    pub fn target_batch_bytes(self, size: Option<u64>) -> (builder: ReplicationConfigBuilder)
        ensures
            builder.target_batch_bytes == size,
            builder.batch_size == self.batch_size,
            builder.cursor_batch_size == self.cursor_batch_size,
            builder.query == self.query,
            builder.adaptive_batching == self.adaptive_batching,
            builder.masked == self.masked,
    {
        let mut builder = self;
        builder.target_batch_bytes = size;
        builder
    }

    pub fn query(self, query: bson::Document) -> (builder: ReplicationConfigBuilder)
        ensures
            builder.query == query,
            builder.batch_size == self.batch_size,
            builder.cursor_batch_size == self.cursor_batch_size,
            builder.target_batch_bytes == self.target_batch_bytes,
            builder.adaptive_batching == self.adaptive_batching,
            builder.masked == self.masked,
    {
        let mut builder = self;
        builder.query = query;
        builder
    }

    pub fn adaptive_batching(self, enabled: bool) -> (builder: ReplicationConfigBuilder)
        ensures
            builder.adaptive_batching == Some(enabled),
            builder.batch_size == self.batch_size,
            builder.cursor_batch_size == self.cursor_batch_size,
            builder.target_batch_bytes == self.target_batch_bytes,
            builder.query == self.query,
            builder.masked == self.masked,
    {
        let mut builder = self;
        builder.adaptive_batching = Some(enabled);
        builder
    }

    /// Asks for the documents to be masked; the masking itself is the
    /// caller's.
    pub fn mask(self) -> (builder: ReplicationConfigBuilder)
        ensures
            builder.masked,
            builder.batch_size == self.batch_size,
            builder.cursor_batch_size == self.cursor_batch_size,
            builder.target_batch_bytes == self.target_batch_bytes,
            builder.query == self.query,
            builder.adaptive_batching == self.adaptive_batching,
    {
        let mut builder = self;
        builder.masked = true;
        builder
    }

    pub fn build(self) -> (config: ReplicatorConfig)
        ensures
            config.batch_size == self.batch_size,
            config.cursor_batch_size == self.cursor_batch_size,
            config.target_batch_bytes == self.target_batch_bytes,
            config.query == self.query,
            config.adaptive_batching == self.adaptive_batching,
            config.masked == self.masked,
    {
        ReplicatorConfig {
            adaptive_batching: self.adaptive_batching,
            target_batch_bytes: self.target_batch_bytes,
            batch_size: self.batch_size,
            cursor_batch_size: self.cursor_batch_size,
            query: self.query,
            masked: self.masked,
        }
    }
}

/// The sizes with which a producer starts, and whether and how it adapts
/// them to the entity's records.
#[derive(Debug, Clone, Copy, PartialEq, Eq, Structural)]
pub struct ProducerSettings {
    /// The sizes used unless adaptive batching finds others.
    pub batching: BatchingOptions,
    /// Whether the batch size follows the average size of a record.
    pub adaptive: bool,
    /// The bytes to aim for in a batch, where the caller has set them.
    pub target_batch_bytes: Option<u64>,
}

/// The cursor batch size that goes with a batch size, capped at the largest
/// `u64`.
pub open spec fn capped_cursor_spec(batch_size: u64) -> u64 {
    if aligned_cursor_spec(batch_size as int) <= u64::MAX {
        aligned_cursor_spec(batch_size as int) as u64
    } else {
        u64::MAX
    }
}

/// The settings of a producer: each from the entity's own settings where
/// they have it, else from the run's. The cursor batch size that neither
/// has follows from the batch size.
pub open spec fn resolve_settings_spec(
    batch_size: Option<u64>,
    cursor_batch_size: Option<u64>,
    target_batch_bytes: Option<u64>,
    adaptive_batching: Option<bool>,
    defaults: ReplicationConfig,
) -> ProducerSettings {
    let size = match batch_size {
        Some(own) => own,
        None => defaults.batch_size,
    };
    ProducerSettings {
        batching: BatchingOptions {
            batch_size: size,
            cursor_batch_size: match cursor_batch_size {
                Some(own) => own,
                None => match defaults.cursor_batch_size {
                    Some(shared) => shared,
                    None => capped_cursor_spec(size),
                },
            },
        },
        adaptive: adaptive_batching == Some(true) || defaults.adaptive_batching,
        target_batch_bytes: match target_batch_bytes {
            Some(own) => Some(own),
            None => defaults.target_batch_bytes,
        },
    }
}

/// Resolves the settings of a producer from the entity's own settings and
/// those of the run.
pub fn resolve_settings(
    batch_size: Option<u64>,
    cursor_batch_size: Option<u64>,
    target_batch_bytes: Option<u64>,
    adaptive_batching: Option<bool>,
    defaults: &ReplicationConfig,
) -> (settings: ProducerSettings)
    ensures
        settings == resolve_settings_spec(
            batch_size,
            cursor_batch_size,
            target_batch_bytes,
            adaptive_batching,
            *defaults,
        ),
{
    let size: u64 = match batch_size {
        Some(own) => own,
        None => defaults.batch_size,
    };
    let cursor: u64 = match cursor_batch_size {
        Some(own) => own,
        None => match defaults.cursor_batch_size {
            Some(shared) => shared,
            None => aligned_batch_cursor_size(size),
        },
    };
    let adaptive = match adaptive_batching {
        Some(true) => true,
        _ => defaults.adaptive_batching,
    };
    let target = match target_batch_bytes {
        Some(own) => Some(own),
        None => defaults.target_batch_bytes,
    };
    ProducerSettings {
        batching: BatchingOptions { batch_size: size, cursor_batch_size: cursor },
        adaptive,
        target_batch_bytes: target,
    }
}

/// How a producer ended.
#[derive(Debug, Clone, Copy, PartialEq, Eq, Structural)]
pub enum ProducerOutcome {
    /// The records could not be counted: the entity is skipped.
    Skipped,
    /// The entity has no records.
    Empty,
    /// Every batch was handed to the channel.
    Completed,
    /// The channel closed while batches were left.
    DispatchClosed,
}

/// Where a producer stands.
#[derive(Debug, Clone, Copy, PartialEq, Eq, Structural)]
pub enum ProducerState {
    /// The producer has not begun.
    Created,
    /// The records of the entity are being counted.
    Counting,
    /// The average size of the entity's `total` records is being asked.
    Measuring { total: u64 },
    /// The indexes of the entity are being copied.
    CopyingIndexes { total: u64, batching: BatchingOptions },
    /// The task of the batch `index` is on its way into the channel.
    Sending { total: u64, batching: BatchingOptions, index: u64 },
    /// The producer has ended.
    Finished(ProducerOutcome),
}

/// What has just happened.
#[derive(Debug, Clone, Copy, PartialEq, Eq, Structural)]
pub enum ProducerEvent {
    /// The producer was asked to begin.
    Started,
    /// The records were counted, this many; `None` where the count failed.
    Counted(Option<u64>),
    /// The average size of a record, in bytes; `None` where the source
    /// could not tell.
    Measured(Option<u64>),
    /// The copy of the indexes has ended, with or without an error.
    IndexesCopied,
    /// The task went into the channel, or the channel was closed.
    TaskSent(bool),
}

/// What the caller does next.
#[derive(Debug, Clone, Copy, PartialEq, Eq, Structural)]
pub enum ProducerAction {
    /// Count the records of the entity that the query selects.
    CountRecords,
    /// Ask the source for the average size of the entity's records.
    MeasureAverageSize,
    /// Copy the indexes of the entity; an error is logged and the producer
    /// goes on.
    CopyIndexes,
    /// Build the task for the page and hand it to the channel.
    SendTask { page: PaginationOptions, cursor_batch_size: u64 },
    /// End the producer.
    Stop,
}

/// What the caller does to the entity's progress bar.
#[derive(Debug, Clone, Copy, PartialEq, Eq, Structural)]
pub enum ProgressUpdate {
    /// Nothing.
    Unchanged,
    /// Set the length to the number of records.
    SetLength(u64),
    /// Set the length to zero and finish with the message for an entity
    /// without records.
    FinishEmpty,
    /// Finish with the message for an entity that is skipped.
    FinishSkipped,
}

/// A step of a producer.
#[derive(Debug, Clone, Copy, PartialEq, Eq, Structural)]
pub struct ProducerStep {
    pub state: ProducerState,
    pub action: ProducerAction,
    pub progress: ProgressUpdate,
}

/// The message with which the progress bar of an entity without records
/// finishes.
pub fn no_records_message() -> (message: String)
    ensures
        message@ == "No records to process."@,
{
    "No records to process.".to_owned()
}

/// The sizes that adaptive batching finds for records of the given average
/// size.
pub open spec fn adapted_batching_spec(
    average_document_size: u64,
    target_batch_bytes: Option<u64>,
) -> BatchingOptions
    recommends
        average_document_size > 0,
{
    let size = adaptive_batch_size_spec(
        average_document_size as int,
        effective_target_bytes_spec(average_document_size as int, target_batch_bytes),
    ) as u64;
    BatchingOptions { batch_size: size, cursor_batch_size: capped_cursor_spec(size) }
}

/// The step that sends the batch `index`, or ends the producer where the
/// entity has no such batch.
pub open spec fn send_or_stop_spec(total: u64, batching: BatchingOptions, index: u64)
    -> ProducerStep {
    if index < batch_count_spec(total as int, batching.batch_size as int) {
        ProducerStep {
            state: ProducerState::Sending { total, batching, index },
            action: ProducerAction::SendTask {
                page: batch_at_spec(total as int, batching.batch_size as int, index as int),
                cursor_batch_size: batching.cursor_batch_size,
            },
            progress: ProgressUpdate::Unchanged,
        }
    } else {
        ProducerStep {
            state: ProducerState::Finished(ProducerOutcome::Completed),
            action: ProducerAction::Stop,
            progress: ProgressUpdate::Unchanged,
        }
    }
}

/// The step that an event leads to from a state, or `None` where the event
/// cannot happen in that state.
pub open spec fn producer_step_spec(
    settings: ProducerSettings,
    state: ProducerState,
    event: ProducerEvent,
) -> Option<ProducerStep> {
    match (state, event) {
        (ProducerState::Created, ProducerEvent::Started) => Some(
            ProducerStep {
                state: ProducerState::Counting,
                action: ProducerAction::CountRecords,
                progress: ProgressUpdate::Unchanged,
            },
        ),
        (ProducerState::Counting, ProducerEvent::Counted(counted)) => Some(
            match counted {
                None => ProducerStep {
                    state: ProducerState::Finished(ProducerOutcome::Skipped),
                    action: ProducerAction::Stop,
                    progress: ProgressUpdate::FinishSkipped,
                },
                Some(total) => if total == 0 {
                    ProducerStep {
                        state: ProducerState::Finished(ProducerOutcome::Empty),
                        action: ProducerAction::Stop,
                        progress: ProgressUpdate::FinishEmpty,
                    }
                } else if settings.adaptive {
                    ProducerStep {
                        state: ProducerState::Measuring { total },
                        action: ProducerAction::MeasureAverageSize,
                        progress: ProgressUpdate::SetLength(total),
                    }
                } else {
                    ProducerStep {
                        state: ProducerState::CopyingIndexes { total, batching: settings.batching },
                        action: ProducerAction::CopyIndexes,
                        progress: ProgressUpdate::SetLength(total),
                    }
                },
            },
        ),
        (ProducerState::Measuring { total }, ProducerEvent::Measured(measured)) => Some(
            ProducerStep {
                state: ProducerState::CopyingIndexes {
                    total,
                    batching: run_batching_spec(settings, measured),
                },
                action: ProducerAction::CopyIndexes,
                progress: ProgressUpdate::Unchanged,
            },
        ),
        (ProducerState::CopyingIndexes { total, batching }, ProducerEvent::IndexesCopied) => Some(
            send_or_stop_spec(total, batching, 0),
        ),
        (ProducerState::Sending { total, batching, index }, ProducerEvent::TaskSent(sent)) => {
            if !sent {
                Some(
                    ProducerStep {
                        state: ProducerState::Finished(ProducerOutcome::DispatchClosed),
                        action: ProducerAction::Stop,
                        progress: ProgressUpdate::Unchanged,
                    },
                )
            } else if index == u64::MAX {
                None
            } else {
                Some(send_or_stop_spec(total, batching, (index + 1) as u64))
            }
        },
        _ => None,
    }
}

/// The sizes of the batches in a state, where the state has them.
pub open spec fn batching_of(state: ProducerState) -> Option<BatchingOptions> {
    match state {
        ProducerState::CopyingIndexes { total, batching } => Some(batching),
        ProducerState::Sending { total, batching, index } => Some(batching),
        _ => None,
    }
}

/// What a producer step asks of its inputs: batches hold at least one
/// record, and where the batch size follows the average size of a record,
/// that size is not reported as zero.
pub open spec fn producer_inputs_valid(
    settings: ProducerSettings,
    state: ProducerState,
    event: ProducerEvent,
) -> bool {
    &&& settings.batching.batch_size > 0
    &&& settings.adaptive ==> event != ProducerEvent::Measured(Some(0))
    &&& batching_of(state).is_some() ==> batching_of(state).unwrap().batch_size > 0
}

/// The step that sends the batch `index`, or ends the producer.
fn send_or_stop(total: u64, batching: BatchingOptions, index: u64) -> (step: ProducerStep)
    requires
        batching.batch_size > 0,
    ensures
        step == send_or_stop_spec(total, batching, index),
{
    match batch_at(total, batching.batch_size, index) {
        Some(page) => ProducerStep {
            state: ProducerState::Sending { total, batching, index },
            action: ProducerAction::SendTask {
                page,
                cursor_batch_size: batching.cursor_batch_size,
            },
            progress: ProgressUpdate::Unchanged,
        },
        None => ProducerStep {
            state: ProducerState::Finished(ProducerOutcome::Completed),
            action: ProducerAction::Stop,
            progress: ProgressUpdate::Unchanged,
        },
    }
}

/// The state in which a producer begins.
pub fn producer_start() -> (state: ProducerState)
    ensures
        state == ProducerState::Created,
{
    ProducerState::Created
}

/// Decides what a producer does next: the action to perform, what to do to
/// the progress bar, and the state in which the outcome is awaited. `None`
/// where the event cannot happen in the state; the producer then stays
/// where it is.
pub fn producer_step(settings: &ProducerSettings, state: ProducerState, event: ProducerEvent) -> (step:
    Option<ProducerStep>)
    requires
        producer_inputs_valid(*settings, state, event),
    ensures
        step == producer_step_spec(*settings, state, event),
{
    match state {
        ProducerState::Created => match event {
            ProducerEvent::Started => Some(
                ProducerStep {
                    state: ProducerState::Counting,
                    action: ProducerAction::CountRecords,
                    progress: ProgressUpdate::Unchanged,
                },
            ),
            _ => None,
        },
        ProducerState::Counting => match event {
            ProducerEvent::Counted(counted) => match counted {
                None => Some(
                    ProducerStep {
                        state: ProducerState::Finished(ProducerOutcome::Skipped),
                        action: ProducerAction::Stop,
                        progress: ProgressUpdate::FinishSkipped,
                    },
                ),
                Some(total) => if total == 0 {
                    Some(
                        ProducerStep {
                            state: ProducerState::Finished(ProducerOutcome::Empty),
                            action: ProducerAction::Stop,
                            progress: ProgressUpdate::FinishEmpty,
                        },
                    )
                } else if settings.adaptive {
                    Some(
                        ProducerStep {
                            state: ProducerState::Measuring { total },
                            action: ProducerAction::MeasureAverageSize,
                            progress: ProgressUpdate::SetLength(total),
                        },
                    )
                } else {
                    Some(
                        ProducerStep {
                            state: ProducerState::CopyingIndexes {
                                total,
                                batching: settings.batching,
                            },
                            action: ProducerAction::CopyIndexes,
                            progress: ProgressUpdate::SetLength(total),
                        },
                    )
                },
            },
            _ => None,
        },
        ProducerState::Measuring { total } => match event {
            ProducerEvent::Measured(measured) => {
                let batching = match measured {
                    Some(average) => if settings.adaptive {
                        setup_adaptive_batching(average, settings.target_batch_bytes)
                    } else {
                        settings.batching
                    },
                    None => settings.batching,
                };
                Some(
                    ProducerStep {
                        state: ProducerState::CopyingIndexes { total, batching },
                        action: ProducerAction::CopyIndexes,
                        progress: ProgressUpdate::Unchanged,
                    },
                )
            },
            _ => None,
        },
        ProducerState::CopyingIndexes { total, batching } => match event {
            ProducerEvent::IndexesCopied => Some(send_or_stop(total, batching, 0)),
            _ => None,
        },
        ProducerState::Sending { total, batching, index } => match event {
            ProducerEvent::TaskSent(sent) => if !sent {
                Some(
                    ProducerStep {
                        state: ProducerState::Finished(ProducerOutcome::DispatchClosed),
                        action: ProducerAction::Stop,
                        progress: ProgressUpdate::Unchanged,
                    },
                )
            } else if index == u64::MAX {
                None
            } else {
                Some(send_or_stop(total, batching, index + 1))
            },
            _ => None,
        },
        ProducerState::Finished(_) => None,
    }
}

/// Every batch size that a producer works with holds at least one record,
/// so that each step leads to a state from which the next can be taken.
pub proof fn lemma_producer_keeps_batches_valid(
    settings: ProducerSettings,
    state: ProducerState,
    event: ProducerEvent,
)
    requires
        producer_inputs_valid(settings, state, event),
        producer_step_spec(settings, state, event).is_some(),
    ensures
        batching_of(producer_step_spec(settings, state, event).unwrap().state).is_some()
            ==> batching_of(
            producer_step_spec(settings, state, event).unwrap().state,
        ).unwrap().batch_size > 0,
{
}

/// The batches go out in the order of the plan: the first task that a
/// producer sends is for the first page of the plan, and the task that
/// follows a task that went into the channel is for the next page. After
/// the last page the producer ends; it ends early only when the channel is
/// closed.
pub proof fn lemma_producer_follows_plan(
    settings: ProducerSettings,
    total: u64,
    batching: BatchingOptions,
    index: u64,
)
    requires
        batching.batch_size > 0,
    ensures
        ({
            let plan = plan_spec(total as int, batching.batch_size as int);
            let first = producer_step_spec(
                settings,
                ProducerState::CopyingIndexes { total, batching },
                ProducerEvent::IndexesCopied,
            ).unwrap();
            let next = producer_step_spec(
                settings,
                ProducerState::Sending { total, batching, index },
                ProducerEvent::TaskSent(true),
            );
            let closed = producer_step_spec(
                settings,
                ProducerState::Sending { total, batching, index },
                ProducerEvent::TaskSent(false),
            ).unwrap();
            &&& plan.len() > 0 ==> first.action == (ProducerAction::SendTask {
                page: plan[0],
                cursor_batch_size: batching.cursor_batch_size,
            }) && first.state == (ProducerState::Sending { total, batching, index: 0 })
            &&& plan.len() == 0 ==> first.action == ProducerAction::Stop
            &&& index + 1 < plan.len() ==> next.unwrap().action == (ProducerAction::SendTask {
                page: plan[index + 1],
                cursor_batch_size: batching.cursor_batch_size,
            }) && next.unwrap().state == (ProducerState::Sending {
                total,
                batching,
                index: (index + 1) as u64,
            })
            &&& index + 1 == plan.len() ==> next.unwrap().action == ProducerAction::Stop
                && next.unwrap().state == ProducerState::Finished(ProducerOutcome::Completed)
            &&& closed.action == ProducerAction::Stop && closed.state == ProducerState::Finished(
                ProducerOutcome::DispatchClosed,
            )
        }),
{
    lemma_batch_count_bounds(
        total as int,
        batching.batch_size as int,
    );
}

/// The producer of an entity of typed records.
#[derive(Debug, Clone)]
pub struct ModelProcessor {
    pub config: ProcessorConfig,
    pub collection_name: String,
}

impl ModelProcessor {
    pub fn new(collection_name: String, config: ProcessorConfig) -> (processor: ModelProcessor)
        ensures
            processor.collection_name == collection_name,
            processor.config == config,
    {
        ModelProcessor { config, collection_name }
    }

    /// The stable name of the entity.
    pub fn collection_name(&self) -> (name: &str)
        ensures
            name@ == self.collection_name@,
    {
        self.collection_name.as_str()
    }

    /// The settings with which the producer runs under the run's settings.
    pub fn settings(&self, defaults: &ReplicationConfig) -> (settings: ProducerSettings)
        ensures
            settings == resolve_settings_spec(
                self.config.batch_size,
                self.config.cursor_batch_size,
                self.config.target_batch_bytes,
                self.config.adaptive_batching,
                *defaults,
            ),
    {
        resolve_settings(
            self.config.batch_size,
            self.config.cursor_batch_size,
            self.config.target_batch_bytes,
            self.config.adaptive_batching,
            defaults,
        )
    }

    /// Builds the task for one page of the entity: it reads the page under
    /// the entity's query and writes with the run's strategy and settings.
    pub fn task_for(
        &self,
        defaults: &ReplicationConfig,
        page: PaginationOptions,
        cursor_batch_size: u64,
    ) -> (task: ModelTask)
        ensures
            task.collection_name@ == self.collection_name@,
            task.strategy == defaults.strategy,
            task.config.query == self.config.query,
            task.config.write_options == defaults.write_options,
            task.config.read_options@ == batch_read_options_spec(
                defaults.read_options@,
                page,
                cursor_batch_size,
            ),
            defaults.read_options.sort.is_some() ==> task.config.read_options.sort
                == defaults.read_options.sort,
    {
        ModelTask::new(
            self.collection_name.clone(),
            TaskConfig {
                query: self.config.query.clone(),
                read_options: batch_read_options(&defaults.read_options, page, cursor_batch_size),
                write_options: defaults.write_options,
            },
            defaults.strategy,
        )
    }
}

/// The producer of an entity of plain documents.
#[derive(Debug, Clone)]
pub struct ReplicatorProcessor {
    pub config: ReplicatorConfig,
    pub collection_name: String,
}

impl ReplicatorProcessor {
    pub fn new(config: ReplicatorConfig, collection_name: String) -> (processor:
        ReplicatorProcessor)
        ensures
            processor.collection_name == collection_name,
            processor.config == config,
    {
        ReplicatorProcessor { config, collection_name }
    }

    /// The stable name of the entity.
    pub fn collection_name(&self) -> (name: &str)
        ensures
            name@ == self.collection_name@,
    {
        self.collection_name.as_str()
    }

    /// The settings with which the producer runs under the run's settings.
    pub fn settings(&self, defaults: &ReplicationConfig) -> (settings: ProducerSettings)
        ensures
            settings == resolve_settings_spec(
                self.config.batch_size,
                self.config.cursor_batch_size,
                self.config.target_batch_bytes,
                self.config.adaptive_batching,
                *defaults,
            ),
    {
        resolve_settings(
            self.config.batch_size,
            self.config.cursor_batch_size,
            self.config.target_batch_bytes,
            self.config.adaptive_batching,
            defaults,
        )
    }

    /// Builds the task for one page of the entity.
    pub fn task_for(
        &self,
        defaults: &ReplicationConfig,
        page: PaginationOptions,
        cursor_batch_size: u64,
    ) -> (task: ReplicatorTask)
        ensures
            task.collection_name@ == self.collection_name@,
            task.masked == self.config.masked,
            task.config.query == self.config.query,
            task.config.write_options == defaults.write_options,
            task.config.read_options@ == batch_read_options_spec(
                defaults.read_options@,
                page,
                cursor_batch_size,
            ),
            defaults.read_options.sort.is_some() ==> task.config.read_options.sort
                == defaults.read_options.sort,
    {
        ReplicatorTask::new(
            self.collection_name.clone(),
            TaskConfig {
                query: self.config.query.clone(),
                read_options: batch_read_options(&defaults.read_options, page, cursor_batch_size),
                write_options: defaults.write_options,
            },
            self.config.masked,
        )
    }
}

/// A producer of either kind.
#[derive(Debug, Clone)]
pub enum Processor {
    Model(ModelProcessor),
    Replicator(ReplicatorProcessor),
}

impl Processor {
    /// The name of the entity, whatever the kind of the producer.
    pub open spec fn name_spec(self) -> Seq<char> {
        match self {
            Processor::Model(processor) => processor.collection_name@,
            Processor::Replicator(processor) => processor.collection_name@,
        }
    }

    /// The stable name of the entity.
    pub fn collection_name(&self) -> (name: &str)
        ensures
            name@ == self.name_spec(),
    {
        match self {
            Processor::Model(processor) => processor.collection_name(),
            Processor::Replicator(processor) => processor.collection_name(),
        }
    }

    /// The settings with which the producer runs under the run's settings.
    pub fn settings(&self, defaults: &ReplicationConfig) -> (settings: ProducerSettings)
        ensures
            settings == match *self {
                Processor::Model(processor) => resolve_settings_spec(
                    processor.config.batch_size,
                    processor.config.cursor_batch_size,
                    processor.config.target_batch_bytes,
                    processor.config.adaptive_batching,
                    *defaults,
                ),
                Processor::Replicator(processor) => resolve_settings_spec(
                    processor.config.batch_size,
                    processor.config.cursor_batch_size,
                    processor.config.target_batch_bytes,
                    processor.config.adaptive_batching,
                    *defaults,
                ),
            },
    {
        match self {
            Processor::Model(processor) => processor.settings(defaults),
            Processor::Replicator(processor) => processor.settings(defaults),
        }
    }
}

/// What a producer has done by its end.
#[derive(Debug, Clone, PartialEq, Eq)]
pub struct ProducerRun {
    /// The pages of the tasks that went into the channel, in their order.
    pub sent: Vec<PaginationOptions>,
    pub outcome: ProducerOutcome,
}

/// The sizes with which a producer cuts its entity: those that adaptive
/// batching finds where it is on and the source can tell the average size
/// of a record, and the producer's own otherwise.
pub open spec fn run_batching_spec(settings: ProducerSettings, measured: Option<u64>)
    -> BatchingOptions {
    if settings.adaptive && measured.is_some() {
        adapted_batching_spec(measured.unwrap(), settings.target_batch_bytes)
    } else {
        settings.batching
    }
}

/// The pages that a producer sends for an entity of `total` records when
/// the channel takes `accepted` tasks before it closes: the pages of the
/// plan, in their order, as far as the channel takes them.
pub open spec fn sent_pages_spec(
    settings: ProducerSettings,
    total: u64,
    measured: Option<u64>,
    accepted: u64,
) -> Seq<PaginationOptions> {
    let plan = plan_spec(total as int, run_batching_spec(settings, measured).batch_size as int);
    if accepted >= plan.len() {
        plan
    } else {
        plan.take(accepted as int)
    }
}

/// How a producer ends: skipped where the count fails, empty where there
/// is no record, closed where the channel takes fewer tasks than the plan
/// has pages, and completed otherwise.
pub open spec fn run_outcome_spec(
    settings: ProducerSettings,
    counted: Option<u64>,
    measured: Option<u64>,
    accepted: u64,
) -> ProducerOutcome {
    match counted {
        None => ProducerOutcome::Skipped,
        Some(total) => if total == 0 {
            ProducerOutcome::Empty
        } else if accepted >= plan_spec(
            total as int,
            run_batching_spec(settings, measured).batch_size as int,
        ).len() {
            ProducerOutcome::Completed
        } else {
            ProducerOutcome::DispatchClosed
        },
    }
}

/// Takes a producer from its start to its end, step by step: `counted` is
/// the number of records of the entity, or `None` for a count that fails;
/// `measured` is the average size of a record, or `None` where the source
/// cannot tell; and the channel takes `accepted` tasks before it closes.
pub fn run_producer(
    settings: &ProducerSettings,
    counted: Option<u64>,
    measured: Option<u64>,
    accepted: u64,
) -> (run: ProducerRun)
    requires
        settings.batching.batch_size > 0,
        settings.adaptive ==> measured != Some(0u64),
    ensures
        run.outcome == run_outcome_spec(*settings, counted, measured, accepted),
        run.sent@ == match counted {
            Some(total) => sent_pages_spec(*settings, total, measured, accepted),
            None => Seq::empty(),
        },
{
    let ghost batching = run_batching_spec(*settings, measured);
    let ghost total: u64 = match counted {
        Some(total) => total,
        None => 0,
    };
    let ghost plan = plan_spec(total as int, batching.batch_size as int);
    proof {
        lemma_batch_count_bounds(
            total as int,
            batching.batch_size as int,
        );
    }
    let started = producer_step(settings, producer_start(), ProducerEvent::Started).unwrap();
    let mut step = producer_step(settings, started.state, ProducerEvent::Counted(counted)).unwrap();
    match step.state {
        ProducerState::Measuring { total: _ } => {
            step = producer_step(settings, step.state, ProducerEvent::Measured(measured)).unwrap();
        },
        _ => {},
    }
    match step.state {
        ProducerState::CopyingIndexes { total: _, batching: _ } => {
            step = producer_step(settings, step.state, ProducerEvent::IndexesCopied).unwrap();
        },
        _ => {},
    }
    let mut sent: Vec<PaginationOptions> = Vec::new();
    loop
        invariant
            settings.batching.batch_size > 0,
            settings.adaptive ==> measured != Some(0u64),
            batching == run_batching_spec(*settings, measured),
            batching.batch_size > 0,
            total == match counted {
                Some(total) => total,
                None => 0,
            },
            plan == plan_spec(total as int, batching.batch_size as int),
            plan.len() == batch_count_spec(total as int, batching.batch_size as int),
            plan.len() <= u64::MAX,
            total == 0 <==> plan.len() == 0,
            match step.state {
                ProducerState::Sending { total: of, batching: with, index } => {
                    &&& counted.is_some()
                    &&& of == total
                    &&& with == batching
                    &&& index < plan.len()
                    &&& index <= accepted
                    &&& sent@ == plan.take(index as int)
                    &&& step.action == (ProducerAction::SendTask {
                        page: plan[index as int],
                        cursor_batch_size: batching.cursor_batch_size,
                    })
                },
                ProducerState::Finished(outcome) => {
                    &&& outcome == run_outcome_spec(*settings, counted, measured, accepted)
                    &&& sent@ == match counted {
                        Some(total) => sent_pages_spec(*settings, total, measured, accepted),
                        None => Seq::empty(),
                    }
                },
                _ => false,
            },
        decreases
            (match step.state {
                ProducerState::Sending { total: _, batching: _, index } => plan.len() - index + 1,
                _ => 0,
            }),
    {
        match step.state {
            ProducerState::Sending { total: _, batching: _, index } => {
                let room = index < accepted;
                if room {
                    match step.action {
                        ProducerAction::SendTask { page, cursor_batch_size: _ } => {
                            sent.push(page);
                        },
                        _ => {},
                    }
                    assert(sent@ =~= plan.take(index + 1));
                }
                step = producer_step(settings, step.state, ProducerEvent::TaskSent(room)).unwrap();
                proof {
                    if room && index + 1 == plan.len() {
                        assert(plan.take(index + 1) =~= plan);
                    }
                    if room && index + 1 < plan.len() {
                        assert(plan[index + 1] == batch_at_spec(
                            total as int,
                            batching.batch_size as int,
                            index + 1,
                        ));
                    }
                }
            },
            ProducerState::Finished(outcome) => {
                return ProducerRun { sent, outcome };
            },
            _ => {
                return ProducerRun { sent, outcome: ProducerOutcome::Skipped };
            },
        }
    }
}

impl ModelProcessor {
    /// The course of the producer from its start to its end, under the
    /// settings of the run and with the given outcomes of its count, of
    /// its measurement and of its sends.
    pub fn run(
        &self,
        defaults: &ReplicationConfig,
        counted: Option<u64>,
        measured: Option<u64>,
        accepted: u64,
    ) -> (run: ProducerRun)
        requires
            resolve_settings_spec(
                self.config.batch_size,
                self.config.cursor_batch_size,
                self.config.target_batch_bytes,
                self.config.adaptive_batching,
                *defaults,
            ).batching.batch_size > 0,
            resolve_settings_spec(
                self.config.batch_size,
                self.config.cursor_batch_size,
                self.config.target_batch_bytes,
                self.config.adaptive_batching,
                *defaults,
            ).adaptive ==> measured != Some(0u64),
        ensures
            run.outcome == run_outcome_spec(
                resolve_settings_spec(
                    self.config.batch_size,
                    self.config.cursor_batch_size,
                    self.config.target_batch_bytes,
                    self.config.adaptive_batching,
                    *defaults,
                ),
                counted,
                measured,
                accepted,
            ),
            run.sent@ == match counted {
                Some(total) => sent_pages_spec(
                    resolve_settings_spec(
                        self.config.batch_size,
                        self.config.cursor_batch_size,
                        self.config.target_batch_bytes,
                        self.config.adaptive_batching,
                        *defaults,
                    ),
                    total,
                    measured,
                    accepted,
                ),
                None => Seq::empty(),
            },
    {
        let settings = self.settings(defaults);
        run_producer(&settings, counted, measured, accepted)
    }
}

impl ReplicatorProcessor {
    /// The course of the producer from its start to its end, under the
    /// settings of the run and with the given outcomes of its count, of
    /// its measurement and of its sends.
    pub fn run(
        &self,
        defaults: &ReplicationConfig,
        counted: Option<u64>,
        measured: Option<u64>,
        accepted: u64,
    ) -> (run: ProducerRun)
        requires
            resolve_settings_spec(
                self.config.batch_size,
                self.config.cursor_batch_size,
                self.config.target_batch_bytes,
                self.config.adaptive_batching,
                *defaults,
            ).batching.batch_size > 0,
            resolve_settings_spec(
                self.config.batch_size,
                self.config.cursor_batch_size,
                self.config.target_batch_bytes,
                self.config.adaptive_batching,
                *defaults,
            ).adaptive ==> measured != Some(0u64),
        ensures
            run.outcome == run_outcome_spec(
                resolve_settings_spec(
                    self.config.batch_size,
                    self.config.cursor_batch_size,
                    self.config.target_batch_bytes,
                    self.config.adaptive_batching,
                    *defaults,
                ),
                counted,
                measured,
                accepted,
            ),
            run.sent@ == match counted {
                Some(total) => sent_pages_spec(
                    resolve_settings_spec(
                        self.config.batch_size,
                        self.config.cursor_batch_size,
                        self.config.target_batch_bytes,
                        self.config.adaptive_batching,
                        *defaults,
                    ),
                    total,
                    measured,
                    accepted,
                ),
                None => Seq::empty(),
            },
    {
        let settings = self.settings(defaults);
        run_producer(&settings, counted, measured, accepted)
    }
}

} // verus!
