//! The task: the unit of work that a worker runs for one batch. It reads
//! the batch, applies the strategy to it, writes it, and advances the
//! entity's progress by what it wrote.
//!
//! What a task does next depends only on where it stands and on what has
//! just happened: `task_step` is that function.
use crate::database::mongodb::document::{
    document_insert, document_new, upsert_key, NativeKeyView, NativeValue, NativeValueView,
};
use crate::database::mongodb::options::{FindOptions, FindOptionsView, InsertManyOptions};
use crate::database::pagination::PaginationOptions;
use crate::replication::types::ReplicationStrategy;
use vstd::prelude::*;

verus! {

/// What a task reads and how it writes.
#[derive(Debug, Clone)]
pub struct TaskConfig {
    /// The filter on the entity's records.
    pub query: bson::Document,
    /// The settings of the read, with the page of the batch.
    pub read_options: FindOptions,
    /// The settings of the write.
    pub write_options: InsertManyOptions,
}

/// The order of a read that has none of its own: by the primary key,
/// ascending.
pub open spec fn stable_sort_spec() -> Seq<NativeKeyView> {
    upsert_key(Seq::empty(), "_id"@, NativeValueView::Int32(1))
}

/// The limit of a read for a page, as the store's setting holds it: the
/// number itself, taken as a signed number of the same width.
pub open spec fn limit_setting_spec(limit: u64) -> i64 {
    if limit <= i64::MAX {
        limit as i64
    } else {
        (limit - 0x1_0000_0000_0000_0000) as i64
    }
}

/// The cursor batch size, as the store's setting holds it: its low 32 bits.
pub open spec fn cursor_setting_spec(cursor_batch_size: u64) -> u32 {
    (cursor_batch_size % 0x1_0000_0000) as u32
}

/// The read settings of the task for a page: the run's own, with a stable
/// order where they have none, and with the page and the cursor batch size
/// put in.
pub open spec fn batch_read_options_spec(
    defaults: FindOptionsView,
    page: PaginationOptions,
    cursor_batch_size: u64,
) -> FindOptionsView {
    FindOptionsView {
        sort: match defaults.sort {
            Some(order) => Some(order),
            None => Some(stable_sort_spec()),
        },
        skip: Some(page.start_position),
        limit: Some(limit_setting_spec(page.limit)),
        batch_size: Some(cursor_setting_spec(cursor_batch_size)),
    }
}

/// The limit of a page as the store's setting holds it.
pub fn limit_setting(limit: u64) -> (setting: i64)
    ensures
        setting == limit_setting_spec(limit),
{
    if limit <= 0x7fff_ffff_ffff_ffff {
        limit as i64
    } else {
        let above: u64 = limit - 0x8000_0000_0000_0000;
        (above as i64) + i64::MIN
    }
}

/// The cursor batch size as the store's setting holds it.
pub fn cursor_setting(cursor_batch_size: u64) -> (setting: u32)
    ensures
        setting == cursor_setting_spec(cursor_batch_size),
{
    (cursor_batch_size % 0x1_0000_0000) as u32
}

/// Builds the read settings of the task for a page. Reads by skip and
/// limit need one fixed order of the records, or batches read at the same
/// time may repeat or miss records: where the run's settings name no
/// order, the records are ordered by the primary key, ascending.
pub fn batch_read_options(defaults: &FindOptions, page: PaginationOptions, cursor_batch_size: u64)
    -> (options: FindOptions)
    ensures
        options@ == batch_read_options_spec(defaults@, page, cursor_batch_size),
        defaults.sort.is_some() ==> options.sort == defaults.sort,
{
    let sort = match &defaults.sort {
        Some(order) => order.clone(),
        None => {
            let mut order = document_new();
            document_insert(&mut order, "_id".to_owned(), NativeValue::Int32(1));
            order
        },
    };
    FindOptions {
        sort: Some(sort),
        skip: Some(page.start_position),
        limit: Some(limit_setting(page.limit)),
        batch_size: Some(cursor_setting(cursor_batch_size)),
    }
}

/// The page that the read settings of a task name, where they name one.
pub open spec fn page_of_options(options: FindOptionsView)
    -> Option<PaginationOptions> {
    if options.skip.is_some() && options.limit.is_some() && options.limit.unwrap() >= 0 {
        Some(
            PaginationOptions {
                start_position: options.skip.unwrap(),
                limit: options.limit.unwrap() as u64,
            },
        )
    } else {
        None
    }
}

/// The task of a batch of typed records.
#[derive(Debug, Clone)]
pub struct ModelTask {
    pub collection_name: String,
    pub config: TaskConfig,
    pub strategy: ReplicationStrategy,
}

impl ModelTask {
    pub fn new(collection_name: String, config: TaskConfig, strategy: ReplicationStrategy) -> (task:
        ModelTask)
        ensures
            task.collection_name == collection_name,
            task.config == config,
            task.strategy == strategy,
    {
        ModelTask { collection_name, config, strategy }
    }

    /// Decides what the task does next.
    pub fn step(&self, state: TaskState, event: TaskEvent) -> (step: Option<TaskStep>)
        ensures
            step == task_step_spec(self.strategy == ReplicationStrategy::Mask, state, event),
    {
        task_step(self.strategy.masks(), state, event)
    }

    /// The course of the task from its start to its end, by what its read
    /// and its write come to: `read` is the number of records read, or
    /// `None` for a read that fails, and `written` says whether the write
    /// succeeds.
    pub fn run(&self, read: Option<usize>, written: bool) -> (outcome: TaskOutcome)
        ensures
            outcome == task_outcome_spec(read, written),
    {
        run_task(self.strategy.masks(), read, written)
    }
}

/// The task of a batch of plain documents.
#[derive(Debug, Clone)]
pub struct ReplicatorTask {
    pub collection_name: String,
    pub config: TaskConfig,
    /// Whether the documents are masked on their way.
    pub masked: bool,
}

impl ReplicatorTask {
    pub fn new(collection_name: String, config: TaskConfig, masked: bool) -> (task: ReplicatorTask)
        ensures
            task.collection_name == collection_name,
            task.config == config,
            task.masked == masked,
    {
        ReplicatorTask { collection_name, config, masked }
    }

    /// Decides what the task does next.
    pub fn step(&self, state: TaskState, event: TaskEvent) -> (step: Option<TaskStep>)
        ensures
            step == task_step_spec(self.masked, state, event),
    {
        task_step(self.masked, state, event)
    }

    /// The course of the task from its start to its end, by what its read
    /// and its write come to.
    pub fn run(&self, read: Option<usize>, written: bool) -> (outcome: TaskOutcome)
        ensures
            outcome == task_outcome_spec(read, written),
    {
        run_task(self.masked, read, written)
    }

    /// What the task writes of the documents that it has read: where it
    /// masks, what the masking makes of each document, and else the
    /// documents themselves; in both cases one for each document read, in
    /// the order of the read.
    pub fn mask_documents<F: Fn(bson::Document) -> bson::Document>(
        &self,
        documents: Vec<bson::Document>,
        masking: &F,
    ) -> (written: Vec<bson::Document>)
        requires
            forall|document: bson::Document| call_requires(masking, (document,)),
        ensures
            documents_written(self.masked, documents@, masking, written@),
    {
        mask_documents(self.masked, documents, masking)
    }
}

/// Whether `written` is what a task writes of the documents read: as many
/// documents in the same order, each what the masking makes of the document
/// in its place where the task masks, and the document itself where it
/// does not.
pub open spec fn documents_written<F: Fn(bson::Document) -> bson::Document>(
    masked: bool,
    documents: Seq<bson::Document>,
    masking: &F,
    written: Seq<bson::Document>,
) -> bool {
    &&& written.len() == documents.len()
    &&& !masked ==> written == documents
    &&& masked ==> forall|i: int|
        0 <= i < written.len() ==> call_ensures(masking, (documents[i],), #[trigger] written[i])
}

/// Puts each document of a batch through the masking, once and in the
/// order of the batch, where the task masks; hands the batch on as it is
/// where it does not.
pub fn mask_documents<F: Fn(bson::Document) -> bson::Document>(
    masked: bool,
    documents: Vec<bson::Document>,
    masking: &F,
) -> (written: Vec<bson::Document>)
    requires
        forall|document: bson::Document| call_requires(masking, (document,)),
    ensures
        documents_written(masked, documents@, masking, written@),
{
    if !masked {
        return documents;
    }
    let mut written: Vec<bson::Document> = Vec::new();
    let mut position: usize = 0;
    while position < documents.len()
        invariant
            position <= documents@.len(),
            written@.len() == position,
            forall|document: bson::Document| call_requires(masking, (document,)),
            forall|i: int|
                0 <= i < position ==> call_ensures(
                    masking,
                    (documents@[i],),
                    #[trigger] written@[i],
                ),
        decreases documents.len() - position,
    {
        let document = documents[position].clone();
        written.push(masking(document));
        position = position + 1;
    }
    written
}

/// How a task ended.
#[derive(Debug, Clone, Copy, PartialEq, Eq, Structural)]
pub enum TaskOutcome {
    /// The read failed: the batch is lost.
    ReadFailed,
    /// The read returned no record: nothing was written.
    Empty,
    /// The write failed: the batch is lost.
    WriteFailed,
    /// This many records were written.
    Written(usize),
}

/// Where a task stands.
#[derive(Debug, Clone, Copy, PartialEq, Eq, Structural)]
pub enum TaskState {
    /// The task has not begun.
    Created,
    /// The batch is being read.
    Reading,
    /// The `records` records of the batch are being written.
    Writing { records: usize },
    /// The task has ended.
    Finished(TaskOutcome),
}

/// What has just happened.
#[derive(Debug, Clone, Copy, PartialEq, Eq, Structural)]
pub enum TaskEvent {
    /// The task was asked to run.
    Started,
    /// The batch was read, this many records; `None` where the read
    /// failed. A record that cannot be decoded is logged and left out, and
    /// does not count.
    ChunkRead(Option<usize>),
    /// The batch was written, or the write failed.
    ChunkWritten(bool),
}

/// What the caller does next.
#[derive(Debug, Clone, Copy, PartialEq, Eq, Structural)]
pub enum TaskAction {
    /// Read the batch.
    ReadChunk,
    /// Write the batch; where `mask` is set, mask each record first.
    WriteChunk { mask: bool, records: usize },
    /// Advance the progress of the entity by the records written, and
    /// end.
    AdvanceProgress { records: usize },
    /// Log why the batch is lost or empty, and end.
    GiveUp,
}

/// A step of a task.
#[derive(Debug, Clone, Copy, PartialEq, Eq, Structural)]
pub struct TaskStep {
    pub state: TaskState,
    pub action: TaskAction,
}

/// The step that an event leads to from a state, or `None` where the event
/// cannot happen in that state.
pub open spec fn task_step_spec(mask: bool, state: TaskState, event: TaskEvent) -> Option<
    TaskStep,
> {
    match (state, event) {
        (TaskState::Created, TaskEvent::Started) => Some(
            TaskStep { state: TaskState::Reading, action: TaskAction::ReadChunk },
        ),
        (TaskState::Reading, TaskEvent::ChunkRead(read)) => Some(
            match read {
                None => TaskStep {
                    state: TaskState::Finished(TaskOutcome::ReadFailed),
                    action: TaskAction::GiveUp,
                },
                Some(records) => if records == 0 {
                    TaskStep {
                        state: TaskState::Finished(TaskOutcome::Empty),
                        action: TaskAction::GiveUp,
                    }
                } else {
                    TaskStep {
                        state: TaskState::Writing { records },
                        action: TaskAction::WriteChunk { mask, records },
                    }
                },
            },
        ),
        (TaskState::Writing { records }, TaskEvent::ChunkWritten(written)) => Some(
            if written {
                TaskStep {
                    state: TaskState::Finished(TaskOutcome::Written(records)),
                    action: TaskAction::AdvanceProgress { records },
                }
            } else {
                TaskStep {
                    state: TaskState::Finished(TaskOutcome::WriteFailed),
                    action: TaskAction::GiveUp,
                }
            },
        ),
        _ => None,
    }
}

/// The state in which a task begins.
pub fn task_start() -> (state: TaskState)
    ensures
        state == TaskState::Created,
{
    TaskState::Created
}

/// Decides what a task does next: the action to perform and the state in
/// which its outcome is awaited. `None` where the event cannot happen in
/// the state; the task then stays where it is.
pub fn task_step(mask: bool, state: TaskState, event: TaskEvent) -> (step: Option<TaskStep>)
    ensures
        step == task_step_spec(mask, state, event),
{
    match state {
        TaskState::Created => match event {
            TaskEvent::Started => Some(
                TaskStep { state: TaskState::Reading, action: TaskAction::ReadChunk },
            ),
            _ => None,
        },
        TaskState::Reading => match event {
            TaskEvent::ChunkRead(read) => match read {
                None => Some(
                    TaskStep {
                        state: TaskState::Finished(TaskOutcome::ReadFailed),
                        action: TaskAction::GiveUp,
                    },
                ),
                Some(records) => if records == 0 {
                    Some(
                        TaskStep {
                            state: TaskState::Finished(TaskOutcome::Empty),
                            action: TaskAction::GiveUp,
                        },
                    )
                } else {
                    Some(
                        TaskStep {
                            state: TaskState::Writing { records },
                            action: TaskAction::WriteChunk { mask, records },
                        },
                    )
                },
            },
            _ => None,
        },
        TaskState::Writing { records } => match event {
            TaskEvent::ChunkWritten(written) => if written {
                Some(
                    TaskStep {
                        state: TaskState::Finished(TaskOutcome::Written(records)),
                        action: TaskAction::AdvanceProgress { records },
                    },
                )
            } else {
                Some(
                    TaskStep {
                        state: TaskState::Finished(TaskOutcome::WriteFailed),
                        action: TaskAction::GiveUp,
                    },
                )
            },
            _ => None,
        },
        TaskState::Finished(_) => None,
    }
}

/// The records by which the progress of the entity advances when a task
/// has ended in this way.
pub open spec fn progress_of(outcome: TaskOutcome) -> int {
    match outcome {
        TaskOutcome::Written(records) => records as int,
        _ => 0,
    }
}

/// Progress counts what was written: a task advances the progress only as
/// the step that follows a write that succeeded, and then by exactly the
/// records that were read and written. Nothing is written for a batch that
/// could not be read or holds no record, and records are masked exactly
/// when the task is one that masks.
pub proof fn lemma_task_progress(mask: bool, state: TaskState, event: TaskEvent)
    requires
        task_step_spec(mask, state, event).is_some(),
    ensures
        task_step_spec(mask, state, event).unwrap().action is AdvanceProgress <==> state
            is Writing && event == TaskEvent::ChunkWritten(true),
        forall|records: usize|
            task_step_spec(mask, state, event).unwrap().action == (TaskAction::AdvanceProgress {
                records,
            }) ==> state == (TaskState::Writing { records }),
        task_step_spec(mask, state, event).unwrap().action is WriteChunk <==> state
            == TaskState::Reading && event is ChunkRead && event->ChunkRead_0.is_some()
            && event->ChunkRead_0.unwrap() > 0,
        forall|masked: bool, records: usize|
            task_step_spec(mask, state, event).unwrap().action == (TaskAction::WriteChunk {
                mask: masked,
                records,
            }) ==> masked == mask && event == TaskEvent::ChunkRead(Some(records)),
{
}

/// How a task ends, by what its read and its write come to: a read that
/// fails or returns nothing ends it without a write, and what was read is
/// what is written.
pub open spec fn task_outcome_spec(read: Option<usize>, written: bool) -> TaskOutcome {
    match read {
        None => TaskOutcome::ReadFailed,
        Some(records) => if records == 0 {
            TaskOutcome::Empty
        } else if written {
            TaskOutcome::Written(records)
        } else {
            TaskOutcome::WriteFailed
        },
    }
}

/// Takes a task from its start to its end, step by step, with the given
/// outcomes of its read and of its write.
pub fn run_task(mask: bool, read: Option<usize>, written: bool) -> (outcome: TaskOutcome)
    ensures
        outcome == task_outcome_spec(read, written),
        progress_of(outcome) == if read.is_some() && written {
            read.unwrap() as int
        } else {
            0
        },
{
    let started = task_step(mask, task_start(), TaskEvent::Started).unwrap();
    let after_read = task_step(mask, started.state, TaskEvent::ChunkRead(read)).unwrap();
    match after_read.state {
        TaskState::Finished(outcome) => outcome,
        _ => {
            let after_write = task_step(
                mask,
                after_read.state,
                TaskEvent::ChunkWritten(written),
            ).unwrap();
            match after_write.state {
                TaskState::Finished(outcome) => outcome,
                _ => TaskOutcome::WriteFailed,
            }
        },
    }
}

/// The read settings of a task name the page that they were built for, as
/// long as the limit of the page fits the store's setting: to run the task
/// again is to read the same page again.
pub proof fn lemma_read_options_name_the_page(
    defaults: FindOptionsView,
    page: PaginationOptions,
    cursor_batch_size: u64,
)
    requires
        page.limit <= i64::MAX,
    ensures
        page_of_options(batch_read_options_spec(defaults, page, cursor_batch_size)) == Some(page),
        batch_read_options_spec(defaults, page, cursor_batch_size).sort.is_some(),
{
}

} // verus!
