//! Puts a replication run together: where it reads and writes, how many
//! workers it has, how it sizes its batches, and which entities it copies.
use crate::database::mongodb::options::{
    compressors_view, duplicate_compressors, ClientOptions, ClientOptionsView, Compressor,
    FindOptions, InsertManyOptions,
};
use crate::database::clearing::names_of;
use crate::database::mongodb::source_builder::name_view;
use crate::database::mongodb::{get_compressors, preferred_compressors};
use crate::error::{TuxedoError, TuxedoResult};
use crate::replication::manager::{
    available_threads, channel_capacity, channel_capacity_spec, default_config_spec,
    ReplicationConfig, ReplicationConfigView, ReplicationManager,
};
use crate::replication::processor::{
    ModelProcessor, Processor, ProcessorConfig, ReplicatorConfig, ReplicatorProcessor,
};
use crate::replication::types::ReplicationStrategy;
use crate::text::str_equal;
use vstd::prelude::*;

verus! {

/// The path of an address, or the complaint of the parser about an address
/// that it cannot read.
pub uninterp spec fn path_of_uri(uri: Seq<char>) -> Result<Seq<char>, Seq<char>>;

/// What the outcome of reading an address holds.
pub open spec fn path_view(path: Result<String, String>) -> Result<Seq<char>, Seq<char>> {
    match path {
        Ok(found) => Ok(found@),
        Err(complaint) => Err(complaint@),
    }
}

/// `url::Url::parse` and `url::Url::path`: reads an absolute address and
/// hands out its path, percent-encoded; or the parser's complaint, as
/// `url::ParseError` words it.
#[verifier::external_body]
fn uri_path(uri: &str) -> (path: Result<String, String>)
    ensures
        path_view(path) == path_of_uri(uri@),
{
    match url::Url::parse(uri) {
        Ok(address) => Ok(address.path().to_string()),
        Err(complaint) => Err(complaint.to_string()),
    }
}

/// The position of the first character at or after `from` that is not a
/// slash, or the length where there is none.
pub open spec fn slashes_end(path: Seq<char>, from: int) -> int
    decreases path.len() - from,
{
    if 0 <= from < path.len() && path[from] == '/' {
        slashes_end(path, from + 1)
    } else {
        from
    }
}

/// The position of the first question mark at or after `from`, or the
/// length where there is none.
pub open spec fn question_mark_at(path: Seq<char>, from: int) -> int
    decreases path.len() - from,
{
    if 0 <= from < path.len() && path[from] != '?' {
        question_mark_at(path, from + 1)
    } else {
        from
    }
}

/// The name of the database that the path of an address names: what
/// stands between the leading slashes and the first question mark, where
/// that is not empty.
pub open spec fn db_name_of_path(path: Seq<char>) -> Option<Seq<char>> {
    let start = slashes_end(path, 0);
    let end = question_mark_at(path, start);
    if path.len() == 0 || path == "/"@ || start == end {
        None
    } else {
        Some(path.subrange(start, end))
    }
}

/// The name under which a database is addressed: the one in the path of
/// the address where there is one, else the one given beside the address.
/// Without either, and for an address that cannot be read, the complaint.
pub open spec fn db_name_spec(path: Result<Seq<char>, Seq<char>>, given: Option<Seq<char>>)
    -> Result<Seq<char>, Seq<char>> {
    match path {
        Err(complaint) => Err(complaint),
        Ok(found) => match db_name_of_path(found) {
            Some(name) => Ok(name),
            None => match given {
                Some(name) => Ok(name),
                None => Err(
                    "Could not parse database name from URI and no database name provided."@,
                ),
            },
        },
    }
}

/// Whether the outcome is the name, or a configuration error with the
/// complaint, that `expected` describes.
pub open spec fn name_outcome_is(
    outcome: TuxedoResult<String>,
    expected: Result<Seq<char>, Seq<char>>,
) -> bool {
    match outcome {
        Ok(name) => expected == Ok::<Seq<char>, Seq<char>>(name@),
        Err(error) => error is ConfigError && expected == Err::<Seq<char>, Seq<char>>(
            error.message_spec(),
        ),
    }
}

proof fn lemma_slashes_end_bounds(path: Seq<char>, from: int)
    requires
        0 <= from <= path.len(),
    ensures
        from <= slashes_end(path, from) <= path.len(),
    decreases path.len() - from,
{
    if from < path.len() && path[from] == '/' {
        lemma_slashes_end_bounds(path, from + 1);
    }
}

proof fn lemma_question_mark_bounds(path: Seq<char>, from: int)
    requires
        0 <= from <= path.len(),
    ensures
        from <= question_mark_at(path, from) <= path.len(),
    decreases path.len() - from,
{
    if from < path.len() && path[from] != '?' {
        lemma_question_mark_bounds(path, from + 1);
    }
}

/// Reads the name of the database from the path of an address.
pub fn db_name_from_path(path: &str) -> (name: Option<String>)
    ensures
        name_view(name) == db_name_of_path(path@),
{
    let length = path.unicode_len();
    if length == 0 || str_equal(path, "/") {
        return None;
    }
    let mut start: usize = 0;
    while start < length && path.get_char(start) == '/'
        invariant
            length == path@.len(),
            start <= length,
            slashes_end(path@, 0) == slashes_end(path@, start as int),
        decreases length - start,
    {
        start = start + 1;
    }
    let mut end: usize = start;
    while end < length && path.get_char(end) != '?'
        invariant
            length == path@.len(),
            start <= end <= length,
            question_mark_at(path@, start as int) == question_mark_at(path@, end as int),
        decreases length - end,
    {
        end = end + 1;
    }
    if start == end {
        None
    } else {
        let name = path.substring_char(start, end);
        Some(name.to_owned())
    }
}

/// A store to connect to.
#[derive(Debug, Clone)]
pub struct ConnectionPlan {
    pub uri: String,
    pub database_name: String,
    pub client_options: ClientOptions,
}

/// Everything that a run needs before it connects.
#[derive(Debug, Clone)]
pub struct ReplicationPlan {
    pub source: ConnectionPlan,
    pub target: ConnectionPlan,
    /// The entities that the run fills, and that are cleared before it.
    pub collection_names: Vec<String>,
    /// How many tasks the dispatch channel holds.
    pub channel_capacity: usize,
    pub manager: ReplicationManager,
    pub config: ReplicationConfig,
    pub processors: Vec<Processor>,
}

/// The settings of a run, as far as they have been given.
#[derive(Debug, Clone)]
pub struct ReplicationManagerBuilder {
    pub source_uri: Option<String>,
    pub target_uri: Option<String>,
    pub source_db: Option<String>,
    pub target_db: Option<String>,
    pub thread_count: usize,
    pub config: ReplicationConfig,
    pub compressors: Option<Vec<Compressor>>,
    pub processors: Vec<Processor>,
}

/// The names of the entities of the producers, in their order.
pub open spec fn processor_names(processors: Seq<Processor>) -> Seq<Seq<char>> {
    Seq::new(processors.len(), |i: int| processors[i].name_spec())
}

/// A number of workers as a pool size: the number itself, capped at the
/// largest pool size.
pub open spec fn pool_size_spec(count: int) -> u32 {
    if count > u32::MAX {
        u32::MAX
    } else {
        count as u32
    }
}

/// The connection settings of a run with the given number of workers: two
/// connections for each worker at most, one for each at least, and as many
/// being opened at once as there are workers.
pub open spec fn run_client_options_spec(
    thread_count: usize,
    compressors: Option<Seq<Compressor>>,
    majority_read_concern: bool,
) -> ClientOptionsView {
    ClientOptionsView {
        max_pool_size: Some(pool_size_spec(thread_count * 2)),
        min_pool_size: Some(pool_size_spec(thread_count as int)),
        max_connecting: Some(pool_size_spec(thread_count as int)),
        compressors,
        majority_read_concern,
    }
}

/// The complaint about a builder from which no run can be made, if there
/// is one: a missing address, or a database that is not named.
pub open spec fn build_complaint_spec(
    source_uri: Option<Seq<char>>,
    target_uri: Option<Seq<char>>,
    source_name: Result<Seq<char>, Seq<char>>,
    target_name: Result<Seq<char>, Seq<char>>,
) -> Option<Seq<char>> {
    if source_uri.is_none() {
        Some("No source_uri provided."@)
    } else if target_uri.is_none() {
        Some("No target_uri provided."@)
    } else if source_name.is_err() {
        Some(source_name->Err_0)
    } else if target_name.is_err() {
        Some(target_name->Err_0)
    } else {
        None
    }
}

/// A pool size for a number of workers.
fn pool_size(count: usize) -> (size: u32)
    ensures
        size == pool_size_spec(count as int),
{
    if count > 0xffff_ffff {
        u32::MAX
    } else {
        count as u32
    }
}

/// Twice a number of workers, as a pool size.
fn doubled_pool_size(count: usize) -> (size: u32)
    ensures
        size == pool_size_spec(count * 2),
{
    if count > 0x7fff_ffff {
        u32::MAX
    } else {
        (count * 2) as u32
    }
}

/// What a [`ReplicationManagerBuilder`] holds.
pub struct ManagerBuilderView {
    pub source_uri: Option<Seq<char>>,
    pub target_uri: Option<Seq<char>>,
    pub source_db: Option<Seq<char>>,
    pub target_db: Option<Seq<char>>,
    pub thread_count: usize,
    pub config: ReplicationConfigView,
    pub compressors: Option<Seq<Compressor>>,
    pub processors: Seq<Processor>,
}

impl View for ReplicationManagerBuilder {
    type V = ManagerBuilderView;

    open spec fn view(&self) -> ManagerBuilderView {
        ManagerBuilderView {
            source_uri: name_view(self.source_uri),
            target_uri: name_view(self.target_uri),
            source_db: name_view(self.source_db),
            target_db: name_view(self.target_db),
            thread_count: self.thread_count,
            config: self.config@,
            compressors: compressors_view(self.compressors),
            processors: self.processors@,
        }
    }
}

/// A builder for a run with the given number of workers to which nothing
/// else has been given.
pub open spec fn new_builder_spec(thread_count: usize) -> ManagerBuilderView {
    ManagerBuilderView {
        source_uri: None,
        target_uri: None,
        source_db: None,
        target_db: None,
        thread_count,
        config: default_config_spec(thread_count),
        compressors: None,
        processors: Seq::empty(),
    }
}

impl Default for ReplicationManagerBuilder {
    /// A builder for a run with one worker for each core that this process
    /// may use.
    fn default() -> (builder: ReplicationManagerBuilder)
        ensures
            builder.thread_count >= 1,
            builder@ == new_builder_spec(builder.thread_count),
    {
        ReplicationManagerBuilder::new()
    }
}

impl ReplicationManagerBuilder {
    /// A builder for a run with the given number of workers and everything
    /// else as it is when nobody says otherwise.
    pub fn with_thread_count(thread_count: usize) -> (builder: ReplicationManagerBuilder)
        ensures
            builder@ == new_builder_spec(thread_count),
    {
        ReplicationManagerBuilder {
            source_uri: None,
            target_uri: None,
            source_db: None,
            target_db: None,
            thread_count,
            config: ReplicationConfig::with_thread_count(thread_count),
            compressors: None,
            processors: Vec::new(),
        }
    }

    /// A builder for a run with one worker for each core that this process
    /// may use.
    pub fn new() -> (builder: ReplicationManagerBuilder)
        ensures
            builder.thread_count >= 1,
            builder@ == new_builder_spec(builder.thread_count),
    {
        ReplicationManagerBuilder::with_thread_count(available_threads())
    }

    pub fn source_uri(self, uri: &str) -> (builder: ReplicationManagerBuilder)
        ensures
            builder@ == (ManagerBuilderView { source_uri: Some(uri@), ..self@ }),
    {
        let mut builder = self;
        builder.source_uri = Some(uri.to_owned());
        builder
    }

    pub fn target_uri(self, uri: &str) -> (builder: ReplicationManagerBuilder)
        ensures
            builder@ == (ManagerBuilderView { target_uri: Some(uri@), ..self@ }),
    {
        let mut builder = self;
        builder.target_uri = Some(uri.to_owned());
        builder
    }

    pub fn source_db(self, db_name: &str) -> (builder: ReplicationManagerBuilder)
        ensures
            builder@ == (ManagerBuilderView { source_db: Some(db_name@), ..self@ }),
    {
        let mut builder = self;
        builder.source_db = Some(db_name.to_owned());
        builder
    }

    pub fn target_db(self, db_name: &str) -> (builder: ReplicationManagerBuilder)
        ensures
            builder@ == (ManagerBuilderView { target_db: Some(db_name@), ..self@ }),
    {
        let mut builder = self;
        builder.target_db = Some(db_name.to_owned());
        builder
    }

    /// Sets how many tasks may be in flight at once.
    pub fn thread_count(self, count: usize) -> (builder: ReplicationManagerBuilder)
        ensures
            builder@ == (ManagerBuilderView {
                thread_count: count,
                config: ReplicationConfigView { thread_count: count, ..self@.config },
                ..self@
            }),
    {
        let mut builder = self;
        builder.thread_count = count;
        builder.config.thread_count = count;
        builder
    }

    pub fn strategy(self, strategy: ReplicationStrategy) -> (builder: ReplicationManagerBuilder)
        ensures
            builder@ == (ManagerBuilderView {
                config: ReplicationConfigView { strategy, ..self@.config },
                ..self@
            }),
    {
        let mut builder = self;
        builder.config.strategy = strategy;
        builder
    }

    pub fn batch_size(self, size: u64) -> (builder: ReplicationManagerBuilder)
        ensures
            builder@ == (ManagerBuilderView {
                config: ReplicationConfigView { batch_size: size, ..self@.config },
                ..self@
            }),
    {
        let mut builder = self;
        builder.config.batch_size = size;
        builder
    }

    pub fn write_batch_size(self, size: u64) -> (builder: ReplicationManagerBuilder)
        ensures
            builder@ == (ManagerBuilderView {
                config: ReplicationConfigView { write_batch_size: size, ..self@.config },
                ..self@
            }),
    {
        let mut builder = self;
        builder.config.write_batch_size = size;
        builder
    }

    /// Sets the bytes to aim for in one batch under adaptive batching.
    pub fn target_batch_bytes(self, bytes: u64) -> (builder: ReplicationManagerBuilder)
        ensures
            builder@ == (ManagerBuilderView {
                config: ReplicationConfigView { target_batch_bytes: Some(bytes), ..self@.config },
                ..self@
            }),
    {
        let mut builder = self;
        builder.config.target_batch_bytes = Some(bytes);
        builder
    }

    /// Sets the cursor batch size of every entity that has none of its own.
    pub fn cursor_batch_size(self, size: u64) -> (builder: ReplicationManagerBuilder)
        ensures
            builder@ == (ManagerBuilderView {
                config: ReplicationConfigView { cursor_batch_size: Some(size), ..self@.config },
                ..self@
            }),
    {
        let mut builder = self;
        builder.config.cursor_batch_size = Some(size);
        builder
    }

    pub fn write_options(self, options: InsertManyOptions) -> (builder: ReplicationManagerBuilder)
        ensures
            builder@ == (ManagerBuilderView {
                config: ReplicationConfigView { write_options: options, ..self@.config },
                ..self@
            }),
    {
        let mut builder = self;
        builder.config.write_options = options;
        builder
    }

    pub fn read_options(self, options: FindOptions) -> (builder: ReplicationManagerBuilder)
        ensures
            builder@ == (ManagerBuilderView {
                config: ReplicationConfigView { read_options: options@, ..self@.config },
                ..self@
            }),
    {
        let mut builder = self;
        builder.config.read_options = options;
        builder
    }

    /// Turns on compression of the wire, with every compressor in the
    /// order in which they are preferred.
    pub fn add_compression(self) -> (builder: ReplicationManagerBuilder)
        ensures
            builder@ == (ManagerBuilderView {
                compressors: Some(preferred_compressors()),
                ..self@
            }),
    {
        let mut builder = self;
        builder.compressors = get_compressors();
        builder
    }

    /// Lets the batch size of each entity follow the average size of its
    /// records.
    pub fn adaptive_batching(self) -> (builder: ReplicationManagerBuilder)
        ensures
            builder@ == (ManagerBuilderView {
                config: ReplicationConfigView { adaptive_batching: true, ..self@.config },
                ..self@
            }),
    {
        let mut builder = self;
        builder.config.adaptive_batching = true;
        builder
    }

    /// Asks for the views of the source to be copied at the end of the
    /// run.
    pub fn copy_views(self, enabled: bool) -> (builder: ReplicationManagerBuilder)
        ensures
            builder@ == (ManagerBuilderView {
                config: ReplicationConfigView { copy_views: enabled, ..self@.config },
                ..self@
            }),
    {
        let mut builder = self;
        builder.config.copy_views = enabled;
        builder
    }

    /// The settings for the best throughput: writes that go on past a
    /// refused record and are not validated again, and compression where it
    /// is asked for.
    pub fn optimize_for_performance(self, compression: bool) -> (builder:
        ReplicationManagerBuilder)
        ensures
            builder@ == (ManagerBuilderView {
                config: ReplicationConfigView {
                    write_options: InsertManyOptions {
                        ordered: Some(false),
                        bypass_document_validation: Some(true),
                    },
                    ..self@.config
                },
                compressors: if compression {
                    Some(preferred_compressors())
                } else {
                    self@.compressors
                },
                ..self@
            }),
    {
        let mut builder = self;
        builder.config.write_options.ordered = Some(false);
        builder.config.write_options.bypass_document_validation = Some(true);
        if compression {
            builder = builder.add_compression();
        }
        builder
    }

    /// Adds an entity of typed records, with the settings of the run.
    pub fn add_processor(self, collection_name: &str) -> (builder: ReplicationManagerBuilder)
        ensures
            builder@.processors.len() == self@.processors.len() + 1,
            builder@ == (ManagerBuilderView { processors: builder@.processors, ..self@ }),
            builder@.processors.drop_last() == self@.processors,
            builder@.processors.last() is Model,
            builder@.processors.last().name_spec() == collection_name@,
    {
        self.add_processor_with_config(collection_name, ProcessorConfig::default())
    }

    /// Adds an entity of typed records, with settings of its own.
    pub fn add_processor_with_config(self, collection_name: &str, config: ProcessorConfig) -> (builder:
        ReplicationManagerBuilder)
        ensures
            builder@.processors.len() == self@.processors.len() + 1,
            builder@ == (ManagerBuilderView { processors: builder@.processors, ..self@ }),
            builder@.processors.drop_last() == self@.processors,
            builder@.processors.last() is Model,
            builder@.processors.last()->Model_0.config == config,
            builder@.processors.last().name_spec() == collection_name@,
    {
        let mut builder = self;
        let ghost before = builder.processors@;
        builder.processors.push(
            Processor::Model(ModelProcessor::new(collection_name.to_owned(), config)),
        );
        assert(builder.processors@.drop_last() =~= before);
        builder
    }

    /// Adds an entity of plain documents, with the settings of the run.
    pub fn add_replicator(self, collection_name: &str) -> (builder: ReplicationManagerBuilder)
        ensures
            builder@.processors.len() == self@.processors.len() + 1,
            builder@ == (ManagerBuilderView { processors: builder@.processors, ..self@ }),
            builder@.processors.drop_last() == self@.processors,
            builder@.processors.last() is Replicator,
            builder@.processors.last().name_spec() == collection_name@,
    {
        self.add_replicator_with_config(collection_name, ReplicatorConfig::default())
    }

    /// Adds an entity of plain documents, with settings of its own.
    pub fn add_replicator_with_config(self, collection_name: &str, config: ReplicatorConfig) -> (builder:
        ReplicationManagerBuilder)
        ensures
            builder@.processors.len() == self@.processors.len() + 1,
            builder@ == (ManagerBuilderView { processors: builder@.processors, ..self@ }),
            builder@.processors.drop_last() == self@.processors,
            builder@.processors.last() is Replicator,
            builder@.processors.last()->Replicator_0.config == config,
            builder@.processors.last().name_spec() == collection_name@,
    {
        let mut builder = self;
        let ghost before = builder.processors@;
        builder.processors.push(
            Processor::Replicator(ReplicatorProcessor::new(config, collection_name.to_owned())),
        );
        assert(builder.processors@.drop_last() =~= before);
        builder
    }

    /// Chooses the name of a database from what the address says of it and
    /// from the name given beside the address.
    pub fn choose_db_name(path: Result<String, String>, db_name: Option<String>) -> (name:
        TuxedoResult<String>)
        ensures
            name_outcome_is(
                name,
                db_name_spec(
                    path_view(path),
                    name_view(db_name),
                ),
            ),
    {
        match path {
            Err(complaint) => Err(TuxedoError::ConfigError(complaint)),
            Ok(found) => match db_name_from_path(found.as_str()) {
                Some(name) => Ok(name),
                None => match db_name {
                    Some(name) => Ok(name),
                    None => Err(
                        TuxedoError::ConfigError(
                            "Could not parse database name from URI and no database name provided.".to_owned(),
                        ),
                    ),
                },
            },
        }
    }

    /// The name of the database of an address: the one in its path where
    /// there is one, else the one given beside it.
    pub fn get_db_name(&self, uri: &str, db_name: Option<String>) -> (name: TuxedoResult<String>)
        ensures
            name_outcome_is(
                name,
                db_name_spec(
                    path_of_uri(uri@),
                    name_view(db_name),
                ),
            ),
    {
        ReplicationManagerBuilder::choose_db_name(uri_path(uri), db_name)
    }

    /// The name of the database in the path of an address, where it has
    /// one.
    pub fn parse_db_name_from_uri(&self, uri: &str) -> (name: TuxedoResult<Option<String>>)
        ensures
            match name {
                Ok(found) => path_of_uri(uri@).is_ok()
                    && name_view(found)
                    == db_name_of_path(path_of_uri(uri@)->Ok_0),
                Err(error) => error is ConfigError && path_of_uri(uri@) == Err::<
                    Seq<char>,
                    Seq<char>,
                >(error.message_spec()),
            },
    {
        match uri_path(uri) {
            Ok(path) => Ok(db_name_from_path(path.as_str())),
            Err(complaint) => Err(TuxedoError::ConfigError(complaint)),
        }
    }

    /// The names of the entities of the producers, in their order.
    pub fn collection_names(&self) -> (names: Vec<String>)
        ensures
            names_of(names@) == processor_names(self.processors@),
    {
        let mut names: Vec<String> = Vec::new();
        let mut position: usize = 0;
        while position < self.processors.len()
            invariant
                position <= self.processors@.len(),
                names_of(names@) == processor_names(
                    self.processors@,
                ).take(position as int),
            decreases self.processors.len() - position,
        {
            let ghost before = names_of(names@);
            let name = self.processors[position].collection_name().to_owned();
            names.push(name);
            assert(names_of(names@) =~= before.push(
                self.processors@[position as int].name_spec(),
            ));
            assert(processor_names(self.processors@).take(position + 1) =~= processor_names(
                self.processors@,
            ).take(position as int).push(self.processors@[position as int].name_spec()));
            position = position + 1;
        }
        assert(processor_names(self.processors@).take(position as int) =~= processor_names(
            self.processors@,
        ));
        names
    }

    /// Makes the plan of a run from the builder and from what the two
    /// addresses say of their databases.
    pub fn plan(
        self,
        source_path: Result<String, String>,
        target_path: Result<String, String>,
    ) -> (built: TuxedoResult<ReplicationPlan>)
        ensures
            match built {
                Err(error) => error is ConfigError && build_complaint_spec(
                    name_view(self.source_uri),
                    name_view(self.target_uri),
                    db_name_spec(
                        path_view(source_path),
                        name_view(self.source_db),
                    ),
                    db_name_spec(
                        path_view(target_path),
                        name_view(self.target_db),
                    ),
                ) == Some(error.message_spec()),
                Ok(plan) => {
                    &&& build_complaint_spec(
                        name_view(self.source_uri),
                        name_view(self.target_uri),
                        db_name_spec(
                            path_view(source_path),
                            name_view(self.source_db),
                        ),
                        db_name_spec(
                            path_view(target_path),
                            name_view(self.target_db),
                        ),
                    ).is_none()
                    &&& plan.source.uri@ == self.source_uri.unwrap()@
                    &&& plan.target.uri@ == self.target_uri.unwrap()@
                    &&& Ok::<Seq<char>, Seq<char>>(plan.source.database_name@) == db_name_spec(
                        path_view(source_path),
                        name_view(self.source_db),
                    )
                    &&& Ok::<Seq<char>, Seq<char>>(plan.target.database_name@) == db_name_spec(
                        path_view(target_path),
                        name_view(self.target_db),
                    )
                    &&& plan.source.client_options@ == run_client_options_spec(
                        self.config.thread_count,
                        compressors_view(self.compressors),
                        true,
                    )
                    &&& plan.target.client_options@ == run_client_options_spec(
                        self.config.thread_count,
                        compressors_view(self.compressors),
                        false,
                    )
                    &&& names_of(plan.collection_names@)
                        == processor_names(self.processors@)
                    &&& plan.channel_capacity == channel_capacity_spec(
                        self.config.thread_count as int,
                    )
                    &&& plan.manager == (ReplicationManager {
                        processors: self.processors@.len() as usize,
                        thread_count: self.config.thread_count,
                        copy_views: self.config.copy_views,
                    })
                    &&& plan.config@ == self.config@
                    &&& plan.processors == self.processors
                },
            },
    {
        let collection_names = self.collection_names();
        let source_uri = match self.source_uri {
            Some(uri) => uri,
            None => {
                return Err(TuxedoError::ConfigError("No source_uri provided.".to_owned()));
            },
        };
        let target_uri = match self.target_uri {
            Some(uri) => uri,
            None => {
                return Err(TuxedoError::ConfigError("No target_uri provided.".to_owned()));
            },
        };
        let source_name = match ReplicationManagerBuilder::choose_db_name(
            source_path,
            self.source_db,
        ) {
            Ok(name) => name,
            Err(error) => {
                return Err(error);
            },
        };
        let target_name = match ReplicationManagerBuilder::choose_db_name(
            target_path,
            self.target_db,
        ) {
            Ok(name) => name,
            Err(error) => {
                return Err(error);
            },
        };
        let thread_count = self.config.thread_count;
        let source_options = ClientOptions {
            max_pool_size: Some(doubled_pool_size(thread_count)),
            min_pool_size: Some(pool_size(thread_count)),
            max_connecting: Some(pool_size(thread_count)),
            compressors: duplicate_compressors(&self.compressors),
            majority_read_concern: true,
        };
        let target_options = ClientOptions {
            max_pool_size: Some(doubled_pool_size(thread_count)),
            min_pool_size: Some(pool_size(thread_count)),
            max_connecting: Some(pool_size(thread_count)),
            compressors: self.compressors,
            majority_read_concern: false,
        };
        let manager = ReplicationManager {
            processors: self.processors.len(),
            thread_count,
            copy_views: self.config.copy_views,
        };
        Ok(
            ReplicationPlan {
                source: ConnectionPlan {
                    uri: source_uri,
                    database_name: source_name,
                    client_options: source_options,
                },
                target: ConnectionPlan {
                    uri: target_uri,
                    database_name: target_name,
                    client_options: target_options,
                },
                collection_names,
                channel_capacity: channel_capacity(thread_count),
                manager,
                config: self.config,
                processors: self.processors,
            },
        )
    }

    /// Makes the plan of a run, or says what is missing: an address, or
    /// the name of a database that neither the address nor the builder
    /// gives.
    pub fn build(self) -> (built: TuxedoResult<ReplicationPlan>)
        ensures
            match built {
                Err(error) => error is ConfigError && build_complaint_spec(
                    name_view(self.source_uri),
                    name_view(self.target_uri),
                    db_name_spec(
                        source_path_spec(self.source_uri),
                        name_view(self.source_db),
                    ),
                    db_name_spec(
                        source_path_spec(self.target_uri),
                        name_view(self.target_db),
                    ),
                ) == Some(error.message_spec()),
                Ok(plan) => {
                    &&& self.source_uri.is_some()
                    &&& self.target_uri.is_some()
                    &&& plan.source.uri@ == self.source_uri.unwrap()@
                    &&& plan.target.uri@ == self.target_uri.unwrap()@
                    &&& Ok::<Seq<char>, Seq<char>>(plan.source.database_name@) == db_name_spec(
                        source_path_spec(self.source_uri),
                        name_view(self.source_db),
                    )
                    &&& Ok::<Seq<char>, Seq<char>>(plan.target.database_name@) == db_name_spec(
                        source_path_spec(self.target_uri),
                        name_view(self.target_db),
                    )
                    &&& plan.source.client_options@ == run_client_options_spec(
                        self.config.thread_count,
                        compressors_view(self.compressors),
                        true,
                    )
                    &&& plan.target.client_options@ == run_client_options_spec(
                        self.config.thread_count,
                        compressors_view(self.compressors),
                        false,
                    )
                    &&& names_of(plan.collection_names@)
                        == processor_names(self.processors@)
                    &&& plan.channel_capacity == channel_capacity_spec(
                        self.config.thread_count as int,
                    )
                    &&& plan.manager == (ReplicationManager {
                        processors: self.processors@.len() as usize,
                        thread_count: self.config.thread_count,
                        copy_views: self.config.copy_views,
                    })
                    &&& plan.config@ == self.config@
                    &&& plan.processors == self.processors
                },
            },
    {
        let source_path = match &self.source_uri {
            Some(uri) => uri_path(uri.as_str()),
            None => Ok(String::new()),
        };
        let target_path = match &self.target_uri {
            Some(uri) => uri_path(uri.as_str()),
            None => Ok(String::new()),
        };
        self.plan(source_path, target_path)
    }
}

/// What an address says of its database, where there is an address.
pub open spec fn source_path_spec(uri: Option<String>) -> Result<Seq<char>, Seq<char>> {
    match uri {
        Some(address) => path_of_uri(address@),
        None => Ok(Seq::empty()),
    }
}

} // verus!
