//! Puts the settings of a source together.
use crate::database::mongodb::get_compressors;
use crate::database::mongodb::options::{
    client_options_view, compressors_view, duplicate_compressors, find_options_view,
    ClientOptions, ClientOptionsView, Compressor, CountOptions, FindOptions, FindOptionsView,
};
use crate::database::mongodb::preferred_compressors;
use crate::database::mongodb::source::MongodbSource;
use crate::error::{TuxedoError, TuxedoResult};
use crate::replication::batching::{aligned_batch_cursor_size, aligned_cursor_spec};
use crate::replication::manager::available_threads;
use vstd::prelude::*;

verus! {

/// The batch size of a source that was given none.
pub const DEFAULT_BATCH_SIZE: u64 = 5000;

/// The cursor batch size of a source that was given none.
pub const DEFAULT_CURSOR_BATCH_SIZE: u32 = 1000;

/// The settings of a source, as far as they have been given.
#[derive(Debug, Clone)]
pub struct MongodbSourceBuilder {
    pub database_name: Option<String>,
    pub client_options: Option<ClientOptions>,
    pub read_options: Option<FindOptions>,
    pub count_options: Option<CountOptions>,
    pub batch_size: Option<u64>,
    pub cursor_batch_size: Option<u32>,
    pub compressors: Option<Vec<Compressor>>,
}

/// What a [`MongodbSourceBuilder`] holds.
pub struct SourceBuilderView {
    pub database_name: Option<Seq<char>>,
    pub client_options: Option<ClientOptionsView>,
    pub read_options: Option<FindOptionsView>,
    pub count_options: Option<CountOptions>,
    pub batch_size: Option<u64>,
    pub cursor_batch_size: Option<u32>,
    pub compressors: Option<Seq<Compressor>>,
}

/// What a [`MongodbSource`] holds.
pub struct SourceView {
    pub database_name: Seq<char>,
    pub client_options: ClientOptionsView,
    pub read_options: FindOptionsView,
    pub count_options: Option<CountOptions>,
    pub batch_size: u64,
}

impl View for MongodbSource {
    type V = SourceView;

    open spec fn view(&self) -> SourceView {
        SourceView {
            database_name: self.database_name@,
            client_options: self.client_options@,
            read_options: self.read_options@,
            count_options: self.count_options,
            batch_size: self.batch_size,
        }
    }
}

/// What an optional name holds.
pub open spec fn name_view(name: Option<String>) -> Option<Seq<char>> {
    match name {
        Some(held) => Some(held@),
        None => None,
    }
}

impl View for MongodbSourceBuilder {
    type V = SourceBuilderView;

    open spec fn view(&self) -> SourceBuilderView {
        SourceBuilderView {
            database_name: name_view(self.database_name),
            client_options: client_options_view(self.client_options),
            read_options: find_options_view(self.read_options),
            count_options: self.count_options,
            batch_size: self.batch_size,
            cursor_batch_size: self.cursor_batch_size,
            compressors: compressors_view(self.compressors),
        }
    }
}

/// The number of cores as a pool size: the number itself, capped at the
/// largest pool size.
pub open spec fn pool_threads_spec(cpus: usize) -> u32 {
    if cpus > u32::MAX {
        u32::MAX
    } else {
        cpus as u32
    }
}

/// The largest pool of a source that was given none: two connections for
/// each core, and at least eight.
pub open spec fn source_max_pool_spec(threads: u32) -> u32 {
    if threads * 2 > u32::MAX {
        u32::MAX
    } else if threads * 2 < 8 {
        8
    } else {
        (threads * 2) as u32
    }
}

/// The cursor batch size that goes with the batch size of the builder, or
/// with the default where none was given: a fifth more than the batch
/// size, rounded up and capped at the largest `u64`, of which the setting
/// holds the low 32 bits.
pub open spec fn aligned_cursor_of(batch_size: Option<u64>) -> u32 {
    let size = match batch_size {
        Some(given) => given,
        None => DEFAULT_BATCH_SIZE,
    };
    let aligned = if aligned_cursor_spec(size as int) <= u64::MAX {
        aligned_cursor_spec(size as int)
    } else {
        u64::MAX as int
    };
    (aligned % 0x1_0000_0000) as u32
}

/// The connection settings of a store that is built on a machine with the
/// given number of cores: pool sizes that were not given follow from the
/// cores, and the compressors of the builder replace those of the
/// settings.
pub open spec fn pooled_options_spec(
    options: ClientOptionsView,
    compressors: Option<Seq<Compressor>>,
    max_pool_size: u32,
    threads: u32,
) -> ClientOptionsView {
    ClientOptionsView {
        max_pool_size: if options.max_pool_size.is_none() {
            Some(max_pool_size)
        } else {
            options.max_pool_size
        },
        min_pool_size: if options.min_pool_size.is_none() {
            Some(threads)
        } else {
            options.min_pool_size
        },
        max_connecting: options.max_connecting,
        compressors: if compressors.is_some() {
            compressors
        } else {
            options.compressors
        },
        majority_read_concern: options.majority_read_concern,
    }
}

/// The read settings of a source: those given, or none; with the cursor
/// batch size of the builder, or the default, where they name none.
pub open spec fn source_read_options_spec(
    read_options: Option<FindOptionsView>,
    cursor_batch_size: Option<u32>,
) -> FindOptionsView {
    let given = match read_options {
        Some(options) => options,
        None => FindOptionsView { sort: None, skip: None, limit: None, batch_size: None },
    };
    FindOptionsView {
        sort: given.sort,
        skip: given.skip,
        limit: given.limit,
        batch_size: if given.batch_size.is_none() {
            Some(
                match cursor_batch_size {
                    Some(size) => size,
                    None => DEFAULT_CURSOR_BATCH_SIZE,
                },
            )
        } else {
            given.batch_size
        },
    }
}

/// The source that a builder makes on a machine with the given number of
/// cores, or the complaint about what is missing.
pub open spec fn assembled_source_spec(builder: SourceBuilderView, cpus: usize) -> Result<
    SourceView,
    Seq<char>,
> {
    if builder.database_name.is_none() {
        Err("No database name provided for mongodb source database"@)
    } else if builder.client_options.is_none() {
        Err("No client options provided for mongodb source database"@)
    } else {
        Ok(
            SourceView {
                database_name: builder.database_name.unwrap(),
                client_options: pooled_options_spec(
                    builder.client_options.unwrap(),
                    builder.compressors,
                    source_max_pool_spec(pool_threads_spec(cpus)),
                    pool_threads_spec(cpus),
                ),
                read_options: source_read_options_spec(
                    builder.read_options,
                    builder.cursor_batch_size,
                ),
                count_options: builder.count_options,
                batch_size: match builder.batch_size {
                    Some(size) => size,
                    None => DEFAULT_BATCH_SIZE,
                },
            },
        )
    }
}

/// Whether the outcome of a build is the one that `expected` describes.
pub open spec fn source_outcome_is(
    outcome: TuxedoResult<MongodbSource>,
    expected: Result<SourceView, Seq<char>>,
) -> bool {
    match outcome {
        Ok(source) => expected == Ok::<SourceView, Seq<char>>(source@),
        Err(error) => error is Generic && expected == Err::<SourceView, Seq<char>>(
            error.message_spec(),
        ),
    }
}

/// The number of cores as a pool size.
pub fn pool_threads(cpus: usize) -> (threads: u32)
    ensures
        threads == pool_threads_spec(cpus),
{
    if cpus > 0xffff_ffff {
        u32::MAX
    } else {
        cpus as u32
    }
}

/// Fills in the pool sizes that were not given and puts the builder's
/// compressors in.
pub fn pooled_options(
    options: ClientOptions,
    compressors: Option<Vec<Compressor>>,
    max_pool_size: u32,
    threads: u32,
) -> (pooled: ClientOptions)
    ensures
        pooled@ == pooled_options_spec(
            options@,
            compressors_view(compressors),
            max_pool_size,
            threads,
        ),
{
    let mut pooled = options;
    if pooled.max_pool_size.is_none() {
        pooled.max_pool_size = Some(max_pool_size);
    }
    if pooled.min_pool_size.is_none() {
        pooled.min_pool_size = Some(threads);
    }
    if compressors.is_some() {
        pooled.compressors = compressors;
    }
    pooled
}

impl Default for MongodbSourceBuilder {
    fn default() -> (builder: MongodbSourceBuilder)
        ensures
            builder.is_empty(),
    {
        MongodbSourceBuilder::new()
    }
}

impl MongodbSourceBuilder {
    /// Whether nothing has been given yet.
    pub open spec fn is_empty(self) -> bool {
        &&& self.database_name.is_none()
        &&& self.client_options.is_none()
        &&& self.read_options.is_none()
        &&& self.count_options.is_none()
        &&& self.batch_size.is_none()
        &&& self.cursor_batch_size.is_none()
        &&& self.compressors.is_none()
    }

    pub fn new() -> (builder: MongodbSourceBuilder)
        ensures
            builder.is_empty(),
    {
        MongodbSourceBuilder {
            database_name: None,
            client_options: None,
            read_options: None,
            count_options: None,
            batch_size: None,
            cursor_batch_size: None,
            compressors: None,
        }
    }

    pub fn database_name(self, database_name: &str) -> (builder: MongodbSourceBuilder)
        ensures
            builder@ == (SourceBuilderView { database_name: Some(database_name@), ..self@ }),
    {
        let mut builder = self;
        builder.database_name = Some(database_name.to_owned());
        builder
    }

    pub fn client_options(self, options: Option<ClientOptions>) -> (builder: MongodbSourceBuilder)
        ensures
            builder@ == (SourceBuilderView {
                client_options: client_options_view(options),
                ..self@
            }),
    {
        let mut builder = self;
        builder.client_options = options;
        builder
    }

    pub fn read_options(self, options: Option<FindOptions>) -> (builder: MongodbSourceBuilder)
        ensures
            builder@ == (SourceBuilderView { read_options: find_options_view(options), ..self@ }),
    {
        let mut builder = self;
        builder.read_options = options;
        builder
    }

    pub fn count_options(self, options: Option<CountOptions>) -> (builder: MongodbSourceBuilder)
        ensures
            builder@ == (SourceBuilderView { count_options: options, ..self@ }),
    {
        let mut builder = self;
        builder.count_options = options;
        builder
    }

    pub fn batch_size(self, batch_size: u64) -> (builder: MongodbSourceBuilder)
        ensures
            builder@ == (SourceBuilderView { batch_size: Some(batch_size), ..self@ }),
    {
        let mut builder = self;
        builder.batch_size = Some(batch_size);
        builder
    }

    /// Sets how many documents the store sends in one round trip. Larger
    /// values save round trips for small documents.
    pub fn cursor_batch_size(self, batch_size: u32) -> (builder: MongodbSourceBuilder)
        ensures
            builder@ == (SourceBuilderView { cursor_batch_size: Some(batch_size), ..self@ }),
    {
        let mut builder = self;
        builder.cursor_batch_size = Some(batch_size);
        builder
    }

    /// Sets the cursor batch size to go with the batch size: a fifth more,
    /// so that what is fetched in one round trip covers a batch.
    pub fn align_with_batch_size(self) -> (builder: MongodbSourceBuilder)
        ensures
            builder@ == (SourceBuilderView {
                cursor_batch_size: Some(aligned_cursor_of(self.batch_size)),
                ..self@
            }),
    {
        let mut builder = self;
        let batch_size: u64 = match builder.batch_size {
            Some(given) => given,
            None => DEFAULT_BATCH_SIZE,
        };
        let aligned: u64 = aligned_batch_cursor_size(batch_size);
        builder.cursor_batch_size = Some((aligned % 0x1_0000_0000) as u32);
        builder
    }

    /// Turns on compression of the wire, with every compressor in the
    /// order in which they are preferred.
    pub fn enable_compression(self) -> (builder: MongodbSourceBuilder)
        ensures
            builder@ == (SourceBuilderView {
                compressors: Some(preferred_compressors()),
                ..self@
            }),
    {
        let mut builder = self;
        builder.compressors = get_compressors();
        builder
    }

    /// A copy of the builder.
    pub fn duplicate(&self) -> (copy: MongodbSourceBuilder)
        ensures
            copy@ == self@,
    {
        MongodbSourceBuilder {
            database_name: match &self.database_name {
                Some(name) => Some(name.clone()),
                None => None,
            },
            client_options: match &self.client_options {
                Some(options) => Some(options.duplicate()),
                None => None,
            },
            read_options: match &self.read_options {
                Some(options) => Some(options.duplicate()),
                None => None,
            },
            count_options: self.count_options,
            batch_size: self.batch_size,
            cursor_batch_size: self.cursor_batch_size,
            compressors: duplicate_compressors(&self.compressors),
        }
    }

    /// The settings for the best throughput: compression where it is asked
    /// for, and a cursor batch size that goes with the batch size where
    /// none was given.
    pub fn optimize_for_performance(&self, enable_compression: bool) -> (builder:
        MongodbSourceBuilder)
        ensures
            builder@ == (SourceBuilderView {
                compressors: if enable_compression {
                    Some(preferred_compressors())
                } else {
                    self@.compressors
                },
                cursor_batch_size: if self.cursor_batch_size.is_none() {
                    Some(aligned_cursor_of(self.batch_size))
                } else {
                    self.cursor_batch_size
                },
                ..self@
            }),
    {
        let mut builder = self.duplicate();
        if enable_compression {
            builder = builder.enable_compression();
        }
        if self.cursor_batch_size.is_none() {
            builder = builder.align_with_batch_size();
        }
        builder
    }

    /// Makes the source on a machine with the given number of cores.
    pub fn assemble(self, cpus: usize) -> (built: TuxedoResult<MongodbSource>)
        ensures
            source_outcome_is(built, assembled_source_spec(self@, cpus)),
    {
        let database_name = match self.database_name {
            Some(name) => name,
            None => {
                return Err(
                    TuxedoError::Generic(
                        "No database name provided for mongodb source database".to_owned(),
                    ),
                );
            },
        };
        let client_options = match self.client_options {
            Some(options) => options,
            None => {
                return Err(
                    TuxedoError::Generic(
                        "No client options provided for mongodb source database".to_owned(),
                    ),
                );
            },
        };
        let threads = pool_threads(cpus);
        let doubled: u32 = if threads > u32::MAX / 2 {
            u32::MAX
        } else {
            threads * 2
        };
        let max_pool_size: u32 = if doubled < 8 {
            8
        } else {
            doubled
        };
        let client_options = pooled_options(
            client_options,
            self.compressors,
            max_pool_size,
            threads,
        );
        let mut read_options = match self.read_options {
            Some(options) => options,
            None => FindOptions::default(),
        };
        if read_options.batch_size.is_none() {
            read_options.batch_size = Some(
                match self.cursor_batch_size {
                    Some(size) => size,
                    None => DEFAULT_CURSOR_BATCH_SIZE,
                },
            );
        }
        let batch_size: u64 = match self.batch_size {
            Some(size) => size,
            None => DEFAULT_BATCH_SIZE,
        };
        Ok(
            MongodbSource::new(
                database_name,
                client_options,
                read_options,
                self.count_options,
                batch_size,
            ),
        )
    }

    /// Makes the source. The pool sizes that were not given follow from
    /// the number of cores of this machine, which is at least one.
    pub fn build(self) -> (built: TuxedoResult<MongodbSource>)
        ensures
            exists|cpus: usize|
                cpus >= 1 && source_outcome_is(built, #[trigger] assembled_source_spec(self@, cpus)),
    {
        let cpus = available_threads();
        self.assemble(cpus)
    }
}

} // verus!
