//! Puts the settings of a destination together.
use crate::database::mongodb::destination::MongodbDestination;
use crate::database::mongodb::get_compressors;
use crate::database::mongodb::options::{
    client_options_view, compressors_view, duplicate_compressors, ClientOptions,
    ClientOptionsView, Compressor, InsertManyOptions,
};
use crate::database::mongodb::preferred_compressors;
use crate::database::mongodb::source_builder::{
    name_view, pool_threads, pool_threads_spec, pooled_options, pooled_options_spec,
};
use crate::error::{TuxedoError, TuxedoResult};
use crate::replication::manager::available_threads;
use vstd::prelude::*;

verus! {

/// The settings of a destination, as far as they have been given.
#[derive(Debug, Clone)]
pub struct MongodbDestinationBuilder {
    pub database_name: Option<String>,
    pub client_options: Option<ClientOptions>,
    pub write_options: Option<InsertManyOptions>,
    pub compressors: Option<Vec<Compressor>>,
}

/// What a [`MongodbDestinationBuilder`] holds.
pub struct DestinationBuilderView {
    pub database_name: Option<Seq<char>>,
    pub client_options: Option<ClientOptionsView>,
    pub write_options: Option<InsertManyOptions>,
    pub compressors: Option<Seq<Compressor>>,
}

/// What a [`MongodbDestination`] holds.
pub struct DestinationView {
    pub database_name: Seq<char>,
    pub client_options: ClientOptionsView,
    pub write_options: Option<InsertManyOptions>,
}

impl View for MongodbDestination {
    type V = DestinationView;

    open spec fn view(&self) -> DestinationView {
        DestinationView {
            database_name: self.database_name@,
            client_options: self.client_options@,
            write_options: self.write_options,
        }
    }
}

impl View for MongodbDestinationBuilder {
    type V = DestinationBuilderView;

    open spec fn view(&self) -> DestinationBuilderView {
        DestinationBuilderView {
            database_name: name_view(self.database_name),
            client_options: client_options_view(self.client_options),
            write_options: self.write_options,
            compressors: compressors_view(self.compressors),
        }
    }
}

/// The write settings for the best throughput: the store goes on past a
/// record that it refuses, and does not validate the records again.
pub open spec fn high_throughput_spec(write_options: Option<InsertManyOptions>)
    -> InsertManyOptions {
    InsertManyOptions { ordered: Some(false), bypass_document_validation: Some(true) }
}

/// The largest pool of a destination that was given none: five
/// connections more than there are cores, and at least ten.
pub open spec fn destination_max_pool_spec(threads: u32) -> u32 {
    if threads + 5 > u32::MAX {
        u32::MAX
    } else if threads + 5 < 10 {
        10
    } else {
        (threads + 5) as u32
    }
}

/// The destination that a builder makes on a machine with the given number
/// of cores, or the complaint about what is missing.
pub open spec fn assembled_destination_spec(builder: DestinationBuilderView, cpus: usize)
    -> Result<DestinationView, Seq<char>> {
    if builder.database_name.is_none() {
        Err("No database name provided for mongodb destination database"@)
    } else if builder.client_options.is_none() {
        Err("No client options provided for mongodb destination database"@)
    } else {
        Ok(
            DestinationView {
                database_name: builder.database_name.unwrap(),
                client_options: pooled_options_spec(
                    builder.client_options.unwrap(),
                    builder.compressors,
                    destination_max_pool_spec(pool_threads_spec(cpus)),
                    pool_threads_spec(cpus),
                ),
                write_options: builder.write_options,
            },
        )
    }
}

/// Whether the outcome of a build is the one that `expected` describes.
pub open spec fn destination_outcome_is(
    outcome: TuxedoResult<MongodbDestination>,
    expected: Result<DestinationView, Seq<char>>,
) -> bool {
    match outcome {
        Ok(destination) => expected == Ok::<DestinationView, Seq<char>>(destination@),
        Err(error) => error is Generic && expected == Err::<DestinationView, Seq<char>>(
            error.message_spec(),
        ),
    }
}

impl Default for MongodbDestinationBuilder {
    fn default() -> (builder: MongodbDestinationBuilder)
        ensures
            builder.is_empty(),
    {
        MongodbDestinationBuilder::new()
    }
}

impl MongodbDestinationBuilder {
    /// Whether nothing has been given yet.
    pub open spec fn is_empty(self) -> bool {
        &&& self.database_name.is_none()
        &&& self.client_options.is_none()
        &&& self.write_options.is_none()
        &&& self.compressors.is_none()
    }

    pub fn new() -> (builder: MongodbDestinationBuilder)
        ensures
            builder.is_empty(),
    {
        MongodbDestinationBuilder {
            database_name: None,
            client_options: None,
            write_options: None,
            compressors: None,
        }
    }

    pub fn database_name(self, database_name: &str) -> (builder: MongodbDestinationBuilder)
        ensures
            builder@ == (DestinationBuilderView { database_name: Some(database_name@), ..self@ }),
    {
        let mut builder = self;
        builder.database_name = Some(database_name.to_owned());
        builder
    }

    pub fn client_options(self, client_options: ClientOptions) -> (builder:
        MongodbDestinationBuilder)
        ensures
            builder@ == (DestinationBuilderView {
                client_options: Some(client_options@),
                ..self@
            }),
    {
        let mut builder = self;
        builder.client_options = Some(client_options);
        builder
    }

    pub fn write_options(self, write_options: InsertManyOptions) -> (builder:
        MongodbDestinationBuilder)
        ensures
            builder@ == (DestinationBuilderView { write_options: Some(write_options), ..self@ }),
    {
        let mut builder = self;
        builder.write_options = Some(write_options);
        builder
    }

    /// Turns on compression of the wire, with every compressor in the
    /// order in which they are preferred.
    pub fn enable_compression(self) -> (builder: MongodbDestinationBuilder)
        ensures
            builder@ == (DestinationBuilderView {
                compressors: Some(preferred_compressors()),
                ..self@
            }),
    {
        let mut builder = self;
        builder.compressors = get_compressors();
        builder
    }

    /// Sets the write settings for the best throughput, at the price of
    /// durability: the store goes on past a record that it refuses, and
    /// does not validate again what the source has validated.
    pub fn high_throughput_writes(self) -> (builder: MongodbDestinationBuilder)
        ensures
            builder@ == (DestinationBuilderView {
                write_options: Some(high_throughput_spec(self.write_options)),
                ..self@
            }),
    {
        let mut builder = self;
        let mut options = match builder.write_options {
            Some(given) => given,
            None => InsertManyOptions::default(),
        };
        options.ordered = Some(false);
        options.bypass_document_validation = Some(true);
        builder.write_options = Some(options);
        builder
    }

    /// A copy of the builder.
    pub fn duplicate(&self) -> (copy: MongodbDestinationBuilder)
        ensures
            copy@ == self@,
    {
        MongodbDestinationBuilder {
            database_name: match &self.database_name {
                Some(name) => Some(name.clone()),
                None => None,
            },
            client_options: match &self.client_options {
                Some(options) => Some(options.duplicate()),
                None => None,
            },
            write_options: self.write_options,
            compressors: duplicate_compressors(&self.compressors),
        }
    }

    /// The settings for the best throughput: fast writes, and compression
    /// where it is asked for.
    pub fn optimize_for_performance(&self, enable_compression: bool) -> (builder:
        MongodbDestinationBuilder)
        ensures
            builder@ == (DestinationBuilderView {
                write_options: Some(high_throughput_spec(self.write_options)),
                compressors: if enable_compression {
                    Some(preferred_compressors())
                } else {
                    self@.compressors
                },
                ..self@
            }),
    {
        let mut builder = self.duplicate();
        builder = builder.high_throughput_writes();
        if enable_compression {
            builder = builder.enable_compression();
        }
        builder
    }

    /// Makes the destination on a machine with the given number of cores.
    pub fn assemble(self, cpus: usize) -> (built: TuxedoResult<MongodbDestination>)
        ensures
            destination_outcome_is(built, assembled_destination_spec(self@, cpus)),
    {
        let database_name = match self.database_name {
            Some(name) => name,
            None => {
                return Err(
                    TuxedoError::Generic(
                        "No database name provided for mongodb destination database".to_owned(),
                    ),
                );
            },
        };
        let client_options = match self.client_options {
            Some(options) => options,
            None => {
                return Err(
                    TuxedoError::Generic(
                        "No client options provided for mongodb destination database".to_owned(),
                    ),
                );
            },
        };
        let threads = pool_threads(cpus);
        let raised: u32 = if threads > u32::MAX - 5 {
            u32::MAX
        } else {
            threads + 5
        };
        let max_pool_size: u32 = if raised < 10 {
            10
        } else {
            raised
        };
        let client_options = pooled_options(
            client_options,
            self.compressors,
            max_pool_size,
            threads,
        );
        Ok(MongodbDestination::new(database_name, client_options, self.write_options))
    }

    /// Makes the destination. The pool sizes that were not given follow
    /// from the number of cores of this machine, which is at least one.
    pub fn build(self) -> (built: TuxedoResult<MongodbDestination>)
        ensures
            exists|cpus: usize|
                cpus >= 1 && destination_outcome_is(
                    built,
                    #[trigger] assembled_destination_spec(self@, cpus),
                ),
    {
        let cpus = available_threads();
        self.assemble(cpus)
    }
}

} // verus!
