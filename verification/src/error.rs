//! The error kinds that the engine reports.
use vstd::prelude::*;

verus! {

/// What went wrong, by kind. Each variant carries a message for the log.
#[derive(Debug, Clone)]
pub enum TuxedoError {
    /// A fault inside a batch worker that no other kind describes.
    TaskError(String),
    /// A required setting is missing or cannot be used.
    ConfigError(String),
    /// An adapter did not answer its liveness probe.
    ConnectionError(String),
    /// The store's driver failed on a read, write, index or clear call.
    Database(String),
    /// A record could not be decoded or encoded.
    Serialization(String),
    /// The task channel closed while a producer was still sending.
    DispatchClosed(String),
    /// An index description could not be produced.
    IndexError(String),
    /// Any other reported fault.
    Generic(String),
}

pub type TuxedoResult<T> = Result<T, TuxedoError>;

/// The kind of an error, without its message.
#[derive(Debug, Clone, Copy, PartialEq, Eq, Structural)]
pub enum ErrorKind {
    Task,
    Config,
    Connection,
    Database,
    Serialization,
    DispatchClosed,
    Index,
    Generic,
}

impl TuxedoError {
    /// The message carried by the error.
    pub open spec fn message_spec(self) -> Seq<char> {
        match self {
            TuxedoError::TaskError(m) => m@,
            TuxedoError::ConfigError(m) => m@,
            TuxedoError::ConnectionError(m) => m@,
            TuxedoError::Database(m) => m@,
            TuxedoError::Serialization(m) => m@,
            TuxedoError::DispatchClosed(m) => m@,
            TuxedoError::IndexError(m) => m@,
            TuxedoError::Generic(m) => m@,
        }
    }

    pub open spec fn kind_spec(self) -> ErrorKind {
        match self {
            TuxedoError::TaskError(_) => ErrorKind::Task,
            TuxedoError::ConfigError(_) => ErrorKind::Config,
            TuxedoError::ConnectionError(_) => ErrorKind::Connection,
            TuxedoError::Database(_) => ErrorKind::Database,
            TuxedoError::Serialization(_) => ErrorKind::Serialization,
            TuxedoError::DispatchClosed(_) => ErrorKind::DispatchClosed,
            TuxedoError::IndexError(_) => ErrorKind::Index,
            TuxedoError::Generic(_) => ErrorKind::Generic,
        }
    }

    pub fn kind(&self) -> (kind: ErrorKind)
        ensures
            kind == self.kind_spec(),
    {
        match self {
            TuxedoError::TaskError(_) => ErrorKind::Task,
            TuxedoError::ConfigError(_) => ErrorKind::Config,
            TuxedoError::ConnectionError(_) => ErrorKind::Connection,
            TuxedoError::Database(_) => ErrorKind::Database,
            TuxedoError::Serialization(_) => ErrorKind::Serialization,
            TuxedoError::DispatchClosed(_) => ErrorKind::DispatchClosed,
            TuxedoError::IndexError(_) => ErrorKind::Index,
            TuxedoError::Generic(_) => ErrorKind::Generic,
        }
    }

    /// Whether an error of this kind ends the whole run when it comes from
    /// the start-up steps.
    pub fn is_fatal_at_start(&self) -> (fatal: bool)
        ensures
            fatal == (self.kind_spec() == ErrorKind::Config || self.kind_spec()
                == ErrorKind::Connection || self.kind_spec() == ErrorKind::Database),
    {
        match self {
            TuxedoError::ConfigError(_) => true,
            TuxedoError::ConnectionError(_) => true,
            TuxedoError::Database(_) => true,
            _ => false,
        }
    }

    pub fn message(&self) -> (message: String)
        ensures
            message@ == self.message_spec(),
    {
        match self {
            TuxedoError::TaskError(m) => m.clone(),
            TuxedoError::ConfigError(m) => m.clone(),
            TuxedoError::ConnectionError(m) => m.clone(),
            TuxedoError::Database(m) => m.clone(),
            TuxedoError::Serialization(m) => m.clone(),
            TuxedoError::DispatchClosed(m) => m.clone(),
            TuxedoError::IndexError(m) => m.clone(),
            TuxedoError::Generic(m) => m.clone(),
        }
    }
}

} // verus!
