//! The ways in which the gateway as a whole can fail.

use vstd::prelude::*;
use crate::domain::errors::{DomainError, DomainFailure};

verus! {

/// A failure of the gateway. Where the failure came from an outside
/// collaborator, `source` holds what the collaborator said.
#[derive(Debug)]
#[allow(inconsistent_fields)]
pub enum RfError {
    NotImplementedError,
    /// The serial port could not be set up.
    ConfigurationError { source: String },
    /// The serial port could not be read.
    ReadError { source: String },
    /// The receiver did not confirm that it switched to debug output.
    DebugNotEngage,
    /// The bytes received are not UTF-8.
    Utf8RawConvertError,
    /// The frame holds no payload, or no sub-frame of the right length.
    NoValidFrame,
    /// `value` should have been a number and is not.
    ParsingFrameError { value: String },
    /// A setting could not be read.
    ReadEnvError { source: String },
    /// A setting could not be understood.
    ParsingEnvError { value: String },
    /// A value could not be put into its outside form.
    SerialisationError { source: String },
    /// Two workers could not talk to each other.
    ComError { value: String },
    /// The domain gave up a command.
    InternalDomainError { source: DomainError },
    /// There is no database connection.
    DbAccessError { value: String },
    /// The database refused a statement.
    DbError { source: String },
}

/// The mathematical value of an `RfError`.
#[allow(inconsistent_fields)]
pub enum RfFailure {
    NotImplementedError,
    ConfigurationError { source: Seq<char> },
    ReadError { source: Seq<char> },
    DebugNotEngage,
    Utf8RawConvertError,
    NoValidFrame,
    ParsingFrameError { value: Seq<char> },
    ReadEnvError { source: Seq<char> },
    ParsingEnvError { value: Seq<char> },
    SerialisationError { source: Seq<char> },
    ComError { value: Seq<char> },
    InternalDomainError { source: DomainFailure },
    DbAccessError { value: Seq<char> },
    DbError { source: Seq<char> },
}

impl View for RfError {
    type V = RfFailure;

    open spec fn view(&self) -> RfFailure {
        match self {
            RfError::NotImplementedError => RfFailure::NotImplementedError,
            RfError::ConfigurationError { source } => RfFailure::ConfigurationError {
                source: source@,
            },
            RfError::ReadError { source } => RfFailure::ReadError { source: source@ },
            RfError::DebugNotEngage => RfFailure::DebugNotEngage,
            RfError::Utf8RawConvertError => RfFailure::Utf8RawConvertError,
            RfError::NoValidFrame => RfFailure::NoValidFrame,
            RfError::ParsingFrameError { value } => RfFailure::ParsingFrameError { value: value@ },
            RfError::ReadEnvError { source } => RfFailure::ReadEnvError { source: source@ },
            RfError::ParsingEnvError { value } => RfFailure::ParsingEnvError { value: value@ },
            RfError::SerialisationError { source } => RfFailure::SerialisationError {
                source: source@,
            },
            RfError::ComError { value } => RfFailure::ComError { value: value@ },
            RfError::InternalDomainError { source } => RfFailure::InternalDomainError {
                source: source@,
            },
            RfError::DbAccessError { value } => RfFailure::DbAccessError { value: value@ },
            RfError::DbError { source } => RfFailure::DbError { source: source@ },
        }
    }
}

} // verus!
