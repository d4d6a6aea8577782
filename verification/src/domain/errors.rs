//! The ways in which handling a command can fail.

use vstd::prelude::*;
use crate::domain::lacrosse_v3_protocol::{LacrosseError, LacrosseFailure};
use crate::domain::oregon_temp_protocol::{OregonError, OregonFailure};
use crate::domain::sensor_value_type::ValueTypeError;

verus! {

/// Why a command was given up.
#[derive(Debug)]
#[allow(inconsistent_fields)]
pub enum DomainError {
    /// A decoded value is out of range, or a temperature met a humidity.
    InvalidSensorValueError { source: ValueTypeError },
    /// A LaCrosse frame could not be decoded.
    InternalLacrosseError { source: LacrosseError },
    /// An Oregon frame could not be decoded.
    InternalOregonError { source: OregonError },
    /// A query could not hand its answer over.
    DataExtractionError { value: String },
    /// A value could not be put into its outside form.
    DataFormatingError { value: String },
    /// The outside refused a message.
    ExternalMessageError { value: String },
}

/// The mathematical value of a `DomainError`.
#[allow(inconsistent_fields)]
pub enum DomainFailure {
    InvalidSensorValueError { source: ValueTypeError },
    InternalLacrosseError { source: LacrosseFailure },
    InternalOregonError { source: OregonFailure },
    DataExtractionError { value: Seq<char> },
    DataFormatingError { value: Seq<char> },
    ExternalMessageError { value: Seq<char> },
}

impl View for DomainError {
    type V = DomainFailure;

    open spec fn view(&self) -> DomainFailure {
        match self {
            DomainError::InvalidSensorValueError { source } => {
                DomainFailure::InvalidSensorValueError { source: *source }
            },
            DomainError::InternalLacrosseError { source } => DomainFailure::InternalLacrosseError {
                source: source@,
            },
            DomainError::InternalOregonError { source } => DomainFailure::InternalOregonError {
                source: source@,
            },
            DomainError::DataExtractionError { value } => DomainFailure::DataExtractionError {
                value: value@,
            },
            DomainError::DataFormatingError { value } => DomainFailure::DataFormatingError {
                value: value@,
            },
            DomainError::ExternalMessageError { value } => DomainFailure::ExternalMessageError {
                value: value@,
            },
        }
    }
}

} // verus!
