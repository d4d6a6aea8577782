//! A received line, read by the codec that claims it.

use vstd::prelude::*;
use crate::domain::errors::{DomainError, DomainFailure};
use crate::domain::lacrosse_v3_protocol as lacrosse;
use lacrosse::{LaCrosseData, LaCrosseReading};
use crate::domain::oregon_temp_protocol as oregon;
use oregon::{OregonFailure, OregonReading, OregonTempData};
use crate::domain::raw_frame::{RawFrame, RawFrameView};
use crate::domain::sensor::{observations, Observation, SensorValue};
use crate::domain::sensor_value_type::ValueTypeError;

verus! {

/// One radio transmission: decoded by the protocol that recognised it, or kept
/// as it came when none did.
#[derive(Debug, PartialEq)]
pub enum Frame {
    LaCrosseV3(LaCrosseData),
    OregonSc(OregonTempData),
    Unknown(RawFrame),
}

/// The mathematical value of a `Frame`.
pub enum FrameView {
    LaCrosseV3(LaCrosseReading),
    OregonSc(OregonReading),
    Unknown(RawFrameView),
}

impl View for Frame {
    type V = FrameView;

    open spec fn view(&self) -> FrameView {
        match self {
            Frame::LaCrosseV3(data) => FrameView::LaCrosseV3(data@),
            Frame::OregonSc(data) => FrameView::OregonSc(data@),
            Frame::Unknown(raw) => FrameView::Unknown(raw@),
        }
    }
}

/// The view of the outcome of reading a line.
pub open spec fn reading_view(r: Result<Frame, DomainError>) -> Result<FrameView, DomainFailure> {
    match r {
        Ok(frame) => Ok(frame@),
        Err(e) => Err(e@),
    }
}

/// Whether `r` is an outcome of reading the line `raw`. The LaCrosse codec is
/// asked first, then the Oregon codec; the first that recognises the line
/// decodes it, and its failure is the outcome's failure. A line that neither
/// recognises is kept as it is, which is no failure. An Oregon reading carries
/// the time at which it was decoded, so a line has more than one outcome.
pub open spec fn decrypted(raw: RawFrameView, r: Result<FrameView, DomainFailure>) -> bool {
    if lacrosse::is_valid(raw.data) {
        r == match lacrosse::decode(raw) {
            Ok(reading) => Ok::<FrameView, DomainFailure>(FrameView::LaCrosseV3(reading)),
            Err(source) => Err(DomainFailure::InternalLacrosseError { source }),
        }
    } else if oregon::is_valid(raw.data) {
        match r {
            Ok(FrameView::OregonSc(reading)) => oregon::decode(
                raw.data,
                reading.timestamp,
            ) == Ok::<OregonReading, OregonFailure>(reading),
            Err(DomainFailure::InternalOregonError { source }) => {
                oregon::decode(raw.data, raw.timestamp) == Err::<
                    OregonReading,
                    OregonFailure,
                >(source)
            },
            _ => false,
        }
    } else {
        r == Ok::<FrameView, DomainFailure>(FrameView::Unknown(raw))
    }
}

/// The observations that a frame yields; an unknown frame yields none.
pub open spec fn frame_values(frame: FrameView) -> Result<Seq<Observation>, ValueTypeError> {
    match frame {
        FrameView::Unknown(_) => Ok(Seq::empty()),
        FrameView::LaCrosseV3(reading) => lacrosse::sensor_values(
            reading,
        ),
        FrameView::OregonSc(reading) => oregon::sensor_values(
            reading,
        ),
    }
}

impl Frame {
    pub fn decrypt_raw(raw: &RawFrame) -> (r: Result<Frame, DomainError>)
        ensures
            decrypted(raw@, reading_view(r)),
    {
        if lacrosse::is_valid_raw(raw) {
            match LaCrosseData::from_raw(raw) {
                Ok(data) => Ok(Frame::LaCrosseV3(data)),
                Err(source) => Err(DomainError::InternalLacrosseError { source }),
            }
        } else if oregon::is_valid_raw(raw) {
            match OregonTempData::from_raw(raw) {
                Ok(data) => Ok(Frame::OregonSc(data)),
                Err(source) => Err(DomainError::InternalOregonError { source }),
            }
        } else {
            Ok(Frame::Unknown(raw.clone()))
        }
    }

    pub fn obtain_sensor_values(&self) -> (r: Result<Vec<SensorValue>, ValueTypeError>)
        ensures
            match r {
                Ok(values) => frame_values(self@) == Ok::<Seq<Observation>, ValueTypeError>(
                    observations(values@),
                ),
                Err(e) => frame_values(self@) == Err::<Seq<Observation>, ValueTypeError>(e),
            },
    {
        match self {
            Frame::Unknown(_) => {
                let values: Vec<SensorValue> = Vec::new();
                assert(observations(values@) == Seq::<Observation>::empty());
                Ok(values)
            },
            Frame::LaCrosseV3(f) => f.to_sensors_values(),
            Frame::OregonSc(f) => f.to_sensors_values(),
        }
    }
}

/// No line is claimed by both codecs.
pub proof fn law_codecs_exclusive(data: Seq<char>)
    ensures
        !(lacrosse::is_valid(data)
            && oregon::is_valid(data)),
{
    reveal_strlit("DEBUG");
    reveal_strlit("Oregon Temp");
    assert("DEBUG"@.len() != "Oregon Temp"@.len());
}

/// A line that neither codec claims is read as an unknown frame holding the
/// line, never as a failure.
pub proof fn law_unclaimed_is_unknown(raw: RawFrameView, r: Result<FrameView, DomainFailure>)
    requires
        !lacrosse::is_valid(raw.data),
        !oregon::is_valid(raw.data),
        decrypted(raw, r),
    ensures
        r == Ok::<FrameView, DomainFailure>(FrameView::Unknown(raw)),
{
}

} // verus!
