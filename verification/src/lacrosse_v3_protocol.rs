//! LaCrosse V3 records as protocol records for the day store.

use vstd::prelude::*;
use chrono::NaiveDateTime;
pub use crate::domain::lacrosse_v3_protocol::LaCrosseData;
use crate::domain::lacrosse_v3_protocol::{decode, decrypt, LacrosseError, LacrosseFailure};
use crate::domain::raw_frame::{fields, RawFrame, RawFrameView};
use crate::errors::{RfError, RfFailure};
use crate::models::{IntervalRow, RfData, RfDataDao};
use crate::text::is_text;

verus! {

/// A temperature change of this many tenths of a degree or more is kept.
pub const TEMPERATURE_STEP: i64 = 2;

/// Whether the third field of a line is `DEBUG` and its fourth `Pulses=511`.
pub open spec fn is_valid(data: Seq<char>) -> bool {
    let f = fields(data);
    f.len() >= 4 && f[2] == "DEBUG"@ && f[3] == "Pulses=511"@
}

pub fn is_valid_raw(raw: &RawFrame) -> (b: bool)
    ensures
        b == is_valid(raw.data@),
{
    let signal = raw.to_vec();
    if signal.len() < 4 {
        false
    } else {
        is_text(&signal[2], "DEBUG") && is_text(&signal[3], "Pulses=511")
    }
}

/// The gateway's name for a failure of the codec.
pub open spec fn failure(e: LacrosseFailure) -> RfFailure {
    match e {
        LacrosseFailure::InvalidFrameError => RfFailure::NoValidFrame,
        LacrosseFailure::ParsingFrameError { value } => RfFailure::ParsingFrameError { value },
    }
}

impl RfData for LaCrosseData {
    open spec fn decoded(raw: RawFrameView, r: Result<LaCrosseData, RfError>) -> bool {
        match r {
            Ok(data) => decode(raw) == Ok::<
                crate::domain::lacrosse_v3_protocol::LaCrosseReading,
                LacrosseFailure,
            >(data@),
            Err(e) => decode(raw) matches Err(source) && e@ == failure(source),
        }
    }

    open spec fn date(&self) -> NaiveDateTime {
        self.timestamp
    }

    open spec fn id(&self) -> Seq<char> {
        self.sensor_id@
    }

    open spec fn differs(&self, other: &LaCrosseData) -> bool {
        ||| self.temperature - other.temperature >= TEMPERATURE_STEP
        ||| other.temperature - self.temperature >= TEMPERATURE_STEP
        ||| self.humidity != other.humidity
    }

    open spec fn row(&self) -> IntervalRow {
        IntervalRow {
            id: self.sensor_id@,
            protocol: "lacrosse_v3"@,
            dt_start: self.timestamp,
            dt_end: None,
            temperature: Some(self.temperature),
            humidity: Some(self.humidity),
        }
    }

    fn from_raw(raw: &RawFrame) -> (r: Result<LaCrosseData, RfError>) {
        match decrypt(raw) {
            Ok(data) => Ok(data),
            Err(LacrosseError::InvalidFrameError) => Err(RfError::NoValidFrame),
            Err(LacrosseError::ParsingFrameError { value }) => Err(
                RfError::ParsingFrameError { value },
            ),
        }
    }

    fn get_date(&self) -> (date: NaiveDateTime) {
        self.timestamp
    }

    fn get_id(&self) -> (id: String) {
        self.sensor_id.clone()
    }

    fn values_is_diff(&self, other: &LaCrosseData) -> (b: bool) {
        let warmer = match self.temperature.checked_sub(other.temperature) {
            Some(diff) => diff >= TEMPERATURE_STEP || diff <= -TEMPERATURE_STEP,
            None => true,
        };
        warmer || self.humidity != other.humidity
    }

    fn to_dao(&self) -> (dao: RfDataDao) {
        RfDataDao {
            id: self.sensor_id.clone(),
            protocol: "lacrosse_v3".to_owned(),
            dt_start: self.timestamp,
            dt_end: None,
            temperature: Some(self.temperature),
            humidity: Some(self.humidity),
        }
    }
}

} // verus!
