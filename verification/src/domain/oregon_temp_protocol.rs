//! The Oregon temperature codec. A frame is a line of `;`-separated fields that
//! carry the probe's identifier, its temperature in hexadecimal tenths of a
//! degree, and the state of its battery, each behind a fixed-length label.

use vstd::prelude::*;
use chrono::NaiveDateTime;
use crate::clock::now;
use crate::domain::raw_frame::{fields, RawFrame};
use crate::domain::sensor::{observations, Observation, SensorValue};
use crate::domain::sensor_identifier::{SensorIdentifier, SensorKey};
use crate::domain::sensor_value_type::{
    Measure, SensorValueType, Temperature, ValueType, ValueTypeError,
};
use crate::text::{is_text, parse_i64, parse_int, slice_chars, text_of, texts};

verus! {

/// Why a frame could not be decoded.
#[derive(Debug)]
pub enum OregonError {
    /// A field is missing, or is shorter than its label.
    InvalidFrameError,
    /// `value` should have been a hexadecimal number and is not.
    ParsingFrameError { value: String },
}

/// The mathematical value of an `OregonError`.
pub enum OregonFailure {
    InvalidFrameError,
    ParsingFrameError { value: Seq<char> },
}

impl View for OregonError {
    type V = OregonFailure;

    open spec fn view(&self) -> OregonFailure {
        match self {
            OregonError::InvalidFrameError => OregonFailure::InvalidFrameError,
            OregonError::ParsingFrameError { value } => OregonFailure::ParsingFrameError {
                value: value@,
            },
        }
    }
}

/// What one Oregon frame says.
#[derive(Debug, PartialEq)]
pub struct OregonTempData {
    pub sensor_id: String,
    /// The temperature in tenths of a degree Celsius.
    pub temperature: i64,
    pub battery_state: String,
    pub timestamp: NaiveDateTime,
}

/// The mathematical value of an `OregonTempData`.
pub struct OregonReading {
    pub sensor_id: Seq<char>,
    pub temperature: i64,
    pub battery_state: Seq<char>,
    pub timestamp: NaiveDateTime,
}

impl View for OregonTempData {
    type V = OregonReading;

    open spec fn view(&self) -> OregonReading {
        OregonReading {
            sensor_id: self.sensor_id@,
            temperature: self.temperature,
            battery_state: self.battery_state@,
            timestamp: self.timestamp,
        }
    }
}

/// The index of the identifier field, and the length of its label `ID=`.
pub const ID_FIELD: usize = 3;

pub const ID_OFFSET: usize = 3;

/// The index of the temperature field, and the length of its label `TEMP=`.
pub const TEMPERATURE_FIELD: usize = 4;

pub const TEMPERATURE_OFFSET: usize = 5;

/// The index of the battery field, and the length of its label `BAT=`.
pub const BATTERY_FIELD: usize = 5;

pub const BATTERY_OFFSET: usize = 4;

/// Whether a line is an Oregon temperature frame: its third field is
/// `Oregon Temp`.
pub open spec fn is_valid(data: Seq<char>) -> bool {
    let f = fields(data);
    f.len() > 2 && f[2] == "Oregon Temp"@
}

/// What follows the label of field `index`, if the line has that field and
/// the field is at least as long as the label.
pub open spec fn labelled(f: Seq<Seq<char>>, index: int, offset: int) -> Option<Seq<char>> {
    if 0 <= index < f.len() && 0 <= offset <= f[index].len() {
        Some(f[index].skip(offset))
    } else {
        None
    }
}

/// The temperature that a hexadecimal text denotes, if it denotes one that
/// fits in `i64`.
pub open spec fn hex_value(text: Seq<char>) -> Option<i64> {
    match parse_int(text, 16) {
        Some(v) => if i64::MIN <= v <= i64::MAX {
            Some(v as i64)
        } else {
            None
        },
        None => None,
    }
}

/// What a line says when read as an Oregon temperature frame at the moment
/// `timestamp`. The temperature is read first: a line whose temperature is
/// unreadable is reported as such even if other fields are missing.
pub open spec fn decode(data: Seq<char>, timestamp: NaiveDateTime) -> Result<
    OregonReading,
    OregonFailure,
> {
    let f = fields(data);
    match labelled(f, TEMPERATURE_FIELD as int, TEMPERATURE_OFFSET as int) {
        None => Err(OregonFailure::InvalidFrameError),
        Some(hex) => match hex_value(hex) {
            None => Err(OregonFailure::ParsingFrameError { value: hex }),
            Some(temperature) => match (
                labelled(f, ID_FIELD as int, ID_OFFSET as int),
                labelled(f, BATTERY_FIELD as int, BATTERY_OFFSET as int),
            ) {
                (Some(sensor_id), Some(battery_state)) => Ok(
                    OregonReading { sensor_id, temperature, battery_state, timestamp },
                ),
                _ => Err(OregonFailure::InvalidFrameError),
            },
        },
    }
}

/// The observation that a reading yields: its temperature, under the probe's
/// identifier and the protocol's name. A temperature out of range is reported.
pub open spec fn sensor_values(reading: OregonReading) -> Result<Seq<Observation>, ValueTypeError> {
    if !Temperature::valid(reading.temperature) {
        Err(ValueTypeError::InvalidTemperature { value: reading.temperature })
    } else {
        Ok(
            seq![
                Observation {
                    id: SensorKey {
                        probe_id: reading.sensor_id,
                        protocol: "oregon_temp"@,
                        probe_value_name: "temperature"@,
                    },
                    timestamp: reading.timestamp,
                    value: Measure::Temperature(reading.temperature),
                },
            ],
        )
    }
}

pub fn is_valid_raw(raw: &RawFrame) -> (b: bool)
    ensures
        b == is_valid(raw.data@),
{
    let splitted = raw.to_vec();
    if splitted.len() > 2 {
        is_text(&splitted[2], "Oregon Temp")
    } else {
        false
    }
}

/// What follows the label of field `index`.
fn after_label(splitted: &Vec<Vec<char>>, index: usize, offset: usize) -> (r: Option<Vec<char>>)
    ensures
        match r {
            Some(v) => labelled(texts(splitted@), index as int, offset as int) == Some(v@),
            None => labelled(texts(splitted@), index as int, offset as int) is None,
        },
{
    if index < splitted.len() {
        let field = &splitted[index];
        if offset <= field.len() {
            Some(slice_chars(field, offset, field.len()))
        } else {
            None
        }
    } else {
        None
    }
}

impl OregonTempData {
    fn get_protocol() -> (name: String)
        ensures
            name@ == "oregon_temp"@,
    {
        "oregon_temp".to_owned()
    }

    pub fn to_sensors_values(&self) -> (r: Result<Vec<SensorValue>, ValueTypeError>)
        ensures
            match r {
                Ok(values) => sensor_values(self@) == Ok::<Seq<Observation>, ValueTypeError>(
                    observations(values@),
                ),
                Err(e) => sensor_values(self@) == Err::<Seq<Observation>, ValueTypeError>(e),
            },
    {
        let temp_id = SensorIdentifier::new(
            self.sensor_id.as_str(),
            OregonTempData::get_protocol().as_str(),
            "temperature",
        );
        match Temperature::create(self.temperature) {
            Ok(t) => {
                let temp_value = SensorValue {
                    id: temp_id,
                    timestamp: self.timestamp,
                    value: SensorValueType::Temperature(t),
                };
                let ghost only = temp_value@;
                let mut values: Vec<SensorValue> = Vec::new();
                values.push(temp_value);
                assert(observations(values@) == seq![only]);
                Ok(values)
            },
            Err(e) => Err(e),
        }
    }

    /// Reads a line as an Oregon temperature frame, at the current local time.
    pub fn from_raw(raw: &RawFrame) -> (r: Result<OregonTempData, OregonError>)
        ensures
            match r {
                Ok(data) => decode(raw.data@, data.timestamp) == Ok::<
                    OregonReading,
                    OregonFailure,
                >(data@),
                Err(e) => forall|timestamp: NaiveDateTime| #[trigger]
                    decode(raw.data@, timestamp) == Err::<OregonReading, OregonFailure>(e@),
            },
    {
        OregonTempData::from_raw_at(raw, now())
    }

    /// Reads a line as an Oregon temperature frame, at the moment `timestamp`.
    pub fn from_raw_at(raw: &RawFrame, timestamp: NaiveDateTime) -> (r: Result<
        OregonTempData,
        OregonError,
    >)
        ensures
            match r {
                Ok(data) => decode(raw.data@, timestamp) == Ok::<OregonReading, OregonFailure>(
                    data@,
                ),
                Err(e) => forall|at: NaiveDateTime| #[trigger]
                    decode(raw.data@, at) == Err::<OregonReading, OregonFailure>(e@),
            },
    {
        let splitted = raw.to_vec();
        let hex = match after_label(&splitted, TEMPERATURE_FIELD, TEMPERATURE_OFFSET) {
            Some(hex) => hex,
            None => {
                return Err(OregonError::InvalidFrameError);
            },
        };
        let extract_value = match parse_i64(&hex, 16) {
            Some(v) => v,
            None => {
                return Err(OregonError::ParsingFrameError { value: text_of(&hex) });
            },
        };
        let sensor_id = match after_label(&splitted, ID_FIELD, ID_OFFSET) {
            Some(id) => id,
            None => {
                return Err(OregonError::InvalidFrameError);
            },
        };
        let battery_state = match after_label(&splitted, BATTERY_FIELD, BATTERY_OFFSET) {
            Some(state) => state,
            None => {
                return Err(OregonError::InvalidFrameError);
            },
        };
        Ok(
            OregonTempData {
                sensor_id: text_of(&sensor_id),
                temperature: extract_value,
                battery_state: text_of(&battery_state),
                timestamp,
            },
        )
    }
}

} // verus!
