//! Records as the persistence layer sees them, and what a protocol record must
//! offer to be kept in the day store.

use vstd::prelude::*;
use vstd::utf8::{decode_utf8, valid_utf8};
use chrono::NaiveDateTime;
use std::string::FromUtf8Error;
pub use crate::domain::raw_frame::RawFrame;
use crate::domain::raw_frame::RawFrameView;
use crate::errors::RfError;

verus! {

/// `std::string::FromUtf8Error`, which says why some bytes are not UTF-8.
#[verifier::external_type_specification]
#[verifier::external_body]
pub struct ExFromUtf8Error(std::string::FromUtf8Error);

/// `String::from_utf8` turns bytes that are valid UTF-8 into the string that
/// they encode, and refuses all other bytes.
#[verifier::external_body]
pub(crate) fn string_from_utf8(data: Vec<u8>) -> (r: Result<String, FromUtf8Error>)
    ensures
        match r {
            Ok(s) => valid_utf8(data@) && s@ == decode_utf8(data@),
            Err(_) => !valid_utf8(data@),
        },
{
    String::from_utf8(data)
}

impl RawFrame {
    /// A frame holding the text that `data` encodes, stamped with the current
    /// local time.
    pub fn from_utf8(data: Vec<u8>) -> (r: Result<RawFrame, RfError>)
        ensures
            match r {
                Ok(frame) => valid_utf8(data@) && frame.data@ == decode_utf8(data@),
                Err(e) => !valid_utf8(data@) && e is Utf8RawConvertError,
            },
    {
        match string_from_utf8(data) {
            Ok(text) => Ok(RawFrame::from_string(text)),
            Err(_) => Err(RfError::Utf8RawConvertError),
        }
    }
}

/// One interval row of the sensor table: a value that holds from `dt_start`
/// until `dt_end`, or still holds when there is no `dt_end`.
#[derive(Debug)]
pub struct RfDataDao {
    pub id: String,
    pub protocol: String,
    pub dt_start: NaiveDateTime,
    pub dt_end: Option<NaiveDateTime>,
    /// The temperature in tenths of a degree Celsius.
    pub temperature: Option<i64>,
    /// The relative humidity in percent.
    pub humidity: Option<u32>,
}

/// The mathematical value of an `RfDataDao`.
pub struct IntervalRow {
    pub id: Seq<char>,
    pub protocol: Seq<char>,
    pub dt_start: NaiveDateTime,
    pub dt_end: Option<NaiveDateTime>,
    pub temperature: Option<i64>,
    pub humidity: Option<u32>,
}

impl View for RfDataDao {
    type V = IntervalRow;

    open spec fn view(&self) -> IntervalRow {
        IntervalRow {
            id: self.id@,
            protocol: self.protocol@,
            dt_start: self.dt_start,
            dt_end: self.dt_end,
            temperature: self.temperature,
            humidity: self.humidity,
        }
    }
}

/// A protocol record: what one frame of some protocol says.
pub trait RfData: Sized {
    /// Whether `r` is an outcome of decoding `raw`.
    spec fn decoded(raw: RawFrameView, r: Result<Self, RfError>) -> bool;

    /// The moment of the record.
    spec fn date(&self) -> NaiveDateTime;

    /// The identifier of the probe.
    spec fn id(&self) -> Seq<char>;

    /// Whether the values of `other` differ from those of `self` enough to be
    /// kept.
    spec fn differs(&self, other: &Self) -> bool;

    /// The interval row that the record opens.
    spec fn row(&self) -> IntervalRow;

    fn from_raw(raw: &RawFrame) -> (r: Result<Self, RfError>)
        ensures
            Self::decoded(raw@, r),
    ;

    fn get_date(&self) -> (date: NaiveDateTime)
        ensures
            date == self.date(),
    ;

    fn get_id(&self) -> (id: String)
        ensures
            id@ == self.id(),
    ;

    fn values_is_diff(&self, other: &Self) -> (b: bool)
        ensures
            b == self.differs(other),
    ;

    fn to_dao(&self) -> (dao: RfDataDao)
        ensures
            dao@ == self.row(),
    ;
}

} // verus!
