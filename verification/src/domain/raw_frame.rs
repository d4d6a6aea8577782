//! A line of text as it came from the receiver, with the time of receipt.

use vstd::prelude::*;
use chrono::NaiveDateTime;
use crate::clock::now;
use crate::text::{is_text, split, split_chars, texts, to_chars, to_text};

verus! {

/// The mathematical value of a `RawFrame`.
pub struct RawFrameView {
    pub data: Seq<char>,
    pub timestamp: NaiveDateTime,
}

/// One received line and the moment it was received.
#[derive(Debug, PartialEq)]
pub struct RawFrame {
    pub data: String,
    pub timestamp: NaiveDateTime,
}

/// The character that separates the fields of a line.
pub const FIELD_SEPARATOR: char = ';';

/// The number of characters in front of the pulse list in the payload field,
/// as in `Pulses(uSec)=`.
pub const PAYLOAD_OFFSET: usize = 13;

/// The index of the payload field.
pub const PAYLOAD_FIELD: usize = 4;

/// The fields of a line.
pub open spec fn fields(data: Seq<char>) -> Seq<Seq<char>> {
    split(data, FIELD_SEPARATOR)
}

/// The debug payload of a line: what follows the first `PAYLOAD_OFFSET`
/// characters of the payload field. A line without that field, or with a
/// shorter one, has no payload.
pub open spec fn debug_data(data: Seq<char>) -> Option<Seq<char>> {
    let f = fields(data);
    if f.len() > PAYLOAD_FIELD && f[PAYLOAD_FIELD as int].len() >= PAYLOAD_OFFSET {
        Some(f[PAYLOAD_FIELD as int].skip(PAYLOAD_OFFSET as int))
    } else {
        None
    }
}

/// Whether the line answers a request to switch debug output on.
pub open spec fn debug_engaged(data: Seq<char>) -> bool {
    let f = fields(data);
    f.len() > 2 && f[2] == "RFDEBUG=ON"@
}

impl View for RawFrame {
    type V = RawFrameView;

    open spec fn view(&self) -> RawFrameView {
        RawFrameView { data: self.data@, timestamp: self.timestamp }
    }
}

impl Clone for RawFrame {
    fn clone(&self) -> (r: RawFrame)
        ensures
            r@ == self@,
    {
        RawFrame { data: self.data.clone(), timestamp: self.timestamp }
    }
}

impl RawFrame {
    /// A frame holding `data`, stamped with the current local time.
    pub fn new(data: &str) -> (frame: RawFrame)
        ensures
            frame.data@ == data@,
    {
        RawFrame { data: data.to_owned(), timestamp: now() }
    }

    /// A frame holding `data`, stamped with the current local time.
    pub fn from_string(data: String) -> (frame: RawFrame)
        ensures
            frame.data@ == data@,
    {
        RawFrame::new(data.as_str())
    }

    /// The fields of the line.
    pub fn to_vec(&self) -> (v: Vec<Vec<char>>)
        ensures
            texts(v@) == fields(self.data@),
    {
        let chars = to_chars(self.data.as_str());
        split_chars(&chars, FIELD_SEPARATOR)
    }

    pub fn is_debug(&self) -> (b: bool)
        ensures
            b == debug_engaged(self.data@),
    {
        let vec = self.to_vec();
        if vec.len() > 2 {
            is_text(&vec[2], "RFDEBUG=ON")
        } else {
            false
        }
    }

    /// The debug payload of the line, if it has one.
    pub fn get_debug_data(&self) -> (payload: Option<String>)
        ensures
            match payload {
                Some(p) => debug_data(self.data@) == Some(p@),
                None => debug_data(self.data@) is None,
            },
    {
        let raw_vec = self.to_vec();
        if raw_vec.len() > PAYLOAD_FIELD {
            let field = &raw_vec[PAYLOAD_FIELD];
            if field.len() >= PAYLOAD_OFFSET {
                Some(to_text(field, PAYLOAD_OFFSET, field.len()))
            } else {
                None
            }
        } else {
            None
        }
    }
}

} // verus!
