//! The receiver's side of the serial link: how bytes are cut into lines, and
//! how the conversation with the receiver goes. The link itself is opened, read
//! and written elsewhere; this module only looks at what was read and says what
//! to do about it.

use vstd::prelude::*;
use vstd::string::StringSliceAdditionalSpecFns;
use vstd::utf8::{decode_utf8, valid_utf8};
use bytes::BytesMut;
use crate::errors::RfError;
use crate::models::string_from_utf8;
use crate::text::{contains, occurs, to_chars};

verus! {

/// `bytes::BytesMut`, a growable buffer of bytes.
#[verifier::external_type_specification]
#[verifier::external_body]
pub struct ExBytesMut(bytes::BytesMut);

/// The bytes that a buffer holds, first to last.
pub uninterp spec fn buffered(buffer: BytesMut) -> Seq<u8>;

/// `BytesMut::as_ref` gives the bytes of the buffer as a slice.
#[verifier::external_body]
fn contents(buffer: &BytesMut) -> (bytes: &[u8])
    ensures
        bytes@ == buffered(*buffer),
{
    buffer.as_ref()
}

/// `BytesMut::split_to` takes the first `at` bytes out of the buffer and leaves
/// the rest in it. It panics when the buffer holds fewer than `at` bytes.
#[verifier::external_body]
fn split_front(buffer: &mut BytesMut, at: usize) -> (front: Vec<u8>)
    requires
        at <= buffered(*old(buffer)).len(),
    ensures
        front@ == buffered(*old(buffer)).subrange(0, at as int),
        buffered(*final(buffer)) == buffered(*old(buffer)).subrange(
            at as int,
            buffered(*old(buffer)).len() as int,
        ),
{
    buffer.split_to(at).to_vec()
}

/// `BytesMut::extend_from_slice` appends the bytes to the buffer, which grows
/// as needed.
#[verifier::external_body]
fn extend(buffer: &mut BytesMut, bytes: &[u8])
    requires
        buffered(*old(buffer)).len() + bytes@.len() <= usize::MAX,
    ensures
        buffered(*final(buffer)) == buffered(*old(buffer)) + bytes@,
{
    buffer.extend_from_slice(bytes)
}

/// The byte that ends a line.
pub const NEWLINE: u8 = 10;

/// The index of the first line end in `bytes`, if there is one.
pub open spec fn line_end(bytes: Seq<u8>) -> Option<int> {
    if exists|i: int| 0 <= i < bytes.len() && bytes[i] == NEWLINE {
        Some(
            choose|i: int|
                0 <= i < bytes.len() && bytes[i] == NEWLINE && forall|j: int|
                    0 <= j < i ==> bytes[j] != NEWLINE,
        )
    } else {
        None
    }
}

/// The length of the first line in `bytes`, its line end included.
fn first_line_length(bytes: &[u8]) -> (r: Option<usize>)
    ensures
        match r {
            Some(length) => line_end(bytes@) == Some(length - 1) && length <= bytes@.len(),
            None => line_end(bytes@) is None,
        },
{
    let mut i: usize = 0;
    while i < bytes.len()
        invariant
            i <= bytes@.len(),
            forall|j: int| 0 <= j < i ==> bytes@[j] != NEWLINE,
        decreases bytes@.len() - i,
    {
        if bytes[i] == NEWLINE {
            return Some(i + 1);
        }
        i += 1;
    }
    None
}

/// Takes the first line out of the buffer: the bytes up to and including the
/// first line end, as text. A buffer without a line end is left as it is. A
/// line that is not UTF-8 is taken out all the same, and reported.
pub fn decode(src: &mut BytesMut) -> (r: Result<Option<String>, RfError>)
    ensures
        match line_end(buffered(*old(src))) {
            None => r matches Ok(None) && buffered(*final(src)) == buffered(*old(src)),
            Some(n) => {
                let line = buffered(*old(src)).take(n + 1);
                &&& buffered(*final(src)) == buffered(*old(src)).skip(n + 1)
                &&& match r {
                    Ok(Some(text)) => valid_utf8(line) && text@ == decode_utf8(line),
                    Ok(None) => false,
                    Err(e) => !valid_utf8(line) && e is Utf8RawConvertError,
                }
            },
        },
{
    match first_line_length(contents(src)) {
        None => Ok(None),
        Some(length) => {
            let line = split_front(src, length);
            match string_from_utf8(line) {
                Ok(text) => Ok(Some(text)),
                Err(_) => Err(RfError::Utf8RawConvertError),
            }
        },
    }
}

/// Puts a line into the buffer: the text, then a line end. A line that would
/// make the buffer longer than any buffer can be is refused.
pub fn encode(item: &str, dst: &mut BytesMut) -> (r: Result<(), RfError>)
    ensures
        match r {
            Ok(_) => buffered(*final(dst)) == buffered(*old(dst)) + item.spec_bytes() + seq![
                NEWLINE,
            ],
            Err(e) => buffered(*final(dst)) == buffered(*old(dst)) && e is ComError
                && buffered(*old(dst)).len() + item.spec_bytes().len() + 1 > usize::MAX,
        },
{
    let held: usize = contents(dst).len();
    let bytes = item.as_bytes();
    if bytes.len() >= usize::MAX - held {
        return Err(RfError::ComError { value: "line too long".to_owned() });
    }
    extend(dst, bytes);
    let end: [u8; 1] = [NEWLINE];
    extend(dst, end.as_slice());
    Ok(())
}

/// What is sent to the receiver to switch its debug output on. It is sent as
/// a line, so a line end follows it on the wire.
pub open spec fn debug_request() -> Seq<char> {
    "10;rfdebug=on;\r\n"@
}

/// Whether a line confirms that debug output is on.
pub open spec fn confirms_debug(line: Seq<char>) -> bool {
    occurs(line, "RFDEBUG=ON"@)
}

/// Where the conversation with the receiver stands.
#[derive(Debug, Clone, Copy, PartialEq, Eq, Structural)]
pub enum LinkState {
    /// Waiting for the receiver's greeting.
    Greeting,
    /// The request for debug output was sent; waiting for the answer.
    Requested,
    /// Debug output is on; every line is a frame.
    Streaming,
    /// The conversation is over.
    Closed,
}

/// What the link gave.
#[derive(Debug)]
pub enum LinkEvent {
    /// A line was read.
    Line(String),
    /// Reading failed.
    Failed,
    /// The link will give no more lines.
    Ended,
}

/// What to do next.
#[derive(Debug)]
pub enum LinkAction {
    /// Send this line to the receiver.
    Send(String),
    /// Tell whoever started the conversation that debug output is on.
    Engaged,
    /// Hand this line to the domain as incoming data.
    Forward(String),
    /// Tell whoever started the conversation that debug output is not on, or
    /// no longer.
    NotEngaged,
}

/// The mathematical value of a `LinkEvent`.
pub enum LinkEventView {
    Line(Seq<char>),
    Failed,
    Ended,
}

/// The mathematical value of a `LinkAction`.
pub enum LinkActionView {
    Send(Seq<char>),
    Engaged,
    Forward(Seq<char>),
    NotEngaged,
}

impl View for LinkEvent {
    type V = LinkEventView;

    open spec fn view(&self) -> LinkEventView {
        match self {
            LinkEvent::Line(line) => LinkEventView::Line(line@),
            LinkEvent::Failed => LinkEventView::Failed,
            LinkEvent::Ended => LinkEventView::Ended,
        }
    }
}

impl View for LinkAction {
    type V = LinkActionView;

    open spec fn view(&self) -> LinkActionView {
        match self {
            LinkAction::Send(line) => LinkActionView::Send(line@),
            LinkAction::Engaged => LinkActionView::Engaged,
            LinkAction::Forward(line) => LinkActionView::Forward(line@),
            LinkAction::NotEngaged => LinkActionView::NotEngaged,
        }
    }
}

/// The next state and action of the conversation. The greeting is answered
/// with the request for debug output. The answer to the request decides: a
/// line that confirms debug output starts the streaming, anything else ends
/// the conversation. While streaming, every line is handed on. A failed read
/// or the end of the link ends the conversation.
pub open spec fn next(state: LinkState, event: LinkEventView) -> (LinkState, LinkActionView) {
    match (state, event) {
        (LinkState::Greeting, LinkEventView::Line(_)) => (
            LinkState::Requested,
            LinkActionView::Send(debug_request()),
        ),
        (LinkState::Requested, LinkEventView::Line(line)) => if confirms_debug(line) {
            (LinkState::Streaming, LinkActionView::Engaged)
        } else {
            (LinkState::Closed, LinkActionView::NotEngaged)
        },
        (LinkState::Streaming, LinkEventView::Line(line)) => (
            LinkState::Streaming,
            LinkActionView::Forward(line),
        ),
        _ => (LinkState::Closed, LinkActionView::NotEngaged),
    }
}

/// Takes the conversation one step further.
pub fn advance(state: LinkState, event: LinkEvent) -> (r: (LinkState, LinkAction))
    ensures
        (r.0, r.1@) == next(state, event@),
{
    match (state, event) {
        (LinkState::Greeting, LinkEvent::Line(_)) => (
            LinkState::Requested,
            LinkAction::Send("10;rfdebug=on;\r\n".to_owned()),
        ),
        (LinkState::Requested, LinkEvent::Line(line)) => {
            if contains(&to_chars(line.as_str()), &to_chars("RFDEBUG=ON")) {
                (LinkState::Streaming, LinkAction::Engaged)
            } else {
                (LinkState::Closed, LinkAction::NotEngaged)
            }
        },
        (LinkState::Streaming, LinkEvent::Line(line)) => (
            LinkState::Streaming,
            LinkAction::Forward(line),
        ),
        _ => (LinkState::Closed, LinkAction::NotEngaged),
    }
}

} // verus!
