//! What is told to the outside about each event, and the interface of whoever
//! carries it there.

use vstd::prelude::*;
use chrono::NaiveDateTime;
use crate::clock::now;
use crate::domain::command_event::{Event, EventView};
use crate::domain::errors::{DomainError, DomainFailure};

verus! {

/// The envelope around an event.
#[derive(Debug)]
pub struct InnerMessage {
    pub node_name: String,
    pub timestamp: NaiveDateTime,
    pub title: String,
    pub inner: Event,
}

/// A message for the outside: an envelope and the topic it goes to.
#[derive(Debug)]
pub struct ExternalMessage {
    pub routing_key: String,
    pub inner_message: InnerMessage,
}

/// The mathematical value of an `ExternalMessage`.
pub struct ExternalMessageView {
    pub routing_key: Seq<char>,
    pub node_name: Seq<char>,
    pub timestamp: NaiveDateTime,
    pub title: Seq<char>,
    pub inner: EventView,
}

impl View for ExternalMessage {
    type V = ExternalMessageView;

    open spec fn view(&self) -> ExternalMessageView {
        ExternalMessageView {
            routing_key: self.routing_key@,
            node_name: self.inner_message.node_name@,
            timestamp: self.inner_message.timestamp,
            title: self.inner_message.title@,
            inner: self.inner_message.inner@,
        }
    }
}

/// Whether `msg` is an envelope for `inner` under the title `title`: it goes
/// to the topic `atmosSensor` and names the node `ayasha_rflink`. Its
/// timestamp is the time at which it was made.
pub open spec fn envelops(msg: ExternalMessageView, title: Seq<char>, inner: EventView) -> bool {
    &&& msg.routing_key == "atmosSensor"@
    &&& msg.node_name == "ayasha_rflink"@
    &&& msg.title == title
    &&& msg.inner == inner
}

/// The view of what a sender answers.
pub open spec fn answer_view(r: Result<(), DomainError>) -> Result<(), DomainFailure> {
    match r {
        Ok(_) => Ok(()),
        Err(e) => Err(e@),
    }
}

/// Whoever carries messages to the outside.
pub trait MessageSender {
    /// Whether this sender may answer `r` when asked to send `msg`. A sender
    /// that says nothing of itself may answer anything.
    open spec fn answers(&self, msg: ExternalMessageView, r: Result<(), DomainFailure>) -> bool {
        true
    }

    fn send(&self, msg: ExternalMessage) -> (r: Result<(), DomainError>)
        ensures
            self.answers(msg@, answer_view(r)),
    ;
}

/// Puts `value` into an envelope under the title `msg_title`, made at the
/// current local time.
pub fn get_external_message(msg_title: String, value: &Event) -> (msg: ExternalMessage)
    ensures
        envelops(msg@, msg_title@, value@),
{
    envelope(msg_title, value, now())
}

/// Puts `value` into an envelope under the title `msg_title`, made at the
/// moment `timestamp`.
pub fn envelope(msg_title: String, value: &Event, timestamp: NaiveDateTime) -> (msg:
    ExternalMessage)
    ensures
        envelops(msg@, msg_title@, value@),
        msg@.timestamp == timestamp,
{
    let inner = InnerMessage {
        node_name: "ayasha_rflink".to_owned(),
        timestamp,
        title: msg_title,
        inner: value.clone(),
    };
    ExternalMessage { routing_key: "atmosSensor".to_owned(), inner_message: inner }
}

} // verus!
