//! One turn of the actor that owns the repository. The actor takes commands one
//! at a time; each is dispatched, its events are committed, and the committed
//! events are then told to the outside. Whoever runs the actor feeds it the
//! commands in the order in which they arrived.

use vstd::prelude::*;
use crate::domain::command_event::{event_views, Command, Event};
use crate::domain::errors::DomainError;
use crate::domain::external_message::{answer_view, MessageSender};
use crate::domain::sensor::SensorRepository;
use crate::domain::{
    applied, apply, clone_events, dispatch, dispatched, send_external_message, told_all,
};

verus! {

/// What one command came to.
#[derive(Debug)]
pub struct Turn {
    /// The events of the command, all of them committed to the repository.
    pub committed: Vec<Event>,
    /// Whether the outside was told of every committed event, or the refusal
    /// that ended the telling. A refusal takes nothing back from the
    /// repository.
    pub notified: Result<(), DomainError>,
}

/// Handles one command to completion. A command that fails to dispatch leaves
/// the repository as it was, and its error is the result. Otherwise the events
/// are committed first and told to the outside afterwards.
pub fn handle<F: FnOnce(&SensorRepository) -> Result<Vec<Event>, DomainError>, S: MessageSender>(
    command: Command<F>,
    repo: &mut SensorRepository,
    sender: &S,
) -> (r: Result<Turn, DomainError>)
    requires
        command matches Command::GetData(getter) ==> getter.requires((&*old(repo),)),
    ensures
        old(repo).wf() ==> final(repo).wf(),
        match r {
            Err(e) => {
                &&& dispatched(command, &*old(repo), Err(e))
                &&& *final(repo) == *old(repo)
            },
            Ok(turn) => {
                &&& dispatched(command, &*old(repo), Ok(turn.committed))
                &&& final(repo)@ == applied(old(repo)@, event_views(turn.committed@))
                &&& told_all(sender, event_views(turn.committed@), answer_view(turn.notified))
            },
        },
{
    let events = match dispatch(command, &*repo) {
        Ok(events) => events,
        Err(e) => {
            return Err(e);
        },
    };
    apply(clone_events(&events), repo);
    let notified = match send_external_message(clone_events(&events), sender) {
        Ok(_) => Ok(()),
        Err(e) => Err(e),
    };
    Ok(Turn { committed: events, notified })
}

} // verus!
