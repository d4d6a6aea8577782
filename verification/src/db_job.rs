//! The decisions of the worker that owns the database connection. The worker
//! opens the connection once, then takes jobs from its queue one at a time, in
//! the order in which they were submitted, and runs each to its end before it
//! takes the next. This module says how the worker goes on after each thing
//! that happens to it; whoever runs the worker does the opening, the waiting
//! and the running.

use vstd::prelude::*;
use crate::errors::{RfError, RfFailure};

verus! {

/// Where the worker stands.
#[derive(Debug, Clone, Copy, PartialEq, Eq, Structural)]
pub enum WorkerState {
    /// The connection has not been opened yet.
    Starting,
    /// The worker takes jobs; `connected` says whether it has a connection to
    /// run them on.
    Serving { connected: bool },
    /// The queue is closed and the worker is over.
    Stopped,
}

/// What happened to the worker.
#[derive(Debug)]
pub enum WorkerEvent {
    /// The connection was opened, or what was said against opening it.
    Opened(Result<(), String>),
    /// The job taken last has run, with this result.
    JobDone(Result<(), RfError>),
    /// The queue will give no more jobs.
    QueueClosed,
}

/// What the worker is to do next.
#[derive(Debug, Clone, Copy, PartialEq, Eq, Structural)]
pub enum WorkerAction {
    /// Wait for the next job and run it.
    TakeJob,
    /// Write the failure that the event carries to the log, then wait for the
    /// next job and run it.
    LogAndTakeJob,
    /// Write to the log that the queue is closed, and end.
    Stop,
}

/// The mathematical value of a `WorkerEvent`.
pub enum WorkerEventView {
    Opened(Result<(), Seq<char>>),
    JobDone(Result<(), RfFailure>),
    QueueClosed,
}

impl View for WorkerEvent {
    type V = WorkerEventView;

    open spec fn view(&self) -> WorkerEventView {
        match self {
            WorkerEvent::Opened(Ok(_)) => WorkerEventView::Opened(Ok(())),
            WorkerEvent::Opened(Err(e)) => WorkerEventView::Opened(Err(e@)),
            WorkerEvent::JobDone(Ok(_)) => WorkerEventView::JobDone(Ok(())),
            WorkerEvent::JobDone(Err(e)) => WorkerEventView::JobDone(Err(e@)),
            WorkerEvent::QueueClosed => WorkerEventView::QueueClosed,
        }
    }
}

/// The next state and action of the worker. A connection that cannot be
/// opened is logged, and the worker serves without one. A job that fails is
/// logged, and the worker goes on as before. Only the closing of the queue
/// ends the worker.
pub open spec fn next(state: WorkerState, event: WorkerEventView) -> (WorkerState, WorkerAction) {
    match (state, event) {
        (WorkerState::Stopped, _) => (WorkerState::Stopped, WorkerAction::Stop),
        (_, WorkerEventView::QueueClosed) => (WorkerState::Stopped, WorkerAction::Stop),
        (WorkerState::Starting, WorkerEventView::Opened(Ok(_))) => (
            WorkerState::Serving { connected: true },
            WorkerAction::TakeJob,
        ),
        (WorkerState::Starting, WorkerEventView::Opened(Err(_))) => (
            WorkerState::Serving { connected: false },
            WorkerAction::LogAndTakeJob,
        ),
        (_, WorkerEventView::JobDone(Err(_))) => (state, WorkerAction::LogAndTakeJob),
        _ => (state, WorkerAction::TakeJob),
    }
}

/// Takes the worker one step further.
pub fn advance(state: WorkerState, event: &WorkerEvent) -> (r: (WorkerState, WorkerAction))
    ensures
        r == next(state, event@),
{
    match (state, event) {
        (WorkerState::Stopped, _) => (WorkerState::Stopped, WorkerAction::Stop),
        (_, WorkerEvent::QueueClosed) => (WorkerState::Stopped, WorkerAction::Stop),
        (WorkerState::Starting, WorkerEvent::Opened(Ok(_))) => (
            WorkerState::Serving { connected: true },
            WorkerAction::TakeJob,
        ),
        (WorkerState::Starting, WorkerEvent::Opened(Err(_))) => (
            WorkerState::Serving { connected: false },
            WorkerAction::LogAndTakeJob,
        ),
        (_, WorkerEvent::JobDone(Err(_))) => (state, WorkerAction::LogAndTakeJob),
        _ => (state, WorkerAction::TakeJob),
    }
}

/// No job ends the worker or changes whether it has a connection: whatever a
/// job comes to, the worker takes the next one.
pub proof fn law_jobs_never_stop_the_worker(connected: bool, result: Result<(), RfFailure>)
    ensures
        next(WorkerState::Serving { connected }, WorkerEventView::JobDone(result)).0
            == (WorkerState::Serving { connected }),
        next(WorkerState::Serving { connected }, WorkerEventView::JobDone(result)).1
            != WorkerAction::Stop,
        result is Err ==> next(
            WorkerState::Serving { connected },
            WorkerEventView::JobDone(result),
        ).1 == WorkerAction::LogAndTakeJob,
{
}

/// A worker whose connection could not be opened serves all the same, without
/// a connection.
pub proof fn law_failed_open_degrades(reason: Seq<char>)
    ensures
        next(WorkerState::Starting, WorkerEventView::Opened(Err(reason))) == (
            WorkerState::Serving { connected: false },
            WorkerAction::LogAndTakeJob,
        ),
{
}

} // verus!
