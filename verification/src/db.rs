//! The write of one interval row, as a sequence of decisions. The worker that
//! owns the database connection executes the statements; this module says
//! which statement comes next and what the write came to.
//!
//! A value holds from the start of its row until the start of the next row of
//! the same probe. So a write first closes the probe's open row, giving it the
//! new row's start as its end, and then inserts the new row, open-ended. A
//! probe seen for the first time has no open row to close; the insert is made
//! all the same.

use vstd::prelude::*;
use crate::domain::sensor::{Observation, SensorValue};
use crate::domain::sensor_value_type::{Measure, SensorValueType};
use crate::errors::{RfError, RfFailure};
use crate::models::{IntervalRow, RfDataDao};

verus! {

/// The row that an observation opens: it starts when the observation was made,
/// has no end yet, and holds the observation's value in the column of its
/// kind.
pub open spec fn row(value: Observation) -> IntervalRow {
    IntervalRow {
        id: value.id.probe_id,
        protocol: value.id.protocol,
        dt_start: value.timestamp,
        dt_end: None,
        temperature: match value.value {
            Measure::Temperature(t) => Some(t),
            Measure::Humidity(_) => None,
        },
        humidity: match value.value {
            Measure::Temperature(_) => None,
            Measure::Humidity(h) => Some(h),
        },
    }
}

/// The row that a committed observation opens.
pub fn row_of(value: &SensorValue) -> (dao: RfDataDao)
    ensures
        dao@ == row(value@),
{
    let (temperature, humidity) = match &value.value {
        SensorValueType::Temperature(t) => (Some(t.value()), None),
        SensorValueType::Humidity(h) => (None, Some(h.value())),
    };
    RfDataDao {
        id: value.id.probe_id.clone(),
        protocol: value.id.protocol.clone(),
        dt_start: value.timestamp,
        dt_end: None,
        temperature,
        humidity,
    }
}

/// A statement against the sensor table.
#[derive(Debug, Clone, Copy, PartialEq, Eq, Structural)]
pub enum Statement {
    /// Sets the end of the probe's open row to the start of the new row.
    CloseOpenInterval,
    /// Inserts the new row.
    InsertInterval,
}

/// Where a write stands.
#[derive(Debug, Clone, Copy, PartialEq, Eq, Structural)]
pub enum WriteState {
    /// Nothing has been done yet.
    Start,
    /// The close has been asked for.
    Closing,
    /// The insert has been asked for; `closed` says whether the close went
    /// through.
    Inserting { closed: bool },
    /// The write is over.
    Done,
}

/// What the worker reports to a write.
#[derive(Debug)]
pub enum WriteEvent {
    /// The write begins; `connected` says whether the worker has a connection.
    Begin { connected: bool },
    /// The statement asked for last was executed: the number of rows it
    /// changed, or what the database said against it.
    Executed(Result<usize, String>),
}

/// What the worker is to do next.
#[derive(Debug)]
pub enum WriteAction {
    /// Execute the statement and report back.
    Execute(Statement),
    /// The write is over, with this result.
    Finish(Result<(), RfError>),
}

/// The mathematical value of a `WriteEvent`.
pub enum WriteEventView {
    Begin { connected: bool },
    Executed(Result<usize, Seq<char>>),
}

/// The mathematical value of a `WriteAction`.
pub enum WriteActionView {
    Execute(Statement),
    Finish(Result<(), RfFailure>),
}

impl View for WriteEvent {
    type V = WriteEventView;

    open spec fn view(&self) -> WriteEventView {
        match self {
            WriteEvent::Begin { connected } => WriteEventView::Begin { connected: *connected },
            WriteEvent::Executed(Ok(rows)) => WriteEventView::Executed(Ok(*rows)),
            WriteEvent::Executed(Err(e)) => WriteEventView::Executed(Err(e@)),
        }
    }
}

impl View for WriteAction {
    type V = WriteActionView;

    open spec fn view(&self) -> WriteActionView {
        match self {
            WriteAction::Execute(statement) => WriteActionView::Execute(*statement),
            WriteAction::Finish(Ok(_)) => WriteActionView::Finish(Ok(())),
            WriteAction::Finish(Err(e)) => WriteActionView::Finish(Err(e@)),
        }
    }
}

/// The next state and action of a write. Without a connection the write fails
/// at once. With one, the close is executed, then the insert, whatever the
/// close came to. The write succeeds when either statement went through; when
/// neither did, it fails with what the database said against the insert. An
/// event that the state does not expect ends the write as not implemented.
pub open spec fn next(state: WriteState, event: WriteEventView) -> (WriteState, WriteActionView) {
    match (state, event) {
        (WriteState::Start, WriteEventView::Begin { connected }) => if connected {
            (WriteState::Closing, WriteActionView::Execute(Statement::CloseOpenInterval))
        } else {
            (
                WriteState::Done,
                WriteActionView::Finish(
                    Err(RfFailure::DbAccessError { value: "access error during migration"@ }),
                ),
            )
        },
        (WriteState::Closing, WriteEventView::Executed(closed)) => (
            WriteState::Inserting { closed: closed is Ok },
            WriteActionView::Execute(Statement::InsertInterval),
        ),
        (WriteState::Inserting { closed }, WriteEventView::Executed(inserted)) => (
            WriteState::Done,
            WriteActionView::Finish(
                match inserted {
                    Ok(_) => Ok(()),
                    Err(source) => if closed {
                        Ok(())
                    } else {
                        Err(RfFailure::DbError { source })
                    },
                },
            ),
        ),
        _ => (WriteState::Done, WriteActionView::Finish(Err(RfFailure::NotImplementedError))),
    }
}

/// Takes a write one step further.
pub fn advance(state: WriteState, event: WriteEvent) -> (r: (WriteState, WriteAction))
    ensures
        (r.0, r.1@) == next(state, event@),
{
    match (state, event) {
        (WriteState::Start, WriteEvent::Begin { connected }) => {
            if connected {
                (WriteState::Closing, WriteAction::Execute(Statement::CloseOpenInterval))
            } else {
                (
                    WriteState::Done,
                    WriteAction::Finish(
                        Err(
                            RfError::DbAccessError {
                                value: "access error during migration".to_owned(),
                            },
                        ),
                    ),
                )
            }
        },
        (WriteState::Closing, WriteEvent::Executed(closed)) => (
            WriteState::Inserting { closed: closed.is_ok() },
            WriteAction::Execute(Statement::InsertInterval),
        ),
        (WriteState::Inserting { closed }, WriteEvent::Executed(inserted)) => {
            let result = match inserted {
                Ok(_) => Ok(()),
                Err(source) => if closed {
                    Ok(())
                } else {
                    Err(RfError::DbError { source })
                },
            };
            (WriteState::Done, WriteAction::Finish(result))
        },
        _ => (WriteState::Done, WriteAction::Finish(Err(RfError::NotImplementedError))),
    }
}

/// A write on a worker without a connection fails at once, and asks for no
/// statement.
pub proof fn law_degraded_write_fails()
    ensures
        next(WriteState::Start, WriteEventView::Begin { connected: false }) == (
            WriteState::Done,
            WriteActionView::Finish(
                Err(RfFailure::DbAccessError { value: "access error during migration"@ }),
            ),
        ),
{
}

/// A write on a worker with a connection asks for the close, then for the
/// insert, and then is over; it succeeds exactly when one of the two
/// statements went through.
pub proof fn law_write_closes_then_inserts(
    closed: Result<usize, Seq<char>>,
    inserted: Result<usize, Seq<char>>,
)
    ensures
        ({
            let first = next(WriteState::Start, WriteEventView::Begin { connected: true });
            let second = next(first.0, WriteEventView::Executed(closed));
            let third = next(second.0, WriteEventView::Executed(inserted));
            &&& first.1 == WriteActionView::Execute(Statement::CloseOpenInterval)
            &&& second.1 == WriteActionView::Execute(Statement::InsertInterval)
            &&& third.0 == WriteState::Done
            &&& third.1 matches WriteActionView::Finish(result) && (result is Ok <==> closed is Ok
                || inserted is Ok)
        }),
{
}

} // verus!
