//! The user's stream under a session, and how bytes move over it.
//!
//! While a session works, the platform asks for bytes to be read from the
//! stream or written to it. Each such transfer is offered to the stream piece
//! by piece, until it is complete or the stream fails.
use crate::base::{
    ERR_SEC_IO, ERR_SEC_SUCCESS, ERR_SSL_CLOSED_ABORT, ERR_SSL_CLOSED_GRACEFUL,
    ERR_SSL_CLOSED_NO_NOTIFY, ERR_SSL_WOULD_BLOCK, Error, OSStatus,
};
use vstd::prelude::*;

verus! {

/// The kinds of stream errors that make a difference to a session.
#[derive(Debug, Copy, Clone, PartialEq, Eq, Structural)]
pub enum ErrorKind {
    /// An entity was not found.
    NotFound,
    /// The connection was reset by the remote end.
    ConnectionReset,
    /// The operation would have to wait.
    WouldBlock,
    /// The connection is not established yet.
    NotConnected,
    /// Any other kind.
    Other,
}

/// Where an error of a stream operation came from.
#[derive(Debug, PartialEq, Eq, Structural)]
pub enum ErrorSource {
    /// The user's stream returned it. Whoever holds the stream finds the
    /// error under this number.
    Stream(usize),
    /// The platform reported it.
    Platform(Error),
}

/// An error of a stream operation.
#[derive(Debug, PartialEq, Eq, Structural)]
pub struct IoError {
    pub kind: ErrorKind,
    pub source: ErrorSource,
}

/// A panic of the user's stream that was caught. Whoever holds the stream
/// finds the payload under this number, and resumes the panic.
#[derive(Debug, PartialEq, Eq, Structural)]
pub struct PanicPayload {
    pub number: usize,
}

/// How an operation ends: it returns, or it lets a panic of the user's
/// stream go on.
#[derive(Debug)]
pub enum Outcome<T> {
    /// The operation returns this.
    Return(T),
    /// The caught panic is to be resumed.
    Unwind(PanicPayload),
}

/// A stream under a session, with what it left behind when it last failed.
#[derive(Debug)]
pub struct Connection<S> {
    pub stream: S,
    /// The last error of the stream that nobody has been told of.
    pub err: Option<IoError>,
    /// The last panic of the stream that has not been resumed.
    pub panic: Option<PanicPayload>,
}

/// The status that tells the platform of a stream error.
pub open spec fn translated(kind: ErrorKind) -> OSStatus {
    match kind {
        ErrorKind::NotFound => ERR_SSL_CLOSED_GRACEFUL,
        ErrorKind::ConnectionReset => ERR_SSL_CLOSED_ABORT,
        ErrorKind::WouldBlock => ERR_SSL_WOULD_BLOCK,
        ErrorKind::NotConnected => ERR_SSL_WOULD_BLOCK,
        ErrorKind::Other => ERR_SEC_IO,
    }
}

/// Returns the status that tells the platform of a stream error.
pub fn translate_err(e: &IoError) -> (status: OSStatus)
    ensures
        status == translated(e.kind),
{
    match e.kind {
        ErrorKind::NotFound => ERR_SSL_CLOSED_GRACEFUL,
        ErrorKind::ConnectionReset => ERR_SSL_CLOSED_ABORT,
        ErrorKind::WouldBlock => ERR_SSL_WOULD_BLOCK,
        ErrorKind::NotConnected => ERR_SSL_WOULD_BLOCK,
        _ => ERR_SEC_IO,
    }
}

/// A transfer that is not complete: `done` of `len` bytes have been moved,
/// and the rest of the buffer is on offer to the stream.
#[derive(Debug, Copy, Clone, PartialEq, Eq, Structural)]
pub struct Transfer {
    pub len: usize,
    pub done: usize,
}

/// What the stream did with an offer.
#[derive(Debug)]
pub enum StreamOutcome {
    /// It moved this many bytes.
    Moved(usize),
    /// It returned an error.
    Failed(IoError),
    /// It panicked.
    Panicked(PanicPayload),
}

/// How a transfer goes on.
#[derive(Debug, Copy, Clone, PartialEq, Eq, Structural)]
pub enum TransferStep {
    /// The bytes from `done` on are offered to the stream.
    Offer(Transfer),
    /// The transfer is over. The platform is given the status and the number
    /// of bytes that were moved.
    Finished { status: OSStatus, data_length: usize },
}

impl Transfer {
    /// Whether something is left to offer.
    pub open spec fn wf(self) -> bool {
        self.done < self.len
    }

    /// How a transfer goes on when `done` bytes have been moved and the
    /// stream has not failed.
    pub open spec fn continued(len: usize, done: usize) -> TransferStep {
        if done < len {
            TransferStep::Offer(Transfer { len, done })
        } else {
            TransferStep::Finished { status: ERR_SEC_SUCCESS, data_length: done }
        }
    }

    /// How the transfer goes on after what the stream did.
    pub open spec fn after(self, outcome: StreamOutcome) -> TransferStep {
        match outcome {
            StreamOutcome::Moved(n) => if n == 0 {
                TransferStep::Finished {
                    status: ERR_SSL_CLOSED_NO_NOTIFY,
                    data_length: self.done,
                }
            } else {
                Transfer::continued(self.len, (self.done + n) as usize)
            },
            StreamOutcome::Failed(e) => TransferStep::Finished {
                status: translated(e.kind),
                data_length: self.done,
            },
            StreamOutcome::Panicked(_) => TransferStep::Finished {
                status: ERR_SEC_IO,
                data_length: self.done,
            },
        }
    }
}

/// Starts the transfer of bytes from the stream into a buffer of the
/// platform.
pub fn read_func(data_length: usize) -> (step: TransferStep)
    ensures
        step == Transfer::continued(data_length, 0),
        step matches TransferStep::Offer(transfer) ==> transfer.wf(),
{
    if 0 < data_length {
        TransferStep::Offer(Transfer { len: data_length, done: 0 })
    } else {
        TransferStep::Finished { status: ERR_SEC_SUCCESS, data_length: 0 }
    }
}

/// Starts the transfer of bytes from a buffer of the platform to the stream.
pub fn write_func(data_length: usize) -> (step: TransferStep)
    ensures
        step == Transfer::continued(data_length, 0),
        step matches TransferStep::Offer(transfer) ==> transfer.wf(),
{
    if 0 < data_length {
        TransferStep::Offer(Transfer { len: data_length, done: 0 })
    } else {
        TransferStep::Finished { status: ERR_SEC_SUCCESS, data_length: 0 }
    }
}

impl<S> Connection<S> {
    /// The connection after the stream did something with an offer: an error
    /// or a panic is kept, in the place of an earlier one.
    pub open spec fn recorded(self, outcome: StreamOutcome) -> Connection<S> {
        match outcome {
            StreamOutcome::Moved(_) => self,
            StreamOutcome::Failed(e) => Connection { err: Some(e), ..self },
            StreamOutcome::Panicked(payload) => Connection { panic: Some(payload), ..self },
        }
    }

    /// Creates the connection over a stream that has not failed.
    pub fn new(stream: S) -> (conn: Connection<S>)
        ensures
            conn == (Connection { stream, err: None, panic: None }),
    {
        Connection { stream, err: None, panic: None }
    }

    /// Goes on with a transfer after what the stream did with the offer.
    pub fn transferred(&mut self, transfer: Transfer, outcome: StreamOutcome) -> (step:
        TransferStep)
        requires
            transfer.wf(),
            outcome matches StreamOutcome::Moved(n) ==> transfer.done + n <= usize::MAX,
        ensures
            step == transfer.after(outcome),
            step matches TransferStep::Offer(rest) ==> rest.wf(),
            *final(self) == old(self).recorded(outcome),
    {
        match outcome {
            StreamOutcome::Moved(0) => TransferStep::Finished {
                status: ERR_SSL_CLOSED_NO_NOTIFY,
                data_length: transfer.done,
            },
            StreamOutcome::Moved(n) => {
                let done: usize = transfer.done + n;
                if done < transfer.len {
                    TransferStep::Offer(Transfer { len: transfer.len, done })
                } else {
                    TransferStep::Finished { status: ERR_SEC_SUCCESS, data_length: done }
                }
            },
            StreamOutcome::Failed(e) => {
                let status: OSStatus = translate_err(&e);
                self.err = Some(e);
                TransferStep::Finished { status, data_length: transfer.done }
            },
            StreamOutcome::Panicked(payload) => {
                self.panic = Some(payload);
                TransferStep::Finished { status: ERR_SEC_IO, data_length: transfer.done }
            },
        }
    }

    /// Takes the panic of the stream that has not been resumed.
    pub fn check_panic(&mut self) -> (payload: Option<PanicPayload>)
        ensures
            payload == old(self).panic,
            *final(self) == (Connection { panic: None, ..*old(self) }),
    {
        self.panic.take()
    }
}

/// The number of bytes that the stream moved at an offer.
pub open spec fn bytes_moved(outcome: StreamOutcome) -> nat {
    match outcome {
        StreamOutcome::Moved(n) => n as nat,
        _ => 0,
    }
}

/// Where a transfer stands after a sequence of things that the stream did.
/// Once it is over, nothing more is offered.
pub open spec fn transfer_run(step: TransferStep, outcomes: Seq<StreamOutcome>) -> TransferStep
    decreases outcomes.len(),
{
    match step {
        TransferStep::Offer(transfer) if outcomes.len() > 0 => transfer_run(
            transfer.after(outcomes[0]),
            outcomes.drop_first(),
        ),
        _ => step,
    }
}

/// The number of bytes that the stream moved in the course of a transfer.
pub open spec fn transfer_moved(step: TransferStep, outcomes: Seq<StreamOutcome>) -> nat
    decreases outcomes.len(),
{
    match step {
        TransferStep::Offer(transfer) if outcomes.len() > 0 => bytes_moved(outcomes[0])
            + transfer_moved(transfer.after(outcomes[0]), outcomes.drop_first()),
        _ => 0,
    }
}

/// Whether the stream never claims to have moved more than was on offer.
pub open spec fn within_offers(step: TransferStep, outcomes: Seq<StreamOutcome>) -> bool
    decreases outcomes.len(),
{
    match step {
        TransferStep::Offer(transfer) if outcomes.len() > 0 => bytes_moved(outcomes[0])
            <= transfer.len - transfer.done && within_offers(
            transfer.after(outcomes[0]),
            outcomes.drop_first(),
        ),
        _ => true,
    }
}

proof fn lemma_transfer(transfer: Transfer, outcomes: Seq<StreamOutcome>)
    requires
        transfer.wf(),
        within_offers(TransferStep::Offer(transfer), outcomes),
    ensures
        (match transfer_run(TransferStep::Offer(transfer), outcomes) {
            TransferStep::Offer(rest) => rest.wf() && rest.len == transfer.len && rest.done
                == transfer.done + transfer_moved(TransferStep::Offer(transfer), outcomes),
            TransferStep::Finished { status, data_length } => data_length == transfer.done
                + transfer_moved(TransferStep::Offer(transfer), outcomes) && data_length
                <= transfer.len && (status == ERR_SEC_SUCCESS <==> data_length == transfer.len),
        }),
    decreases outcomes.len(),
{
    reveal_with_fuel(transfer_run, 2);
    reveal_with_fuel(transfer_moved, 2);
    if outcomes.len() > 0 {
        match transfer.after(outcomes[0]) {
            TransferStep::Offer(rest) => lemma_transfer(rest, outcomes.drop_first()),
            TransferStep::Finished { .. } => {},
        }
    }
}

/// Law: over a stream that never claims to have moved more than was on
/// offer, a transfer of `len` bytes never moves more than `len`. The platform
/// is told exactly how many bytes the stream moved, and it is told of success
/// exactly when all of them were.
pub proof fn law_transfer(len: usize, outcomes: Seq<StreamOutcome>)
    requires
        within_offers(Transfer::continued(len, 0), outcomes),
    ensures
        (match transfer_run(Transfer::continued(len, 0), outcomes) {
            TransferStep::Offer(rest) => rest.done == transfer_moved(
                Transfer::continued(len, 0),
                outcomes,
            ) && rest.done < len && rest.len == len,
            TransferStep::Finished { status, data_length } => data_length == transfer_moved(
                Transfer::continued(len, 0),
                outcomes,
            ) && data_length <= len && (status == ERR_SEC_SUCCESS <==> data_length == len),
        }),
{
    if 0 < len {
        lemma_transfer(Transfer { len, done: 0 }, outcomes);
    }
}

/// Law: the platform is told that a stream would block exactly when the
/// stream says so, or when it is not connected yet. No stream error is passed
/// on as a success.
pub proof fn law_stream_errors_are_told(kind: ErrorKind)
    ensures
        translated(kind) == ERR_SSL_WOULD_BLOCK <==> kind == ErrorKind::WouldBlock || kind
            == ErrorKind::NotConnected,
        translated(kind) != ERR_SEC_SUCCESS,
{
}

} // verus!
