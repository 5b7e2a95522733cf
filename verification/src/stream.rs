//! Sessions over a stream: the handshake, reading, writing and closing.
use crate::base::{
    ERR_SEC_SUCCESS, ERR_SSL_CLIENT_CERT_REQUESTED, ERR_SSL_CLIENT_HELLO_RECEIVED,
    ERR_SSL_CLOSED_ABORT, ERR_SSL_CLOSED_GRACEFUL, ERR_SSL_CLOSED_NO_NOTIFY,
    ERR_SSL_PEER_AUTH_COMPLETED, ERR_SSL_WOULD_BLOCK, Error, OSStatus, cvt,
};
use crate::connection::{
    Connection, ErrorKind, ErrorSource, IoError, Outcome, PanicPayload, StreamOutcome, translated,
};
use crate::context::{
    OPTION_BREAK_ON_CERT_REQUESTED, OPTION_BREAK_ON_SERVER_AUTH, OptionQuery, SslContext,
};
use crate::operation::{Next, Operation, answered, calls, run};
use crate::platform::{Call, CallOf, CallView, Reply, Value};
use vstd::prelude::*;

verus! {

/// A type implementing SSL/TLS encryption over an underlying stream.
///
/// The connection has a place of its own, so that the platform can be told
/// where it is.
#[derive(Debug)]
pub struct SslStream<S> {
    pub ctx: SslContext,
    pub conn: Box<Connection<S>>,
}

/// An SSL stream midway through the handshake process.
#[derive(Debug)]
pub struct MidHandshakeSslStream<S> {
    pub stream: SslStream<S>,
    pub error: Error,
    /// Whether the option that asks for a pause at this point was set when
    /// the handshake paused. It is not where there is no such option.
    pub break_set: bool,
}

/// An error or intermediate state after a TLS handshake attempt.
#[derive(Debug)]
pub enum HandshakeError<S> {
    /// The handshake failed.
    Failure(Error),
    /// The handshake was interrupted midway through.
    Interrupted(MidHandshakeSslStream<S>),
}

impl<S> From<Error> for HandshakeError<S> {
    fn from(err: Error) -> (error: HandshakeError<S>) {
        HandshakeError::Failure(err)
    }
}

impl<S> vstd::std_specs::convert::FromSpecImpl<Error> for HandshakeError<S> {
    open spec fn obeys_from_spec() -> bool {
        true
    }

    open spec fn from_spec(err: Error) -> HandshakeError<S> {
        HandshakeError::Failure(err)
    }
}

/// The statuses with which the platform pauses a handshake instead of
/// failing it.
pub open spec fn is_pause(status: OSStatus) -> bool {
    ||| status == ERR_SSL_PEER_AUTH_COMPLETED
    ||| status == ERR_SSL_CLIENT_CERT_REQUESTED
    ||| status == ERR_SSL_WOULD_BLOCK
    ||| status == ERR_SSL_CLIENT_HELLO_RECEIVED
}

/// The option that asks for a pause with a status, where there is one.
pub open spec fn pause_option(status: OSStatus) -> Option<i32> {
    if status == ERR_SSL_PEER_AUTH_COMPLETED {
        Some(OPTION_BREAK_ON_SERVER_AUTH)
    } else if status == ERR_SSL_CLIENT_CERT_REQUESTED {
        Some(OPTION_BREAK_ON_CERT_REQUESTED)
    } else {
        None
    }
}

/// The statuses with which the platform reports the end of the stream.
pub open spec fn is_closed(status: OSStatus) -> bool {
    ||| status == ERR_SSL_CLOSED_GRACEFUL
    ||| status == ERR_SSL_CLOSED_ABORT
    ||| status == ERR_SSL_CLOSED_NO_NOTIFY
}

impl<S> Connection<S> {
    /// The error to return after the platform failed with a status: a panic
    /// of the stream goes first, then the stream's own error, then the
    /// platform's.
    pub open spec fn pending_error(self, status: OSStatus) -> Outcome<IoError> {
        match self.panic {
            Some(payload) => Outcome::Unwind(payload),
            None => match self.err {
                Some(err) => Outcome::Return(err),
                None => Outcome::Return(
                    IoError {
                        kind: ErrorKind::Other,
                        source: ErrorSource::Platform(Error { code: status }),
                    },
                ),
            },
        }
    }

    /// How a read ends: bytes that were read are returned even when the
    /// platform reports an error along with them, and the end of the stream
    /// is a read of no bytes.
    pub open spec fn read_outcome(self, status: OSStatus, nread: usize) -> Outcome<
        Result<usize, IoError>,
    > {
        if nread > 0 || is_closed(status) {
            Outcome::Return(Ok(nread))
        } else {
            failed(self.pending_error(status))
        }
    }

    /// How a write ends: success is a matter of the number of bytes alone.
    pub open spec fn write_outcome(self, status: OSStatus, nwritten: usize) -> Outcome<
        Result<usize, IoError>,
    > {
        if nwritten > 0 {
            Outcome::Return(Ok(nwritten))
        } else {
            failed(self.pending_error(status))
        }
    }

    /// The connection once that error has been returned: what was returned
    /// is no longer kept.
    pub open spec fn error_taken(self) -> Connection<S> {
        if self.panic is Some {
            Connection { panic: None, ..self }
        } else {
            Connection { err: None, ..self }
        }
    }
}

/// What an error means for an operation that would have returned a value.
pub open spec fn failed<T>(error: Outcome<IoError>) -> Outcome<Result<T, IoError>> {
    match error {
        Outcome::Return(err) => Outcome::Return(Err(err)),
        Outcome::Unwind(payload) => Outcome::Unwind(payload),
    }
}

fn to_failed<T>(error: Outcome<IoError>) -> (outcome: Outcome<Result<T, IoError>>)
    ensures
        outcome == failed::<T>(error),
{
    match error {
        Outcome::Return(err) => Outcome::Return(Err(err)),
        Outcome::Unwind(payload) => Outcome::Unwind(payload),
    }
}

impl<S> SslStream<S> {
    /// How a handshake attempt ends when the platform returns a status. Where
    /// an option can ask for a pause with that status, the platform is asked
    /// first whether it is set.
    pub open spec fn attempted(self, status: OSStatus) -> Next<
        Pause<S>,
        Outcome<Result<SslStream<S>, HandshakeError<S>>>,
    > {
        let error = Error { code: status };
        if status == ERR_SEC_SUCCESS {
            Next::Done(Outcome::Return(Ok(self)))
        } else if pause_option(status) is Some {
            let query = OptionQuery { ctx: self.ctx, option: pause_option(status)->0 };
            Next::Ask(Pause { stream: self, error, query })
        } else if is_pause(status) {
            let mid = MidHandshakeSslStream { stream: self, error, break_set: false };
            Next::Done(Outcome::Return(Err(HandshakeError::Interrupted(mid))))
        } else {
            match self.conn.panic {
                Some(payload) => Next::Done(Outcome::Unwind(payload)),
                None => Next::Done(Outcome::Return(Err(HandshakeError::Failure(error)))),
            }
        }
    }

    /// Returns the call that attempts the handshake.
    pub fn handshake_call(&self) -> (call: Call)
        ensures
            call@ == (CallView::Handshake { ctx: self.ctx.raw }),
    {
        CallOf::Handshake { ctx: self.ctx.raw }
    }

    /// Ends a handshake attempt with the status that the platform returned.
    pub fn handshake(self, status: OSStatus) -> (next: Next<
        Pause<S>,
        Outcome<Result<SslStream<S>, HandshakeError<S>>>,
    >)
        ensures
            next == self.attempted(status),
            next matches Next::Ask(pause) ==> pause.wf(),
    {
        match status {
            ERR_SEC_SUCCESS => Next::Done(Outcome::Return(Ok(self))),
            ERR_SSL_PEER_AUTH_COMPLETED => {
                let query = self.ctx.break_on_server_auth();
                Next::Ask(Pause { stream: self, error: Error::from_code(status), query })
            },
            ERR_SSL_CLIENT_CERT_REQUESTED => {
                let query = self.ctx.break_on_cert_requested();
                Next::Ask(Pause { stream: self, error: Error::from_code(status), query })
            },
            ERR_SSL_WOULD_BLOCK | ERR_SSL_CLIENT_HELLO_RECEIVED => {
                let mid = MidHandshakeSslStream {
                    stream: self,
                    error: Error::from_code(status),
                    break_set: false,
                };
                Next::Done(Outcome::Return(Err(HandshakeError::Interrupted(mid))))
            },
            err => {
                let mut stream = self;
                match stream.conn.check_panic() {
                    Some(payload) => Next::Done(Outcome::Unwind(payload)),
                    None => Next::Done(
                        Outcome::Return(Err(HandshakeError::Failure(Error::from_code(err)))),
                    ),
                }
            },
        }
    }

    /// Returns a shared reference to the inner stream.
    pub fn get_ref(&self) -> (stream: &S)
        ensures
            *stream == self.conn.stream,
    {
        &self.conn.stream
    }

    /// Returns a mutable reference to the underlying stream.
    pub fn get_mut(&mut self) -> (stream: &mut S)
        ensures
            *stream == old(self).conn.stream,
            final(self).ctx == old(self).ctx,
            *final(self).conn == (Connection { stream: *final(stream), ..*old(self).conn }),
    {
        &mut self.conn.stream
    }

    /// Returns a shared reference to the `SslContext` of the stream.
    pub fn context(&self) -> (ctx: &SslContext)
        ensures
            *ctx == self.ctx,
    {
        &self.ctx
    }

    /// Returns a mutable reference to the `SslContext` of the stream.
    pub fn context_mut(&mut self) -> (ctx: &mut SslContext)
        ensures
            *ctx == old(self).ctx,
            *final(self) == (SslStream { ctx: *final(ctx), ..*old(self) }),
    {
        &mut self.ctx
    }

    /// Returns a shared reference to the connection.
    pub fn connection(&self) -> (conn: &Connection<S>)
        ensures
            *conn == *self.conn,
    {
        &self.conn
    }

    /// Returns a mutable reference to the connection.
    pub fn connection_mut(&mut self) -> (conn: &mut Connection<S>)
        ensures
            *conn == *old(self).conn,
            final(self).ctx == old(self).ctx,
            *final(self).conn == *final(conn),
    {
        &mut self.conn
    }

    /// Takes the panic of the stream that has not been resumed.
    pub fn check_panic(&mut self) -> (payload: Option<PanicPayload>)
        ensures
            payload == old(self).conn.panic,
            final(self).ctx == old(self).ctx,
            *final(self).conn == (Connection { panic: None, ..*old(self).conn }),
    {
        self.connection_mut().check_panic()
    }

    /// Returns the error to report after the platform failed with a status.
    pub fn get_error(&mut self, ret: OSStatus) -> (error: Outcome<IoError>)
        ensures
            error == old(self).conn.pending_error(ret),
            final(self).ctx == old(self).ctx,
            *final(self).conn == old(self).conn.error_taken(),
    {
        if let Some(payload) = self.check_panic() {
            return Outcome::Unwind(payload);
        }
        if let Some(err) = self.connection_mut().err.take() {
            Outcome::Return(err)
        } else {
            Outcome::Return(
                IoError {
                    kind: ErrorKind::Other,
                    source: ErrorSource::Platform(Error::from_code(ret)),
                },
            )
        }
    }

    /// Returns the call that shuts the connection down.
    pub fn close_call(&self) -> (call: Call)
        ensures
            call@ == (CallView::Close { ctx: self.ctx.raw }),
    {
        CallOf::Close { ctx: self.ctx.raw }
    }

    /// Shuts down the connection: ends with the status that the platform
    /// returned.
    pub fn close(&mut self, status: OSStatus) -> (outcome: Outcome<Result<(), IoError>>)
        ensures
            status == ERR_SEC_SUCCESS ==> outcome == Outcome::Return(Ok::<(), IoError>(()))
                && *final(self) == *old(self),
            status != ERR_SEC_SUCCESS ==> outcome == failed::<()>(
                old(self).conn.pending_error(status),
            ) && final(self).ctx == old(self).ctx && *final(self).conn
                == old(self).conn.error_taken(),
    {
        if status == ERR_SEC_SUCCESS {
            Outcome::Return(Ok(()))
        } else {
            to_failed(self.get_error(status))
        }
    }

    /// Starts to read into a buffer of `len` bytes. An empty buffer is done
    /// with at once: the number of bytes that are read tells success from
    /// failure later on, and could not do so here.
    pub fn read(&self, len: usize) -> (next: Next<Reading, usize>)
        ensures
            next == (if len == 0 {
                Next::Done(0usize)
            } else {
                Next::Ask(Reading { ctx: self.ctx, len, size: None })
            }),
    {
        if len == 0 {
            return Next::Done(0);
        }
        Next::Ask(Reading { ctx: self.ctx, len, size: None })
    }

    /// Ends a read with the status that the platform returned and the number
    /// of bytes that it read. Bytes that were read are returned even when the
    /// platform reports an error along with them, and the end of the stream
    /// is a read of no bytes.
    pub fn read_done(&mut self, status: OSStatus, nread: usize) -> (outcome: Outcome<
        Result<usize, IoError>,
    >)
        ensures
            outcome == old(self).conn.read_outcome(status, nread),
            nread > 0 || is_closed(status) ==> *final(self) == *old(self),
            nread == 0 && !is_closed(status) ==> final(self).ctx == old(self).ctx
                && *final(self).conn == old(self).conn.error_taken(),
    {
        if nread > 0 {
            return Outcome::Return(Ok(nread));
        }
        match status {
            ERR_SSL_CLOSED_GRACEFUL
            | ERR_SSL_CLOSED_ABORT
            | ERR_SSL_CLOSED_NO_NOTIFY => Outcome::Return(Ok(0)),
            _ => to_failed(self.get_error(status)),
        }
    }

    /// Starts to write a buffer of `len` bytes. An empty buffer is done with
    /// at once, for the same reason as in `read`.
    pub fn write(&self, len: usize) -> (next: Next<Writing, usize>)
        ensures
            next == (if len == 0 {
                Next::Done(0usize)
            } else {
                Next::Ask(Writing { ctx: self.ctx, len })
            }),
    {
        if len == 0 {
            return Next::Done(0);
        }
        Next::Ask(Writing { ctx: self.ctx, len })
    }

    /// Ends a write with the status that the platform returned and the
    /// number of bytes that it wrote. Success is a matter of that number
    /// alone.
    pub fn write_done(&mut self, status: OSStatus, nwritten: usize) -> (outcome: Outcome<
        Result<usize, IoError>,
    >)
        ensures
            outcome == old(self).conn.write_outcome(status, nwritten),
            nwritten > 0 ==> *final(self) == *old(self),
            nwritten == 0 ==> final(self).ctx == old(self).ctx && *final(self).conn
                == old(self).conn.error_taken(),
    {
        if nwritten > 0 {
            Outcome::Return(Ok(nwritten))
        } else {
            to_failed(self.get_error(status))
        }
    }
}

/// A read from a session: the number of bytes that are there already is
/// asked for first, then the bytes are read.
#[derive(Debug)]
pub struct Reading {
    pub ctx: SslContext,
    /// The size of the reader's buffer.
    pub len: usize,
    /// The number of bytes to read, once it is known.
    pub size: Option<usize>,
}

/// How many bytes to read into a buffer of `len` bytes: no more than the
/// session holds already, if it holds any. More would make it wait for the
/// next packet, which may never come while the connection stays open.
pub open spec fn read_size(len: usize, buffered: usize) -> usize {
    if 0 < buffered < len {
        buffered
    } else {
        len
    }
}

impl Operation for Reading {
    type Output = (OSStatus, usize);

    type Model = (OSStatus, usize);

    open spec fn model(output: (OSStatus, usize)) -> (OSStatus, usize) {
        output
    }

    open spec fn wf(&self) -> bool {
        true
    }

    open spec fn awaiting(&self) -> CallView {
        match self.size {
            None => CallOf::GetBufferedReadSize { ctx: self.ctx.raw },
            Some(size) => CallOf::Read { ctx: self.ctx.raw, len: size },
        }
    }

    open spec fn after(self, reply: Reply) -> Next<Reading, (OSStatus, usize)> {
        if self.size is Some {
            Next::Done((reply.status, reply.value->Size_0))
        } else {
            let buffered = if reply.status == ERR_SEC_SUCCESS {
                reply.value->Size_0
            } else {
                0
            };
            Next::Ask(Reading { size: Some(read_size(self.len, buffered)), ..self })
        }
    }

    fn call(&self) -> (call: Call) {
        match self.size {
            None => CallOf::GetBufferedReadSize { ctx: self.ctx.raw },
            Some(size) => CallOf::Read { ctx: self.ctx.raw, len: size },
        }
    }

    fn resume(self, reply: Reply) -> (next: Next<Reading, (OSStatus, usize)>) {
        if self.size.is_some() {
            return match reply.value {
                Value::Size(nread) => Next::Done((reply.status, nread)),
                _ => Next::Ask(self),
            };
        }
        let buffered: usize = match (cvt(reply.status), reply.value) {
            (Ok(()), Value::Size(size)) => size,
            _ => 0,
        };
        let mut to_read: usize = self.len;
        if buffered > 0 && buffered < self.len {
            to_read = buffered;
        }
        Next::Ask(Reading { ctx: self.ctx, len: self.len, size: Some(to_read) })
    }
}

/// A write to a session.
#[derive(Debug)]
pub struct Writing {
    pub ctx: SslContext,
    /// The size of the writer's buffer.
    pub len: usize,
}

impl Operation for Writing {
    type Output = (OSStatus, usize);

    type Model = (OSStatus, usize);

    open spec fn model(output: (OSStatus, usize)) -> (OSStatus, usize) {
        output
    }

    open spec fn wf(&self) -> bool {
        true
    }

    open spec fn awaiting(&self) -> CallView {
        CallOf::Write { ctx: self.ctx.raw, len: self.len }
    }

    open spec fn after(self, reply: Reply) -> Next<Writing, (OSStatus, usize)> {
        Next::Done((reply.status, reply.value->Size_0))
    }

    fn call(&self) -> (call: Call) {
        CallOf::Write { ctx: self.ctx.raw, len: self.len }
    }

    fn resume(self, reply: Reply) -> (next: Next<Writing, (OSStatus, usize)>) {
        match reply.value {
            Value::Size(nwritten) => Next::Done((reply.status, nwritten)),
            _ => Next::Ask(self),
        }
    }
}

/// The attachment of a session to a stream: the platform is told how to move
/// bytes first, then over which connection.
#[derive(Debug)]
pub struct Attachment<S> {
    pub ctx: SslContext,
    pub conn: Box<Connection<S>>,
    /// Whether the platform knows how to move bytes.
    pub io_set: bool,
}

impl<S> Operation for Attachment<S> {
    type Output = Result<SslStream<S>, Error>;

    type Model = Result<SslStream<S>, Error>;

    open spec fn model(output: Result<SslStream<S>, Error>) -> Result<SslStream<S>, Error> {
        output
    }

    open spec fn wf(&self) -> bool {
        true
    }

    open spec fn awaiting(&self) -> CallView {
        if self.io_set {
            CallOf::SetConnection { ctx: self.ctx.raw }
        } else {
            CallOf::SetIoFuncs { ctx: self.ctx.raw }
        }
    }

    open spec fn after(self, reply: Reply) -> Next<Attachment<S>, Result<SslStream<S>, Error>> {
        if reply.status != ERR_SEC_SUCCESS {
            Next::Done(Err(Error { code: reply.status }))
        } else if self.io_set {
            Next::Done(Ok(SslStream { ctx: self.ctx, conn: self.conn }))
        } else {
            Next::Ask(Attachment { io_set: true, ..self })
        }
    }

    fn call(&self) -> (call: Call) {
        if self.io_set {
            CallOf::SetConnection { ctx: self.ctx.raw }
        } else {
            CallOf::SetIoFuncs { ctx: self.ctx.raw }
        }
    }

    fn resume(self, reply: Reply) -> (next: Next<Attachment<S>, Result<SslStream<S>, Error>>) {
        if reply.status != ERR_SEC_SUCCESS {
            return Next::Done(Err(Error::from_code(reply.status)));
        }
        if self.io_set {
            Next::Done(Ok(SslStream { ctx: self.ctx, conn: self.conn }))
        } else {
            Next::Ask(Attachment { ctx: self.ctx, conn: self.conn, io_set: true })
        }
    }
}

/// A pause of a handshake with a status that an option can ask for. The
/// platform pauses with such a status in other cases too, so it is asked
/// whether the option is set.
#[derive(Debug)]
pub struct Pause<S> {
    pub stream: SslStream<S>,
    pub error: Error,
    pub query: OptionQuery,
}

impl<S> Operation for Pause<S> {
    type Output = MidHandshakeSslStream<S>;

    type Model = MidHandshakeSslStream<S>;

    open spec fn model(output: MidHandshakeSslStream<S>) -> MidHandshakeSslStream<S> {
        output
    }

    open spec fn wf(&self) -> bool {
        &&& self.query.ctx == self.stream.ctx
        &&& pause_option(self.error.code) == Some(self.query.option)
    }

    open spec fn awaiting(&self) -> CallView {
        self.query.awaiting()
    }

    open spec fn after(self, reply: Reply) -> Next<Pause<S>, MidHandshakeSslStream<S>> {
        Next::Done(
            MidHandshakeSslStream {
                stream: self.stream,
                error: self.error,
                break_set: self.query.after(reply) == Next::<OptionQuery, Result<bool, Error>>::Done(
                    Ok(true),
                ),
            },
        )
    }

    fn call(&self) -> (call: Call) {
        self.query.call()
    }

    fn resume(self, reply: Reply) -> (next: Next<Pause<S>, MidHandshakeSslStream<S>>) {
        let Pause { stream, error, query } = self;
        let break_set = match query.resume(reply) {
            Next::Done(Ok(value)) => value,
            _ => false,
        };
        Next::Done(MidHandshakeSslStream { stream, error, break_set })
    }
}

/// How a handshake goes on.
#[derive(Debug)]
pub enum HandshakeStep<S> {
    /// The session is attached to the stream.
    Attach(Attachment<S>),
    /// The platform attempts the handshake on this stream. The stream is
    /// given back with the status.
    Handshake(SslStream<S>),
    /// The platform has paused the handshake, and is asked whether it was
    /// told to.
    Pause(Pause<S>),
    /// The attempt is over.
    Done(Outcome<Result<SslStream<S>, HandshakeError<S>>>),
}

impl<S> HandshakeStep<S> {
    /// How the handshake goes on after a reply in the course of the
    /// attachment.
    pub open spec fn after_attach(op: Attachment<S>, reply: Reply) -> HandshakeStep<S> {
        match op.after(reply) {
            Next::Ask(rest) => HandshakeStep::Attach(rest),
            Next::Done(Ok(stream)) => HandshakeStep::Handshake(stream),
            Next::Done(Err(err)) => HandshakeStep::Done(
                Outcome::Return(Err(HandshakeError::Failure(err))),
            ),
        }
    }

    /// How the handshake goes on after the platform attempted it.
    pub open spec fn after_handshake(stream: SslStream<S>, status: OSStatus) -> HandshakeStep<S> {
        match stream.attempted(status) {
            Next::Ask(pause) => HandshakeStep::Pause(pause),
            Next::Done(outcome) => HandshakeStep::Done(outcome),
        }
    }

    /// How the handshake goes on after the reply to the question of a pause.
    pub open spec fn after_pause(op: Pause<S>, reply: Reply) -> HandshakeStep<S> {
        match op.after(reply) {
            Next::Ask(pause) => HandshakeStep::Pause(pause),
            Next::Done(mid) => HandshakeStep::Done(
                Outcome::Return(Err(HandshakeError::Interrupted(mid))),
            ),
        }
    }

    /// Goes on with a reply in the course of the attachment.
    pub fn attach(op: Attachment<S>, reply: Reply) -> (step: HandshakeStep<S>)
        requires
            reply.answers(op.awaiting()),
        ensures
            step == HandshakeStep::after_attach(op, reply),
    {
        match op.resume(reply) {
            Next::Ask(rest) => HandshakeStep::Attach(rest),
            Next::Done(Ok(stream)) => HandshakeStep::Handshake(stream),
            Next::Done(Err(err)) => HandshakeStep::Done(
                Outcome::Return(Err(HandshakeError::from(err))),
            ),
        }
    }

    /// Goes on with the stream and the status after the platform attempted
    /// the handshake.
    pub fn handshake(stream: SslStream<S>, status: OSStatus) -> (step: HandshakeStep<S>)
        ensures
            step == HandshakeStep::after_handshake(stream, status),
            step matches HandshakeStep::Pause(pause) ==> pause.wf(),
    {
        match stream.handshake(status) {
            Next::Ask(pause) => HandshakeStep::Pause(pause),
            Next::Done(outcome) => HandshakeStep::Done(outcome),
        }
    }

    /// Goes on with the reply to the question of a pause.
    pub fn pause(op: Pause<S>, reply: Reply) -> (step: HandshakeStep<S>)
        requires
            op.wf(),
            reply.answers(op.awaiting()),
        ensures
            step == HandshakeStep::after_pause(op, reply),
    {
        match op.resume(reply) {
            Next::Ask(pause) => HandshakeStep::Pause(pause),
            Next::Done(mid) => HandshakeStep::Done(
                Outcome::Return(Err(HandshakeError::Interrupted(mid))),
            ),
        }
    }
}

impl SslContext {
    /// The attachment of a session to a stream, before its first call.
    pub open spec fn attachment<S>(self, stream: S) -> Attachment<S> {
        Attachment {
            ctx: self,
            conn: Box::new(Connection { stream, err: None, panic: None }),
            io_set: false,
        }
    }

    /// Attaches the session to a stream.
    pub fn into_stream<S>(self, stream: S) -> (op: Attachment<S>)
        ensures
            op == self.attachment(stream),
    {
        Attachment { ctx: self, conn: Box::new(Connection::new(stream)), io_set: false }
    }

    /// Performs the SSL/TLS handshake.
    pub fn handshake<S>(self, stream: S) -> (step: HandshakeStep<S>)
        ensures
            step == HandshakeStep::Attach(self.attachment(stream)),
    {
        HandshakeStep::Attach(self.into_stream(stream))
    }
}

impl<S> MidHandshakeSslStream<S> {
    /// Whether the handshake is paused because `break_on_server_auth` was
    /// set and the handshake has progressed to that point.
    pub open spec fn auth_completed(self) -> bool {
        self.break_set && self.error.code == ERR_SSL_PEER_AUTH_COMPLETED
    }

    /// Whether the handshake is paused because `break_on_cert_requested` was
    /// set and the handshake has progressed to that point.
    pub open spec fn cert_requested(self) -> bool {
        self.break_set && self.error.code == ERR_SSL_CLIENT_CERT_REQUESTED
    }

    /// Whether the handshake is paused because the stream returned an error
    /// with the `WouldBlock` kind.
    pub open spec fn blocked(self) -> bool {
        &&& self.error.code == ERR_SSL_WOULD_BLOCK
        &&& self.stream.conn.err matches Some(err)
        &&& err.kind == ErrorKind::WouldBlock
    }

    /// Returns a shared reference to the inner stream.
    pub fn get_ref(&self) -> (stream: &S)
        ensures
            *stream == self.stream.conn.stream,
    {
        self.stream.get_ref()
    }

    /// Returns a mutable reference to the inner stream.
    pub fn get_mut(&mut self) -> (stream: &mut S)
        ensures
            *stream == old(self).stream.conn.stream,
            final(self).error == old(self).error,
            final(self).break_set == old(self).break_set,
            final(self).stream.ctx == old(self).stream.ctx,
            *final(self).stream.conn == (Connection {
                stream: *final(stream),
                ..*old(self).stream.conn
            }),
    {
        self.stream.get_mut()
    }

    /// Returns a shared reference to the `SslContext` of the stream.
    pub fn context(&self) -> (ctx: &SslContext)
        ensures
            *ctx == self.stream.ctx,
    {
        self.stream.context()
    }

    /// Returns a mutable reference to the `SslContext` of the stream.
    pub fn context_mut(&mut self) -> (ctx: &mut SslContext)
        ensures
            *ctx == old(self).stream.ctx,
            final(self).error == old(self).error,
            final(self).break_set == old(self).break_set,
            final(self).stream == (SslStream { ctx: *final(ctx), ..old(self).stream }),
    {
        self.stream.context_mut()
    }

    /// Returns `true` iff `break_on_server_auth` was set and the handshake has
    /// progressed to that point.
    pub fn server_auth_completed(&self) -> (completed: bool)
        ensures
            completed == self.auth_completed(),
    {
        self.break_set && self.error.code() == ERR_SSL_PEER_AUTH_COMPLETED
    }

    /// Returns `true` iff `break_on_cert_requested` was set and the handshake
    /// has progressed to that point.
    pub fn client_cert_requested(&self) -> (requested: bool)
        ensures
            requested == self.cert_requested(),
    {
        self.break_set && self.error.code() == ERR_SSL_CLIENT_CERT_REQUESTED
    }

    /// Returns `true` iff the underlying stream returned an error with the
    /// `WouldBlock` kind.
    ///
    /// The platform's status alone does not tell: a stream that is not
    /// connected yet leads to the same one.
    pub fn would_block(&self) -> (blocked: bool)
        ensures
            blocked == self.blocked(),
    {
        self.error.code() == ERR_SSL_WOULD_BLOCK && match &self.stream.connection().err {
            Some(err) => err.kind == ErrorKind::WouldBlock,
            None => false,
        }
    }

    /// Returns the status with which the platform paused the handshake.
    pub fn reason(&self) -> (status: OSStatus)
        ensures
            status == self.error.code,
    {
        self.error.code()
    }

    /// Returns the error which caused the handshake interruption.
    pub fn error(&self) -> (error: &Error)
        ensures
            *error == self.error,
    {
        &self.error
    }

    /// Restarts the handshake process.
    pub fn handshake(self) -> (step: HandshakeStep<S>)
        ensures
            step == HandshakeStep::Handshake(self.stream),
    {
        HandshakeStep::Handshake(self.stream)
    }
}

/// Law: an error of the stream is reported once, and a panic of it goes
/// first. After a failure of the platform, what the stream left behind is
/// reported in the place of the platform's status; at the next failure it is
/// not reported again.
pub proof fn law_stream_errors_are_reported_once<S>(
    conn: Connection<S>,
    first: OSStatus,
    second: OSStatus,
)
    ensures
        conn.panic matches Some(payload) ==> conn.pending_error(first) == Outcome::<
            IoError,
        >::Unwind(payload) && conn.error_taken().panic is None && conn.error_taken().err
            == conn.err,
        conn.panic is None && conn.err is Some ==> conn.pending_error(first) == Outcome::Return(
            conn.err->0,
        ),
        conn.panic is None ==> conn.error_taken().pending_error(second) == Outcome::Return(
            IoError {
                kind: ErrorKind::Other,
                source: ErrorSource::Platform(Error { code: second }),
            },
        ),
{
}

/// Law: a failure of the stream is what is reported when the platform fails
/// after it. A panic of the stream goes on when an attempt at a handshake
/// fails, other than by a pause, and when reading, writing or closing fails.
/// An error of the stream is reported by the latter three, in the place of the
/// platform's status, if no panic goes first.
pub proof fn law_stream_failures_are_reported<S>(
    ctx: SslContext,
    conn: Connection<S>,
    failure: StreamOutcome,
    status: OSStatus,
)
    requires
        status != ERR_SEC_SUCCESS,
    ensures
        failure matches StreamOutcome::Panicked(payload) ==> {
            let after = conn.recorded(failure);
            &&& after.pending_error(status) == Outcome::<IoError>::Unwind(payload)
            &&& !is_pause(status) ==> (SslStream { ctx, conn: Box::new(after) }).attempted(
                status,
            ) == Next::<Pause<S>, Outcome<Result<SslStream<S>, HandshakeError<S>>>>::Done(
                Outcome::Unwind(payload),
            )
        },
        failure matches StreamOutcome::Failed(err) ==> (conn.panic is None ==> conn.recorded(
            failure,
        ).pending_error(status) == Outcome::Return(err)),
{
}

/// Law: a handshake that pauses because of an error of the stream would block
/// exactly if that error has the `WouldBlock` kind.
pub proof fn law_would_block<S>(
    ctx: SslContext,
    conn: Connection<S>,
    err: IoError,
    mid: MidHandshakeSslStream<S>,
)
    requires
        (SslStream {
            ctx,
            conn: Box::new(conn.recorded(StreamOutcome::Failed(err))),
        }).attempted(translated(err.kind)) == Next::<
            Pause<S>,
            Outcome<Result<SslStream<S>, HandshakeError<S>>>,
        >::Done(Outcome::Return(Err(HandshakeError::Interrupted(mid)))),
    ensures
        mid.blocked() <==> err.kind == ErrorKind::WouldBlock,
{
}

/// Law: a pause is what the option asks for. When the platform has paused a
/// handshake with a status that an option can ask for, it is asked for that
/// option of this session, and for no other; `server_auth_completed` then
/// holds exactly if `break_on_server_auth` was set and the handshake has
/// progressed to that point, and so does `client_cert_requested` for
/// `break_on_cert_requested`. The handshake is interrupted in any case, with
/// the platform's status as the reason.
pub proof fn law_pauses_are_asked_for<S>(stream: SslStream<S>, status: OSStatus, reply: Reply)
    requires
        status == ERR_SSL_PEER_AUTH_COMPLETED || status == ERR_SSL_CLIENT_CERT_REQUESTED,
    ensures
        stream.attempted(status) matches Next::Ask(pause) && {
            let query = OptionQuery {
                ctx: stream.ctx,
                option: if status == ERR_SSL_PEER_AUTH_COMPLETED {
                    OPTION_BREAK_ON_SERVER_AUTH
                } else {
                    OPTION_BREAK_ON_CERT_REQUESTED
                },
            };
            let set = query.after(reply) == Next::<OptionQuery, Result<bool, Error>>::Done(
                Ok(true),
            );
            &&& pause.wf()
            &&& pause.awaiting() == query.awaiting()
            &&& HandshakeStep::after_pause(pause, reply) matches HandshakeStep::Done(
                Outcome::Return(Err(HandshakeError::Interrupted(mid))),
            )
            &&& mid.stream == stream
            &&& mid.error.code == status
            &&& mid.auth_completed() <==> status == ERR_SSL_PEER_AUTH_COMPLETED && set
            &&& mid.cert_requested() <==> status == ERR_SSL_CLIENT_CERT_REQUESTED && set
        },
{
}

/// Law: a read asks for at least one byte and for no more than fit into the
/// buffer, and it never makes the session wait for the next packet while the
/// session still holds bytes.
pub proof fn law_read_size(len: usize, buffered: usize)
    requires
        len > 0,
    ensures
        0 < read_size(len, buffered) <= len,
        buffered > 0 ==> read_size(len, buffered) <= buffered,
        read_size(len, buffered) < len ==> read_size(len, buffered) == buffered,
{
}

/// Law: a read returns no more bytes than were asked for, and so no more than
/// the buffer holds, if the platform reports no more than it was asked for.
pub proof fn law_reads_fit_the_buffer<S>(
    ctx: SslContext,
    conn: Connection<S>,
    len: usize,
    replies: Seq<Reply>,
)
    requires
        len > 0,
        replies.len() == 2,
        answered(Reading { ctx, len, size: None }, replies),
        replies[1].value->Size_0 <= calls(Reading { ctx, len, size: None }, replies)[1]->Read_len,
    ensures
        run(Reading { ctx, len, size: None }, replies) matches Next::Done((status, nread)) && (
        conn.read_outcome(status, nread) matches Outcome::Return(Ok(n)) ==> {
            let buffered = if replies[0].status == ERR_SEC_SUCCESS {
                replies[0].value->Size_0
            } else {
                0
            };
            &&& n == replies[1].value->Size_0
            &&& n <= read_size(len, buffered)
            &&& n <= len
        }),
{
    reveal_with_fuel(run, 3);
    reveal_with_fuel(calls, 3);
    reveal_with_fuel(answered, 3);
}

/// Law: a write returns no more bytes than the buffer holds, if the platform
/// reports no more than it was given.
pub proof fn law_writes_fit_the_buffer<S>(
    ctx: SslContext,
    conn: Connection<S>,
    len: usize,
    reply: Reply,
)
    requires
        len > 0,
        reply.answers((Writing { ctx, len }).awaiting()),
        reply.value->Size_0 <= len,
    ensures
        (Writing { ctx, len }).after(reply) matches Next::Done((status, nwritten)) && (
        conn.write_outcome(status, nwritten) matches Outcome::Return(Ok(n)) ==> n
            == reply.value->Size_0 && n <= len),
{
}

} // verus!
