//! What holds of transfers, handshakes, reads and writes, whatever they
//! return.
//!
//! Each law here is about the results that a function may return, and says
//! in terms of the platform's statuses and the stream's own failures what
//! such a result must be.
use crate::base::{
    ERR_SEC_IO, ERR_SEC_SUCCESS, ERR_SSL_CLIENT_CERT_REQUESTED, ERR_SSL_CLIENT_HELLO_RECEIVED,
    ERR_SSL_CLOSED_ABORT, ERR_SSL_CLOSED_GRACEFUL, ERR_SSL_CLOSED_NO_NOTIFY,
    ERR_SSL_PEER_AUTH_COMPLETED, ERR_SSL_WOULD_BLOCK, Error, OSStatus,
};
use crate::connection::{
    Connection, ErrorKind, ErrorSource, IoError, Outcome, PanicPayload, StreamOutcome, Transfer,
    TransferStep, read_func, translate_err, write_func,
};
use crate::context::SslContext;
use crate::operation::{Next, Operation};
use crate::platform::{Call, CallView, Reply};
use crate::stream::{
    Attachment, HandshakeError, HandshakeStep, MidHandshakeSslStream, Pause, Reading, SslStream,
    Writing,
};
use vstd::prelude::*;

verus! {

/// The statuses that mean that an attempt at a handshake has failed: neither
/// success nor one of the four pauses.
pub open spec fn fails_handshake(status: OSStatus) -> bool {
    &&& status != ERR_SEC_SUCCESS
    &&& status != ERR_SSL_PEER_AUTH_COMPLETED
    &&& status != ERR_SSL_CLIENT_CERT_REQUESTED
    &&& status != ERR_SSL_WOULD_BLOCK
    &&& status != ERR_SSL_CLIENT_HELLO_RECEIVED
}

/// Law: the platform is told of a stream error by the status for its kind,
/// and each of these statuses comes from its kinds alone.
pub proof fn law_kinds_have_their_statuses(e: &IoError, status: OSStatus)
    requires
        call_ensures(translate_err, (e,), status),
    ensures
        status == ERR_SSL_CLOSED_GRACEFUL <==> e.kind == ErrorKind::NotFound,
        status == ERR_SSL_CLOSED_ABORT <==> e.kind == ErrorKind::ConnectionReset,
        status == ERR_SSL_WOULD_BLOCK <==> (e.kind == ErrorKind::WouldBlock || e.kind
            == ErrorKind::NotConnected),
        status == ERR_SEC_IO <==> e.kind == ErrorKind::Other,
{
}

/// Law: a transfer of no bytes is over at once and a success. Any other one
/// begins with an offer of the whole buffer.
pub proof fn law_transfers_begin(len: usize, reading: TransferStep, writing: TransferStep)
    requires
        call_ensures(read_func, (len,), reading),
        call_ensures(write_func, (len,), writing),
    ensures
        reading == writing,
        reading is Finished <==> len == 0,
        reading matches TransferStep::Offer(transfer) ==> transfer.len == len && transfer.done
            == 0,
        reading matches TransferStep::Finished { status, data_length } ==> status
            == ERR_SEC_SUCCESS && data_length == 0,
{
}

/// Law: a transfer goes on as long as the stream moves bytes and the buffer
/// is not used up. A stream that moves nothing has closed without notice, and
/// one that fails or panics ends the transfer with what was moved before.
pub proof fn law_transfers_go_on<S>(
    conn: &mut Connection<S>,
    transfer: Transfer,
    outcome: StreamOutcome,
    step: TransferStep,
)
    requires
        transfer.done < transfer.len,
        outcome matches StreamOutcome::Moved(n) ==> transfer.done + n <= usize::MAX,
        call_ensures(Connection::<S>::transferred, (conn, transfer, outcome), step),
    ensures
        outcome matches StreamOutcome::Moved(n) ==> {
            &&& *final(conn) == *old(conn)
            &&& step is Offer <==> n > 0 && transfer.done + n < transfer.len
            &&& step matches TransferStep::Offer(rest) ==> rest.len == transfer.len && rest.done
                == transfer.done + n
            &&& step matches TransferStep::Finished { status, data_length } ==> {
                &&& data_length == transfer.done + n
                &&& n > 0 ==> status == ERR_SEC_SUCCESS
                &&& n == 0 ==> status == ERR_SSL_CLOSED_NO_NOTIFY
            }
        },
        outcome matches StreamOutcome::Failed(e) ==> {
            &&& final(conn).err == Some(e)
            &&& final(conn).panic == old(conn).panic
            &&& final(conn).stream == old(conn).stream
            &&& step matches TransferStep::Finished { status, data_length }
            &&& data_length == transfer.done
            &&& e.kind == ErrorKind::NotFound ==> status == ERR_SSL_CLOSED_GRACEFUL
            &&& e.kind == ErrorKind::ConnectionReset ==> status == ERR_SSL_CLOSED_ABORT
            &&& e.kind == ErrorKind::WouldBlock || e.kind == ErrorKind::NotConnected ==> status
                == ERR_SSL_WOULD_BLOCK
            &&& e.kind == ErrorKind::Other ==> status == ERR_SEC_IO
        },
        outcome matches StreamOutcome::Panicked(payload) ==> {
            &&& final(conn).panic == Some(payload)
            &&& final(conn).err == old(conn).err
            &&& final(conn).stream == old(conn).stream
            &&& step matches TransferStep::Finished { status, data_length }
            &&& status == ERR_SEC_IO
            &&& data_length == transfer.done
        },
{
}

/// Law: an attempt at a handshake succeeds exactly if the platform reports
/// success, and then returns the stream of that attempt. It is over without
/// success exactly if the status is a failure, and then with the caught panic
/// of the stream, if there is one, else with exactly that status. A pause
/// keeps the stream and the status.
pub proof fn law_attempts_end<S>(
    stream: SslStream<S>,
    status: OSStatus,
    next: Next<Pause<S>, Outcome<Result<SslStream<S>, HandshakeError<S>>>>,
)
    requires
        call_ensures(SslStream::<S>::handshake, (stream, status), next),
    ensures
        (next matches Next::Done(Outcome::Return(Ok(_)))) <==> status == ERR_SEC_SUCCESS,
        next matches Next::Done(Outcome::Return(Ok(returned))) ==> returned == stream,
        (next matches Next::Done(Outcome::Return(Err(HandshakeError::Failure(_))))) <==> (
        fails_handshake(status) && stream.conn.panic is None),
        next matches Next::Done(Outcome::Return(Err(HandshakeError::Failure(err)))) ==> err.code
            == status,
        (next matches Next::Done(Outcome::Unwind(_))) <==> (fails_handshake(status)
            && stream.conn.panic is Some),
        next matches Next::Done(Outcome::Unwind(payload)) ==> stream.conn.panic == Some(payload),
        next matches Next::Done(Outcome::Return(Err(HandshakeError::Interrupted(mid)))) ==> {
            &&& status == ERR_SSL_WOULD_BLOCK || status == ERR_SSL_CLIENT_HELLO_RECEIVED
            &&& mid.stream == stream
            &&& mid.error.code == status
        },
        next matches Next::Ask(pause) ==> {
            &&& status == ERR_SSL_PEER_AUTH_COMPLETED || status == ERR_SSL_CLIENT_CERT_REQUESTED
            &&& pause.stream == stream
            &&& pause.error.code == status
            &&& pause.query.ctx == stream.ctx
        },
{
}

/// Law: the handshake of a session ends in success exactly if the platform's
/// status of the last attempt is success, and then returns the stream of that
/// attempt. Every status that is neither success nor a pause ends it, without
/// a caught panic, in a failure with exactly that status, and with one in that
/// panic. A pause loses neither the stream nor the status.
pub proof fn law_session_handshake_ends<S>(
    stream: SslStream<S>,
    status: OSStatus,
    step: HandshakeStep<S>,
)
    requires
        call_ensures(HandshakeStep::<S>::handshake, (stream, status), step),
    ensures
        (step matches HandshakeStep::Done(Outcome::Return(Ok(_)))) <==> status == ERR_SEC_SUCCESS,
        step matches HandshakeStep::Done(Outcome::Return(Ok(returned))) ==> returned == stream,
        fails_handshake(status) && stream.conn.panic is None ==> (
        step matches HandshakeStep::Done(Outcome::Return(Err(HandshakeError::Failure(err))))
            && err.code == status),
        fails_handshake(status) && stream.conn.panic is Some ==> (
        step matches HandshakeStep::Done(Outcome::Unwind(payload)) && stream.conn.panic == Some(
            payload,
        )),
        status == ERR_SSL_WOULD_BLOCK || status == ERR_SSL_CLIENT_HELLO_RECEIVED ==> (
        step matches HandshakeStep::Done(Outcome::Return(Err(HandshakeError::Interrupted(mid))))
            && mid.stream == stream && mid.error.code == status),
        status == ERR_SSL_PEER_AUTH_COMPLETED || status == ERR_SSL_CLIENT_CERT_REQUESTED ==> (
        step matches HandshakeStep::Pause(pause) && pause.stream == stream && pause.error.code
            == status),
{
}

/// Law: what the platform is asked at a pause is the option that asks for it,
/// of the session that paused, and the handshake is then interrupted. Whether
/// the option was set is remembered exactly as the platform reports it.
pub proof fn law_pauses_interrupt<S>(
    stream: SslStream<S>,
    status: OSStatus,
    paused: HandshakeStep<S>,
    reply: Reply,
    step: HandshakeStep<S>,
)
    requires
        status == ERR_SSL_PEER_AUTH_COMPLETED || status == ERR_SSL_CLIENT_CERT_REQUESTED,
        call_ensures(HandshakeStep::<S>::handshake, (stream, status), paused),
        paused matches HandshakeStep::Pause(op) && call_ensures(
            HandshakeStep::<S>::pause,
            (op, reply),
            step,
        ),
    ensures
        paused matches HandshakeStep::Pause(op) && op.awaiting() == (CallView::GetSessionOption {
            ctx: stream.ctx.raw,
            option: if status == ERR_SSL_PEER_AUTH_COMPLETED {
                0
            } else {
                1
            },
        }),
        step matches HandshakeStep::Done(Outcome::Return(Err(HandshakeError::Interrupted(mid))))
            && mid.stream == stream && mid.error.code == status && (reply.status
            == ERR_SEC_SUCCESS && reply.value is Flag ==> (mid.break_set <==> reply.value->Flag_0
            != 0)) && (reply.status != ERR_SEC_SUCCESS ==> !mid.break_set),
{
}

/// Law: what an interrupted handshake tells of its pause. The three
/// questions exclude each other, each goes with its own status, two of them
/// with their option as well, and the third with the kind of the stream's
/// error.
pub proof fn law_pauses_are_told_apart<S>(
    mid: &MidHandshakeSslStream<S>,
    completed: bool,
    requested: bool,
    blocked: bool,
    reason: OSStatus,
    error: &Error,
    ctx: &SslContext,
)
    requires
        call_ensures(MidHandshakeSslStream::<S>::error, (mid,), error),
        call_ensures(MidHandshakeSslStream::<S>::context, (mid,), ctx),
        call_ensures(MidHandshakeSslStream::<S>::server_auth_completed, (mid,), completed),
        call_ensures(MidHandshakeSslStream::<S>::client_cert_requested, (mid,), requested),
        call_ensures(MidHandshakeSslStream::<S>::would_block, (mid,), blocked),
        call_ensures(MidHandshakeSslStream::<S>::reason, (mid,), reason),
    ensures
        reason == mid.error.code,
        *error == mid.error,
        *ctx == mid.stream.ctx,
        completed <==> reason == ERR_SSL_PEER_AUTH_COMPLETED && mid.break_set,
        requested <==> reason == ERR_SSL_CLIENT_CERT_REQUESTED && mid.break_set,
        blocked <==> reason == ERR_SSL_WOULD_BLOCK && (mid.stream.conn.err matches Some(err)
            && err.kind == ErrorKind::WouldBlock),
        !(completed && requested) && !(completed && blocked) && !(requested && blocked),
{
}

/// Law: a session is attached in two calls, both of which must succeed, and
/// the first failure ends the handshake with its status. The handshake is
/// attempted on the stream that was given, over this session, with no failure
/// kept.
pub proof fn law_sessions_are_attached<S>(
    ctx: SslContext,
    stream: S,
    start: HandshakeStep<S>,
    first: Reply,
    middle: HandshakeStep<S>,
    second: Reply,
    end: HandshakeStep<S>,
)
    requires
        call_ensures(SslContext::handshake::<S>, (ctx, stream), start),
        start matches HandshakeStep::Attach(op) && call_ensures(
            HandshakeStep::<S>::attach,
            (op, first),
            middle,
        ),
        middle matches HandshakeStep::Attach(op) ==> call_ensures(
            HandshakeStep::<S>::attach,
            (op, second),
            end,
        ),
    ensures
        start matches HandshakeStep::Attach(op) && op.awaiting() == (CallView::SetIoFuncs {
            ctx: ctx.raw,
        }),
        first.status != ERR_SEC_SUCCESS ==> (middle matches HandshakeStep::Done(
            Outcome::Return(Err(HandshakeError::Failure(err))),
        ) && err.code == first.status),
        first.status == ERR_SEC_SUCCESS ==> (middle matches HandshakeStep::Attach(op)
            && op.awaiting() == (CallView::SetConnection { ctx: ctx.raw })),
        first.status == ERR_SEC_SUCCESS && second.status != ERR_SEC_SUCCESS ==> (
        end matches HandshakeStep::Done(Outcome::Return(Err(HandshakeError::Failure(err))))
            && err.code == second.status),
        first.status == ERR_SEC_SUCCESS && second.status == ERR_SEC_SUCCESS ==> (
        end matches HandshakeStep::Handshake(ssl) && ssl.ctx == ctx && ssl.conn.stream == stream
            && ssl.conn.err is None && ssl.conn.panic is None),
{
}

/// Law: `into_stream` attaches in the same two calls, and ends with the
/// stream or with the status of the call that failed.
pub proof fn law_streams_come_from_attachment<S>(
    ctx: SslContext,
    stream: S,
    op: Attachment<S>,
    first: Reply,
    second: Reply,
)
    requires
        call_ensures(SslContext::into_stream::<S>, (ctx, stream), op),
    ensures
        op.awaiting() == (CallView::SetIoFuncs { ctx: ctx.raw }),
        first.status != ERR_SEC_SUCCESS ==> (op.after(first) matches Next::Done(Err(err))
            && err.code == first.status),
        first.status == ERR_SEC_SUCCESS ==> (op.after(first) matches Next::Ask(rest) && {
            &&& rest.awaiting() == (CallView::SetConnection { ctx: ctx.raw })
            &&& second.status != ERR_SEC_SUCCESS ==> (rest.after(second) matches Next::Done(
                Err(err),
            ) && err.code == second.status)
            &&& second.status == ERR_SEC_SUCCESS ==> (rest.after(second) matches Next::Done(
                Ok(ssl),
            ) && ssl.ctx == ctx && ssl.conn.stream == stream && ssl.conn.err is None
                && ssl.conn.panic is None)
        }),
{
}

/// Law: a paused handshake is restarted on its own stream, and every attempt
/// is made on the session of its stream.
pub proof fn law_restarts_attempt_again<S>(
    mid: MidHandshakeSslStream<S>,
    step: HandshakeStep<S>,
    stream: &SslStream<S>,
    call: Call,
)
    requires
        call_ensures(MidHandshakeSslStream::<S>::handshake, (mid,), step),
        call_ensures(SslStream::<S>::handshake_call, (stream,), call),
    ensures
        step matches HandshakeStep::Handshake(again) && again == mid.stream,
        call@ == (CallView::Handshake { ctx: stream.ctx.raw }),
{
}

/// Whether an operation over a connection told of the right failure, after
/// the platform failed with a status: the caught panic of the stream, else the
/// stream's own error, else the platform's. What was told is no longer kept,
/// and nothing else has changed.
pub open spec fn tells_failure<S, T>(
    before: Connection<S>,
    after: Connection<S>,
    status: OSStatus,
    outcome: Outcome<Result<T, IoError>>,
) -> bool {
    &&& after.stream == before.stream
    &&& after.panic is None
    &&& before.panic matches Some(payload) ==> {
        &&& outcome matches Outcome::Unwind(told)
        &&& told == payload
        &&& after.err == before.err
    }
    &&& before.panic is None ==> {
        &&& outcome matches Outcome::Return(Err(told))
        &&& after.err is None
        &&& before.err matches Some(err) ==> told == err
        &&& before.err is None ==> told.kind == ErrorKind::Other && told.source
            == ErrorSource::Platform(Error { code: status })
    }
}

/// Law: a read with a non-empty buffer returns no bytes only if the platform
/// reports one of the three closed statuses. With no bytes and any other
/// status, it tells of the failure: the stream's panic, else its error, else
/// the platform's status. Bytes that were read are returned whatever the
/// status, and then nothing is forgotten.
pub proof fn law_reads_end<S>(
    stream: &mut SslStream<S>,
    status: OSStatus,
    nread: usize,
    outcome: Outcome<Result<usize, IoError>>,
)
    requires
        call_ensures(SslStream::<S>::read_done, (stream, status, nread), outcome),
    ensures
        ({
            let closed = status == ERR_SSL_CLOSED_GRACEFUL || status == ERR_SSL_CLOSED_ABORT
                || status == ERR_SSL_CLOSED_NO_NOTIFY;
            &&& outcome matches Outcome::Return(Ok(n)) ==> n == nread && (n == 0 ==> closed)
            &&& (outcome matches Outcome::Return(Ok(_))) <==> (nread > 0 || closed)
            &&& nread > 0 || closed ==> *final(stream) == *old(stream)
            &&& nread == 0 && !closed ==> tells_failure(
                *old(stream).conn,
                *final(stream).conn,
                status,
                outcome,
            )
        }),
        final(stream).ctx == old(stream).ctx,
{
}

/// Law: a write returns the number of bytes that were written, whatever the
/// status, and tells of the failure if there were none.
pub proof fn law_writes_end<S>(
    stream: &mut SslStream<S>,
    status: OSStatus,
    nwritten: usize,
    outcome: Outcome<Result<usize, IoError>>,
)
    requires
        call_ensures(SslStream::<S>::write_done, (stream, status, nwritten), outcome),
    ensures
        (outcome matches Outcome::Return(Ok(n))) <==> nwritten > 0,
        outcome matches Outcome::Return(Ok(n)) ==> n == nwritten && *final(stream) == *old(stream),
        nwritten == 0 ==> tells_failure(
            *old(stream).conn,
            *final(stream).conn,
            status,
            outcome,
        ),
        final(stream).ctx == old(stream).ctx,
{
}

/// Law: closing succeeds exactly if the platform reports success, and else
/// tells of the failure.
pub proof fn law_closes_end<S>(
    stream: &mut SslStream<S>,
    status: OSStatus,
    outcome: Outcome<Result<(), IoError>>,
)
    requires
        call_ensures(SslStream::<S>::close, (stream, status), outcome),
    ensures
        (outcome matches Outcome::Return(Ok(_))) <==> status == ERR_SEC_SUCCESS,
        status == ERR_SEC_SUCCESS ==> *final(stream) == *old(stream),
        status != ERR_SEC_SUCCESS ==> tells_failure(
            *old(stream).conn,
            *final(stream).conn,
            status,
            outcome,
        ),
        final(stream).ctx == old(stream).ctx,
{
}

/// Law: the error to report is the failure to tell of, and a panic that is
/// taken is not kept.
pub proof fn law_errors_are_told<S>(
    stream: &mut SslStream<S>,
    status: OSStatus,
    error: Outcome<IoError>,
    other: &mut SslStream<S>,
    payload: Option<PanicPayload>,
)
    requires
        call_ensures(SslStream::<S>::get_error, (stream, status), error),
        call_ensures(SslStream::<S>::check_panic, (other,), payload),
    ensures
        tells_failure::<S, ()>(
            *old(stream).conn,
            *final(stream).conn,
            status,
            (match error {
                Outcome::Return(err) => Outcome::Return(Err(err)),
                Outcome::Unwind(payload) => Outcome::Unwind(payload),
            }),
        ),
        payload == old(other).conn.panic,
        final(other).conn.panic is None,
        final(other).conn.err == old(other).conn.err,
        final(other).conn.stream == old(other).conn.stream,
        final(other).ctx == old(other).ctx,
{
}

/// Law: a read into an empty buffer is a read of no bytes without any call.
/// Any other read asks how many bytes the session holds, then reads: the whole
/// buffer, or as many as the session holds if it holds some but fewer. It ends
/// with what the platform reports.
pub proof fn law_reads_ask<S>(
    stream: &SslStream<S>,
    len: usize,
    next: Next<Reading, usize>,
    held: Reply,
    read: Reply,
)
    requires
        call_ensures(SslStream::<S>::read, (stream, len), next),
        held.status == ERR_SEC_SUCCESS ==> held.value is Size,
        read.value is Size,
    ensures
        len == 0 ==> next == Next::<Reading, usize>::Done(0),
        len > 0 ==> (next matches Next::Ask(op) && {
            &&& op.awaiting() == (CallView::GetBufferedReadSize { ctx: stream.ctx.raw })
            &&& op.after(held) matches Next::Ask(rest)
            &&& rest.awaiting() matches CallView::Read { ctx, len: asked }
            &&& ctx == stream.ctx.raw
            &&& 0 < asked <= len
            &&& asked != len ==> held.status == ERR_SEC_SUCCESS && asked == held.value->Size_0
            &&& held.status == ERR_SEC_SUCCESS && 0 < held.value->Size_0 ==> asked
                <= held.value->Size_0
            &&& rest.after(read) matches Next::Done(end)
            &&& end.0 == read.status
            &&& end.1 == read.value->Size_0
        }),
{
}

/// Law: a write of an empty buffer is a write of no bytes without any call.
/// Any other write hands over the whole buffer in one call, and ends with what
/// the platform reports.
pub proof fn law_writes_ask<S>(
    stream: &SslStream<S>,
    len: usize,
    next: Next<Writing, usize>,
    written: Reply,
    close: Call,
)
    requires
        call_ensures(SslStream::<S>::write, (stream, len), next),
        call_ensures(SslStream::<S>::close_call, (stream,), close),
        written.value is Size,
    ensures
        len == 0 ==> next == Next::<Writing, usize>::Done(0),
        len > 0 ==> (next matches Next::Ask(op) && {
            &&& op.awaiting() == (CallView::Write { ctx: stream.ctx.raw, len })
            &&& op.after(written) matches Next::Done(end)
            &&& end.0 == written.status
            &&& end.1 == written.value->Size_0
        }),
        close@ == (CallView::Close { ctx: stream.ctx.raw }),
{
}

/// Law: access to the user's stream or to the session changes nothing else:
/// what the stream left behind, the reason of a pause and its record stay.
pub proof fn law_access_changes_nothing_else<S>(
    ssl: &mut SslStream<S>,
    user: &mut S,
    other: &mut SslStream<S>,
    session: &mut SslContext,
    mid: &mut MidHandshakeSslStream<S>,
    mid_user: &mut S,
    shared: &SslStream<S>,
    seen: &S,
)
    requires
        call_ensures(SslStream::<S>::get_mut, (ssl,), user),
        call_ensures(SslStream::<S>::context_mut, (other,), session),
        call_ensures(MidHandshakeSslStream::<S>::get_mut, (mid,), mid_user),
        call_ensures(SslStream::<S>::get_ref, (shared,), seen),
    ensures
        *seen == shared.conn.stream,
        *old(user) == old(ssl).conn.stream,
        final(ssl).ctx == old(ssl).ctx,
        final(ssl).conn.stream == *final(user),
        final(ssl).conn.err == old(ssl).conn.err,
        final(ssl).conn.panic == old(ssl).conn.panic,
        *old(session) == old(other).ctx,
        final(other).ctx == *final(session),
        final(other).conn == old(other).conn,
        *old(mid_user) == old(mid).stream.conn.stream,
        final(mid).stream.ctx == old(mid).stream.ctx,
        final(mid).stream.conn.stream == *final(mid_user),
        final(mid).stream.conn.err == old(mid).stream.conn.err,
        final(mid).stream.conn.panic == old(mid).stream.conn.panic,
        final(mid).error == old(mid).error,
        final(mid).break_set == old(mid).break_set,
{
}

/// Law: a connection begins without a failure, and an error of the platform
/// alone is a failure and no interruption.
pub proof fn law_beginnings<S>(
    stream: S,
    conn: Connection<S>,
    err: Error,
    from: HandshakeError<S>,
)
    requires
        call_ensures(Connection::<S>::new, (stream,), conn),
        call_ensures(<HandshakeError<S> as From<Error>>::from, (err,), from),
    ensures
        conn.stream == stream && conn.err is None && conn.panic is None,
        from == HandshakeError::<S>::Failure(err),
{
}

} // verus!
