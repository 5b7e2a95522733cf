//! The server side: configuration, set-up of the session, and the handshake.
use crate::base::{ERR_SEC_SUCCESS, Error, OSStatus};
use crate::connection::{Connection, Outcome};
use crate::context::{Creation, SslContext, certificate_refs};
use crate::operation::{Next, Operation, answered, calls, run};
use crate::platform::{Call, CallOf, CallView, Reply};
use crate::stream::{Attachment, HandshakeError, SslStream, is_pause};
use crate::types::{SecCertificate, SecIdentity, SslConnectionType, SslProtocolSide};
use vstd::prelude::*;
use vstd::slice::slice_to_vec;

verus! {

/// A builder type to simplify the creation of server-side `SslStream`s.
#[derive(Debug)]
pub struct ServerBuilder {
    pub identity: SecIdentity,
    pub certs: Vec<SecCertificate>,
}

/// The set-up of a server's session over a stream.
#[allow(inconsistent_fields)]
#[derive(Debug)]
pub enum ServerSetup<'a, S> {
    /// The session is created.
    Create { builder: &'a ServerBuilder, stream: S },
    /// The certificate is set.
    Certificate { builder: &'a ServerBuilder, ctx: SslContext, stream: S },
    /// The session is attached to the stream.
    Attach { op: Attachment<S> },
}

/// How a server creates its session.
pub open spec fn server_creation() -> Creation {
    Creation { side: SslProtocolSide::SERVER, kind: SslConnectionType::STREAM }
}

impl<'a, S> Operation for ServerSetup<'a, S> {
    type Output = Result<SslStream<S>, Error>;

    type Model = Result<SslStream<S>, Error>;

    open spec fn model(output: Result<SslStream<S>, Error>) -> Result<SslStream<S>, Error> {
        output
    }

    open spec fn wf(&self) -> bool {
        true
    }

    open spec fn awaiting(&self) -> CallView {
        match *self {
            ServerSetup::Create { .. } => server_creation().awaiting(),
            ServerSetup::Certificate { builder, ctx, stream } => CallOf::SetCertificate {
                ctx: ctx.raw,
                chain: seq![builder.identity.raw] + certificate_refs(builder.certs@),
            },
            ServerSetup::Attach { op } => op.awaiting(),
        }
    }

    open spec fn after(self, reply: Reply) -> Next<
        ServerSetup<'a, S>,
        Result<SslStream<S>, Error>,
    > {
        match self {
            ServerSetup::Create { builder, stream } => match server_creation().after(reply) {
                Next::Ask(_) => Next::Ask(self),
                Next::Done(Err(err)) => Next::Done(Err(err)),
                Next::Done(Ok(ctx)) => Next::Ask(ServerSetup::Certificate { builder, ctx, stream }),
            },
            ServerSetup::Certificate { builder, ctx, stream } => match reply.outcome() {
                Ok(()) => Next::Ask(ServerSetup::Attach { op: ctx.attachment(stream) }),
                Err(err) => Next::Done(Err(err)),
            },
            ServerSetup::Attach { op } => match op.after(reply) {
                Next::Ask(rest) => Next::Ask(ServerSetup::Attach { op: rest }),
                Next::Done(result) => Next::Done(result),
            },
        }
    }

    fn call(&self) -> (call: Call) {
        match self {
            ServerSetup::Create { .. } => SslContext::new(
                SslProtocolSide::SERVER,
                SslConnectionType::STREAM,
            ).call(),
            ServerSetup::Certificate { builder, ctx, stream: _ } => {
                let mut ctx = *ctx;
                ctx.set_certificate(&builder.identity, builder.certs.as_slice()).call
            },
            ServerSetup::Attach { op } => op.call(),
        }
    }

    fn resume(self, reply: Reply) -> (next: Next<ServerSetup<'a, S>, Result<SslStream<S>, Error>>) {
        match self {
            ServerSetup::Create { builder, stream } => {
                let creation = SslContext::new(SslProtocolSide::SERVER, SslConnectionType::STREAM);
                match creation.resume(reply) {
                    Next::Ask(_) => Next::Ask(ServerSetup::Create { builder, stream }),
                    Next::Done(Err(err)) => Next::Done(Err(err)),
                    Next::Done(Ok(ctx)) => Next::Ask(
                        ServerSetup::Certificate { builder, ctx, stream },
                    ),
                }
            },
            ServerSetup::Certificate { builder: _, ctx, stream } => match reply.check() {
                Ok(()) => Next::Ask(ServerSetup::Attach { op: ctx.into_stream(stream) }),
                Err(err) => Next::Done(Err(err)),
            },
            ServerSetup::Attach { op } => match op.resume(reply) {
                Next::Ask(rest) => Next::Ask(ServerSetup::Attach { op: rest }),
                Next::Done(result) => Next::Done(result),
            },
        }
    }
}

/// How a server's handshake goes on.
#[derive(Debug)]
pub enum ServerStep<'a, S> {
    /// The session is set up.
    Setup(ServerSetup<'a, S>),
    /// The platform attempts the handshake on this stream. The stream is
    /// given back with the status.
    Handshake(SslStream<S>),
    /// The attempt is over.
    Done(Outcome<Result<SslStream<S>, Error>>),
}

impl<'a, S> ServerStep<'a, S> {
    /// How the handshake goes on after a reply in the course of the set-up.
    pub open spec fn after_setup(op: ServerSetup<'a, S>, reply: Reply) -> ServerStep<'a, S> {
        match op.after(reply) {
            Next::Ask(rest) => ServerStep::Setup(rest),
            Next::Done(Ok(stream)) => ServerStep::Handshake(stream),
            Next::Done(Err(err)) => ServerStep::Done(Outcome::Return(Err(err))),
        }
    }

    /// How the handshake goes on after the platform attempted it. There is
    /// no way back into a paused handshake: every status but success is the
    /// error, unless the platform failed because of a panic of the stream.
    pub open spec fn after_handshake(stream: SslStream<S>, status: OSStatus) -> ServerStep<'a, S> {
        if status == ERR_SEC_SUCCESS {
            ServerStep::Done(Outcome::Return(Ok(stream)))
        } else if stream.conn.panic is Some && !is_pause(status) {
            ServerStep::Done(Outcome::Unwind(stream.conn.panic->0))
        } else {
            ServerStep::Done(Outcome::Return(Err(Error { code: status })))
        }
    }

    /// Goes on with a reply in the course of the set-up.
    pub fn setup(op: ServerSetup<'a, S>, reply: Reply) -> (step: ServerStep<'a, S>)
        requires
            reply.answers(op.awaiting()),
        ensures
            step == ServerStep::after_setup(op, reply),
    {
        match op.resume(reply) {
            Next::Ask(rest) => ServerStep::Setup(rest),
            Next::Done(Ok(stream)) => ServerStep::Handshake(stream),
            Next::Done(Err(err)) => ServerStep::Done(Outcome::Return(Err(err))),
        }
    }

    /// Goes on with the stream and the status after the platform attempted
    /// the handshake.
    pub fn handshake(stream: SslStream<S>, status: OSStatus) -> (step: ServerStep<'a, S>)
        ensures
            step == ServerStep::<'a, S>::after_handshake(stream, status),
    {
        let outcome = match stream.handshake(status) {
            Next::Ask(pause) => Outcome::Return(Err(Error::from_code(pause.error.code()))),
            Next::Done(Outcome::Unwind(payload)) => Outcome::Unwind(payload),
            Next::Done(Outcome::Return(Ok(stream))) => Outcome::Return(Ok(stream)),
            Next::Done(Outcome::Return(Err(HandshakeError::Interrupted(stream)))) => {
                Outcome::Return(Err(Error::from_code(stream.reason())))
            },
            Next::Done(Outcome::Return(Err(HandshakeError::Failure(err)))) => Outcome::Return(
                Err(err),
            ),
        };
        ServerStep::Done(outcome)
    }
}

impl ServerBuilder {
    /// Creates a new `ServerBuilder` which will use the specified identity
    /// and certificate chain for handshakes.
    pub fn new(identity: &SecIdentity, certs: &[SecCertificate]) -> (builder: ServerBuilder)
        ensures
            builder.identity == *identity,
            builder.certs@ == certs@,
    {
        ServerBuilder { identity: *identity, certs: slice_to_vec(certs) }
    }

    /// Initiates a new SSL/TLS session over a stream.
    pub fn handshake<'a, S>(&'a self, stream: S) -> (step: ServerStep<'a, S>)
        ensures
            step == ServerStep::Setup(ServerSetup::Create { builder: self, stream }),
    {
        ServerStep::Setup(ServerSetup::Create { builder: self, stream })
    }
}

/// Law: what a server asks of the platform before the handshake. A session
/// is created for the server side of a stream; it is given the identity with
/// the certificates behind it in the chain; and it is attached to the stream.
/// Nothing else is asked, and the stream of the session is the one that was
/// given, with no failure kept.
pub proof fn law_server_setup<S>(builder: &ServerBuilder, stream: S, replies: Seq<Reply>)
    requires
        run(ServerSetup::Create { builder, stream }, replies) matches Next::Done(Ok(_)),
    ensures
        ({
            let ctx = replies[0].value->Ref_0;
            calls(ServerSetup::Create { builder, stream }, replies) == seq![
                CallView::CreateContext {
                    side: SslProtocolSide::SERVER.raw(),
                    kind: SslConnectionType::STREAM.raw(),
                },
                CallView::SetCertificate {
                    ctx,
                    chain: seq![builder.identity.raw] + certificate_refs(builder.certs@),
                },
                CallView::SetIoFuncs { ctx },
                CallView::SetConnection { ctx },
            ]
        }),
        run(ServerSetup::Create { builder, stream }, replies) matches Next::Done(Ok(ssl))
            && ssl.ctx.raw == replies[0].value->Ref_0 && *ssl.conn == (Connection {
            stream,
            err: None,
            panic: None,
        }),
{
    reveal_with_fuel(run, 5);
    reveal_with_fuel(calls, 5);
}

/// Law: the set-up of a server's session ends with the first call that
/// fails. Every call but the first, which creates the session and has no
/// status, is followed by another one only if it succeeded; the set-up
/// succeeds if its last call does, and else ends with the error of that call.
pub proof fn law_server_setup_stops_at_failure<S>(
    builder: &ServerBuilder,
    stream: S,
    replies: Seq<Reply>,
)
    requires
        answered(ServerSetup::Create { builder, stream }, replies),
    ensures
        ({
            let create = ServerSetup::Create { builder, stream };
            let asked = calls(create, replies).len();
            &&& forall|k: int| 1 <= k < asked - 1 ==> (#[trigger] replies[k]).outcome() is Ok
            &&& run(create, replies) matches Next::Done(result) ==> {
                let last = replies[asked - 1].outcome();
                &&& 1 < asked <= replies.len()
                &&& result is Ok <==> last is Ok
                &&& result matches Err(err) ==> last == Err::<(), Error>(err)
            }
        }),
{
    reveal_with_fuel(run, 5);
    reveal_with_fuel(calls, 5);
    reveal_with_fuel(answered, 5);
}

} // verus!
