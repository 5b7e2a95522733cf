//! The handshake of a client, with the judgement on the server's certificate
//! in the middle of it.
use crate::base::{
    ERR_SEC_SUCCESS, ERR_SSL_PEER_AUTH_COMPLETED, ERR_SSL_WOULD_BLOCK, Error, OSStatus,
};
use crate::client::{ClientBuilder, ClientSetup};
use crate::connection::{Connection, Outcome};
use crate::operation::{Next, Operation, run};
use crate::platform::{CallView, Reply, name_view};
use crate::stream::{HandshakeError, MidHandshakeSslStream, Pause, SslStream, is_pause};
use crate::trust::{TrustCheck, TrustSettings, accepts, law_check_accepts, same_settings};
use vstd::prelude::*;

verus! {

/// An SSL stream midway through the handshake process.
#[derive(Debug)]
pub struct MidHandshakeClientBuilder<S> {
    pub stream: MidHandshakeSslStream<S>,
    pub settings: TrustSettings,
}

/// An error or intermediate state after a TLS handshake attempt.
#[derive(Debug)]
pub enum ClientHandshakeError<S> {
    /// The handshake failed.
    Failure(Error),
    /// The handshake was interrupted midway through.
    Interrupted(MidHandshakeClientBuilder<S>),
}

impl<S> From<Error> for ClientHandshakeError<S> {
    fn from(err: Error) -> (error: ClientHandshakeError<S>) {
        ClientHandshakeError::Failure(err)
    }
}

impl<S> vstd::std_specs::convert::FromSpecImpl<Error> for ClientHandshakeError<S> {
    open spec fn obeys_from_spec() -> bool {
        true
    }

    open spec fn from_spec(err: Error) -> ClientHandshakeError<S> {
        ClientHandshakeError::Failure(err)
    }
}

/// How a client's handshake goes on.
#[allow(inconsistent_fields)]
#[derive(Debug)]
pub enum ClientStep<'a, S> {
    /// The session is set up.
    Setup { op: ClientSetup<'a, S>, settings: TrustSettings },
    /// The platform attempts the handshake on this stream. The stream is
    /// given back with the status.
    Handshake { stream: SslStream<S>, settings: TrustSettings },
    /// The handshake is paused, and the server's certificate is checked.
    Check { stream: SslStream<S>, op: TrustCheck },
    /// The attempt is over.
    Done(Outcome<Result<SslStream<S>, ClientHandshakeError<S>>>),
}

impl<'a, S> ClientStep<'a, S> {
    /// The end of the attempt with an error.
    pub open spec fn failure(err: Error) -> ClientStep<'a, S> {
        ClientStep::Done(Outcome::Return(Err(ClientHandshakeError::Failure(err))))
    }

    /// The end of the attempt with an interruption.
    pub open spec fn interruption(mid: MidHandshakeClientBuilder<S>) -> ClientStep<'a, S> {
        ClientStep::Done(Outcome::Return(Err(ClientHandshakeError::Interrupted(mid))))
    }

    /// How the handshake goes on after a reply in the course of the set-up.
    pub open spec fn after_setup(
        op: ClientSetup<'a, S>,
        settings: TrustSettings,
        reply: Reply,
    ) -> ClientStep<'a, S> {
        match op.after(reply) {
            Next::Ask(rest) => ClientStep::Setup { op: rest, settings },
            Next::Done(Ok(stream)) => ClientStep::Handshake { stream, settings },
            Next::Done(Err(err)) => ClientStep::failure(err),
        }
    }

    /// How the handshake goes on after the platform attempted it. The status
    /// of a stream that would block or is not connected yet interrupts it. A
    /// pause for the server's certificate leads to the check of it, or on with
    /// the handshake where no check is wanted. Every other status but success
    /// ends it: with the panic of the stream, if there was one and the
    /// platform did not merely pause, else with that status as the error.
    pub open spec fn after_handshake(
        stream: SslStream<S>,
        settings: TrustSettings,
        status: OSStatus,
    ) -> ClientStep<'a, S> {
        let mid = MidHandshakeSslStream {
            stream,
            error: Error { code: status },
            break_set: false,
        };
        if status == ERR_SEC_SUCCESS {
            ClientStep::Done(Outcome::Return(Ok(stream)))
        } else if status == ERR_SSL_WOULD_BLOCK {
            ClientStep::interruption(MidHandshakeClientBuilder { stream: mid, settings })
        } else if status == ERR_SSL_PEER_AUTH_COMPLETED {
            if settings.danger_accept_invalid_certs {
                ClientStep::Handshake { stream, settings }
            } else {
                ClientStep::Check { stream, op: TrustCheck::started(stream.ctx, settings) }
            }
        } else if stream.conn.panic is Some && !is_pause(status) {
            ClientStep::Done(Outcome::Unwind(stream.conn.panic->0))
        } else {
            ClientStep::failure(Error { code: status })
        }
    }

    /// How the handshake goes on after a reply in the course of the check.
    pub open spec fn after_check(
        stream: SslStream<S>,
        op: TrustCheck,
        reply: Reply,
    ) -> ClientStep<'a, S> {
        match op.after(reply) {
            Next::Ask(rest) => ClientStep::Check { stream, op: rest },
            Next::Done((settings, Ok(()))) => ClientStep::Handshake { stream, settings },
            Next::Done((settings, Err(err))) => ClientStep::failure(err),
        }
    }

    /// Goes on with a reply in the course of the set-up.
    pub fn setup(op: ClientSetup<'a, S>, settings: TrustSettings, reply: Reply) -> (step:
        ClientStep<'a, S>)
        requires
            op.wf(),
            reply.answers(op.awaiting()),
        ensures
            step == ClientStep::after_setup(op, settings, reply),
            step matches ClientStep::Setup { op: rest, settings: _ } ==> rest.wf(),
    {
        match op.resume(reply) {
            Next::Ask(rest) => ClientStep::Setup { op: rest, settings },
            Next::Done(Ok(stream)) => ClientStep::Handshake { stream, settings },
            Next::Done(Err(err)) => ClientStep::Done(
                Outcome::Return(Err(ClientHandshakeError::from(err))),
            ),
        }
    }

    /// Goes on with the stream and the status after the platform attempted
    /// the handshake.
    pub fn handshake(stream: SslStream<S>, settings: TrustSettings, status: OSStatus) -> (step:
        ClientStep<'a, S>)
        ensures
            step == ClientStep::after_handshake(stream, settings, status),
    {
        let err = match stream.handshake(status) {
            Next::Ask(pause) => {
                let Pause { stream, error, query: _ } = pause;
                // The set-up has set the option that asks for this pause.
                if error.code() == ERR_SSL_PEER_AUTH_COMPLETED {
                    if settings.danger_accept_invalid_certs {
                        return ClientStep::Handshake { stream, settings };
                    }
                    let op = TrustCheck::new(*stream.context(), settings);
                    return ClientStep::Check { stream, op };
                }
                Error::from_code(error.code())
            },
            Next::Done(Outcome::Unwind(payload)) => {
                return ClientStep::Done(Outcome::Unwind(payload));
            },
            Next::Done(Outcome::Return(Ok(stream))) => {
                return ClientStep::Done(Outcome::Return(Ok(stream)));
            },
            Next::Done(Outcome::Return(Err(HandshakeError::Interrupted(stream)))) => {
                if stream.reason() == ERR_SSL_WOULD_BLOCK {
                    let ret = MidHandshakeClientBuilder { stream, settings };
                    return ClientStep::Done(
                        Outcome::Return(Err(ClientHandshakeError::Interrupted(ret))),
                    );
                }
                Error::from_code(stream.reason())
            },
            Next::Done(Outcome::Return(Err(HandshakeError::Failure(err)))) => err,
        };
        ClientStep::Done(Outcome::Return(Err(ClientHandshakeError::Failure(err))))
    }

    /// Goes on with a reply in the course of the check.
    pub fn check(stream: SslStream<S>, op: TrustCheck, reply: Reply) -> (step:
        ClientStep<'a, S>)
        requires
            reply.answers(op.awaiting()),
        ensures
            step == ClientStep::after_check(stream, op, reply),
    {
        match op.resume(reply) {
            Next::Ask(rest) => ClientStep::Check { stream, op: rest },
            Next::Done((settings, Ok(()))) => ClientStep::Handshake { stream, settings },
            Next::Done((_, Err(err))) => ClientStep::Done(
                Outcome::Return(Err(ClientHandshakeError::from(err))),
            ),
        }
    }
}

impl<S> MidHandshakeClientBuilder<S> {
    /// Returns a shared reference to the inner stream.
    pub fn get_ref(&self) -> (stream: &S)
        ensures
            *stream == self.stream.stream.conn.stream,
    {
        self.stream.get_ref()
    }

    /// Returns a mutable reference to the inner stream.
    pub fn get_mut(&mut self) -> (stream: &mut S)
        ensures
            *stream == old(self).stream.stream.conn.stream,
            final(self).settings == old(self).settings,
            final(self).stream.error == old(self).stream.error,
            final(self).stream.break_set == old(self).stream.break_set,
            final(self).stream.stream.ctx == old(self).stream.stream.ctx,
            *final(self).stream.stream.conn == (Connection {
                stream: *final(stream),
                ..*old(self).stream.stream.conn
            }),
    {
        self.stream.get_mut()
    }

    /// Returns the error which caused the handshake interruption.
    pub fn error(&self) -> (error: &Error)
        ensures
            *error == self.stream.error,
    {
        self.stream.error()
    }

    /// Restarts the handshake process.
    pub fn handshake<'a>(self) -> (step: ClientStep<'a, S>)
        ensures
            step == (ClientStep::Handshake { stream: self.stream.stream, settings: self.settings }),
    {
        ClientStep::Handshake { stream: self.stream.stream, settings: self.settings }
    }
}

impl ClientBuilder {
    /// Whether these are the settings by which the builder judges the
    /// certificate of a server with the given name.
    pub open spec fn judges_by(self, domain: Seq<char>, settings: TrustSettings) -> bool {
        &&& name_view(settings.domain) == (if self.danger_accept_invalid_hostnames {
            None
        } else {
            Some(domain)
        })
        &&& settings.certs@ == self.certs@
        &&& settings.trust_certs_only == self.trust_certs_only
        &&& settings.danger_accept_invalid_certs == self.danger_accept_invalid_certs
    }

    /// Initiates a new SSL/TLS session over a stream connected to the specified domain.
    ///
    /// If both SNI and hostname verification are disabled, the value of `domain` will be ignored.
    pub fn handshake<'a, S>(&'a self, domain: &'a str, stream: S) -> (step: ClientStep<'a, S>)
        ensures
            step matches ClientStep::Setup { op, settings } && op == (ClientSetup::Create {
                builder: self,
                sni: self.sni(domain),
                stream,
            }) && self.judges_by(domain@, settings),
    {
        let certs = self.certs.clone();
        assert(certs@ =~= self.certs@);
        let settings = TrustSettings {
            domain: if self.danger_accept_invalid_hostnames {
                None
            } else {
                Some(domain.to_owned())
            },
            certs,
            trust_certs_only: self.trust_certs_only,
            danger_accept_invalid_certs: self.danger_accept_invalid_certs,
        };
        ClientStep::Setup { op: self.ctx_into_stream(domain, stream), settings }
    }
}

/// Something that happens in the course of a client's handshake.
pub enum ClientEvent<S> {
    /// The platform replies to a call.
    Reply(Reply),
    /// The platform has attempted the handshake, and the stream comes back.
    Attempt { stream: SslStream<S>, status: OSStatus },
}

impl<'a, S> ClientStep<'a, S> {
    /// Whether this is what the handshake waits for.
    pub open spec fn expects(self, event: ClientEvent<S>) -> bool {
        match self {
            ClientStep::Setup { .. } | ClientStep::Check { .. } => event is Reply,
            ClientStep::Handshake { .. } => event is Attempt,
            ClientStep::Done(_) => false,
        }
    }

    /// How the handshake goes on after an event that it waits for.
    pub open spec fn after(self, event: ClientEvent<S>) -> ClientStep<'a, S> {
        match (self, event) {
            (ClientStep::Setup { op, settings }, ClientEvent::Reply(reply)) => ClientStep::after_setup(
                op,
                settings,
                reply,
            ),
            (
                ClientStep::Handshake { stream: _, settings },
                ClientEvent::Attempt { stream, status },
            ) => ClientStep::after_handshake(stream, settings, status),
            (ClientStep::Check { stream, op }, ClientEvent::Reply(reply)) => ClientStep::after_check(
                stream,
                op,
                reply,
            ),
            _ => self,
        }
    }

    /// Whether a sequence of events is one that the handshake waits for, one
    /// after the other.
    pub open spec fn expects_all(self, events: Seq<ClientEvent<S>>) -> bool
        decreases events.len(),
    {
        events.len() > 0 ==> self.expects(events[0]) && self.after(events[0]).expects_all(
            events.drop_first(),
        )
    }

    /// Where the handshake stands after a sequence of events.
    pub open spec fn after_all(self, events: Seq<ClientEvent<S>>) -> ClientStep<'a, S>
        decreases events.len(),
    {
        if events.len() == 0 {
            self
        } else {
            self.after(events[0]).after_all(events.drop_first())
        }
    }

    /// The call that the platform is asked for, unless the attempt is over.
    pub open spec fn awaiting(self) -> Option<CallView> {
        match self {
            ClientStep::Setup { op, settings } => Some(op.awaiting()),
            ClientStep::Handshake { stream, settings } => Some(
                CallView::Handshake { ctx: stream.ctx.raw },
            ),
            ClientStep::Check { stream, op } => Some(op.awaiting()),
            ClientStep::Done(_) => None,
        }
    }

    /// The settings by which the certificate is judged, unless the attempt
    /// is over.
    pub open spec fn settings(self) -> Option<TrustSettings> {
        match self {
            ClientStep::Setup { op, settings } => Some(settings),
            ClientStep::Handshake { stream, settings } => Some(settings),
            ClientStep::Check { stream, op } => Some(op.settings),
            ClientStep::Done(_) => None,
        }
    }

    /// Whether the handshake has succeeded.
    pub open spec fn succeeded(self) -> bool {
        self matches ClientStep::Done(Outcome::Return(Ok(_)))
    }
}

/// The first `count` events from `start` on, as replies.
pub open spec fn replies_in<S>(events: Seq<ClientEvent<S>>, start: int, count: nat) -> Seq<Reply> {
    Seq::new(count, |k: int| events[start + k]->Reply_0)
}

/// Whether a pause at `i` ends in the acceptance of the server's
/// certificate: the replies after it run the check of this session's peer,
/// under the given settings, to acceptance, and the next thing that happens
/// is another attempt, at `j`.
pub open spec fn accepted_between<S>(
    settings: TrustSettings,
    events: Seq<ClientEvent<S>>,
    i: int,
    j: int,
) -> bool {
    let replies = replies_in(events, i + 1, (j - i - 1) as nat);
    &&& i < j < events.len()
    &&& events[i] is Attempt
    &&& events[j] is Attempt
    &&& forall|k: int| i < k < j ==> (#[trigger] events[k]) is Reply
    &&& run(TrustCheck::started(events[i]->stream.ctx, settings), replies) matches Next::Done(end)
    &&& end.1 is Ok
    &&& accepts(replies)
}

/// The replies in the course of a check that leads to success run it to
/// acceptance, and an attempt follows.
proof fn lemma_check_runs_to_acceptance<S>(
    stream: SslStream<S>,
    op: TrustCheck,
    events: Seq<ClientEvent<S>>,
) -> (m: int)
    requires
        (ClientStep::Check { stream, op }).expects_all(events),
        (ClientStep::Check { stream, op }).after_all(events).succeeded(),
    ensures
        0 <= m < events.len(),
        events[m] is Attempt,
        forall|k: int| 0 <= k < m ==> (#[trigger] events[k]) is Reply,
        run(op, replies_in(events, 0, m as nat)) matches Next::Done(end) && end.1 is Ok,
    decreases events.len(),
{
    reveal_with_fuel(ClientStep::expects_all, 2);
    reveal_with_fuel(ClientStep::after_all, 2);
    reveal_with_fuel(run, 2);
    let rest = events.drop_first();
    match op.after(events[0]->Reply_0) {
        Next::Ask(next) => {
            let m = lemma_check_runs_to_acceptance(stream, next, rest);
            assert forall|k: int| 0 <= k < m + 1 implies (#[trigger] events[k]) is Reply by {
                if k > 0 {
                    assert(rest[k - 1] is Reply);
                }
            }
            assert(replies_in(events, 0, (m + 1) as nat).drop_first() =~= replies_in(
                rest,
                0,
                m as nat,
            ));
            m + 1
        },
        Next::Done((settings, Ok(()))) => {
            assert(events[1] == rest[0]);
            1
        },
        Next::Done((settings, Err(err))) => {
            // A failed check ends the handshake, so it cannot have succeeded.
            assert(rest.len() == 0);
            0
        },
    }
}

proof fn lemma_pause_is_accepted<'a, S>(
    step: ClientStep<'a, S>,
    settings: TrustSettings,
    events: Seq<ClientEvent<S>>,
    i: int,
) -> (j: int)
    requires
        step.settings() == Some(settings),
        !settings.danger_accept_invalid_certs,
        step.expects_all(events),
        step.after_all(events).succeeded(),
        0 <= i < events.len(),
        events[i] matches ClientEvent::Attempt { stream, status } && status
            == ERR_SSL_PEER_AUTH_COMPLETED,
    ensures
        accepted_between(settings, events, i, j),
    decreases events.len(),
{
    reveal_with_fuel(ClientStep::expects_all, 2);
    let next = step.after(events[0]);
    let rest = events.drop_first();
    if i == 0 {
        let m = lemma_check_runs_to_acceptance(next->Check_stream, next->Check_op, rest);
        law_check_accepts(events[0]->stream.ctx, settings, replies_in(rest, 0, m as nat));
        assert(replies_in(events, 1, m as nat) =~= replies_in(rest, 0, m as nat));
        assert forall|k: int| 0 < k < m + 1 implies (#[trigger] events[k]) is Reply by {
            assert(rest[k - 1] is Reply);
        }
        assert(events[m + 1] == rest[m]);
        m + 1
    } else {
        assert(rest[i - 1] == events[i]);
        assert(!(next is Done));
        let j = lemma_pause_is_accepted(next, settings, rest, i - 1);
        assert forall|k: int| i < k < j + 1 implies (#[trigger] events[k]) is Reply by {
            assert(rest[k - 1] is Reply);
        }
        assert(events[j + 1] == rest[j]);
        assert(replies_in(events, i + 1, (j - i) as nat) =~= replies_in(rest, i, (j - i) as nat));
        j + 1
    }
}

/// Law: a client that does not accept invalid certificates never succeeds
/// without the acceptance of the server's certificate. Whenever the platform
/// pauses a handshake that goes on to succeed, so that the certificate can be
/// judged, the check that follows, of this session's peer and under the
/// client's own settings, accepts it before the handshake is attempted again.
/// This holds from the first step on as well as after a restart.
pub proof fn law_success_needs_acceptance<'a, S>(
    step: ClientStep<'a, S>,
    settings: TrustSettings,
    events: Seq<ClientEvent<S>>,
    i: int,
)
    requires
        step.settings() == Some(settings),
        !settings.danger_accept_invalid_certs,
        step.expects_all(events),
        step.after_all(events).succeeded(),
        0 <= i < events.len(),
        events[i] matches ClientEvent::Attempt { stream: _, status } && status
            == ERR_SSL_PEER_AUTH_COMPLETED,
    ensures
        exists|j: int| accepted_between(settings, events, i, j),
{
    let j = lemma_pause_is_accepted(step, settings, events, i);
}

/// Law: a client that accepts invalid certificates never checks one. In the
/// course of its handshake, no certificate is ever judged.
pub proof fn law_accepted_certificates_are_not_checked<'a, S>(
    step: ClientStep<'a, S>,
    settings: TrustSettings,
    events: Seq<ClientEvent<S>>,
)
    requires
        step is Setup || step is Handshake,
        step.settings() == Some(settings),
        settings.danger_accept_invalid_certs,
        step.expects_all(events),
    ensures
        !(step.after_all(events) is Check),
    decreases events.len(),
{
    reveal_with_fuel(ClientStep::expects_all, 2);
    reveal_with_fuel(ClientStep::after_all, 2);
    if events.len() > 0 {
        let next = step.after(events[0]);
        if !(next is Done) {
            law_accepted_certificates_are_not_checked(next, settings, events.drop_first());
        }
    }
}

/// Law: a client's handshake succeeds only with an attempt that the platform
/// reports as a success, and it returns the stream of that attempt. This holds
/// from the first step on as well as after a restart.
pub proof fn law_success_comes_from_platform<'a, S>(
    step: ClientStep<'a, S>,
    events: Seq<ClientEvent<S>>,
)
    requires
        !(step is Done),
        step.expects_all(events),
        step.after_all(events).succeeded(),
    ensures
        events.len() > 0,
        events.last() matches ClientEvent::Attempt { stream, status } && status == ERR_SEC_SUCCESS
            && step.after_all(events) == ClientStep::Done(
            Outcome::Return(Ok::<SslStream<S>, ClientHandshakeError<S>>(stream)),
        ),
    decreases events.len(),
{
    reveal_with_fuel(ClientStep::expects_all, 2);
    reveal_with_fuel(ClientStep::after_all, 2);
    let next = step.after(events[0]);
    let rest = events.drop_first();
    if !(next is Done) {
        law_success_comes_from_platform(next, rest);
        assert(rest.last() == events.last());
    }
}

proof fn lemma_interruption_keeps<'a, S>(
    step: ClientStep<'a, S>,
    settings: TrustSettings,
    past: Seq<ClientEvent<S>>,
    mid: MidHandshakeClientBuilder<S>,
)
    requires
        step.settings() == Some(settings),
        step.expects_all(past),
        step.after_all(past) == ClientStep::interruption(mid),
    ensures
        past.len() > 0,
        past.last() == (ClientEvent::Attempt {
            stream: mid.stream.stream,
            status: ERR_SSL_WOULD_BLOCK,
        }),
        mid.stream.error == (Error { code: ERR_SSL_WOULD_BLOCK }),
        mid.settings == settings,
    decreases past.len(),
{
    reveal_with_fuel(ClientStep::expects_all, 2);
    reveal_with_fuel(ClientStep::after_all, 2);
    let next = step.after(past[0]);
    let rest = past.drop_first();
    if !(next is Done) {
        lemma_interruption_keeps(next, settings, rest, mid);
        assert(rest.last() == past.last());
    }
}

/// Law: an interrupted handshake loses nothing. What is returned holds the
/// stream of the last attempt, which ended with the status of a stream that
/// would block, and the settings that the handshake was begun with. A restart
/// goes on as if there had been no interruption: whatever happens next, it
/// waits for the same events and comes to the same point as a handshake under
/// these settings that stands before an attempt.
pub proof fn law_interruption_loses_nothing<'a, S>(
    step: ClientStep<'a, S>,
    settings: TrustSettings,
    past: Seq<ClientEvent<S>>,
    mid: MidHandshakeClientBuilder<S>,
    stream: SslStream<S>,
    events: Seq<ClientEvent<S>>,
)
    requires
        step.settings() == Some(settings),
        step.expects_all(past),
        step.after_all(past) == ClientStep::interruption(mid),
        events.len() > 0,
    ensures
        past.last() == (ClientEvent::Attempt {
            stream: mid.stream.stream,
            status: ERR_SSL_WOULD_BLOCK,
        }),
        mid.stream.error == (Error { code: ERR_SSL_WOULD_BLOCK }),
        mid.settings == settings,
        ({
            let restart = ClientStep::Handshake {
                stream: mid.stream.stream,
                settings: mid.settings,
            };
            let before = ClientStep::Handshake { stream, settings };
            &&& restart.expects_all(events) == before.expects_all(events)
            &&& restart.expects_all(events) ==> restart.after_all(events) == before.after_all(
                events,
            )
        }),
{
    lemma_interruption_keeps(step, settings, past, mid);
    let restart = ClientStep::Handshake {
        stream: mid.stream.stream,
        settings: mid.settings,
    };
    let before = ClientStep::Handshake { stream, settings };
    if restart.expects(events[0]) {
        assert(restart.after(events[0]) == before.after(events[0]));
    }
}

/// Whether two handshakes stand at the same point, with settings that say the
/// same.
pub open spec fn same_point<'a, S>(a: ClientStep<'a, S>, b: ClientStep<'a, S>) -> bool {
    match (a, b) {
        (
            ClientStep::Setup { op: x, settings: s },
            ClientStep::Setup { op: y, settings: t },
        ) => x == y && same_settings(s, t),
        (
            ClientStep::Handshake { stream: x, settings: s },
            ClientStep::Handshake { stream: y, settings: t },
        ) => x == y && same_settings(s, t),
        (
            ClientStep::Check { stream: x, op: s },
            ClientStep::Check { stream: y, op: t },
        ) => x == y && s.stage == t.stage && same_settings(s.settings, t.settings),
        (
            ClientStep::Done(Outcome::Return(Err(ClientHandshakeError::Interrupted(x)))),
            ClientStep::Done(Outcome::Return(Err(ClientHandshakeError::Interrupted(y)))),
        ) => x.stream == y.stream && same_settings(x.settings, y.settings),
        _ => a == b,
    }
}

proof fn lemma_same_point_stays<'a, S>(
    a: ClientStep<'a, S>,
    b: ClientStep<'a, S>,
    events: Seq<ClientEvent<S>>,
)
    requires
        same_point(a, b),
    ensures
        a.expects_all(events) == b.expects_all(events),
        same_point(a.after_all(events), b.after_all(events)),
        a.after_all(events).awaiting() == b.after_all(events).awaiting(),
    decreases events.len(),
{
    if events.len() > 0 {
        lemma_same_point_stays(a.after(events[0]), b.after(events[0]), events.drop_first());
    }
}

/// Law: if both SNI and hostname verification are disabled, the value of the
/// domain is ignored. Whatever happens in the course of the handshake, it
/// goes the same way for any two domains: the platform is asked for the same
/// calls, and the handshake ends in the same way.
pub proof fn law_domain_is_ignored<'a, S>(
    builder: &'a ClientBuilder,
    a: &'a str,
    b: &'a str,
    a_settings: TrustSettings,
    b_settings: TrustSettings,
    stream: S,
    events: Seq<ClientEvent<S>>,
)
    requires
        !builder.use_sni,
        builder.danger_accept_invalid_hostnames,
        builder.judges_by(a@, a_settings),
        builder.judges_by(b@, b_settings),
    ensures
        ({
            let a_step = ClientStep::Setup {
                op: ClientSetup::Create { builder, sni: builder.sni(a), stream },
                settings: a_settings,
            };
            let b_step = ClientStep::Setup {
                op: ClientSetup::Create { builder, sni: builder.sni(b), stream },
                settings: b_settings,
            };
            &&& a_step.expects_all(events) == b_step.expects_all(events)
            &&& a_step.after_all(events).awaiting() == b_step.after_all(events).awaiting()
            &&& same_point(a_step.after_all(events), b_step.after_all(events))
        }),
{
    lemma_same_point_stays(
        ClientStep::Setup {
            op: ClientSetup::Create { builder, sni: builder.sni(a), stream },
            settings: a_settings,
        },
        ClientStep::Setup {
            op: ClientSetup::Create { builder, sni: builder.sni(b), stream },
            settings: b_settings,
        },
        events,
    );
}

} // verus!
