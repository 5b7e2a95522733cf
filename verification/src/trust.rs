//! The judgement on a server's certificate.
use crate::base::{
    ERR_SEC_BAD_REQ, ERR_SEC_NOT_TRUSTED, ERR_SEC_SUCCESS, ERR_SEC_TRUST_SETTING_DENY, Error,
    cvt,
};
use crate::context::{PeerTrustQuery, SslContext, certificate_refs, push_certificate_refs};
use crate::operation::{Next, Operation, calls, run};
use crate::platform::{Call, CallOf, CallView, Reply, Value, name_view};
use crate::types::{SecCertificate, SecPolicy, SecTrust, SessionState, SslProtocolSide, TrustResult};
use vstd::prelude::*;

verus! {

/// How a client judges the server's certificate.
#[derive(Debug)]
pub struct TrustSettings {
    /// The name that the certificate must be for, unless any will do.
    pub domain: Option<String>,
    /// The root certificates to trust.
    pub certs: Vec<SecCertificate>,
    /// Whether no other root certificates are trusted.
    pub trust_certs_only: bool,
    /// Whether the certificate is accepted without a judgement.
    pub danger_accept_invalid_certs: bool,
}

/// The judgement that a result of a trust evaluation amounts to: the
/// certificate is accepted, or the handshake fails with an error.
pub open spec fn verdict(result: TrustResult) -> Result<(), Error> {
    match result {
        TrustResult::PROCEED | TrustResult::UNSPECIFIED => Ok(()),
        TrustResult::DENY => Err(Error { code: ERR_SEC_TRUST_SETTING_DENY }),
        TrustResult::RECOVERABLE_TRUST_FAILURE | TrustResult::FATAL_TRUST_FAILURE => Err(
            Error { code: ERR_SEC_NOT_TRUSTED },
        ),
        _ => Err(Error { code: ERR_SEC_BAD_REQ }),
    }
}

/// Returns the judgement that a result of a trust evaluation amounts to.
pub fn judge(result: TrustResult) -> (judgement: Result<(), Error>)
    ensures
        judgement == verdict(result),
{
    match result {
        TrustResult::PROCEED | TrustResult::UNSPECIFIED => Ok(()),
        TrustResult::DENY => Err(Error::from_code(ERR_SEC_TRUST_SETTING_DENY)),
        TrustResult::RECOVERABLE_TRUST_FAILURE | TrustResult::FATAL_TRUST_FAILURE => Err(
            Error::from_code(ERR_SEC_NOT_TRUSTED),
        ),
        _ => Err(Error::from_code(ERR_SEC_BAD_REQ)),
    }
}

/// Where a check of the server's certificate stands.
#[derive(Debug)]
pub enum CheckStage {
    /// The trust object of the peer is asked for.
    Peer(PeerTrustQuery),
    /// The root certificates are set.
    Anchors { trust: SecTrust },
    /// Whether there are others is set.
    AnchorsOnly { trust: SecTrust },
    /// The policy is created.
    Policy { trust: SecTrust },
    /// The policy is set.
    SetPolicy { trust: SecTrust, policy: SecPolicy },
    /// The certificate is judged.
    Evaluate { trust: SecTrust },
}

/// A check of the server's certificate by a client. It ends with the
/// settings that it was made with, and with the judgement.
#[derive(Debug)]
pub struct TrustCheck {
    pub settings: TrustSettings,
    pub stage: CheckStage,
}

impl TrustCheck {
    /// The check of the peer of a session, before its first call.
    pub open spec fn started(ctx: SslContext, settings: TrustSettings) -> TrustCheck {
        TrustCheck { settings, stage: CheckStage::Peer(PeerTrustQuery { ctx, started: false }) }
    }

    /// The check when it comes to a stage.
    pub open spec fn at(self, stage: CheckStage) -> Next<
        TrustCheck,
        (TrustSettings, Result<(), Error>),
    > {
        Next::Ask(TrustCheck { stage, ..self })
    }

    /// The end of the check.
    pub open spec fn ended(self, judgement: Result<(), Error>) -> Next<
        TrustCheck,
        (TrustSettings, Result<(), Error>),
    > {
        Next::Done((self.settings, judgement))
    }

    /// Starts the check of the peer of a session.
    pub fn new(ctx: SslContext, settings: TrustSettings) -> (op: TrustCheck)
        ensures
            op == TrustCheck::started(ctx, settings),
    {
        TrustCheck { settings, stage: CheckStage::Peer(ctx.peer_trust2()) }
    }
}

impl Operation for TrustCheck {
    type Output = (TrustSettings, Result<(), Error>);

    type Model = (TrustSettings, Result<(), Error>);

    open spec fn model(output: (TrustSettings, Result<(), Error>)) -> (
        TrustSettings,
        Result<(), Error>,
    ) {
        output
    }

    open spec fn wf(&self) -> bool {
        true
    }

    open spec fn awaiting(&self) -> CallView {
        match self.stage {
            CheckStage::Peer(query) => query.awaiting(),
            CheckStage::Anchors { trust } => CallOf::SetAnchorCertificates {
                trust: trust.raw,
                certs: certificate_refs(self.settings.certs@),
            },
            CheckStage::AnchorsOnly { trust } => CallOf::SetAnchorCertificatesOnly {
                trust: trust.raw,
                only: self.settings.trust_certs_only,
            },
            CheckStage::Policy { trust } => CallOf::CreateSslPolicy {
                side: SslProtocolSide::SERVER.raw(),
                hostname: name_view(self.settings.domain),
            },
            CheckStage::SetPolicy { trust, policy } => CallOf::SetPolicies {
                trust: trust.raw,
                policy: policy.raw,
            },
            CheckStage::Evaluate { trust } => CallOf::Evaluate { trust: trust.raw },
        }
    }

    open spec fn after(self, reply: Reply) -> Next<TrustCheck, (TrustSettings, Result<(), Error>)> {
        let failure = Err(Error { code: reply.status });
        let success = reply.status == ERR_SEC_SUCCESS;
        match self.stage {
            CheckStage::Peer(query) => match query.after(reply) {
                Next::Ask(rest) => self.at(CheckStage::Peer(rest)),
                Next::Done(Ok(Some(trust))) => self.at(CheckStage::Anchors { trust }),
                Next::Done(Ok(None)) => self.ended(Ok(())),
                Next::Done(Err(err)) => self.ended(Err(err)),
            },
            CheckStage::Anchors { trust } => if success {
                self.at(CheckStage::AnchorsOnly { trust })
            } else {
                self.ended(failure)
            },
            CheckStage::AnchorsOnly { trust } => if success {
                self.at(CheckStage::Policy { trust })
            } else {
                self.ended(failure)
            },
            CheckStage::Policy { trust } => self.at(
                CheckStage::SetPolicy { trust, policy: SecPolicy { raw: reply.value->Ref_0 } },
            ),
            CheckStage::SetPolicy { trust, policy } => if success {
                self.at(CheckStage::Evaluate { trust })
            } else {
                self.ended(failure)
            },
            CheckStage::Evaluate { trust } => if success {
                self.ended(verdict(TrustResult::of_raw(reply.value->Trust_0)))
            } else {
                self.ended(failure)
            },
        }
    }

    fn call(&self) -> (call: Call) {
        match &self.stage {
            CheckStage::Peer(query) => query.call(),
            CheckStage::Anchors { trust } => {
                let mut certs: Vec<usize> = Vec::new();
                push_certificate_refs(&mut certs, self.settings.certs.as_slice());
                assert(certs@ =~= certificate_refs(self.settings.certs@));
                CallOf::SetAnchorCertificates { trust: trust.raw, certs }
            },
            CheckStage::AnchorsOnly { trust } => CallOf::SetAnchorCertificatesOnly {
                trust: trust.raw,
                only: self.settings.trust_certs_only,
            },
            CheckStage::Policy { trust: _ } => CallOf::CreateSslPolicy {
                side: SslProtocolSide::SERVER.to_raw(),
                hostname: self.settings.domain.clone(),
            },
            CheckStage::SetPolicy { trust, policy } => CallOf::SetPolicies {
                trust: trust.raw,
                policy: policy.raw,
            },
            CheckStage::Evaluate { trust } => CallOf::Evaluate { trust: trust.raw },
        }
    }

    fn resume(self, reply: Reply) -> (next: Next<TrustCheck, (TrustSettings, Result<(), Error>)>) {
        let TrustCheck { settings, stage } = self;
        let status = cvt(reply.status);
        match stage {
            CheckStage::Peer(query) => match query.resume(reply) {
                Next::Ask(rest) => Next::Ask(TrustCheck { settings, stage: CheckStage::Peer(rest) }),
                Next::Done(Ok(Some(trust))) => Next::Ask(
                    TrustCheck { settings, stage: CheckStage::Anchors { trust } },
                ),
                Next::Done(Ok(None)) => Next::Done((settings, Ok(()))),
                Next::Done(Err(err)) => Next::Done((settings, Err(err))),
            },
            CheckStage::Anchors { trust } => match status {
                Ok(()) => Next::Ask(TrustCheck { settings, stage: CheckStage::AnchorsOnly { trust } }),
                Err(err) => Next::Done((settings, Err(err))),
            },
            CheckStage::AnchorsOnly { trust } => match status {
                Ok(()) => Next::Ask(TrustCheck { settings, stage: CheckStage::Policy { trust } }),
                Err(err) => Next::Done((settings, Err(err))),
            },
            CheckStage::Policy { trust } => match reply.value {
                Value::Ref(raw) => Next::Ask(
                    TrustCheck {
                        settings,
                        stage: CheckStage::SetPolicy { trust, policy: SecPolicy { raw } },
                    },
                ),
                _ => Next::Ask(TrustCheck { settings, stage: CheckStage::Policy { trust } }),
            },
            CheckStage::SetPolicy { trust, policy: _ } => match status {
                Ok(()) => Next::Ask(TrustCheck { settings, stage: CheckStage::Evaluate { trust } }),
                Err(err) => Next::Done((settings, Err(err))),
            },
            CheckStage::Evaluate { trust } => match (status, reply.value) {
                (Ok(()), Value::Trust(raw)) => Next::Done(
                    (settings, judge(TrustResult::from_raw(raw))),
                ),
                (Ok(()), _) => Next::Ask(
                    TrustCheck { settings, stage: CheckStage::Evaluate { trust } },
                ),
                (Err(err), _) => Next::Done((settings, Err(err))),
            },
        }
    }
}

/// What it takes for a server's certificate to be accepted: the session has
/// left the idle state, and either the platform has no trust object for the
/// peer, or every step of the judgement succeeded and the result is that the
/// certificate may be used or is trusted implicitly.
pub open spec fn accepts(replies: Seq<Reply>) -> bool {
    &&& replies.len() >= 2
    &&& replies[0].status == ERR_SEC_SUCCESS
    &&& SessionState::of_raw(replies[0].value->Code_0) != SessionState::IDLE
    &&& replies[1].status == ERR_SEC_SUCCESS
    &&& replies[1].value->OptionalRef_0 is Some ==> {
        &&& replies.len() >= 7
        &&& replies[2].status == ERR_SEC_SUCCESS
        &&& replies[3].status == ERR_SEC_SUCCESS
        &&& replies[5].status == ERR_SEC_SUCCESS
        &&& replies[6].status == ERR_SEC_SUCCESS
        &&& {
            ||| TrustResult::of_raw(replies[6].value->Trust_0) == TrustResult::PROCEED
            ||| TrustResult::of_raw(replies[6].value->Trust_0) == TrustResult::UNSPECIFIED
        }
    }
}

/// Law: a check of a server's certificate ends in acceptance exactly when
/// the platform's replies say so, and it gives back the settings that it was
/// made with. A peer with a trust object is accepted only by an evaluation of
/// it.
pub proof fn law_check_accepts(ctx: SslContext, settings: TrustSettings, replies: Seq<Reply>)
    ensures
        (run(TrustCheck::started(ctx, settings), replies) matches Next::Done(end) && end.1 is Ok)
            <==> accepts(replies),
        run(TrustCheck::started(ctx, settings), replies) matches Next::Done(end) ==> end.0
            == settings,
        accepts(replies) && replies[1].value->OptionalRef_0 is Some ==> calls(
            TrustCheck::started(ctx, settings),
            replies,
        ).last() is Evaluate,
{
    reveal_with_fuel(run, 8);
    reveal_with_fuel(calls, 8);
}

/// Law: whenever a check comes to the evaluation of a server's certificate,
/// however that ends, the evaluation is of the trust object of this session's
/// peer, with the root certificates of the settings, alone or among others as
/// the settings say, and under a policy for a server with the name of the
/// settings.
pub proof fn law_check_judges_by_settings(
    ctx: SslContext,
    settings: TrustSettings,
    replies: Seq<Reply>,
)
    requires
        calls(TrustCheck::started(ctx, settings), replies).last() is Evaluate,
    ensures
        calls(TrustCheck::started(ctx, settings), replies) == ({
            let trust = replies[1].value->OptionalRef_0->0;
            seq![
                CallView::GetSessionState { ctx: ctx.raw },
                CallView::CopyPeerTrust { ctx: ctx.raw },
                CallView::SetAnchorCertificates {
                    trust,
                    certs: certificate_refs(settings.certs@),
                },
                CallView::SetAnchorCertificatesOnly { trust, only: settings.trust_certs_only },
                CallView::CreateSslPolicy {
                    side: SslProtocolSide::SERVER.raw(),
                    hostname: name_view(settings.domain),
                },
                CallView::SetPolicies { trust, policy: replies[4].value->Ref_0 },
                CallView::Evaluate { trust },
            ]
        }),
{
    reveal_with_fuel(calls, 8);
}

/// Whether two settings say the same.
pub open spec fn same_settings(a: TrustSettings, b: TrustSettings) -> bool {
    &&& name_view(a.domain) == name_view(b.domain)
    &&& a.certs@ == b.certs@
    &&& a.trust_certs_only == b.trust_certs_only
    &&& a.danger_accept_invalid_certs == b.danger_accept_invalid_certs
}

} // verus!
