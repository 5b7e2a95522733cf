//! What holds of the client's and the server's set-up and handshake, whatever
//! they return.
//!
//! The laws here speak of the calls that reach the platform and of the
//! results that reach the user, in terms of the builder's fields, the given
//! domain and stream, and the platform's replies.
use crate::base::{
    ERR_SEC_BAD_REQ, ERR_SEC_NOT_TRUSTED, ERR_SEC_SUCCESS, ERR_SEC_TRUST_SETTING_DENY,
    ERR_SEC_UNIMPLEMENTED, ERR_SSL_PEER_AUTH_COMPLETED, ERR_SSL_WOULD_BLOCK, Error, OSStatus,
};
use crate::client::{
    CipherConfiguration, ClientBuilder, ClientSetup, calls_view, cipher_calls,
    law_client_setup, sni_view,
};
use crate::connection::Outcome;
use crate::context::{SslContext, certificate_refs};
use crate::handshake::{
    ClientEvent, ClientHandshakeError, ClientStep, MidHandshakeClientBuilder,
};
use crate::operation::{Next, Operation, calls, run};
use crate::platform::{Call, CallView, Reply, name_view, names_view};
use crate::server::{ServerBuilder, ServerSetup, ServerStep, law_server_setup};
use crate::stream::SslStream;
use crate::stream_laws::fails_handshake;
use crate::trust::{CheckStage, TrustCheck, TrustSettings, judge};
use crate::types::{CipherSuite, SecCertificate, SecIdentity, SslProtocol, TrustResult};
use vstd::prelude::*;
use vstd::utf8::encode_utf8;

verus! {

/// Whether two builders agree in all but one of their options, which goes by
/// its number here. The identity and its chain are one option.
pub open spec fn agree_but(a: ClientBuilder, b: ClientBuilder, option: int) -> bool {
    &&& option != 0 ==> a.identity == b.identity && a.chain == b.chain
    &&& option != 1 ==> a.certs == b.certs
    &&& option != 2 ==> a.protocol_min == b.protocol_min
    &&& option != 3 ==> a.protocol_max == b.protocol_max
    &&& option != 4 ==> a.trust_certs_only == b.trust_certs_only
    &&& option != 5 ==> a.use_sni == b.use_sni
    &&& option != 6 ==> a.danger_accept_invalid_certs == b.danger_accept_invalid_certs
    &&& option != 7 ==> a.danger_accept_invalid_hostnames == b.danger_accept_invalid_hostnames
    &&& option != 8 ==> a.whitelisted_ciphers == b.whitelisted_ciphers
    &&& option != 9 ==> a.blacklisted_ciphers == b.blacklisted_ciphers
    &&& option != 10 ==> a.alpn == b.alpn
}

/// Law: a new builder, and the default one, judges certificates in full, by
/// the system's roots and by name, announces the name, and limits nothing.
pub proof fn law_new_builders_are_careful(builder: ClientBuilder)
    requires
        call_ensures(ClientBuilder::new, (), builder) || call_ensures(
            <ClientBuilder as Default>::default,
            (),
            builder,
        ),
    ensures
        !builder.danger_accept_invalid_certs && !builder.danger_accept_invalid_hostnames,
        !builder.trust_certs_only && builder.use_sni,
        builder.certs@.len() == 0 && builder.chain@.len() == 0 && builder.identity is None,
        builder.protocol_min is None && builder.protocol_max is None && builder.alpn is None,
        builder.whitelisted_ciphers is None && builder.blacklisted_ciphers@.len() == 0,
{
}

/// Law: `anchor_certificates` sets the root certificates, and no other option.
pub proof fn law_sets_anchor_certificates(
    builder: &mut ClientBuilder,
    certs: &[SecCertificate],
    set: &mut ClientBuilder,
)
    requires
        call_ensures(ClientBuilder::anchor_certificates, (builder, certs), set),
    ensures
        old(set).certs@ == certs@,
        agree_but(*old(set), *old(builder), 1),
        *final(builder) == *final(set),
{
}

/// Law: `trust_anchor_certificates_only` sets whether other roots are trusted, and no other option.
pub proof fn law_sets_trust_anchor_certificates_only(
    builder: &mut ClientBuilder,
    only: bool,
    set: &mut ClientBuilder,
)
    requires
        call_ensures(ClientBuilder::trust_anchor_certificates_only, (builder, only), set),
    ensures
        old(set).trust_certs_only == only,
        agree_but(*old(set), *old(builder), 4),
        *final(builder) == *final(set),
{
}

/// Law: `danger_accept_invalid_certs` sets whether certificates are judged at all, and no other option.
pub proof fn law_sets_danger_accept_invalid_certs(
    builder: &mut ClientBuilder,
    noverify: bool,
    set: &mut ClientBuilder,
)
    requires
        call_ensures(ClientBuilder::danger_accept_invalid_certs, (builder, noverify), set),
    ensures
        old(set).danger_accept_invalid_certs == noverify,
        agree_but(*old(set), *old(builder), 6),
        *final(builder) == *final(set),
{
}

/// Law: `use_sni` sets whether the name is announced, and no other option.
pub proof fn law_sets_use_sni(
    builder: &mut ClientBuilder,
    value: bool,
    set: &mut ClientBuilder,
)
    requires
        call_ensures(ClientBuilder::use_sni, (builder, value), set),
    ensures
        old(set).use_sni == value,
        agree_but(*old(set), *old(builder), 5),
        *final(builder) == *final(set),
{
}

/// Law: `danger_accept_invalid_hostnames` sets whether the name is verified, and no other option.
pub proof fn law_sets_danger_accept_invalid_hostnames(
    builder: &mut ClientBuilder,
    value: bool,
    set: &mut ClientBuilder,
)
    requires
        call_ensures(ClientBuilder::danger_accept_invalid_hostnames, (builder, value), set),
    ensures
        old(set).danger_accept_invalid_hostnames == value,
        agree_but(*old(set), *old(builder), 7),
        *final(builder) == *final(set),
{
}

/// Law: `whitelist_ciphers` sets the whitelist, and no other option.
pub proof fn law_sets_whitelist_ciphers(
    builder: &mut ClientBuilder,
    ciphers: &[CipherSuite],
    set: &mut ClientBuilder,
)
    requires
        call_ensures(ClientBuilder::whitelist_ciphers, (builder, ciphers), set),
    ensures
        old(set).whitelisted_ciphers matches Some(list) && list@ == ciphers@,
        agree_but(*old(set), *old(builder), 8),
        *final(builder) == *final(set),
{
}

/// Law: `blacklist_ciphers` sets the blacklist, and no other option.
pub proof fn law_sets_blacklist_ciphers(
    builder: &mut ClientBuilder,
    ciphers: &[CipherSuite],
    set: &mut ClientBuilder,
)
    requires
        call_ensures(ClientBuilder::blacklist_ciphers, (builder, ciphers), set),
    ensures
        old(set).blacklisted_ciphers@ == ciphers@,
        agree_but(*old(set), *old(builder), 9),
        *final(builder) == *final(set),
{
}

/// Law: `identity` sets the identity and its chain, and no other option.
pub proof fn law_sets_identity(
    builder: &mut ClientBuilder,
    identity: &SecIdentity,
    chain: &[SecCertificate],
    set: &mut ClientBuilder,
)
    requires
        call_ensures(ClientBuilder::identity, (builder, identity, chain), set),
    ensures
        old(set).identity == Some(*identity) && old(set).chain@ == chain@,
        agree_but(*old(set), *old(builder), 0),
        *final(builder) == *final(set),
{
}

/// Law: `protocol_min` sets the lowest version, and no other option.
pub proof fn law_sets_protocol_min(
    builder: &mut ClientBuilder,
    version: SslProtocol,
    set: &mut ClientBuilder,
)
    requires
        call_ensures(ClientBuilder::protocol_min, (builder, version), set),
    ensures
        old(set).protocol_min == Some(version),
        agree_but(*old(set), *old(builder), 2),
        *final(builder) == *final(set),
{
}

/// Law: `protocol_max` sets the highest version, and no other option.
pub proof fn law_sets_protocol_max(
    builder: &mut ClientBuilder,
    version: SslProtocol,
    set: &mut ClientBuilder,
)
    requires
        call_ensures(ClientBuilder::protocol_max, (builder, version), set),
    ensures
        old(set).protocol_max == Some(version),
        agree_but(*old(set), *old(builder), 3),
        *final(builder) == *final(set),
{
}

/// Law: `alpn_protocols` sets the protocols for ALPN, and no other option.
pub proof fn law_sets_alpn_protocols(
    builder: &mut ClientBuilder,
    protocols: &[&str],
    set: &mut ClientBuilder,
)
    requires
        call_ensures(ClientBuilder::alpn_protocols, (builder, protocols), set),
    ensures
        old(set).alpn matches Some(names) && names@.len() == protocols@.len() && forall|i: int|
            0 <= i < names@.len() ==> (#[trigger] names@[i])@ == protocols@[i]@,
        agree_but(*old(set), *old(builder), 10),
        *final(builder) == *final(set),
{
    let names = old(set).alpn->0@;
    let texts = protocols@.map_values(|protocol: &str| protocol@);
    assert(old(set).alpn is Some);
    assert(names_view(names) == texts);
    assert(names_view(names).len() == texts.len());
    assert forall|i: int| 0 <= i < names.len() implies (#[trigger] names[i])@ == protocols@[i]@ by {
        assert(names_view(names)[i] == texts[i]);
    }
}


/// The place that a call has in the set-up of a client's session.
pub open spec fn place(call: CallView) -> int {
    match call {
        CallView::CreateContext { .. } => 0,
        CallView::SetPeerDomainName { .. } => 1,
        CallView::SetCertificate { .. } => 2,
        CallView::SetAlpnProtocols { .. } => 3,
        CallView::SetSessionOption { .. } => 4,
        CallView::SetProtocolVersionMin { .. } => 5,
        CallView::SetProtocolVersionMax { .. } => 6,
        CallView::GetNumberEnabledCiphers { .. } => 7,
        CallView::GetEnabledCiphers { .. } => 8,
        CallView::SetEnabledCiphers { .. } => 9,
        CallView::SetIoFuncs { .. } => 10,
        CallView::SetConnection { .. } => 11,
        _ => 12,
    }
}

/// Whether a call in the set-up of a client's session is one that the builder
/// and the domain ask for, with the arguments that they ask for.
pub open spec fn is_wanted(
    builder: ClientBuilder,
    domain: Seq<char>,
    ctx: usize,
    call: CallView,
) -> bool {
    match call {
        CallView::SetPeerDomainName { ctx: seen, name } => {
            &&& builder.use_sni
            &&& seen == ctx
            &&& name == encode_utf8(domain)
        },
        CallView::SetCertificate { ctx: seen, chain } => {
            &&& builder.identity is Some
            &&& seen == ctx
            &&& chain.len() == builder.chain@.len() + 1
            &&& chain[0] == builder.identity->0.raw
            &&& forall|i: int|
                0 <= i < builder.chain@.len() ==> chain[i + 1] == (#[trigger] builder.chain@[i]).raw
        },
        CallView::SetAlpnProtocols { ctx: seen, protocols } => {
            &&& builder.alpn is Some
            &&& seen == ctx
            &&& protocols.len() == builder.alpn->0@.len()
            &&& forall|i: int|
                0 <= i < protocols.len() ==> #[trigger] protocols[i] == builder.alpn->0@[i]@
        },
        CallView::SetSessionOption { ctx: seen, option, value } => seen == ctx && option == 0
            && value == 1,
        CallView::SetProtocolVersionMin { ctx: seen, version } => seen == ctx
            && builder.protocol_min is Some && version == builder.protocol_min->0.raw(),
        CallView::SetProtocolVersionMax { ctx: seen, version } => seen == ctx
            && builder.protocol_max is Some && version == builder.protocol_max->0.raw(),
        _ => false,
    }
}

/// Whether a list of calls holds one with the given place.
pub open spec fn holds(asked: Seq<CallView>, kind: int) -> bool {
    exists|k: int| 0 <= k < asked.len() && place(#[trigger] asked[k]) == kind
}

proof fn lemma_settings_are_wanted(
    builder: ClientBuilder,
    domain: &str,
    ctx: usize,
    settings: Seq<CallView>,
)
    requires
        settings == builder.session_settings(ctx, sni_view(builder.sni(domain))),
    ensures
        forall|k: int|
            0 <= k < settings.len() ==> is_wanted(builder, domain@, ctx, #[trigger] settings[k])
                && 1 <= place(settings[k]) <= 6,
        forall|i: int, j: int|
            0 <= i < j < settings.len() ==> place(#[trigger] settings[i]) < place(
                #[trigger] settings[j],
            ),
        holds(settings, 1) <==> builder.use_sni,
        holds(settings, 2) <==> builder.identity is Some,
        holds(settings, 3) <==> builder.alpn is Some,
        holds(settings, 4),
        holds(settings, 5) <==> builder.protocol_min is Some,
        holds(settings, 6) <==> builder.protocol_max is Some,
{
    let n1: int = if builder.use_sni { 1 } else { 0 };
    let n2: int = n1 + if builder.identity is Some { 1int } else { 0 };
    let n3: int = n2 + if builder.alpn is Some { 1int } else { 0 };
    let n4: int = n3 + 1;
    let n5: int = n4 + if builder.protocol_min is Some { 1int } else { 0 };
    let n6: int = n5 + if builder.protocol_max is Some { 1int } else { 0 };
    assert(settings.len() == n6);
    assert(place(settings[n3]) == 4);
    assert(builder.use_sni ==> place(settings[0]) == 1);
    assert(builder.identity is Some ==> place(settings[n1]) == 2);
    assert(builder.alpn is Some ==> place(settings[n2]) == 3);
    assert(builder.protocol_min is Some ==> place(settings[n4]) == 5);
    assert(builder.protocol_max is Some ==> place(settings[n5]) == 6);
    assert forall|k: int| 0 <= k < settings.len() implies is_wanted(
        builder,
        domain@,
        ctx,
        #[trigger] settings[k],
    ) && 1 <= place(settings[k]) <= 6 by {
        if builder.identity is Some && k == n1 {
            assert(settings[k]->chain =~= seq![builder.identity->0.raw] + certificate_refs(
                builder.chain@,
            ));
        }
    }
}

/// How calls are put together: the creation, the settings, the calls for the
/// cipher suites and the attachment.
proof fn lemma_assembled(
    settings: Seq<CallView>,
    ciphers: Seq<CallView>,
    first: CallView,
    io: CallView,
    conn: CallView,
    asked: Seq<CallView>,
)
    requires
        forall|k: int| 0 <= k < settings.len() ==> 1 <= place(#[trigger] settings[k]) <= 6,
        forall|i: int, j: int|
            0 <= i < j < settings.len() ==> place(#[trigger] settings[i]) < place(
                #[trigger] settings[j],
            ),
        place(first) == 0,
        place(io) == 10,
        place(conn) == 11,
        (ciphers.len() == 1 && place(ciphers[0]) == 9) || (ciphers.len() == 3 && place(ciphers[0])
            == 7 && place(ciphers[1]) == 8 && place(ciphers[2]) == 9),
        asked == seq![first] + settings + ciphers + seq![io, conn],
    ensures
        asked.len() == settings.len() + ciphers.len() + 3,
        asked[0] == first,
        forall|k: int| 1 <= k <= settings.len() ==> #[trigger] asked[k] == settings[k - 1],
        forall|k: int|
            0 <= k < asked.len() && 1 <= place(#[trigger] asked[k]) <= 6 ==> 1 <= k
                <= settings.len(),
        forall|k: int|
            0 <= k < ciphers.len() ==> asked[1 + settings.len() + k] == #[trigger] ciphers[k],
        asked[asked.len() - 2] == io,
        asked[asked.len() - 1] == conn,
        forall|i: int, j: int|
            0 <= i < j < asked.len() ==> place(#[trigger] asked[i]) < place(#[trigger] asked[j]),
        forall|kind: int|
            1 <= kind <= 6 ==> (#[trigger] holds(asked, kind) <==> holds(settings, kind)),
        holds(asked, 7) <==> ciphers.len() == 3,
        holds(asked, 8) <==> ciphers.len() == 3,
        !holds(asked, 12),
{
    let m = settings.len() as int;
    assert forall|kind: int| 1 <= kind <= 6 implies (#[trigger] holds(asked, kind) <==> holds(
        settings,
        kind,
    )) by {
        if holds(settings, kind) {
            let k = choose|k: int| 0 <= k < settings.len() && place(#[trigger] settings[k]) == kind;
            assert(place(asked[1 + k]) == kind);
        }
        if holds(asked, kind) {
            let k = choose|k: int| 0 <= k < asked.len() && place(#[trigger] asked[k]) == kind;
            assert(place(settings[k - 1]) == kind);
        }
    }
    if ciphers.len() == 3 {
        assert(place(asked[1 + m]) == 7);
        assert(place(asked[2 + m]) == 8);
    }
}

/// An operation that is done has had a reply to each of its calls.
proof fn lemma_done_is_replied<O: Operation>(op: O, replies: Seq<Reply>)
    requires
        run(op, replies) is Done,
    ensures
        1 <= calls(op, replies).len() <= replies.len(),
    decreases replies.len(),
{
    if replies.len() > 0 {
        match op.after(replies[0]) {
            Next::Ask(rest) => lemma_done_is_replied(rest, replies.drop_first()),
            Next::Done(_) => {},
        }
    }
}

/// Law: what a client asks of the platform in a set-up that succeeds, by the
/// builder's options alone. The session is created for the client side of a
/// stream. Then each option that is set, and none that is not, is handed over
/// once, with its own value, independently of the others: the name, the
/// identity with its chain, the protocols for ALPN, the pause for the server's
/// certificate, which is always asked for, the lowest and the highest version.
/// The suites to enable are the whitelisted ones, or without a whitelist those
/// that the platform has just listed, without the blacklisted ones and in
/// their order. At last the session is attached, to the stream that was given.
pub proof fn law_client_calls<'a, S>(
    builder: &'a ClientBuilder,
    domain: &'a str,
    stream: S,
    op: ClientSetup<'a, S>,
    replies: Seq<Reply>,
)
    requires
        call_ensures(ClientBuilder::ctx_into_stream::<S>, (builder, domain, stream), op),
        run(op, replies) matches Next::Done(Ok(_)),
    ensures
        run(op, replies) matches Next::Done(Ok(ssl)) && ssl.ctx.raw == replies[0].value->Ref_0
            && ssl.conn.stream == stream && ssl.conn.err is None && ssl.conn.panic is None,
        ({
            let asked = calls(op, replies);
            let ctx = replies[0].value->Ref_0;
            let n = asked.len() as int;
            &&& asked[0] == (CallView::CreateContext { side: 1, kind: 0 })
            &&& forall|i: int, j: int|
                0 <= i < j < n ==> place(#[trigger] asked[i]) < place(#[trigger] asked[j])
            &&& forall|k: int|
                0 <= k < n && 1 <= place(#[trigger] asked[k]) <= 6 ==> is_wanted(
                    *builder,
                    domain@,
                    ctx,
                    asked[k],
                )
            &&& holds(asked, 1) <==> builder.use_sni
            &&& holds(asked, 2) <==> builder.identity is Some
            &&& holds(asked, 3) <==> builder.alpn is Some
            &&& holds(asked, 4)
            &&& holds(asked, 5) <==> builder.protocol_min is Some
            &&& holds(asked, 6) <==> builder.protocol_max is Some
            &&& holds(asked, 7) <==> builder.whitelisted_ciphers is None
            &&& holds(asked, 8) <==> builder.whitelisted_ciphers is None
            &&& !holds(asked, 12)
            &&& n >= 5
            &&& asked[n - 2] == (CallView::SetIoFuncs { ctx })
            &&& asked[n - 1] == (CallView::SetConnection { ctx })
            &&& builder.whitelisted_ciphers is None ==> asked[n - 5] == (
            CallView::GetNumberEnabledCiphers { ctx }) && asked[n - 4] == (
            CallView::GetEnabledCiphers { ctx, count: replies[n - 5].value->Size_0 })
            &&& asked[n - 3] matches CallView::SetEnabledCiphers { ctx: seen, ciphers }
            &&& seen == ctx
            &&& ciphers == (match builder.whitelisted_ciphers {
                Some(list) => list@,
                None => replies[n - 4].value->Ciphers_0@.map_values(|raw: u32| CipherSuite { raw }),
            }).filter(
                |suite: CipherSuite| !builder.blacklisted_ciphers@.contains(suite),
            ).map_values(|suite: CipherSuite| suite.raw)
        }),
{
    law_client_setup(builder, builder.sni(domain), stream, replies);
    lemma_done_is_replied(op, replies);
    let ctx = replies[0].value->Ref_0;
    let asked = calls(op, replies);
    let settings = builder.session_settings(ctx, sni_view(builder.sni(domain)));
    let m = settings.len() as int;
    let ciphers = cipher_calls(*builder, ctx, replies.skip(1 + m));
    lemma_settings_are_wanted(*builder, domain, ctx, settings);
    lemma_assembled(
        settings,
        ciphers,
        CallView::CreateContext { side: 1, kind: 0 },
        CallView::SetIoFuncs { ctx },
        CallView::SetConnection { ctx },
        asked,
    );
    assert(replies.skip(1 + m)[0] == replies[1 + m]);
    if builder.whitelisted_ciphers is None {
        assert(replies.skip(1 + m)[1] == replies[2 + m]);
    }
    assert forall|k: int| 0 <= k < asked.len() && 1 <= place(#[trigger] asked[k]) <= 6 implies is_wanted(
        *builder,
        domain@,
        ctx,
        asked[k],
    ) by {
        assert(asked[k] == settings[k - 1]);
    }
}

/// Law: the versions of a session are limited by the options that are set,
/// each on its own: without one of them, the other is handed over all the
/// same, and without both nothing is.
pub proof fn law_versions_are_limited(builder: &ClientBuilder, ctx: SslContext, asked: Vec<Call>)
    requires
        call_ensures(ClientBuilder::configure_protocols, (builder, ctx), asked),
    ensures
        asked@.len() == (if builder.protocol_min is Some {
            1int
        } else {
            0
        }) + (if builder.protocol_max is Some {
            1int
        } else {
            0
        }),
        builder.protocol_min matches Some(min) ==> asked@[0]@ == (CallView::SetProtocolVersionMin {
            ctx: ctx.raw,
            version: min.raw(),
        }),
        builder.protocol_max matches Some(max) ==> asked@[asked@.len() - 1]@ == (
        CallView::SetProtocolVersionMax { ctx: ctx.raw, version: max.raw() }),
{
    let seen = calls_view(asked@);
    assert(seen.len() == asked@.len());
    assert forall|k: int| 0 <= k < asked@.len() implies (#[trigger] asked@[k])@ == seen[k] by {}
}

/// Law: the suites that are retained are the whitelisted ones, or without a
/// whitelist the enabled ones, without the blacklisted ones and in their
/// order. An empty whitelist retains none.
pub proof fn law_ciphers_are_retained(
    builder: &ClientBuilder,
    enabled: &[CipherSuite],
    ciphers: Vec<CipherSuite>,
)
    requires
        call_ensures(ClientBuilder::retain_ciphers, (builder, enabled), ciphers),
    ensures
        ciphers@ == (match builder.whitelisted_ciphers {
            Some(list) => list@,
            None => enabled@,
        }).filter(|suite: CipherSuite| !builder.blacklisted_ciphers@.contains(suite)),
{
}

/// Law: the suites of a session are configured by handing over the retained
/// ones. The platform is asked for those that it has enabled, by their number
/// first, only where there is no whitelist; and the first failure ends it with
/// its status.
pub proof fn law_ciphers_are_configured<'a>(
    builder: &'a ClientBuilder,
    ctx: SslContext,
    op: CipherConfiguration<'a>,
    count: Reply,
    list: Reply,
    reply: Reply,
)
    requires
        call_ensures(ClientBuilder::configure_ciphers, (builder, ctx), op),
    ensures
        builder.whitelisted_ciphers matches Some(allowed) ==> {
            &&& op.awaiting() matches CallView::SetEnabledCiphers { ctx: seen, ciphers }
            &&& seen == ctx.raw
            &&& ciphers == allowed@.filter(
                |suite: CipherSuite| !builder.blacklisted_ciphers@.contains(suite),
            ).map_values(|suite: CipherSuite| suite.raw)
            &&& op.after(reply) matches Next::Done(result)
            &&& result is Ok <==> reply.status == ERR_SEC_SUCCESS
            &&& result matches Err(err) ==> err.code == reply.status
        },
        builder.whitelisted_ciphers is None ==> {
            &&& op.awaiting() == (CallView::GetNumberEnabledCiphers { ctx: ctx.raw })
            &&& count.status != ERR_SEC_SUCCESS ==> (op.after(count) matches Next::Done(Err(err))
                && err.code == count.status)
            &&& count.status == ERR_SEC_SUCCESS ==> (op.after(count) matches Next::Ask(middle) && {
                &&& middle.awaiting() == (CallView::GetEnabledCiphers {
                    ctx: ctx.raw,
                    count: count.value->Size_0,
                })
                &&& list.status != ERR_SEC_SUCCESS ==> (middle.after(list) matches Next::Done(
                    Err(err),
                ) && err.code == list.status)
                &&& list.status == ERR_SEC_SUCCESS ==> (middle.after(list) matches Next::Ask(last)
                    && {
                    &&& last.awaiting() matches CallView::SetEnabledCiphers { ctx: seen, ciphers }
                    &&& seen == ctx.raw
                    &&& ciphers == list.value->Ciphers_0@.map_values(
                        |raw: u32| CipherSuite { raw },
                    ).filter(
                        |suite: CipherSuite| !builder.blacklisted_ciphers@.contains(suite),
                    ).map_values(|suite: CipherSuite| suite.raw)
                    &&& last.after(reply) matches Next::Done(result)
                    &&& result is Ok <==> reply.status == ERR_SEC_SUCCESS
                    &&& result matches Err(err) ==> err.code == reply.status
                })
            })
        },
{
}

/// Law: a trust evaluation accepts a certificate that may be used or is
/// trusted implicitly, and no other. A denial, a failure of trust and anything
/// else each have their own error.
pub proof fn law_judgements(result: TrustResult, judgement: Result<(), Error>)
    requires
        call_ensures(judge, (result,), judgement),
    ensures
        judgement is Ok <==> result == TrustResult::PROCEED || result == TrustResult::UNSPECIFIED,
        judgement matches Err(err) ==> {
            &&& err.code == ERR_SEC_TRUST_SETTING_DENY <==> result == TrustResult::DENY
            &&& err.code == ERR_SEC_NOT_TRUSTED <==> result
                == TrustResult::RECOVERABLE_TRUST_FAILURE || result
                == TrustResult::FATAL_TRUST_FAILURE
            &&& err.code == ERR_SEC_TRUST_SETTING_DENY || err.code == ERR_SEC_NOT_TRUSTED
                || err.code == ERR_SEC_BAD_REQ
        },
{
}

/// Law: how a check of a server's certificate goes on. It ends in acceptance
/// only with a peer that has no trust object, or with an evaluation whose
/// result is 1 or 4. A reply that is not a success ends it with its status,
/// but for the creation of the policy, which has none. Whatever happens, the
/// settings stay as they are, and the trust object is the same throughout.
pub proof fn law_checks_go_on(op: TrustCheck, reply: Reply)
    requires
        reply.answers(op.awaiting()),
    ensures
        op.after(reply) matches Next::Done(end) ==> end.0 == op.settings,
        op.after(reply) matches Next::Ask(rest) ==> rest.settings == op.settings,
        op.after(reply) matches Next::Done(end) ==> (end.1 is Ok ==> {
            &&& reply.status == ERR_SEC_SUCCESS
            &&& op.awaiting() is CopyPeerTrust || op.awaiting() is Evaluate
            &&& op.awaiting() is CopyPeerTrust ==> reply.value->OptionalRef_0 is None
            &&& op.awaiting() is Evaluate ==> reply.value->Trust_0 == 1 || reply.value->Trust_0 == 4
        }),
        !(op.stage is Policy) && reply.status != ERR_SEC_SUCCESS ==> (op.after(
            reply,
        ) matches Next::Done(end) && end.1 == Err::<(), Error>(Error { code: reply.status })),
        op.awaiting() is GetSessionState && reply.status == ERR_SEC_SUCCESS ==> {
            &&& reply.value->Code_0 == 0 ==> (op.after(reply) matches Next::Done(end) && end.1
                == Err::<(), Error>(Error { code: ERR_SEC_BAD_REQ }))
            &&& reply.value->Code_0 != 0 ==> (op.after(reply) matches Next::Ask(rest)
                && rest.awaiting() == (CallView::CopyPeerTrust {
                ctx: op.awaiting()->GetSessionState_ctx,
            }))
        },
        op.awaiting() is CopyPeerTrust && reply.status == ERR_SEC_SUCCESS ==> {
            &&& reply.value->OptionalRef_0 is None ==> op.after(reply) is Done
            &&& reply.value->OptionalRef_0 matches Some(trust) ==> (op.after(
                reply,
            ) matches Next::Ask(rest)
                && rest.awaiting() matches CallView::SetAnchorCertificates { trust: asked, certs }
                && asked == trust && certs.len() == op.settings.certs@.len() && forall|i: int|
                0 <= i < certs.len() ==> #[trigger] certs[i] == op.settings.certs@[i].raw)
        },
        op.awaiting() matches CallView::SetAnchorCertificates { trust, certs } && reply.status
            == ERR_SEC_SUCCESS ==> (op.after(reply) matches Next::Ask(rest) && rest.awaiting() == (
        CallView::SetAnchorCertificatesOnly {
            trust: op.awaiting()->SetAnchorCertificates_trust,
            only: op.settings.trust_certs_only,
        })),
        op.stage matches CheckStage::AnchorsOnly { trust } ==> (reply.status == ERR_SEC_SUCCESS
            ==> (op.after(reply) matches Next::Ask(rest) && rest.stage == (CheckStage::Policy {
            trust,
        }) && (rest.awaiting() matches CallView::CreateSslPolicy { side, hostname } && side == 0
            && hostname == name_view(op.settings.domain)))),
        op.stage matches CheckStage::Policy { trust } ==> (op.after(reply) matches Next::Ask(rest)
            && rest.awaiting() == (CallView::SetPolicies {
            trust: trust.raw,
            policy: reply.value->Ref_0,
        })),
        op.awaiting() is SetPolicies && reply.status == ERR_SEC_SUCCESS ==> (op.after(
            reply,
        ) matches Next::Ask(rest) && rest.awaiting() == (CallView::Evaluate {
            trust: op.awaiting()->SetPolicies_trust,
        })),
        op.awaiting() is Evaluate && reply.status == ERR_SEC_SUCCESS ==> (op.after(
            reply,
        ) matches Next::Done(end) && {
            let result = reply.value->Trust_0;
            &&& end.1 is Ok <==> result == 1 || result == 4
            &&& end.1 matches Err(err) ==> err.code == (if result == 3 {
                ERR_SEC_TRUST_SETTING_DENY
            } else if result == 5 || result == 6 {
                ERR_SEC_NOT_TRUSTED
            } else {
                ERR_SEC_BAD_REQ
            })
        }),
{
}

/// Law: a client's attempt succeeds exactly if the platform reports success,
/// and is interrupted exactly if the stream is not ready. A pause for the
/// server's certificate leads to its check, of this session, unless invalid
/// certificates are accepted, and only then on without one. Every other status
/// ends it with exactly that status, or with the caught panic if the platform
/// has failed. The stream and the settings stay what they are.
pub proof fn law_client_attempts_end<'a, S>(
    stream: SslStream<S>,
    settings: TrustSettings,
    status: OSStatus,
    step: ClientStep<'a, S>,
)
    requires
        call_ensures(ClientStep::<S>::handshake, (stream, settings, status), step),
    ensures
        (step matches ClientStep::Done(Outcome::Return(Ok(_)))) <==> status == ERR_SEC_SUCCESS,
        step matches ClientStep::Done(Outcome::Return(Ok(returned))) ==> returned == stream,
        status == ERR_SSL_WOULD_BLOCK ==> (step matches ClientStep::Done(
            Outcome::Return(Err(ClientHandshakeError::Interrupted(mid))),
        ) && mid.stream.stream == stream && mid.stream.error.code == status && mid.settings
            == settings),
        status == ERR_SSL_PEER_AUTH_COMPLETED && settings.danger_accept_invalid_certs ==> (
        step matches ClientStep::Handshake { stream: again, settings: kept } && again == stream
            && kept == settings),
        status == ERR_SSL_PEER_AUTH_COMPLETED && !settings.danger_accept_invalid_certs ==> (
        step matches ClientStep::Check { stream: paused, op } && paused == stream && op.settings
            == settings && op.awaiting() == (CallView::GetSessionState { ctx: stream.ctx.raw })),
        fails_handshake(status) && stream.conn.panic is Some ==> (step matches ClientStep::Done(
            Outcome::Unwind(payload),
        ) && stream.conn.panic == Some(payload)),
        status != ERR_SEC_SUCCESS && status != ERR_SSL_WOULD_BLOCK && status
            != ERR_SSL_PEER_AUTH_COMPLETED && !(fails_handshake(status) && stream.conn.panic is Some)
            ==> (step matches ClientStep::Done(
            Outcome::Return(Err(ClientHandshakeError::Failure(err))),
        ) && err.code == status),
{
}

/// Law: a check leads on to the next attempt only by acceptance, on the same
/// stream and under the same settings; a refusal ends the handshake with the
/// error of the check.
pub proof fn law_client_checks_end<'a, S>(
    stream: SslStream<S>,
    op: TrustCheck,
    reply: Reply,
    step: ClientStep<'a, S>,
)
    requires
        reply.answers(op.awaiting()),
        call_ensures(ClientStep::<S>::check, (stream, op, reply), step),
    ensures
        !(step is Setup) && !(step matches ClientStep::Done(Outcome::Return(Ok(_)))),
        step matches ClientStep::Handshake { stream: again, settings } ==> {
            &&& again == stream
            &&& settings == op.settings
            &&& reply.status == ERR_SEC_SUCCESS
            &&& (op.awaiting() is CopyPeerTrust && reply.value->OptionalRef_0 is None) || (
            op.awaiting() is Evaluate && (reply.value->Trust_0 == 1 || reply.value->Trust_0 == 4))
        },
        step matches ClientStep::Check { stream: paused, op: rest } ==> {
            &&& paused == stream
            &&& rest.settings == op.settings
            &&& reply.status == ERR_SEC_SUCCESS || op.awaiting() is CreateSslPolicy
        },
        step matches ClientStep::Done(outcome) ==> (outcome matches Outcome::Return(
            Err(ClientHandshakeError::Failure(err)),
        ) && (reply.status != ERR_SEC_SUCCESS ==> err.code == reply.status)),
{
}

/// Law: a set-up leads on to the handshake only when its last call, the one
/// that connects the session, succeeds, and the settings stay what they are. A
/// failed call ends the handshake with its error.
pub proof fn law_client_setups_end<'a, S>(
    op: ClientSetup<'a, S>,
    settings: TrustSettings,
    reply: Reply,
    step: ClientStep<'a, S>,
)
    requires
        op.wf(),
        reply.answers(op.awaiting()),
        call_ensures(ClientStep::<S>::setup, (op, settings, reply), step),
    ensures
        !(step is Check) && !(step matches ClientStep::Done(Outcome::Return(Ok(_)))),
        step matches ClientStep::Setup { op: rest, settings: kept } ==> kept == settings && (
        op.awaiting() is CreateContext || (reply.status == ERR_SEC_SUCCESS
            && !(reply.value is Unavailable))),
        step matches ClientStep::Handshake { stream, settings: kept } ==> {
            &&& kept == settings
            &&& op.awaiting() == (CallView::SetConnection { ctx: stream.ctx.raw })
            &&& reply.status == ERR_SEC_SUCCESS
        },
        step matches ClientStep::Done(outcome) ==> (outcome matches Outcome::Return(
            Err(ClientHandshakeError::Failure(err)),
        ) && !(op.awaiting() is CreateContext) && (reply.value is Unavailable ==> err.code
            == ERR_SEC_UNIMPLEMENTED) && (!(reply.value is Unavailable) ==> err.code
            == reply.status && err.code != ERR_SEC_SUCCESS)),
{
    if let ClientSetup::Configure { op: settings_op, stream: _ } = op {
        let all = settings_op.settings();
        assert(all[settings_op.made as int] == op.awaiting());
        lemma_no_setting_creates(
            *settings_op.builder,
            settings_op.ctx.raw,
            sni_view(settings_op.sni),
            settings_op.made as int,
        );
    }
}

/// None of the settings of a session creates one, and none of them is part of
/// a check.
proof fn lemma_no_setting_creates(
    builder: ClientBuilder,
    ctx: usize,
    sni: Option<Seq<char>>,
    k: int,
)
    ensures
        0 <= k < builder.session_settings(ctx, sni).len() ==> 1 <= place(
            builder.session_settings(ctx, sni)[k],
        ) <= 6,
{
}

/// Law: a restart of a client's handshake attempts it again, on the stream
/// and under the settings of the interruption, whose error it tells. An error
/// of the platform alone is a failure and no interruption.
pub proof fn law_client_restarts<'a, S>(
    mid: MidHandshakeClientBuilder<S>,
    step: ClientStep<'a, S>,
    error: &Error,
    err: Error,
    from: ClientHandshakeError<S>,
)
    requires
        call_ensures(MidHandshakeClientBuilder::<S>::handshake, (mid,), step),
        call_ensures(MidHandshakeClientBuilder::<S>::error, (&mid,), error),
        call_ensures(<ClientHandshakeError<S> as From<Error>>::from, (err,), from),
    ensures
        *error == mid.stream.error,
        from == ClientHandshakeError::<S>::Failure(err),
        step matches ClientStep::Handshake { stream, settings } && stream == mid.stream.stream
            && settings == mid.settings,
{
}

/// Whether a call belongs to the check of a server's certificate.
pub open spec fn is_of_check(call: CallView) -> bool {
    ||| call is GetSessionState
    ||| call is CopyPeerTrust
    ||| call is SetAnchorCertificates
    ||| call is SetAnchorCertificatesOnly
    ||| call is CreateSslPolicy
    ||| call is SetPolicies
    ||| call is Evaluate
}

/// Whether a call in a client's handshake is one that its builder and the
/// domain allow: the certificate is judged by the builder's roots, alone or
/// not as the builder says, and for the domain, unless the builder accepts
/// invalid names; and it is not judged at all where the builder accepts
/// invalid certificates.
pub open spec fn judges_as_built(
    builder: ClientBuilder,
    domain: Seq<char>,
    call: CallView,
) -> bool {
    &&& builder.danger_accept_invalid_certs ==> !is_of_check(call)
    &&& call matches CallView::CreateSslPolicy { side, hostname } ==> side == 0 && hostname == (
    if builder.danger_accept_invalid_hostnames {
        None
    } else {
        Some(domain)
    })
    &&& call matches CallView::SetAnchorCertificates { trust, certs } ==> certs.len()
        == builder.certs@.len() && forall|i: int|
        0 <= i < certs.len() ==> #[trigger] certs[i] == builder.certs@[i].raw
    &&& call matches CallView::SetAnchorCertificatesOnly { trust, only } ==> only
        == builder.trust_certs_only
}

/// Whether a call in a client's handshake is one that the settings allow.
pub open spec fn judges_by_settings(settings: TrustSettings, call: CallView) -> bool {
    &&& settings.danger_accept_invalid_certs ==> !is_of_check(call)
    &&& call matches CallView::CreateSslPolicy { side, hostname } ==> {
        &&& side == 0
        &&& hostname is Some <==> settings.domain is Some
        &&& settings.domain matches Some(domain) ==> hostname == Some(domain@)
    }
    &&& call matches CallView::SetAnchorCertificates { trust, certs } ==> certs.len()
        == settings.certs@.len() && forall|i: int|
        0 <= i < certs.len() ==> #[trigger] certs[i] == settings.certs@[i].raw
    &&& call matches CallView::SetAnchorCertificatesOnly { trust, only } ==> only
        == settings.trust_certs_only
}

proof fn lemma_step_judges_by_settings<'a, S>(step: ClientStep<'a, S>, settings: TrustSettings)
    requires
        step.settings() == Some(settings),
        step matches ClientStep::Setup { op, settings: _ } ==> op.wf(),
        step is Check ==> !settings.danger_accept_invalid_certs,
    ensures
        step.awaiting() matches Some(call) ==> judges_by_settings(settings, call),
{
    if let ClientStep::Setup { op, settings: _ } = step {
        if let ClientSetup::Configure { op: settings_op, stream: _ } = op {
            lemma_no_setting_creates(
                *settings_op.builder,
                settings_op.ctx.raw,
                sni_view(settings_op.sni),
                settings_op.made as int,
            );
        }
    }
}

proof fn lemma_step_keeps_settings<'a, S>(
    step: ClientStep<'a, S>,
    settings: TrustSettings,
    event: ClientEvent<S>,
)
    requires
        step.settings() == Some(settings),
        step matches ClientStep::Setup { op, settings: _ } ==> op.wf(),
        step is Check ==> !settings.danger_accept_invalid_certs,
        step.expects(event),
    ensures
        !(step.after(event) is Done) ==> step.after(event).settings() == Some(settings),
        step.after(event) matches ClientStep::Setup { op, settings: _ } ==> op.wf(),
        step.after(event) is Check ==> !settings.danger_accept_invalid_certs,
        step.after(event) matches ClientStep::Done(
            Outcome::Return(Err(ClientHandshakeError::Interrupted(mid))),
        ) ==> mid.settings == settings,
{
}

proof fn lemma_handshake_judges_by_settings<'a, S>(
    step: ClientStep<'a, S>,
    settings: TrustSettings,
    events: Seq<ClientEvent<S>>,
)
    requires
        step.settings() == Some(settings),
        step matches ClientStep::Setup { op, settings: _ } ==> op.wf(),
        step is Check ==> !settings.danger_accept_invalid_certs,
        step.expects_all(events),
    ensures
        step.after_all(events).awaiting() matches Some(call) ==> judges_by_settings(
            settings,
            call,
        ),
        step.after_all(events) matches ClientStep::Done(
            Outcome::Return(Err(ClientHandshakeError::Interrupted(mid))),
        ) ==> mid.settings == settings,
    decreases events.len(),
{
    reveal_with_fuel(ClientStep::expects_all, 2);
    reveal_with_fuel(ClientStep::after_all, 2);
    if events.len() == 0 {
        lemma_step_judges_by_settings(step, settings);
    } else {
        lemma_step_keeps_settings(step, settings, events[0]);
        let next = step.after(events[0]);
        if !(next is Done) {
            lemma_handshake_judges_by_settings(next, settings, events.drop_first());
        }
    }
}

/// Law: after a restart a client judges the server's certificate by the
/// settings of the interruption: for their name, if they have one, by their
/// roots, alone or not as they say, and not at all only where they accept
/// invalid certificates. The next interruption has the same settings, so that
/// this holds of any number of restarts.
pub proof fn law_restarts_judge_alike<'a, S>(
    mid: MidHandshakeClientBuilder<S>,
    restarted: ClientStep<'a, S>,
    later: Seq<ClientEvent<S>>,
)
    requires
        call_ensures(MidHandshakeClientBuilder::<S>::handshake, (mid,), restarted),
        restarted.expects_all(later),
    ensures
        restarted.after_all(later).awaiting() matches Some(call) ==> judges_by_settings(
            mid.settings,
            call,
        ),
        restarted.after_all(later) matches ClientStep::Done(
            Outcome::Return(Err(ClientHandshakeError::Interrupted(again))),
        ) ==> again.settings == mid.settings,
{
    lemma_handshake_judges_by_settings(restarted, mid.settings, later);
}

/// Law: a client judges the server's certificate as it was built and for the
/// domain that it was given, in the whole of its handshake and after every
/// restart. The policy carries exactly the given domain unless invalid names
/// are accepted, whatever the other options are; the roots are the builder's;
/// and nothing is judged only where invalid certificates are accepted. The
/// session itself is set up as `ctx_into_stream` does it.
pub proof fn law_clients_judge_as_built<'a, S>(
    builder: &'a ClientBuilder,
    domain: &'a str,
    stream: S,
    first: ClientStep<'a, S>,
    setup: ClientSetup<'a, S>,
    events: Seq<ClientEvent<S>>,
    mid: MidHandshakeClientBuilder<S>,
    restarted: ClientStep<'a, S>,
    later: Seq<ClientEvent<S>>,
)
    requires
        call_ensures(ClientBuilder::handshake::<S>, (builder, domain, stream), first),
        call_ensures(ClientBuilder::ctx_into_stream::<S>, (builder, domain, stream), setup),
        first.expects_all(events),
        call_ensures(MidHandshakeClientBuilder::<S>::handshake, (mid,), restarted),
        restarted.expects_all(later),
    ensures
        first matches ClientStep::Setup { op, settings: _ } && op == setup,
        first.after_all(events).awaiting() matches Some(call) ==> judges_as_built(
            *builder,
            domain@,
            call,
        ),
        first.after_all(events) == ClientStep::interruption(mid) ==> (restarted.after_all(
            later,
        ).awaiting() matches Some(call) ==> judges_as_built(*builder, domain@, call)),
{
    let settings = first->Setup_settings;
    lemma_handshake_judges_by_settings(first, settings, events);
    if first.after_all(events) == ClientStep::interruption(mid) {
        lemma_handshake_judges_by_settings(restarted, settings, later);
    }
}

/// Law: a server's handshake ends in success exactly if the platform's status
/// is success, and then returns the stream of that attempt. Any other status
/// ends it with exactly that status, or with the caught panic if the platform
/// has failed.
pub proof fn law_server_handshake_ends<'a, S>(
    stream: SslStream<S>,
    status: OSStatus,
    step: ServerStep<'a, S>,
)
    requires
        call_ensures(ServerStep::<S>::handshake, (stream, status), step),
    ensures
        (step matches ServerStep::Done(Outcome::Return(Ok(_)))) <==> status == ERR_SEC_SUCCESS,
        step matches ServerStep::Done(Outcome::Return(Ok(returned))) ==> returned == stream,
        fails_handshake(status) && stream.conn.panic is Some ==> (step matches ServerStep::Done(
            Outcome::Unwind(payload),
        ) && stream.conn.panic == Some(payload)),
        status != ERR_SEC_SUCCESS && !(fails_handshake(status) && stream.conn.panic is Some) ==> (
        step matches ServerStep::Done(Outcome::Return(Err(err))) && err.code == status),
{
}

/// Law: a server's set-up leads on to the handshake only when its last call,
/// the one that connects the session, succeeds. A failed call ends the
/// handshake with its status.
pub proof fn law_server_setups_end<'a, S>(
    op: ServerSetup<'a, S>,
    reply: Reply,
    step: ServerStep<'a, S>,
)
    requires
        reply.answers(op.awaiting()),
        call_ensures(ServerStep::<S>::setup, (op, reply), step),
    ensures
        step is Setup ==> op.awaiting() is CreateContext || reply.status == ERR_SEC_SUCCESS,
        step matches ServerStep::Handshake(stream) ==> op.awaiting() == (CallView::SetConnection {
            ctx: stream.ctx.raw,
        }) && reply.status == ERR_SEC_SUCCESS,
        step matches ServerStep::Done(outcome) ==> (outcome matches Outcome::Return(Err(err))
            && err.code == reply.status && err.code != ERR_SEC_SUCCESS && !(
        op.awaiting() is CreateContext)),
{
}

/// Law: a server hands over the identity and the certificates that it was
/// made with, in order, to a session for the server side of a stream, and
/// attaches it to the stream that was given; nothing else is asked for.
pub proof fn law_server_calls<'a, S>(
    identity: &SecIdentity,
    certs: &[SecCertificate],
    builder: &'a ServerBuilder,
    stream: S,
    first: ServerStep<'a, S>,
    replies: Seq<Reply>,
)
    requires
        call_ensures(ServerBuilder::new, (identity, certs), *builder),
        call_ensures(ServerBuilder::handshake::<S>, (builder, stream), first),
        first matches ServerStep::Setup(op) && (run(op, replies) matches Next::Done(Ok(_))),
    ensures
        first matches ServerStep::Setup(op) && {
            let asked = calls(op, replies);
            let ctx = replies[0].value->Ref_0;
            &&& asked.len() == 4
            &&& asked[0] == (CallView::CreateContext { side: 0, kind: 0 })
            &&& asked[2] == (CallView::SetIoFuncs { ctx })
            &&& asked[3] == (CallView::SetConnection { ctx })
            &&& asked[1] matches CallView::SetCertificate { ctx: seen, chain }
            &&& seen == ctx
            &&& chain.len() == certs@.len() + 1
            &&& chain[0] == identity.raw
            &&& forall|i: int|
                0 <= i < certs@.len() ==> chain[i + 1] == (#[trigger] certs@[i]).raw
            &&& run(op, replies) matches Next::Done(Ok(ssl))
            &&& ssl.ctx.raw == ctx
            &&& ssl.conn.stream == stream
            &&& ssl.conn.err is None
            &&& ssl.conn.panic is None
        },
{
    law_server_setup(builder, stream, replies);
}

} // verus!
