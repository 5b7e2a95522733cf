//! What holds of the settings and questions of a session, whatever they
//! return.
//!
//! Each law here is about the operations that the methods of a session may
//! return. It says which call goes to the platform with which arguments, and
//! what a reply is turned into.
use crate::base::{
    ERR_SEC_BAD_REQ, ERR_SEC_SUCCESS, ERR_SEC_UNIMPLEMENTED, Error, OSStatus, cvt,
};
use crate::context::{
    AlpnQuery, BufferedReadSizeQuery, CipherListQuery, ClientCertificateStateQuery, Creation,
    NegotiatedCipherQuery, OptionQuery, PeerDomainNameQuery, PeerIdQuery, PeerTrustQuery, Setting,
    SslContext, StateQuery, VersionQuery, certificate_refs, cipher_numbers, cipher_suites,
};
use crate::operation::{Next, Operation};
use crate::platform::{Call, CallOf, CallView, Reply, name_view, names_view};
use crate::types::{
    CipherSuite, SecCertificate, SecIdentity, SecTrust, SessionState, SslAuthenticate,
    SslClientCertificateState, SslConnectionType, SslProtocol, SslProtocolSide, TrustResult,
};
use vstd::prelude::*;
use vstd::utf8::{decode_utf8, encode_utf8};

verus! {

/// Whether an operation asks for a call, reports a status that is not a
/// success as the error, and ends with the first reply.
pub open spec fn asks_once<O: Operation<Model = Result<T, Error>>, T>(
    op: O,
    call: CallView,
    reply: Reply,
) -> bool {
    &&& op.awaiting() == call
    &&& reply.status != ERR_SEC_SUCCESS && !(reply.value is Unavailable) ==> (op.after(
        reply,
    ) matches Next::Done(Err(err)) && err.code == reply.status)
    &&& reply.status == ERR_SEC_SUCCESS && !(reply.value is Unavailable) ==> (op.after(
        reply,
    ) matches Next::Done(Ok(_)))
}

/// Law: a status is a success or the error that carries it.
pub proof fn law_statuses_are_kept(
    status: OSStatus,
    result: Result<(), Error>,
    made: Error,
    code: OSStatus,
)
    requires
        call_ensures(cvt, (status,), result),
        call_ensures(Error::from_code, (status,), made),
        call_ensures(Error::code, (&made,), code),
    ensures
        result is Ok <==> status == ERR_SEC_SUCCESS,
        result matches Err(err) ==> err.code == status,
        code == status,
{
}

/// Law: a call that only sets something succeeds exactly if its status says
/// so and the function exists. A missing function has an error of its own,
/// and any other error carries the status.
pub proof fn law_settings_end(reply: &Reply, result: Result<(), Error>, op: Setting)
    requires
        call_ensures(Reply::check, (reply,), result),
    ensures
        result is Ok <==> reply.status == ERR_SEC_SUCCESS && !(reply.value is Unavailable),
        reply.value is Unavailable ==> (result matches Err(err) && err.code
            == ERR_SEC_UNIMPLEMENTED),
        !(reply.value is Unavailable) ==> (result matches Err(err) ==> err.code == reply.status),
        op.awaiting() == op.call@,
        op.after(*reply) == Next::<Setting, Result<(), Error>>::Done(result),
{
}

/// Law: lists are handed over whole and in order: certificates by their
/// references, cipher suites by their numbers, names by their characters.
pub proof fn law_lists_are_kept(
    certs: Seq<SecCertificate>,
    ciphers: Seq<CipherSuite>,
    numbers: Seq<u32>,
    names: Seq<String>,
    name: Option<String>,
    i: int,
)
    ensures
        certificate_refs(certs).len() == certs.len(),
        0 <= i < certs.len() ==> certificate_refs(certs)[i] == certs[i].raw,
        cipher_numbers(ciphers).len() == ciphers.len(),
        0 <= i < ciphers.len() ==> cipher_numbers(ciphers)[i] == ciphers[i].raw,
        cipher_suites(numbers).len() == numbers.len(),
        0 <= i < numbers.len() ==> cipher_suites(numbers)[i].raw == numbers[i],
        names_view(names).len() == names.len(),
        0 <= i < names.len() ==> names_view(names)[i] == names[i]@,
        name_view(name) is Some <==> name is Some,
        name matches Some(text) ==> name_view(name) == Some(text@),
{
}

/// Law: a call is seen with all of its arguments. Two calls that are seen as
/// the same agree in every argument.
pub proof fn law_calls_are_seen_whole(call: Call)
    ensures
        call matches CallOf::SetPeerDomainName { ctx, name } ==> call@ == (
        CallView::SetPeerDomainName { ctx, name: name@ }),
        call matches CallOf::SetCertificate { ctx, chain } ==> call@ == (
        CallView::SetCertificate { ctx, chain: chain@ }),
        call matches CallOf::SetPeerId { ctx, id } ==> call@ == (CallView::SetPeerId {
            ctx,
            id: id@,
        }),
        call matches CallOf::SetEnabledCiphers { ctx, ciphers } ==> call@ == (
        CallView::SetEnabledCiphers { ctx, ciphers: ciphers@ }),
        call matches CallOf::SetAlpnProtocols { ctx, protocols } ==> (
        call@ matches CallView::SetAlpnProtocols { ctx: seen, protocols: names } && seen == ctx
            && names.len() == protocols@.len() && forall|i: int|
            0 <= i < names.len() ==> #[trigger] names[i] == protocols@[i]@),
        call matches CallOf::SetAnchorCertificates { trust, certs } ==> call@ == (
        CallView::SetAnchorCertificates { trust, certs: certs@ }),
        call matches CallOf::CreateSslPolicy { side, hostname } ==> (
        call@ matches CallView::CreateSslPolicy { side: seen, hostname: name } && seen == side && (
        name is Some <==> hostname is Some) && (hostname matches Some(text) ==> name == Some(
            text@,
        ))),
        call matches CallOf::CreateContext { side, kind } ==> call@ == (CallView::CreateContext {
            side,
            kind,
        }),
        call matches CallOf::GetPeerDomainName { ctx, len } ==> call@ == (
        CallView::GetPeerDomainName { ctx, len }),
        call matches CallOf::GetSupportedCiphers { ctx, count } ==> call@ == (
        CallView::GetSupportedCiphers { ctx, count }),
        call matches CallOf::GetEnabledCiphers { ctx, count } ==> call@ == (
        CallView::GetEnabledCiphers { ctx, count }),
        call matches CallOf::SetClientSideAuthenticate { ctx, auth } ==> call@ == (
        CallView::SetClientSideAuthenticate { ctx, auth }),
        call matches CallOf::SetProtocolVersionMax { ctx, version } ==> call@ == (
        CallView::SetProtocolVersionMax { ctx, version }),
        call matches CallOf::SetProtocolVersionMin { ctx, version } ==> call@ == (
        CallView::SetProtocolVersionMin { ctx, version }),
        call matches CallOf::SetProtocolVersionEnabled { ctx, version, enabled } ==> call@ == (
        CallView::SetProtocolVersionEnabled { ctx, version, enabled }),
        call matches CallOf::SetSessionOption { ctx, option, value } ==> call@ == (
        CallView::SetSessionOption { ctx, option, value }),
        call matches CallOf::GetSessionOption { ctx, option } ==> call@ == (
        CallView::GetSessionOption { ctx, option }),
        call matches CallOf::Read { ctx, len } ==> call@ == (CallView::Read { ctx, len }),
        call matches CallOf::Write { ctx, len } ==> call@ == (CallView::Write { ctx, len }),
        call matches CallOf::SetAnchorCertificatesOnly { trust, only } ==> call@ == (
        CallView::SetAnchorCertificatesOnly { trust, only }),
        call matches CallOf::SetPolicies { trust, policy } ==> call@ == (CallView::SetPolicies {
            trust,
            policy,
        }),
        call matches CallOf::Evaluate { trust } ==> call@ == (CallView::Evaluate { trust }),
{
}

/// Law: a session is created for the side and the type that are asked for,
/// and is the one that the platform created.
pub proof fn law_sessions_are_created(
    side: SslProtocolSide,
    kind: SslConnectionType,
    op: Creation,
    reply: Reply,
)
    requires
        call_ensures(SslContext::new, (side, kind), op),
        reply.value is Ref,
    ensures
        op.awaiting() matches CallView::CreateContext { side: s, kind: k } && s == (
        if side == SslProtocolSide::CLIENT {
            1int
        } else {
            0int
        }) && k == (if kind == SslConnectionType::DATAGRAM {
            1int
        } else {
            0int
        }),
        op.after(reply) matches Next::Done(Ok(ctx)) && ctx.raw == reply.value->Ref_0,
{
}

/// Law: the name of the peer goes to the platform in UTF-8, and comes back
/// from it: the platform is asked for its length, then for that many bytes,
/// and the bytes are read as UTF-8. What is set is what is read, if the
/// platform keeps it.
pub proof fn law_peer_domain_names(
    ctx: &mut SslContext,
    name: &str,
    set: Setting,
    reader: &SslContext,
    get: PeerDomainNameQuery,
    length: Reply,
    bytes: Reply,
)
    requires
        call_ensures(SslContext::set_peer_domain_name, (ctx, name), set),
        call_ensures(SslContext::peer_domain_name, (reader,), get),
        length.status == ERR_SEC_SUCCESS ==> length.value is Size,
        bytes.status == ERR_SEC_SUCCESS ==> bytes.value is Bytes,
    ensures
        set.call@ == (CallView::SetPeerDomainName {
            ctx: old(ctx).raw,
            name: encode_utf8(name@),
        }),
        *final(ctx) == *old(ctx),
        get.awaiting() == (CallView::GetPeerDomainNameLength { ctx: reader.raw }),
        length.status != ERR_SEC_SUCCESS ==> (get.after(length) matches Next::Done(Err(err))
            && err.code == length.status),
        length.status == ERR_SEC_SUCCESS ==> (get.after(length) matches Next::Ask(rest) && {
            &&& rest.awaiting() == (CallView::GetPeerDomainName {
                ctx: reader.raw,
                len: length.value->Size_0,
            })
            &&& bytes.status != ERR_SEC_SUCCESS ==> (rest.after(bytes) matches Next::Done(Err(err))
                && err.code == bytes.status)
            &&& bytes.status == ERR_SEC_SUCCESS ==> (rest.after(bytes) matches Next::Done(Ok(read))
                && read == decode_utf8(bytes.value->Bytes_0@))
            &&& bytes.status == ERR_SEC_SUCCESS && bytes.value->Bytes_0@ == encode_utf8(name@)
                ==> (rest.after(bytes) matches Next::Done(Ok(read)) && read == name@)
        }),
{
    broadcast use {vstd::utf8::encode_utf8_valid_utf8, vstd::utf8::encode_utf8_decode_utf8};

}

/// Law: the certificate of a session is handed over as a chain that begins
/// with the identity and goes on with the certificates, in order.
pub proof fn law_certificate_chains(
    ctx: &mut SslContext,
    identity: &SecIdentity,
    certs: &[SecCertificate],
    set: Setting,
)
    requires
        call_ensures(SslContext::set_certificate, (ctx, identity, certs), set),
    ensures
        set.call@ matches CallView::SetCertificate { ctx: seen, chain } && seen == old(ctx).raw
            && chain.len() == certs@.len() + 1 && chain[0] == identity.raw && forall|i: int|
            0 <= i < certs@.len() ==> chain[i + 1] == (#[trigger] certs@[i]).raw,
        *final(ctx) == *old(ctx),
{
}

/// Law: the peer ID goes to the platform as it is, and comes back as the
/// platform has it.
pub proof fn law_peer_ids(
    ctx: &mut SslContext,
    id: &[u8],
    set: Setting,
    reader: &SslContext,
    get: PeerIdQuery,
    reply: Reply,
)
    requires
        call_ensures(SslContext::set_peer_id, (ctx, id), set),
        call_ensures(SslContext::peer_id, (reader,), get),
        reply.value is OptionalBytes,
    ensures
        set.call@ == (CallView::SetPeerId { ctx: old(ctx).raw, id: id@ }),
        *final(ctx) == *old(ctx),
        asks_once(get, CallView::GetPeerId { ctx: reader.raw }, reply),
        get.after(reply) matches Next::Done(Ok(read)) ==> read == reply.value->OptionalBytes_0,
{
}

/// Law: lists of cipher suites are asked for by their length first, then in
/// full, each of the two lists by its own calls, and come back whole and in
/// order.
pub proof fn law_cipher_lists(
    ctx: &SslContext,
    supported: CipherListQuery,
    enabled: CipherListQuery,
    length: Reply,
    list: Reply,
)
    requires
        call_ensures(SslContext::supported_ciphers, (ctx,), supported),
        call_ensures(SslContext::enabled_ciphers, (ctx,), enabled),
        length.value is Size,
        list.value is Ciphers,
    ensures
        supported.awaiting() == (CallView::GetNumberSupportedCiphers { ctx: ctx.raw }),
        enabled.awaiting() == (CallView::GetNumberEnabledCiphers { ctx: ctx.raw }),
        length.status != ERR_SEC_SUCCESS ==> {
            &&& supported.after(length) matches Next::Done(Err(err))
            &&& err.code == length.status
            &&& enabled.after(length) matches Next::Done(Err(other))
            &&& other.code == length.status
        },
        length.status == ERR_SEC_SUCCESS ==> {
            let count = length.value->Size_0;
            &&& supported.after(length) matches Next::Ask(rest)
            &&& rest.awaiting() == (CallView::GetSupportedCiphers { ctx: ctx.raw, count })
            &&& enabled.after(length) matches Next::Ask(other)
            &&& other.awaiting() == (CallView::GetEnabledCiphers { ctx: ctx.raw, count })
            &&& rest.after(list) == (match other.after(list) {
                Next::Done(result) => Next::<CipherListQuery, Result<Seq<CipherSuite>, Error>>::Done(
                    result,
                ),
                Next::Ask(_) => Next::Ask(rest),
            })
            &&& list.status != ERR_SEC_SUCCESS ==> (rest.after(list) matches Next::Done(Err(err))
                && err.code == list.status)
            &&& list.status == ERR_SEC_SUCCESS ==> (rest.after(list) matches Next::Done(Ok(read))
                && read.len() == list.value->Ciphers_0@.len() && forall|i: int|
                0 <= i < read.len() ==> (#[trigger] read[i]).raw == list.value->Ciphers_0@[i])
        },
{
}

/// Law: the cipher suites to enable are handed over whole and in order.
pub proof fn law_ciphers_are_enabled(ctx: &mut SslContext, ciphers: &[CipherSuite], set: Setting)
    requires
        call_ensures(SslContext::set_enabled_ciphers, (ctx, ciphers), set),
    ensures
        set.call@ matches CallView::SetEnabledCiphers { ctx: seen, ciphers: numbers } && seen
            == old(ctx).raw && numbers.len() == ciphers@.len() && forall|i: int|
            0 <= i < numbers.len() ==> #[trigger] numbers[i] == ciphers@[i].raw,
        *final(ctx) == *old(ctx),
{
}

/// Law: the answers of a session are what the platform reports: the cipher
/// suite in use, the number of bytes that can be read at once, its state, and
/// the state of client certificate processing, which have their names by
/// number.
pub proof fn law_answers_are_reports(
    ctx: &SslContext,
    cipher: NegotiatedCipherQuery,
    held: BufferedReadSizeQuery,
    state: StateQuery,
    client: ClientCertificateStateQuery,
    cipher_reply: Reply,
    held_reply: Reply,
    code: Reply,
)
    requires
        call_ensures(SslContext::negotiated_cipher, (ctx,), cipher),
        call_ensures(SslContext::buffered_read_size, (ctx,), held),
        call_ensures(SslContext::state, (ctx,), state),
        call_ensures(SslContext::client_certificate_state, (ctx,), client),
        cipher_reply.value is Cipher,
        held_reply.value is Size,
        code.value is Code,
    ensures
        asks_once(cipher, CallView::GetNegotiatedCipher { ctx: ctx.raw }, cipher_reply),
        asks_once(held, CallView::GetBufferedReadSize { ctx: ctx.raw }, held_reply),
        asks_once(state, CallView::GetSessionState { ctx: ctx.raw }, code),
        asks_once(client, CallView::GetClientCertificateState { ctx: ctx.raw }, code),
        cipher.after(cipher_reply) matches Next::Done(Ok(suite)) ==> suite.raw
            == cipher_reply.value->Cipher_0,
        held.after(held_reply) matches Next::Done(Ok(size)) ==> size == held_reply.value->Size_0,
        state.after(code) matches Next::Done(Ok(s)) ==> {
            let raw = code.value->Code_0;
            &&& s == SessionState::IDLE <==> raw == 0
            &&& s == SessionState::HANDSHAKE <==> raw == 1
            &&& s == SessionState::CONNECTED <==> raw == 2
            &&& s == SessionState::CLOSED <==> raw == 3
            &&& s == SessionState::ABORTED <==> raw == 4
            &&& s matches SessionState::OTHER(other) ==> other == raw
        },
        client.after(code) matches Next::Done(Ok(s)) ==> {
            let raw = code.value->Code_0;
            &&& s == SslClientCertificateState::NONE <==> raw == 0
            &&& s == SslClientCertificateState::REQUESTED <==> raw == 1
            &&& s == SslClientCertificateState::SENT <==> raw == 2
            &&& s == SslClientCertificateState::REJECTED <==> raw == 3
            &&& s matches SslClientCertificateState::OTHER(other) ==> other == raw
        },
{
}

/// Law: numbers of the platform and the names here stand for each other: a
/// number is read as one name, and different numbers as different ones.
pub proof fn law_numbers_are_told_apart(
    a: i32,
    b: i32,
    a_version: SslProtocol,
    b_version: SslProtocol,
    back: i32,
    x: u32,
    y: u32,
    x_result: TrustResult,
    y_result: TrustResult,
    auth: SslAuthenticate,
    auth_raw: i32,
    suite: CipherSuite,
    suite_raw: u32,
    ctx: &SslContext,
    inner: usize,
)
    requires
        call_ensures(CipherSuite::from_raw, (x,), suite),
        call_ensures(CipherSuite::to_raw, (&suite,), suite_raw),
        call_ensures(SslContext::as_inner, (ctx,), inner),
        call_ensures(SslProtocol::from_raw, (a,), a_version),
        call_ensures(SslProtocol::from_raw, (b,), b_version),
        call_ensures(SslProtocol::to_raw, (a_version,), back),
        call_ensures(TrustResult::from_raw, (x,), x_result),
        call_ensures(TrustResult::from_raw, (y,), y_result),
        call_ensures(SslAuthenticate::to_raw, (auth,), auth_raw),
    ensures
        suite.raw == x && suite_raw == x,
        inner == ctx.raw,
        back == a,
        a_version == b_version <==> a == b,
        x_result == y_result <==> x == y,
        auth_raw == (match auth {
            SslAuthenticate::NEVER => 0int,
            SslAuthenticate::ALWAYS => 1int,
            SslAuthenticate::TRY => 2int,
        }),
{
}

/// Law: the protocol versions of a session are set and read each by its own
/// call, and come back as they were set, if the platform keeps them.
pub proof fn law_versions(
    max_ctx: &mut SslContext,
    min_ctx: &mut SslContext,
    any_ctx: &mut SslContext,
    version: SslProtocol,
    enabled: bool,
    set_max: Setting,
    set_min: Setting,
    set_any: Setting,
    reader: &SslContext,
    max: VersionQuery,
    min: VersionQuery,
    used: VersionQuery,
    number: i32,
    reply: Reply,
)
    requires
        call_ensures(SslContext::set_protocol_version_max, (max_ctx, version), set_max),
        call_ensures(SslContext::set_protocol_version_min, (min_ctx, version), set_min),
        call_ensures(
            SslContext::set_protocol_version_enabled,
            (any_ctx, version, enabled),
            set_any,
        ),
        call_ensures(SslContext::protocol_version_max, (reader,), max),
        call_ensures(SslContext::protocol_version_min, (reader,), min),
        call_ensures(SslContext::negotiated_protocol_version, (reader,), used),
        call_ensures(SslProtocol::to_raw, (version,), number),
        reply.value is Code,
    ensures
        set_max.call@ == (CallView::SetProtocolVersionMax {
            ctx: old(max_ctx).raw,
            version: number,
        }),
        set_min.call@ == (CallView::SetProtocolVersionMin {
            ctx: old(min_ctx).raw,
            version: number,
        }),
        set_any.call@ == (CallView::SetProtocolVersionEnabled {
            ctx: old(any_ctx).raw,
            version: number,
            enabled: if enabled {
                1
            } else {
                0
            },
        }),
        asks_once(max, CallView::GetProtocolVersionMax { ctx: reader.raw }, reply),
        asks_once(min, CallView::GetProtocolVersionMin { ctx: reader.raw }, reply),
        asks_once(used, CallView::GetNegotiatedProtocolVersion { ctx: reader.raw }, reply),
        max.after(reply) matches Next::Done(Ok(read)) ==> read.raw() == reply.value->Code_0,
        min.after(reply) matches Next::Done(Ok(read)) ==> read.raw() == reply.value->Code_0,
        used.after(reply) matches Next::Done(Ok(read)) ==> read.raw() == reply.value->Code_0,
        !(version is OTHER) && reply.value->Code_0 == number && reply.status == ERR_SEC_SUCCESS
            ==> (max.after(reply) matches Next::Done(Ok(read)) && read == version),
{
}

/// Law: the requirement for client certificates is handed over by its
/// number.
pub proof fn law_authentication_is_required(
    ctx: &mut SslContext,
    auth: SslAuthenticate,
    set: Setting,
)
    requires
        call_ensures(SslContext::set_client_side_authenticate, (ctx, auth), set),
    ensures
        set.call@ matches CallView::SetClientSideAuthenticate { ctx: seen, auth: number } && seen
            == old(ctx).raw && (number == 0 <==> auth == SslAuthenticate::NEVER) && (number == 1
            <==> auth == SslAuthenticate::ALWAYS) && (number == 2 <==> auth
            == SslAuthenticate::TRY),
        *final(ctx) == *old(ctx),
{
}

/// Law: the trust object of the peer is asked for only of a session that is
/// not idle. An idle one is a bad request, without a further call; else what
/// the platform has is what is returned.
pub proof fn law_peer_trust(
    ctx: &SslContext,
    op: PeerTrustQuery,
    state: Reply,
    object: Reply,
    found: Result<Option<SecTrust>, Error>,
    trust: Result<SecTrust, Error>,
)
    requires
        call_ensures(SslContext::peer_trust2, (ctx,), op),
        state.status == ERR_SEC_SUCCESS ==> state.value is Code,
        object.status == ERR_SEC_SUCCESS ==> object.value is OptionalRef,
        !(found matches Ok(None)),
        call_ensures(SslContext::peer_trust, (ctx, found), trust),
    ensures
        op.awaiting() == (CallView::GetSessionState { ctx: ctx.raw }),
        state.status != ERR_SEC_SUCCESS ==> (op.after(state) matches Next::Done(Err(err))
            && err.code == state.status),
        state.status == ERR_SEC_SUCCESS && state.value->Code_0 == 0 ==> (op.after(
            state,
        ) matches Next::Done(Err(err)) && err.code == ERR_SEC_BAD_REQ),
        state.status == ERR_SEC_SUCCESS && state.value->Code_0 != 0 ==> (op.after(
            state,
        ) matches Next::Ask(rest) && {
            &&& rest.awaiting() == (CallView::CopyPeerTrust { ctx: ctx.raw })
            &&& object.status != ERR_SEC_SUCCESS ==> (rest.after(object) matches Next::Done(
                Err(err),
            ) && err.code == object.status)
            &&& object.status == ERR_SEC_SUCCESS ==> (rest.after(object) matches Next::Done(
                Ok(read),
            ) && (read is Some <==> object.value->OptionalRef_0 is Some) && (
            read matches Some(trust) ==> object.value->OptionalRef_0 == Some(trust.raw)))
        }),
        trust matches Ok(object) ==> found == Ok::<Option<SecTrust>, Error>(Some(object)),
        trust matches Err(err) ==> found == Err::<Option<SecTrust>, Error>(err),
{
}

/// Law: the protocols for ALPN are handed over whole and in order. Those that
/// were selected come back as the platform has them, and none where it has
/// none; a missing function has an error of its own, and any other error
/// carries the status.
pub proof fn law_alpn(
    ctx: &mut SslContext,
    protocols: &[&str],
    set: Setting,
    reader: &SslContext,
    get: AlpnQuery,
    reply: Reply,
)
    requires
        call_ensures(SslContext::set_alpn_protocols, (ctx, protocols), set),
        call_ensures(SslContext::alpn_protocols, (reader,), get),
        reply.value is Unavailable || (reply.status == ERR_SEC_SUCCESS ==> reply.value is Names),
    ensures
        set.call@ matches CallView::SetAlpnProtocols { ctx: seen, protocols: names } && seen
            == old(ctx).raw && names.len() == protocols@.len() && forall|i: int|
            0 <= i < names.len() ==> #[trigger] names[i] == protocols@[i]@,
        *final(ctx) == *old(ctx),
        get.awaiting() == (CallView::CopyAlpnProtocols { ctx: reader.raw }),
        reply.value is Unavailable ==> (get.after(reply) matches Next::Done(Err(err)) && err.code
            == ERR_SEC_UNIMPLEMENTED),
        !(reply.value is Unavailable) && reply.status != ERR_SEC_SUCCESS ==> (get.after(
            reply,
        ) matches Next::Done(Err(err)) && err.code == reply.status),
        !(reply.value is Unavailable) && reply.status == ERR_SEC_SUCCESS ==> (get.after(
            reply,
        ) matches Next::Done(Ok(read)) && {
            &&& reply.value->Names_0 is None ==> read.len() == 0
            &&& reply.value->Names_0 matches Some(names) ==> read.len() == names@.len() && forall|
                i: int,
            |
                0 <= i < read.len() ==> #[trigger] read[i] == names@[i]@
        }),
{
}

/// Law: the option for the pause for the server's certificate is set and read under its own
/// number, set is 1 and clear is 0, and any flag but 0 is read as set.
pub proof fn law_option_break_on_server_auth(
    ctx: &mut SslContext,
    value: bool,
    set: Setting,
    reader: &SslContext,
    get: OptionQuery,
    reply: Reply,
)
    requires
        call_ensures(SslContext::set_break_on_server_auth, (ctx, value), set),
        call_ensures(SslContext::break_on_server_auth, (reader,), get),
        reply.value is Flag,
    ensures
        set.call@ matches CallView::SetSessionOption { ctx: seen, option, value: flag } && seen
            == old(ctx).raw && option == 0 && flag == (if value {
            1int
        } else {
            0int
        }),
        *final(ctx) == *old(ctx),
        asks_once(get, CallView::GetSessionOption { ctx: reader.raw, option: 0 }, reply),
        get.after(reply) matches Next::Done(Ok(read)) ==> (read <==> reply.value->Flag_0 != 0),
{
}

/// Law: the option for the pause at a request for a client certificate is set and read under its own
/// number, set is 1 and clear is 0, and any flag but 0 is read as set.
pub proof fn law_option_break_on_cert_requested(
    ctx: &mut SslContext,
    value: bool,
    set: Setting,
    reader: &SslContext,
    get: OptionQuery,
    reply: Reply,
)
    requires
        call_ensures(SslContext::set_break_on_cert_requested, (ctx, value), set),
        call_ensures(SslContext::break_on_cert_requested, (reader,), get),
        reply.value is Flag,
    ensures
        set.call@ matches CallView::SetSessionOption { ctx: seen, option, value: flag } && seen
            == old(ctx).raw && option == 1 && flag == (if value {
            1int
        } else {
            0int
        }),
        *final(ctx) == *old(ctx),
        asks_once(get, CallView::GetSessionOption { ctx: reader.raw, option: 1 }, reply),
        get.after(reply) matches Next::Done(Ok(read)) ==> (read <==> reply.value->Flag_0 != 0),
{
}

/// Law: the option for the pause for the client's certificate is set and read under its own
/// number, set is 1 and clear is 0, and any flag but 0 is read as set.
pub proof fn law_option_break_on_client_auth(
    ctx: &mut SslContext,
    value: bool,
    set: Setting,
    reader: &SslContext,
    get: OptionQuery,
    reply: Reply,
)
    requires
        call_ensures(SslContext::set_break_on_client_auth, (ctx, value), set),
        call_ensures(SslContext::break_on_client_auth, (reader,), get),
        reply.value is Flag,
    ensures
        set.call@ matches CallView::SetSessionOption { ctx: seen, option, value: flag } && seen
            == old(ctx).raw && option == 2 && flag == (if value {
            1int
        } else {
            0int
        }),
        *final(ctx) == *old(ctx),
        asks_once(get, CallView::GetSessionOption { ctx: reader.raw, option: 2 }, reply),
        get.after(reply) matches Next::Done(Ok(read)) ==> (read <==> reply.value->Flag_0 != 0),
{
}

/// Law: the option for TLS false start is set and read under its own
/// number, set is 1 and clear is 0, and any flag but 0 is read as set.
pub proof fn law_option_false_start(
    ctx: &mut SslContext,
    value: bool,
    set: Setting,
    reader: &SslContext,
    get: OptionQuery,
    reply: Reply,
)
    requires
        call_ensures(SslContext::set_false_start, (ctx, value), set),
        call_ensures(SslContext::false_start, (reader,), get),
        reply.value is Flag,
    ensures
        set.call@ matches CallView::SetSessionOption { ctx: seen, option, value: flag } && seen
            == old(ctx).raw && option == 3 && flag == (if value {
            1int
        } else {
            0int
        }),
        *final(ctx) == *old(ctx),
        asks_once(get, CallView::GetSessionOption { ctx: reader.raw, option: 3 }, reply),
        get.after(reply) matches Next::Done(Ok(read)) ==> (read <==> reply.value->Flag_0 != 0),
{
}

/// Law: the option for record splitting is set and read under its own
/// number, set is 1 and clear is 0, and any flag but 0 is read as set.
pub proof fn law_option_send_one_byte_record(
    ctx: &mut SslContext,
    value: bool,
    set: Setting,
    reader: &SslContext,
    get: OptionQuery,
    reply: Reply,
)
    requires
        call_ensures(SslContext::set_send_one_byte_record, (ctx, value), set),
        call_ensures(SslContext::send_one_byte_record, (reader,), get),
        reply.value is Flag,
    ensures
        set.call@ matches CallView::SetSessionOption { ctx: seen, option, value: flag } && seen
            == old(ctx).raw && option == 4 && flag == (if value {
            1int
        } else {
            0int
        }),
        *final(ctx) == *old(ctx),
        asks_once(get, CallView::GetSessionOption { ctx: reader.raw, option: 4 }, reply),
        get.after(reply) matches Next::Done(Ok(read)) ==> (read <==> reply.value->Flag_0 != 0),
{
}

} // verus!
