//! TLS sessions: what can be set on one and asked of one.
use crate::base::{ERR_SEC_BAD_REQ, ERR_SEC_SUCCESS, ERR_SEC_UNIMPLEMENTED, Error, cvt};
use crate::operation::{Next, Operation, calls, run};
use crate::platform::{Call, CallOf, CallView, Reply, Value, names_view};
use crate::types::{
    CipherSuite, SecCertificate, SecIdentity, SecTrust, SessionState, SslAuthenticate,
    SslClientCertificateState, SslConnectionType, SslProtocol, SslProtocolSide,
};
use vstd::prelude::*;
use vstd::slice::slice_to_vec;
use vstd::utf8::{decode_utf8, encode_utf8, valid_utf8};

verus! {

/// Stop the handshake so that the server's certificate can be judged.
pub const OPTION_BREAK_ON_SERVER_AUTH: i32 = 0;

/// Stop the handshake when the server asks for a client certificate.
pub const OPTION_BREAK_ON_CERT_REQUESTED: i32 = 1;

/// Stop the handshake so that the client's certificate can be judged.
pub const OPTION_BREAK_ON_CLIENT_AUTH: i32 = 2;

/// Allow TLS false start.
pub const OPTION_FALSE_START: i32 = 3;

/// Split off the first byte of each record.
pub const OPTION_SEND_ONE_BYTE_RECORD: i32 = 4;

/// The platform's form of a flag.
pub open spec fn flag_of(value: bool) -> u8 {
    if value {
        1
    } else {
        0
    }
}

fn flag(value: bool) -> (raw: u8)
    ensures
        raw == flag_of(value),
{
    if value {
        1
    } else {
        0
    }
}

/// The references of a list of certificates.
pub open spec fn certificate_refs(certs: Seq<SecCertificate>) -> Seq<usize> {
    certs.map_values(|cert: SecCertificate| cert.raw)
}

/// The numbers of a list of cipher suites.
pub open spec fn cipher_numbers(ciphers: Seq<CipherSuite>) -> Seq<u32> {
    ciphers.map_values(|cipher: CipherSuite| cipher.raw)
}

/// The cipher suites with the numbers of a list.
pub open spec fn cipher_suites(numbers: Seq<u32>) -> Seq<CipherSuite> {
    numbers.map_values(|raw: u32| CipherSuite { raw })
}

/// Appends the references of a list of certificates.
pub(crate) fn push_certificate_refs(refs: &mut Vec<usize>, certs: &[SecCertificate])
    ensures
        final(refs)@ == old(refs)@ + certificate_refs(certs@),
{
    let mut i: usize = 0;
    while i < certs.len()
        invariant
            i <= certs@.len(),
            refs@ =~= old(refs)@ + certificate_refs(certs@).take(i as int),
        decreases certs@.len() - i,
    {
        refs.push(certs[i].raw);
        i += 1;
    }
    assert(certificate_refs(certs@).take(i as int) =~= certificate_refs(certs@));
}

/// Returns the numbers of a list of cipher suites.
pub(crate) fn to_cipher_numbers(ciphers: &[CipherSuite]) -> (numbers: Vec<u32>)
    ensures
        numbers@ == cipher_numbers(ciphers@),
{
    let mut numbers: Vec<u32> = Vec::new();
    let mut i: usize = 0;
    while i < ciphers.len()
        invariant
            i <= ciphers@.len(),
            numbers@ =~= cipher_numbers(ciphers@).take(i as int),
        decreases ciphers@.len() - i,
    {
        numbers.push(ciphers[i].to_raw());
        i += 1;
    }
    assert(cipher_numbers(ciphers@).take(i as int) =~= cipher_numbers(ciphers@));
    numbers
}

/// Returns the cipher suites with the numbers of a list.
pub(crate) fn from_cipher_numbers(numbers: &[u32]) -> (ciphers: Vec<CipherSuite>)
    ensures
        ciphers@ == cipher_suites(numbers@),
{
    let mut ciphers: Vec<CipherSuite> = Vec::new();
    let mut i: usize = 0;
    while i < numbers.len()
        invariant
            i <= numbers@.len(),
            ciphers@ =~= cipher_suites(numbers@).take(i as int),
        decreases numbers@.len() - i,
    {
        ciphers.push(CipherSuite::from_raw(numbers[i]));
        i += 1;
    }
    assert(cipher_suites(numbers@).take(i as int) =~= cipher_suites(numbers@));
    ciphers
}

/// Copies a list of strings.
pub(crate) fn to_strings(texts: &[&str]) -> (strings: Vec<String>)
    ensures
        names_view(strings@) == texts@.map_values(|text: &str| text@),
{
    let mut strings: Vec<String> = Vec::new();
    let mut i: usize = 0;
    while i < texts.len()
        invariant
            i <= texts@.len(),
            strings@.len() == i,
            forall|j: int| 0 <= j < i ==> (#[trigger] strings@[j])@ == texts@[j]@,
        decreases texts@.len() - i,
    {
        strings.push(texts[i].to_owned());
        i += 1;
    }
    assert(names_view(strings@) =~= texts@.map_values(|text: &str| text@));
    strings
}

/// Calls `String::from_utf8` and drops the error. It is trusted to return a
/// string exactly for well-formed UTF-8, and to return the characters that
/// the bytes encode.
#[verifier::external_body]
fn string_from_utf8(bytes: Vec<u8>) -> (text: Option<String>)
    ensures
        text is Some <==> valid_utf8(bytes@),
        text matches Some(s) ==> s@ == decode_utf8(bytes@),
{
    String::from_utf8(bytes).ok()
}

/// A Secure Transport SSL/TLS context object, by the platform's reference to
/// it.
#[derive(Debug, Copy, Clone, PartialEq, Eq, Structural)]
pub struct SslContext {
    pub raw: usize,
}

/// The creation of a session.
#[derive(Debug)]
pub struct Creation {
    pub side: SslProtocolSide,
    pub kind: SslConnectionType,
}

impl Operation for Creation {
    type Output = Result<SslContext, Error>;

    type Model = Result<SslContext, Error>;

    open spec fn model(output: Result<SslContext, Error>) -> Result<SslContext, Error> {
        output
    }

    open spec fn wf(&self) -> bool {
        true
    }

    open spec fn awaiting(&self) -> CallView {
        CallOf::CreateContext { side: self.side.raw(), kind: self.kind.raw() }
    }

    open spec fn after(self, reply: Reply) -> Next<Creation, Result<SslContext, Error>> {
        Next::Done(Ok(SslContext { raw: reply.value->Ref_0 }))
    }

    fn call(&self) -> (call: Call) {
        CallOf::CreateContext { side: self.side.to_raw(), kind: self.kind.to_raw() }
    }

    fn resume(self, reply: Reply) -> (next: Next<Creation, Result<SslContext, Error>>) {
        match reply.value {
            Value::Ref(raw) => Next::Done(Ok(SslContext { raw })),
            _ => Next::Ask(self),
        }
    }
}

/// A call that only sets something.
#[derive(Debug)]
pub struct Setting {
    pub call: Call,
}

impl Operation for Setting {
    type Output = Result<(), Error>;

    type Model = Result<(), Error>;

    open spec fn model(output: Result<(), Error>) -> Result<(), Error> {
        output
    }

    open spec fn wf(&self) -> bool {
        true
    }

    open spec fn awaiting(&self) -> CallView {
        self.call@
    }

    open spec fn after(self, reply: Reply) -> Next<Setting, Result<(), Error>> {
        Next::Done(reply.outcome())
    }

    fn call(&self) -> (call: Call) {
        self.call.clone()
    }

    fn resume(self, reply: Reply) -> (next: Next<Setting, Result<(), Error>>) {
        Next::Done(reply.check())
    }
}

/// The question for the domain name of the peer: its length first, then its
/// bytes.
#[derive(Debug)]
pub struct PeerDomainNameQuery {
    pub ctx: SslContext,
    /// The length, once it is known.
    pub len: Option<usize>,
}

impl Operation for PeerDomainNameQuery {
    type Output = Result<String, Error>;

    type Model = Result<Seq<char>, Error>;

    open spec fn model(output: Result<String, Error>) -> Result<Seq<char>, Error> {
        match output {
            Ok(name) => Ok(name@),
            Err(err) => Err(err),
        }
    }

    open spec fn wf(&self) -> bool {
        true
    }

    open spec fn awaiting(&self) -> CallView {
        match self.len {
            None => CallOf::GetPeerDomainNameLength { ctx: self.ctx.raw },
            Some(len) => CallOf::GetPeerDomainName { ctx: self.ctx.raw, len },
        }
    }

    open spec fn after(self, reply: Reply) -> Next<PeerDomainNameQuery, Result<Seq<char>, Error>> {
        if reply.status != ERR_SEC_SUCCESS {
            Next::Done(Err(Error { code: reply.status }))
        } else if self.len is None {
            Next::Ask(PeerDomainNameQuery { len: Some(reply.value->Size_0), ..self })
        } else {
            Next::Done(Ok(decode_utf8(reply.value->Bytes_0@)))
        }
    }

    fn call(&self) -> (call: Call) {
        match self.len {
            None => CallOf::GetPeerDomainNameLength { ctx: self.ctx.raw },
            Some(len) => CallOf::GetPeerDomainName { ctx: self.ctx.raw, len },
        }
    }

    fn resume(self, reply: Reply) -> (next: Next<PeerDomainNameQuery, Result<String, Error>>) {
        if let Err(err) = cvt(reply.status) {
            return Next::Done(Err(err));
        }
        match (self.len, reply.value) {
            (None, Value::Size(len)) => Next::Ask(
                PeerDomainNameQuery { ctx: self.ctx, len: Some(len) },
            ),
            (Some(_), Value::Bytes(bytes)) => match string_from_utf8(bytes) {
                Some(name) => Next::Done(Ok(name)),
                None => Next::Ask(self),
            },
            _ => Next::Ask(self),
        }
    }
}

/// The question for the peer ID of a session.
#[derive(Debug)]
pub struct PeerIdQuery {
    pub ctx: SslContext,
}

impl Operation for PeerIdQuery {
    type Output = Result<Option<Vec<u8>>, Error>;

    type Model = Result<Option<Vec<u8>>, Error>;

    open spec fn model(output: Result<Option<Vec<u8>>, Error>) -> Result<Option<Vec<u8>>, Error> {
        output
    }

    open spec fn wf(&self) -> bool {
        true
    }

    open spec fn awaiting(&self) -> CallView {
        CallOf::GetPeerId { ctx: self.ctx.raw }
    }

    open spec fn after(self, reply: Reply) -> Next<PeerIdQuery, Result<Option<Vec<u8>>, Error>> {
        if reply.status == ERR_SEC_SUCCESS {
            Next::Done(Ok(reply.value->OptionalBytes_0))
        } else {
            Next::Done(Err(Error { code: reply.status }))
        }
    }

    fn call(&self) -> (call: Call) {
        CallOf::GetPeerId { ctx: self.ctx.raw }
    }

    fn resume(self, reply: Reply) -> (next: Next<PeerIdQuery, Result<Option<Vec<u8>>, Error>>) {
        match cvt(reply.status) {
            Ok(()) => match reply.value {
                Value::OptionalBytes(value) => Next::Done(Ok(value)),
                _ => Next::Ask(self),
            },
            Err(err) => Next::Done(Err(err)),
        }
    }
}

/// The two lists of cipher suites that a session has.
#[derive(Debug, Copy, Clone, PartialEq, Eq, Structural)]
pub enum CipherList {
    /// Those that the platform supports.
    Supported,
    /// Those that may be negotiated.
    Enabled,
}

/// The question for a list of cipher suites: its length first, then its
/// members.
#[derive(Debug)]
pub struct CipherListQuery {
    pub ctx: SslContext,
    pub list: CipherList,
    /// The length, once it is known.
    pub count: Option<usize>,
}

impl Operation for CipherListQuery {
    type Output = Result<Vec<CipherSuite>, Error>;

    type Model = Result<Seq<CipherSuite>, Error>;

    open spec fn model(output: Result<Vec<CipherSuite>, Error>) -> Result<Seq<CipherSuite>, Error> {
        match output {
            Ok(ciphers) => Ok(ciphers@),
            Err(err) => Err(err),
        }
    }

    open spec fn wf(&self) -> bool {
        true
    }

    open spec fn awaiting(&self) -> CallView {
        let ctx = self.ctx.raw;
        match (self.list, self.count) {
            (CipherList::Supported, None) => CallOf::GetNumberSupportedCiphers { ctx },
            (CipherList::Supported, Some(count)) => CallOf::GetSupportedCiphers { ctx, count },
            (CipherList::Enabled, None) => CallOf::GetNumberEnabledCiphers { ctx },
            (CipherList::Enabled, Some(count)) => CallOf::GetEnabledCiphers { ctx, count },
        }
    }

    open spec fn after(self, reply: Reply) -> Next<
        CipherListQuery,
        Result<Seq<CipherSuite>, Error>,
    > {
        if reply.status != ERR_SEC_SUCCESS {
            Next::Done(Err(Error { code: reply.status }))
        } else if self.count is None {
            Next::Ask(CipherListQuery { count: Some(reply.value->Size_0), ..self })
        } else {
            Next::Done(Ok(cipher_suites(reply.value->Ciphers_0@)))
        }
    }

    fn call(&self) -> (call: Call) {
        let ctx: usize = self.ctx.raw;
        match (self.list, self.count) {
            (CipherList::Supported, None) => CallOf::GetNumberSupportedCiphers { ctx },
            (CipherList::Supported, Some(count)) => CallOf::GetSupportedCiphers { ctx, count },
            (CipherList::Enabled, None) => CallOf::GetNumberEnabledCiphers { ctx },
            (CipherList::Enabled, Some(count)) => CallOf::GetEnabledCiphers { ctx, count },
        }
    }

    fn resume(self, reply: Reply) -> (next: Next<CipherListQuery, Result<Vec<CipherSuite>, Error>>) {
        if let Err(err) = cvt(reply.status) {
            return Next::Done(Err(err));
        }
        match (self.count, reply.value) {
            (None, Value::Size(count)) => Next::Ask(
                CipherListQuery { ctx: self.ctx, list: self.list, count: Some(count) },
            ),
            (Some(_), Value::Ciphers(numbers)) => Next::Done(
                Ok(from_cipher_numbers(numbers.as_slice())),
            ),
            _ => Next::Ask(self),
        }
    }
}

/// The question for the cipher suite that a session uses.
#[derive(Debug)]
pub struct NegotiatedCipherQuery {
    pub ctx: SslContext,
}

impl Operation for NegotiatedCipherQuery {
    type Output = Result<CipherSuite, Error>;

    type Model = Result<CipherSuite, Error>;

    open spec fn model(output: Result<CipherSuite, Error>) -> Result<CipherSuite, Error> {
        output
    }

    open spec fn wf(&self) -> bool {
        true
    }

    open spec fn awaiting(&self) -> CallView {
        CallOf::GetNegotiatedCipher { ctx: self.ctx.raw }
    }

    open spec fn after(self, reply: Reply) -> Next<NegotiatedCipherQuery, Result<CipherSuite, Error>> {
        if reply.status == ERR_SEC_SUCCESS {
            Next::Done(Ok(CipherSuite { raw: reply.value->Cipher_0 }))
        } else {
            Next::Done(Err(Error { code: reply.status }))
        }
    }

    fn call(&self) -> (call: Call) {
        CallOf::GetNegotiatedCipher { ctx: self.ctx.raw }
    }

    fn resume(self, reply: Reply) -> (next: Next<NegotiatedCipherQuery, Result<CipherSuite, Error>>) {
        match cvt(reply.status) {
            Ok(()) => match reply.value {
                Value::Cipher(value) => Next::Done(Ok(CipherSuite::from_raw(value))),
                _ => Next::Ask(self),
            },
            Err(err) => Next::Done(Err(err)),
        }
    }
}

/// The question for the state of client certificate processing.
#[derive(Debug)]
pub struct ClientCertificateStateQuery {
    pub ctx: SslContext,
}

impl Operation for ClientCertificateStateQuery {
    type Output = Result<SslClientCertificateState, Error>;

    type Model = Result<SslClientCertificateState, Error>;

    open spec fn model(output: Result<SslClientCertificateState, Error>) -> Result<SslClientCertificateState, Error> {
        output
    }

    open spec fn wf(&self) -> bool {
        true
    }

    open spec fn awaiting(&self) -> CallView {
        CallOf::GetClientCertificateState { ctx: self.ctx.raw }
    }

    open spec fn after(self, reply: Reply) -> Next<ClientCertificateStateQuery, Result<SslClientCertificateState, Error>> {
        if reply.status == ERR_SEC_SUCCESS {
            Next::Done(Ok(SslClientCertificateState::of_raw(reply.value->Code_0)))
        } else {
            Next::Done(Err(Error { code: reply.status }))
        }
    }

    fn call(&self) -> (call: Call) {
        CallOf::GetClientCertificateState { ctx: self.ctx.raw }
    }

    fn resume(self, reply: Reply) -> (next: Next<ClientCertificateStateQuery, Result<SslClientCertificateState, Error>>) {
        match cvt(reply.status) {
            Ok(()) => match reply.value {
                Value::Code(value) => Next::Done(Ok(SslClientCertificateState::from_raw(value))),
                _ => Next::Ask(self),
            },
            Err(err) => Next::Done(Err(err)),
        }
    }
}

/// The question for the state of a session.
#[derive(Debug)]
pub struct StateQuery {
    pub ctx: SslContext,
}

impl Operation for StateQuery {
    type Output = Result<SessionState, Error>;

    type Model = Result<SessionState, Error>;

    open spec fn model(output: Result<SessionState, Error>) -> Result<SessionState, Error> {
        output
    }

    open spec fn wf(&self) -> bool {
        true
    }

    open spec fn awaiting(&self) -> CallView {
        CallOf::GetSessionState { ctx: self.ctx.raw }
    }

    open spec fn after(self, reply: Reply) -> Next<StateQuery, Result<SessionState, Error>> {
        if reply.status == ERR_SEC_SUCCESS {
            Next::Done(Ok(SessionState::of_raw(reply.value->Code_0)))
        } else {
            Next::Done(Err(Error { code: reply.status }))
        }
    }

    fn call(&self) -> (call: Call) {
        CallOf::GetSessionState { ctx: self.ctx.raw }
    }

    fn resume(self, reply: Reply) -> (next: Next<StateQuery, Result<SessionState, Error>>) {
        match cvt(reply.status) {
            Ok(()) => match reply.value {
                Value::Code(value) => Next::Done(Ok(SessionState::from_raw(value))),
                _ => Next::Ask(self),
            },
            Err(err) => Next::Done(Err(err)),
        }
    }
}

/// The three protocol versions that a session has.
#[derive(Debug, Copy, Clone, PartialEq, Eq, Structural)]
pub enum Version {
    /// The one in use.
    Negotiated,
    /// The highest one allowed.
    Max,
    /// The lowest one allowed.
    Min,
}

/// The question for a protocol version of a session.
#[derive(Debug)]
pub struct VersionQuery {
    pub ctx: SslContext,
    pub which: Version,
}

impl Operation for VersionQuery {
    type Output = Result<SslProtocol, Error>;

    type Model = Result<SslProtocol, Error>;

    open spec fn model(output: Result<SslProtocol, Error>) -> Result<SslProtocol, Error> {
        output
    }

    open spec fn wf(&self) -> bool {
        true
    }

    open spec fn awaiting(&self) -> CallView {
        match self.which {
            Version::Negotiated => CallOf::GetNegotiatedProtocolVersion { ctx: self.ctx.raw },
            Version::Max => CallOf::GetProtocolVersionMax { ctx: self.ctx.raw },
            Version::Min => CallOf::GetProtocolVersionMin { ctx: self.ctx.raw },
        }
    }

    open spec fn after(self, reply: Reply) -> Next<VersionQuery, Result<SslProtocol, Error>> {
        if reply.status == ERR_SEC_SUCCESS {
            Next::Done(Ok(SslProtocol::of_raw(reply.value->Code_0)))
        } else {
            Next::Done(Err(Error { code: reply.status }))
        }
    }

    fn call(&self) -> (call: Call) {
        match self.which {
            Version::Negotiated => CallOf::GetNegotiatedProtocolVersion { ctx: self.ctx.raw },
            Version::Max => CallOf::GetProtocolVersionMax { ctx: self.ctx.raw },
            Version::Min => CallOf::GetProtocolVersionMin { ctx: self.ctx.raw },
        }
    }

    fn resume(self, reply: Reply) -> (next: Next<VersionQuery, Result<SslProtocol, Error>>) {
        match cvt(reply.status) {
            Ok(()) => match reply.value {
                Value::Code(value) => Next::Done(Ok(SslProtocol::from_raw(value))),
                _ => Next::Ask(self),
            },
            Err(err) => Next::Done(Err(err)),
        }
    }
}

/// The question for the number of bytes that can be read at once.
#[derive(Debug)]
pub struct BufferedReadSizeQuery {
    pub ctx: SslContext,
}

impl Operation for BufferedReadSizeQuery {
    type Output = Result<usize, Error>;

    type Model = Result<usize, Error>;

    open spec fn model(output: Result<usize, Error>) -> Result<usize, Error> {
        output
    }

    open spec fn wf(&self) -> bool {
        true
    }

    open spec fn awaiting(&self) -> CallView {
        CallOf::GetBufferedReadSize { ctx: self.ctx.raw }
    }

    open spec fn after(self, reply: Reply) -> Next<BufferedReadSizeQuery, Result<usize, Error>> {
        if reply.status == ERR_SEC_SUCCESS {
            Next::Done(Ok(reply.value->Size_0))
        } else {
            Next::Done(Err(Error { code: reply.status }))
        }
    }

    fn call(&self) -> (call: Call) {
        CallOf::GetBufferedReadSize { ctx: self.ctx.raw }
    }

    fn resume(self, reply: Reply) -> (next: Next<BufferedReadSizeQuery, Result<usize, Error>>) {
        match cvt(reply.status) {
            Ok(()) => match reply.value {
                Value::Size(value) => Next::Done(Ok(value)),
                _ => Next::Ask(self),
            },
            Err(err) => Next::Done(Err(err)),
        }
    }
}

/// The question for an option of a session.
#[derive(Debug)]
pub struct OptionQuery {
    pub ctx: SslContext,
    pub option: i32,
}

impl Operation for OptionQuery {
    type Output = Result<bool, Error>;

    type Model = Result<bool, Error>;

    open spec fn model(output: Result<bool, Error>) -> Result<bool, Error> {
        output
    }

    open spec fn wf(&self) -> bool {
        true
    }

    open spec fn awaiting(&self) -> CallView {
        CallOf::GetSessionOption { ctx: self.ctx.raw, option: self.option }
    }

    open spec fn after(self, reply: Reply) -> Next<OptionQuery, Result<bool, Error>> {
        if reply.status == ERR_SEC_SUCCESS {
            Next::Done(Ok(reply.value->Flag_0 != 0))
        } else {
            Next::Done(Err(Error { code: reply.status }))
        }
    }

    fn call(&self) -> (call: Call) {
        CallOf::GetSessionOption { ctx: self.ctx.raw, option: self.option }
    }

    fn resume(self, reply: Reply) -> (next: Next<OptionQuery, Result<bool, Error>>) {
        match cvt(reply.status) {
            Ok(()) => match reply.value {
                Value::Flag(value) => Next::Done(Ok(value != 0)),
                _ => Next::Ask(self),
            },
            Err(err) => Next::Done(Err(err)),
        }
    }
}

/// The question for the trust object of the peer: the state of the session
/// first, for an idle session has no peer, then the object.
#[derive(Debug)]
pub struct PeerTrustQuery {
    pub ctx: SslContext,
    /// Whether the session is known to have left the idle state.
    pub started: bool,
}

impl Operation for PeerTrustQuery {
    type Output = Result<Option<SecTrust>, Error>;

    type Model = Result<Option<SecTrust>, Error>;

    open spec fn model(output: Result<Option<SecTrust>, Error>) -> Result<Option<SecTrust>, Error> {
        output
    }

    open spec fn wf(&self) -> bool {
        true
    }

    open spec fn awaiting(&self) -> CallView {
        if self.started {
            CallOf::CopyPeerTrust { ctx: self.ctx.raw }
        } else {
            CallOf::GetSessionState { ctx: self.ctx.raw }
        }
    }

    open spec fn after(self, reply: Reply) -> Next<PeerTrustQuery, Result<Option<SecTrust>, Error>> {
        if reply.status != ERR_SEC_SUCCESS {
            Next::Done(Err(Error { code: reply.status }))
        } else if self.started {
            match reply.value->OptionalRef_0 {
                Some(raw) => Next::Done(Ok(Some(SecTrust { raw }))),
                None => Next::Done(Ok(None)),
            }
        } else if SessionState::of_raw(reply.value->Code_0) == SessionState::IDLE {
            Next::Done(Err(Error { code: ERR_SEC_BAD_REQ }))
        } else {
            Next::Ask(PeerTrustQuery { started: true, ..self })
        }
    }

    fn call(&self) -> (call: Call) {
        if self.started {
            CallOf::CopyPeerTrust { ctx: self.ctx.raw }
        } else {
            CallOf::GetSessionState { ctx: self.ctx.raw }
        }
    }

    fn resume(self, reply: Reply) -> (next: Next<PeerTrustQuery, Result<Option<SecTrust>, Error>>) {
        if let Err(err) = cvt(reply.status) {
            return Next::Done(Err(err));
        }
        match reply.value {
            Value::OptionalRef(Some(raw)) if self.started => Next::Done(Ok(Some(SecTrust { raw }))),
            Value::OptionalRef(None) if self.started => Next::Done(Ok(None)),
            Value::Code(state) if !self.started => {
                if SessionState::from_raw(state) == SessionState::IDLE {
                    Next::Done(Err(Error::from_code(ERR_SEC_BAD_REQ)))
                } else {
                    Next::Ask(PeerTrustQuery { ctx: self.ctx, started: true })
                }
            },
            _ => Next::Ask(self),
        }
    }
}

/// The question for the protocols that were selected via ALPN.
#[derive(Debug)]
pub struct AlpnQuery {
    pub ctx: SslContext,
}

impl Operation for AlpnQuery {
    type Output = Result<Vec<String>, Error>;

    type Model = Result<Seq<Seq<char>>, Error>;

    open spec fn model(output: Result<Vec<String>, Error>) -> Result<Seq<Seq<char>>, Error> {
        match output {
            Ok(protocols) => Ok(names_view(protocols@)),
            Err(err) => Err(err),
        }
    }

    open spec fn wf(&self) -> bool {
        true
    }

    open spec fn awaiting(&self) -> CallView {
        CallOf::CopyAlpnProtocols { ctx: self.ctx.raw }
    }

    open spec fn after(self, reply: Reply) -> Next<AlpnQuery, Result<Seq<Seq<char>>, Error>> {
        if reply.value is Unavailable {
            Next::Done(Err(Error { code: ERR_SEC_UNIMPLEMENTED }))
        } else if reply.status != ERR_SEC_SUCCESS {
            Next::Done(Err(Error { code: reply.status }))
        } else {
            match reply.value->Names_0 {
                Some(names) => Next::Done(Ok(names_view(names@))),
                None => Next::Done(Ok(Seq::empty())),
            }
        }
    }

    fn call(&self) -> (call: Call) {
        CallOf::CopyAlpnProtocols { ctx: self.ctx.raw }
    }

    fn resume(self, reply: Reply) -> (next: Next<AlpnQuery, Result<Vec<String>, Error>>) {
        if let Err(err) = reply.check() {
            return Next::Done(Err(err));
        }
        match reply.value {
            Value::Names(Some(names)) => Next::Done(Ok(names)),
            Value::Names(None) => {
                let none: Vec<String> = Vec::new();
                assert(names_view(none@) =~= Seq::<Seq<char>>::empty());
                Next::Done(Ok(none))
            },
            _ => Next::Ask(self),
        }
    }
}

impl SslContext {
    /// Returns the platform's reference to the session.
    pub fn as_inner(&self) -> (raw: usize)
        ensures
            raw == self.raw,
    {
        self.raw
    }

    /// Creates a new `SslContext` for the specified side and type of SSL
    /// connection.
    pub fn new(side: SslProtocolSide, type_: SslConnectionType) -> (op: Creation)
        ensures
            op == (Creation { side, kind: type_ }),
    {
        Creation { side, kind: type_ }
    }

    /// Sets the fully qualified domain name of the peer.
    ///
    /// This will be used on the client side of a session to validate the
    /// common name field of the server's certificate. It has no effect if
    /// called on a server-side `SslContext`.
    ///
    /// It is *highly* recommended to call this method before starting the
    /// handshake process.
    pub fn set_peer_domain_name(&mut self, peer_name: &str) -> (op: Setting)
        ensures
            op.call@ == (CallView::SetPeerDomainName { ctx: old(self).raw, name: encode_utf8(peer_name@) }),
            *final(self) == *old(self),
    {
        let name = slice_to_vec(peer_name.as_bytes());
        Setting { call: CallOf::SetPeerDomainName { ctx: self.raw, name } }
    }

    /// Returns the peer domain name set by `set_peer_domain_name`.
    pub fn peer_domain_name(&self) -> (op: PeerDomainNameQuery)
        ensures
            op == (PeerDomainNameQuery { ctx: *self, len: None }),
    {
        PeerDomainNameQuery { ctx: *self, len: None }
    }

    /// Sets the certificate to be used by this side of the SSL session.
    ///
    /// This must be called before the handshake for server-side connections,
    /// and can be used on the client-side to specify a client certificate.
    ///
    /// The `identity` corresponds to the leaf certificate and private
    /// key, and the `certs` correspond to extra certificates in the chain.
    pub fn set_certificate(&mut self, identity: &SecIdentity, certs: &[SecCertificate]) -> (op:
        Setting)
        ensures
            op.call@ == (CallView::SetCertificate {
                ctx: old(self).raw,
                chain: seq![identity.raw] + certificate_refs(certs@),
            }),
            *final(self) == *old(self),
    {
        let mut chain: Vec<usize> = Vec::new();
        chain.push(identity.raw);
        push_certificate_refs(&mut chain, certs);
        Setting { call: CallOf::SetCertificate { ctx: self.raw, chain } }
    }

    /// Sets the peer ID of this session.
    ///
    /// A peer ID is an opaque sequence of bytes that will be used by Secure
    /// Transport to identify the peer of an SSL session. If the peer ID of
    /// this session matches that of a previously terminated session, the
    /// previous session can be resumed without requiring a full handshake.
    pub fn set_peer_id(&mut self, peer_id: &[u8]) -> (op: Setting)
        ensures
            op.call@ == (CallView::SetPeerId { ctx: old(self).raw, id: peer_id@ }),
            *final(self) == *old(self),
    {
        let id = slice_to_vec(peer_id);
        Setting { call: CallOf::SetPeerId { ctx: self.raw, id } }
    }

    /// Returns the peer ID of this session.
    pub fn peer_id(&self) -> (op: PeerIdQuery)
        ensures
            op == (PeerIdQuery { ctx: *self }),
    {
        PeerIdQuery { ctx: *self }
    }

    /// Returns the list of ciphers that are supported by Secure Transport.
    pub fn supported_ciphers(&self) -> (op: CipherListQuery)
        ensures
            op == (CipherListQuery { ctx: *self, list: CipherList::Supported, count: None }),
    {
        CipherListQuery { ctx: *self, list: CipherList::Supported, count: None }
    }

    /// Returns the list of ciphers that are eligible to be used for
    /// negotiation.
    pub fn enabled_ciphers(&self) -> (op: CipherListQuery)
        ensures
            op == (CipherListQuery { ctx: *self, list: CipherList::Enabled, count: None }),
    {
        CipherListQuery { ctx: *self, list: CipherList::Enabled, count: None }
    }

    /// Sets the list of ciphers that are eligible to be used for negotiation.
    pub fn set_enabled_ciphers(&mut self, ciphers: &[CipherSuite]) -> (op: Setting)
        ensures
            op.call@ == (CallView::SetEnabledCiphers { ctx: old(self).raw, ciphers: cipher_numbers(ciphers@) }),
            *final(self) == *old(self),
    {
        let ciphers = to_cipher_numbers(ciphers);
        Setting { call: CallOf::SetEnabledCiphers { ctx: self.raw, ciphers } }
    }

    /// Returns the cipher being used by the session.
    pub fn negotiated_cipher(&self) -> (op: NegotiatedCipherQuery)
        ensures
            op == (NegotiatedCipherQuery { ctx: *self }),
    {
        NegotiatedCipherQuery { ctx: *self }
    }

    /// Sets the requirements for client certificates.
    ///
    /// Should only be called on server-side sessions.
    pub fn set_client_side_authenticate(&mut self, auth: SslAuthenticate) -> (op: Setting)
        ensures
            op.call@ == (CallView::SetClientSideAuthenticate { ctx: old(self).raw, auth: auth.raw() }),
            *final(self) == *old(self),
    {
        Setting { call: CallOf::SetClientSideAuthenticate { ctx: self.raw, auth: auth.to_raw() } }
    }

    /// Returns the state of client certificate processing.
    pub fn client_certificate_state(&self) -> (op: ClientCertificateStateQuery)
        ensures
            op == (ClientCertificateStateQuery { ctx: *self }),
    {
        ClientCertificateStateQuery { ctx: *self }
    }

    /// Returns the `SecTrust` object corresponding to the peer.
    ///
    /// This can be used in conjunction with `set_break_on_server_auth` to
    /// validate certificates which do not have roots in the default set.
    pub fn peer_trust2(&self) -> (op: PeerTrustQuery)
        ensures
            op == (PeerTrustQuery { ctx: *self, started: false }),
    {
        PeerTrustQuery { ctx: *self, started: false }
    }

    /// Returns the `SecTrust` object corresponding to the peer, from what
    /// `peer_trust2` found, which must not be the absence of one.
    pub fn peer_trust(&self, found: Result<Option<SecTrust>, Error>) -> (trust: Result<
        SecTrust,
        Error,
    >)
        requires
            !(found matches Ok(None)),
        ensures
            found matches Ok(Some(object)) ==> trust == Ok::<SecTrust, Error>(object),
            found matches Err(err) ==> trust == Err::<SecTrust, Error>(err),
    {
        match found {
            Ok(Some(trust)) => Ok(trust),
            Ok(None) => Err(Error::from_code(ERR_SEC_BAD_REQ)),
            Err(e) => Err(e),
        }
    }

    /// Returns the state of the session.
    pub fn state(&self) -> (op: StateQuery)
        ensures
            op == (StateQuery { ctx: *self }),
    {
        StateQuery { ctx: *self }
    }

    /// Returns the protocol version being used by the session.
    pub fn negotiated_protocol_version(&self) -> (op: VersionQuery)
        ensures
            op == (VersionQuery { ctx: *self, which: Version::Negotiated }),
    {
        VersionQuery { ctx: *self, which: Version::Negotiated }
    }

    /// Returns the maximum protocol version allowed by the session.
    pub fn protocol_version_max(&self) -> (op: VersionQuery)
        ensures
            op == (VersionQuery { ctx: *self, which: Version::Max }),
    {
        VersionQuery { ctx: *self, which: Version::Max }
    }

    /// Sets the maximum protocol version allowed by the session.
    pub fn set_protocol_version_max(&mut self, max_version: SslProtocol) -> (op: Setting)
        ensures
            op.call@ == (CallView::SetProtocolVersionMax {
                ctx: old(self).raw,
                version: max_version.raw(),
            }),
            *final(self) == *old(self),
    {
        Setting {
            call: CallOf::SetProtocolVersionMax { ctx: self.raw, version: max_version.to_raw() },
        }
    }

    /// Returns the minimum protocol version allowed by the session.
    pub fn protocol_version_min(&self) -> (op: VersionQuery)
        ensures
            op == (VersionQuery { ctx: *self, which: Version::Min }),
    {
        VersionQuery { ctx: *self, which: Version::Min }
    }

    /// Sets the minimum protocol version allowed by the session.
    pub fn set_protocol_version_min(&mut self, min_version: SslProtocol) -> (op: Setting)
        ensures
            op.call@ == (CallView::SetProtocolVersionMin {
                ctx: old(self).raw,
                version: min_version.raw(),
            }),
            *final(self) == *old(self),
    {
        Setting {
            call: CallOf::SetProtocolVersionMin { ctx: self.raw, version: min_version.to_raw() },
        }
    }

    /// Returns the set of protocols selected via ALPN if it succeeded.
    pub fn alpn_protocols(&self) -> (op: AlpnQuery)
        ensures
            op == (AlpnQuery { ctx: *self }),
    {
        AlpnQuery { ctx: *self }
    }

    /// Configures the set of protocols use for ALPN.
    ///
    /// This is only used for client-side connections.
    pub fn set_alpn_protocols(&mut self, protocols: &[&str]) -> (op: Setting)
        ensures
            op.call@ == (CallView::SetAlpnProtocols {
                ctx: old(self).raw,
                protocols: protocols@.map_values(|protocol: &str| protocol@),
            }),
            *final(self) == *old(self),
    {
        let protocols = to_strings(protocols);
        Setting { call: CallOf::SetAlpnProtocols { ctx: self.raw, protocols } }
    }

    /// Sets whether a protocol is enabled or not.
    ///
    /// # Note
    ///
    /// On OSX this is a deprecated API in favor of `set_protocol_version_max` and
    /// `set_protocol_version_min`, although if you're working with OSX 10.8 or before you may have
    /// to use this API instead.
    pub fn set_protocol_version_enabled(&mut self, protocol: SslProtocol, enabled: bool) -> (op: Setting)
        ensures
            op.call@ == (CallView::SetProtocolVersionEnabled {
                ctx: old(self).raw,
                version: protocol.raw(),
                enabled: flag_of(enabled),
            }),
            *final(self) == *old(self),
    {
        Setting {
            call: CallOf::SetProtocolVersionEnabled {
                ctx: self.raw,
                version: protocol.to_raw(),
                enabled: flag(enabled),
            },
        }
    }

    /// Returns the number of bytes which can be read without triggering a
    /// `read` call in the underlying stream.
    pub fn buffered_read_size(&self) -> (op: BufferedReadSizeQuery)
        ensures
            op == (BufferedReadSizeQuery { ctx: *self }),
    {
        BufferedReadSizeQuery { ctx: *self }
    }

    /// If enabled, the handshake process will pause and return instead of
    /// automatically validating a server's certificate.
    pub fn set_break_on_server_auth(&mut self, value: bool) -> (op: Setting)
        ensures
            op.call@ == (CallView::SetSessionOption {
                ctx: old(self).raw,
                option: OPTION_BREAK_ON_SERVER_AUTH,
                value: flag_of(value),
            }),
            *final(self) == *old(self),
    {
        Setting {
            call: CallOf::SetSessionOption { ctx: self.raw, option: OPTION_BREAK_ON_SERVER_AUTH, value: flag(value) },
        }
    }

    /// If enabled, the handshake process will pause and return instead of
    /// automatically validating a server's certificate.
    pub fn break_on_server_auth(&self) -> (op: OptionQuery)
        ensures
            op == (OptionQuery { ctx: *self, option: OPTION_BREAK_ON_SERVER_AUTH }),
    {
        OptionQuery { ctx: *self, option: OPTION_BREAK_ON_SERVER_AUTH }
    }

    /// If enabled, the handshake process will pause and return after
    /// the server requests a certificate from the client.
    pub fn set_break_on_cert_requested(&mut self, value: bool) -> (op: Setting)
        ensures
            op.call@ == (CallView::SetSessionOption {
                ctx: old(self).raw,
                option: OPTION_BREAK_ON_CERT_REQUESTED,
                value: flag_of(value),
            }),
            *final(self) == *old(self),
    {
        Setting {
            call: CallOf::SetSessionOption { ctx: self.raw, option: OPTION_BREAK_ON_CERT_REQUESTED, value: flag(value) },
        }
    }

    /// If enabled, the handshake process will pause and return after
    /// the server requests a certificate from the client.
    pub fn break_on_cert_requested(&self) -> (op: OptionQuery)
        ensures
            op == (OptionQuery { ctx: *self, option: OPTION_BREAK_ON_CERT_REQUESTED }),
    {
        OptionQuery { ctx: *self, option: OPTION_BREAK_ON_CERT_REQUESTED }
    }

    /// If enabled, the handshake process will pause and return instead of
    /// automatically validating a client's certificate.
    pub fn set_break_on_client_auth(&mut self, value: bool) -> (op: Setting)
        ensures
            op.call@ == (CallView::SetSessionOption {
                ctx: old(self).raw,
                option: OPTION_BREAK_ON_CLIENT_AUTH,
                value: flag_of(value),
            }),
            *final(self) == *old(self),
    {
        Setting {
            call: CallOf::SetSessionOption { ctx: self.raw, option: OPTION_BREAK_ON_CLIENT_AUTH, value: flag(value) },
        }
    }

    /// If enabled, the handshake process will pause and return instead of
    /// automatically validating a client's certificate.
    pub fn break_on_client_auth(&self) -> (op: OptionQuery)
        ensures
            op == (OptionQuery { ctx: *self, option: OPTION_BREAK_ON_CLIENT_AUTH }),
    {
        OptionQuery { ctx: *self, option: OPTION_BREAK_ON_CLIENT_AUTH }
    }

    /// If enabled, TLS false start will be performed if an appropriate
    /// cipher suite is negotiated.
    pub fn set_false_start(&mut self, value: bool) -> (op: Setting)
        ensures
            op.call@ == (CallView::SetSessionOption {
                ctx: old(self).raw,
                option: OPTION_FALSE_START,
                value: flag_of(value),
            }),
            *final(self) == *old(self),
    {
        Setting {
            call: CallOf::SetSessionOption { ctx: self.raw, option: OPTION_FALSE_START, value: flag(value) },
        }
    }

    /// If enabled, TLS false start will be performed if an appropriate
    /// cipher suite is negotiated.
    pub fn false_start(&self) -> (op: OptionQuery)
        ensures
            op == (OptionQuery { ctx: *self, option: OPTION_FALSE_START }),
    {
        OptionQuery { ctx: *self, option: OPTION_FALSE_START }
    }

    /// If enabled, 1/n-1 record splitting will be enabled for TLS 1.0
    /// connections using block ciphers to mitigate the BEAST attack.
    pub fn set_send_one_byte_record(&mut self, value: bool) -> (op: Setting)
        ensures
            op.call@ == (CallView::SetSessionOption {
                ctx: old(self).raw,
                option: OPTION_SEND_ONE_BYTE_RECORD,
                value: flag_of(value),
            }),
            *final(self) == *old(self),
    {
        Setting {
            call: CallOf::SetSessionOption { ctx: self.raw, option: OPTION_SEND_ONE_BYTE_RECORD, value: flag(value) },
        }
    }

    /// If enabled, 1/n-1 record splitting will be enabled for TLS 1.0
    /// connections using block ciphers to mitigate the BEAST attack.
    pub fn send_one_byte_record(&self) -> (op: OptionQuery)
        ensures
            op == (OptionQuery { ctx: *self, option: OPTION_SEND_ONE_BYTE_RECORD }),
    {
        OptionQuery { ctx: *self, option: OPTION_SEND_ONE_BYTE_RECORD }
    }
}

/// Law: the domain name of the peer is read back as it was set. The bytes
/// that `set_peer_domain_name` hands to the platform are text, and if the
/// platform gives them back, `peer_domain_name` returns the name.
pub proof fn law_peer_domain_name_reads_back(ctx: SslContext, name: Seq<char>, replies: Seq<Reply>)
    requires
        replies.len() == 2,
        replies[0].status == ERR_SEC_SUCCESS,
        replies[0].value matches Value::Size(len) && len == encode_utf8(name).len(),
        replies[1].status == ERR_SEC_SUCCESS,
        replies[1].value matches Value::Bytes(bytes) && bytes@ == encode_utf8(name),
    ensures
        run(PeerDomainNameQuery { ctx, len: None }, replies) == Next::<
            PeerDomainNameQuery,
            Result<Seq<char>, Error>,
        >::Done(Ok(name)),
        forall|k: int|
            0 <= k < 2 ==> (#[trigger] replies[k]).answers(
                calls(PeerDomainNameQuery { ctx, len: None }, replies)[k],
            ),
{
    broadcast use {vstd::utf8::encode_utf8_valid_utf8, vstd::utf8::encode_utf8_decode_utf8};

    reveal_with_fuel(run, 3);
    reveal_with_fuel(calls, 3);
}

/// Law: the list of enabled cipher suites is read back as it was set. If the
/// platform gives back the numbers that `set_enabled_ciphers` hands to it,
/// `enabled_ciphers` returns the suites.
pub proof fn law_enabled_ciphers_read_back(
    ctx: SslContext,
    ciphers: Seq<CipherSuite>,
    replies: Seq<Reply>,
)
    requires
        replies.len() == 2,
        replies[0].status == ERR_SEC_SUCCESS,
        replies[0].value matches Value::Size(count) && count == ciphers.len(),
        replies[1].status == ERR_SEC_SUCCESS,
        replies[1].value matches Value::Ciphers(numbers) && numbers@ == cipher_numbers(ciphers),
    ensures
        run(CipherListQuery { ctx, list: CipherList::Enabled, count: None }, replies) == Next::<
            CipherListQuery,
            Result<Seq<CipherSuite>, Error>,
        >::Done(Ok(ciphers)),
{
    reveal_with_fuel(run, 3);
    assert(cipher_suites(cipher_numbers(ciphers)) =~= ciphers);
}

/// Law: the peer ID is read back as it was set. If the platform gives back
/// the bytes that `set_peer_id` hands to it, `peer_id` returns them; if it has
/// none, `peer_id` returns none.
pub proof fn law_peer_id_reads_back(ctx: SslContext, id: Seq<u8>, reply: Reply)
    requires
        reply.status == ERR_SEC_SUCCESS,
        reply.value matches Value::OptionalBytes(kept) && (kept matches Some(bytes) ==> bytes@
            == id),
    ensures
        (PeerIdQuery { ctx }).after(reply) matches Next::Done(Ok(read)) && (read is Some
            <==> reply.value->OptionalBytes_0 is Some) && (read matches Some(bytes) ==> bytes@
            == id),
{
}

/// Law: an option is read back as it was set. If the platform gives back the
/// flag that the setter hands to it, the getter returns the value.
pub proof fn law_option_reads_back(ctx: SslContext, option: i32, value: bool, reply: Reply)
    requires
        reply.status == ERR_SEC_SUCCESS,
        reply.value == Value::Flag(flag_of(value)),
    ensures
        (OptionQuery { ctx, option }).after(reply) == Next::<OptionQuery, Result<bool, Error>>::Done(
            Ok(value),
        ),
{
}

/// Law: a protocol version is read back as it was set, if the platform gives
/// back the number that the setter hands to it.
pub proof fn law_version_reads_back(
    ctx: SslContext,
    which: Version,
    version: SslProtocol,
    reply: Reply,
)
    requires
        version.wf(),
        reply.status == ERR_SEC_SUCCESS,
        reply.value == Value::Code(version.raw()),
    ensures
        (VersionQuery { ctx, which }).after(reply) == Next::<
            VersionQuery,
            Result<SslProtocol, Error>,
        >::Done(Ok(version)),
{
}

/// Law: an idle session has no peer. The trust object of the peer is an
/// error there, and the platform is not asked for it.
pub proof fn law_idle_session_has_no_peer(ctx: SslContext, replies: Seq<Reply>)
    requires
        replies.len() > 0,
        replies[0].status == ERR_SEC_SUCCESS,
        replies[0].value matches Value::Code(state) && SessionState::of_raw(state)
            == SessionState::IDLE,
    ensures
        run(PeerTrustQuery { ctx, started: false }, replies) == Next::<
            PeerTrustQuery,
            Result<Option<SecTrust>, Error>,
        >::Done(Err(Error { code: ERR_SEC_BAD_REQ })),
        calls(PeerTrustQuery { ctx, started: false }, replies) == seq![
            CallView::GetSessionState { ctx: ctx.raw },
        ],
{
}

} // verus!
