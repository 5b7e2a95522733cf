//! The calls that the platform is asked to make, and its replies.
//!
//! Nothing here touches the platform. An operation of the library says which
//! call comes next; whoever runs the operation makes the call and hands the
//! reply back.
use crate::base::{ERR_SEC_SUCCESS, ERR_SEC_UNIMPLEMENTED, Error, OSStatus, converted, cvt};
use vstd::prelude::*;
use vstd::utf8::valid_utf8;

verus! {

/// A call of the platform with its arguments. The parameters are the types
/// of the byte strings, lists of references, lists of cipher suites, lists of
/// names and optional host names in it.
///
/// Objects are given by reference: `ctx` is a session, `trust` is what
/// `SSLCopyPeerTrust` returned.
#[derive(Debug)]
pub enum CallOf<B, R, C, N, H> {
    /// `SSLCreateContext`.
    CreateContext { side: i32, kind: i32 },
    /// `SSLSetPeerDomainName`, with the bytes of the name.
    SetPeerDomainName { ctx: usize, name: B },
    /// `SSLGetPeerDomainNameLength`.
    GetPeerDomainNameLength { ctx: usize },
    /// `SSLGetPeerDomainName`, into a buffer of `len` zero bytes.
    GetPeerDomainName { ctx: usize, len: usize },
    /// `SSLSetCertificate`, with the references of the chain.
    SetCertificate { ctx: usize, chain: R },
    /// `SSLSetPeerID`.
    SetPeerId { ctx: usize, id: B },
    /// `SSLGetPeerID`.
    GetPeerId { ctx: usize },
    /// `SSLGetNumberSupportedCiphers`.
    GetNumberSupportedCiphers { ctx: usize },
    /// `SSLGetSupportedCiphers`, into a buffer of `count` zeros.
    GetSupportedCiphers { ctx: usize, count: usize },
    /// `SSLGetNumberEnabledCiphers`.
    GetNumberEnabledCiphers { ctx: usize },
    /// `SSLGetEnabledCiphers`, into a buffer of `count` zeros.
    GetEnabledCiphers { ctx: usize, count: usize },
    /// `SSLSetEnabledCiphers`.
    SetEnabledCiphers { ctx: usize, ciphers: C },
    /// `SSLGetNegotiatedCipher`.
    GetNegotiatedCipher { ctx: usize },
    /// `SSLSetClientSideAuthenticate`.
    SetClientSideAuthenticate { ctx: usize, auth: i32 },
    /// `SSLGetClientCertificateState`.
    GetClientCertificateState { ctx: usize },
    /// `SSLCopyPeerTrust`.
    CopyPeerTrust { ctx: usize },
    /// `SSLGetSessionState`.
    GetSessionState { ctx: usize },
    /// `SSLGetNegotiatedProtocolVersion`.
    GetNegotiatedProtocolVersion { ctx: usize },
    /// `SSLGetProtocolVersionMax`.
    GetProtocolVersionMax { ctx: usize },
    /// `SSLSetProtocolVersionMax`.
    SetProtocolVersionMax { ctx: usize, version: i32 },
    /// `SSLGetProtocolVersionMin`.
    GetProtocolVersionMin { ctx: usize },
    /// `SSLSetProtocolVersionMin`.
    SetProtocolVersionMin { ctx: usize, version: i32 },
    /// `SSLCopyALPNProtocols`, where the system has it.
    CopyAlpnProtocols { ctx: usize },
    /// `SSLSetALPNProtocols`, where the system has it.
    SetAlpnProtocols { ctx: usize, protocols: N },
    /// `SSLSetProtocolVersionEnabled`.
    SetProtocolVersionEnabled { ctx: usize, version: i32, enabled: u8 },
    /// `SSLGetBufferedReadSize`.
    GetBufferedReadSize { ctx: usize },
    /// `SSLSetSessionOption`.
    SetSessionOption { ctx: usize, option: i32, value: u8 },
    /// `SSLGetSessionOption`.
    GetSessionOption { ctx: usize, option: i32 },
    /// `SSLSetIOFuncs`, with the functions that move bytes over the stream.
    SetIoFuncs { ctx: usize },
    /// `SSLSetConnection`, with the connection of the operation that asks.
    SetConnection { ctx: usize },
    /// `SSLHandshake`.
    Handshake { ctx: usize },
    /// `SSLClose`.
    Close { ctx: usize },
    /// `SSLRead`, of at most `len` bytes into the reader's buffer.
    Read { ctx: usize, len: usize },
    /// `SSLWrite`, of the `len` bytes of the writer's buffer.
    Write { ctx: usize, len: usize },
    /// `SecTrustSetAnchorCertificates`.
    SetAnchorCertificates { trust: usize, certs: R },
    /// `SecTrustSetAnchorCertificatesOnly`.
    SetAnchorCertificatesOnly { trust: usize, only: bool },
    /// `SecPolicyCreateSSL`, for the given side and host name.
    CreateSslPolicy { side: i32, hostname: H },
    /// `SecTrustSetPolicies`, with one policy.
    SetPolicies { trust: usize, policy: usize },
    /// `SecTrustEvaluate`.
    Evaluate { trust: usize },
}

/// A call of the platform, ready to be made.
pub type Call = CallOf<Vec<u8>, Vec<usize>, Vec<u32>, Vec<String>, Option<String>>;

/// A call of the platform as a mathematical value.
pub type CallView = CallOf<Seq<u8>, Seq<usize>, Seq<u32>, Seq<Seq<char>>, Option<Seq<char>>>;

/// The names in a list of strings.
pub open spec fn names_view(names: Seq<String>) -> Seq<Seq<char>> {
    names.map_values(|name: String| name@)
}

/// The characters of an optional string.
pub open spec fn name_view(name: Option<String>) -> Option<Seq<char>> {
    match name {
        Some(text) => Some(text@),
        None => None,
    }
}

impl View for CallOf<Vec<u8>, Vec<usize>, Vec<u32>, Vec<String>, Option<String>> {
    type V = CallView;

    open spec fn view(&self) -> CallView {
        match *self {
            CallOf::CreateContext { side, kind } => CallOf::CreateContext { side, kind },
            CallOf::SetPeerDomainName { ctx, name } => CallOf::SetPeerDomainName { ctx, name: name@ },
            CallOf::GetPeerDomainNameLength { ctx } => CallOf::GetPeerDomainNameLength { ctx },
            CallOf::GetPeerDomainName { ctx, len } => CallOf::GetPeerDomainName { ctx, len },
            CallOf::SetCertificate { ctx, chain } => CallOf::SetCertificate { ctx, chain: chain@ },
            CallOf::SetPeerId { ctx, id } => CallOf::SetPeerId { ctx, id: id@ },
            CallOf::GetPeerId { ctx } => CallOf::GetPeerId { ctx },
            CallOf::GetNumberSupportedCiphers { ctx } => CallOf::GetNumberSupportedCiphers { ctx },
            CallOf::GetSupportedCiphers { ctx, count } => CallOf::GetSupportedCiphers { ctx, count },
            CallOf::GetNumberEnabledCiphers { ctx } => CallOf::GetNumberEnabledCiphers { ctx },
            CallOf::GetEnabledCiphers { ctx, count } => CallOf::GetEnabledCiphers { ctx, count },
            CallOf::SetEnabledCiphers { ctx, ciphers } => CallOf::SetEnabledCiphers { ctx, ciphers: ciphers@ },
            CallOf::GetNegotiatedCipher { ctx } => CallOf::GetNegotiatedCipher { ctx },
            CallOf::SetClientSideAuthenticate { ctx, auth } => CallOf::SetClientSideAuthenticate { ctx, auth },
            CallOf::GetClientCertificateState { ctx } => CallOf::GetClientCertificateState { ctx },
            CallOf::CopyPeerTrust { ctx } => CallOf::CopyPeerTrust { ctx },
            CallOf::GetSessionState { ctx } => CallOf::GetSessionState { ctx },
            CallOf::GetNegotiatedProtocolVersion { ctx } => CallOf::GetNegotiatedProtocolVersion { ctx },
            CallOf::GetProtocolVersionMax { ctx } => CallOf::GetProtocolVersionMax { ctx },
            CallOf::SetProtocolVersionMax { ctx, version } => CallOf::SetProtocolVersionMax { ctx, version },
            CallOf::GetProtocolVersionMin { ctx } => CallOf::GetProtocolVersionMin { ctx },
            CallOf::SetProtocolVersionMin { ctx, version } => CallOf::SetProtocolVersionMin { ctx, version },
            CallOf::CopyAlpnProtocols { ctx } => CallOf::CopyAlpnProtocols { ctx },
            CallOf::SetAlpnProtocols { ctx, protocols } => CallOf::SetAlpnProtocols { ctx, protocols: names_view(protocols@) },
            CallOf::SetProtocolVersionEnabled { ctx, version, enabled } => CallOf::SetProtocolVersionEnabled { ctx, version, enabled },
            CallOf::GetBufferedReadSize { ctx } => CallOf::GetBufferedReadSize { ctx },
            CallOf::SetSessionOption { ctx, option, value } => CallOf::SetSessionOption { ctx, option, value },
            CallOf::GetSessionOption { ctx, option } => CallOf::GetSessionOption { ctx, option },
            CallOf::SetIoFuncs { ctx } => CallOf::SetIoFuncs { ctx },
            CallOf::SetConnection { ctx } => CallOf::SetConnection { ctx },
            CallOf::Handshake { ctx } => CallOf::Handshake { ctx },
            CallOf::Close { ctx } => CallOf::Close { ctx },
            CallOf::Read { ctx, len } => CallOf::Read { ctx, len },
            CallOf::Write { ctx, len } => CallOf::Write { ctx, len },
            CallOf::SetAnchorCertificates { trust, certs } => CallOf::SetAnchorCertificates { trust, certs: certs@ },
            CallOf::SetAnchorCertificatesOnly { trust, only } => CallOf::SetAnchorCertificatesOnly { trust, only },
            CallOf::CreateSslPolicy { side, hostname } => CallOf::CreateSslPolicy { side, hostname: name_view(hostname) },
            CallOf::SetPolicies { trust, policy } => CallOf::SetPolicies { trust, policy },
            CallOf::Evaluate { trust } => CallOf::Evaluate { trust },
        }
    }
}

impl Clone for CallOf<Vec<u8>, Vec<usize>, Vec<u32>, Vec<String>, Option<String>> {
    fn clone(&self) -> (call: Call)
        ensures
            call@ == self@,
    {
        match self {
            CallOf::CreateContext { side, kind } => CallOf::CreateContext { side: *side, kind: *kind },
            CallOf::SetPeerDomainName { ctx, name } => CallOf::SetPeerDomainName { ctx: *ctx, name: name.clone() },
            CallOf::GetPeerDomainNameLength { ctx } => CallOf::GetPeerDomainNameLength { ctx: *ctx },
            CallOf::GetPeerDomainName { ctx, len } => CallOf::GetPeerDomainName { ctx: *ctx, len: *len },
            CallOf::SetCertificate { ctx, chain } => CallOf::SetCertificate { ctx: *ctx, chain: chain.clone() },
            CallOf::SetPeerId { ctx, id } => CallOf::SetPeerId { ctx: *ctx, id: id.clone() },
            CallOf::GetPeerId { ctx } => CallOf::GetPeerId { ctx: *ctx },
            CallOf::GetNumberSupportedCiphers { ctx } => CallOf::GetNumberSupportedCiphers { ctx: *ctx },
            CallOf::GetSupportedCiphers { ctx, count } => CallOf::GetSupportedCiphers { ctx: *ctx, count: *count },
            CallOf::GetNumberEnabledCiphers { ctx } => CallOf::GetNumberEnabledCiphers { ctx: *ctx },
            CallOf::GetEnabledCiphers { ctx, count } => CallOf::GetEnabledCiphers { ctx: *ctx, count: *count },
            CallOf::SetEnabledCiphers { ctx, ciphers } => CallOf::SetEnabledCiphers { ctx: *ctx, ciphers: ciphers.clone() },
            CallOf::GetNegotiatedCipher { ctx } => CallOf::GetNegotiatedCipher { ctx: *ctx },
            CallOf::SetClientSideAuthenticate { ctx, auth } => CallOf::SetClientSideAuthenticate { ctx: *ctx, auth: *auth },
            CallOf::GetClientCertificateState { ctx } => CallOf::GetClientCertificateState { ctx: *ctx },
            CallOf::CopyPeerTrust { ctx } => CallOf::CopyPeerTrust { ctx: *ctx },
            CallOf::GetSessionState { ctx } => CallOf::GetSessionState { ctx: *ctx },
            CallOf::GetNegotiatedProtocolVersion { ctx } => CallOf::GetNegotiatedProtocolVersion { ctx: *ctx },
            CallOf::GetProtocolVersionMax { ctx } => CallOf::GetProtocolVersionMax { ctx: *ctx },
            CallOf::SetProtocolVersionMax { ctx, version } => CallOf::SetProtocolVersionMax { ctx: *ctx, version: *version },
            CallOf::GetProtocolVersionMin { ctx } => CallOf::GetProtocolVersionMin { ctx: *ctx },
            CallOf::SetProtocolVersionMin { ctx, version } => CallOf::SetProtocolVersionMin { ctx: *ctx, version: *version },
            CallOf::CopyAlpnProtocols { ctx } => CallOf::CopyAlpnProtocols { ctx: *ctx },
            CallOf::SetAlpnProtocols { ctx, protocols } => CallOf::SetAlpnProtocols { ctx: *ctx, protocols: protocols.clone() },
            CallOf::SetProtocolVersionEnabled { ctx, version, enabled } => CallOf::SetProtocolVersionEnabled { ctx: *ctx, version: *version, enabled: *enabled },
            CallOf::GetBufferedReadSize { ctx } => CallOf::GetBufferedReadSize { ctx: *ctx },
            CallOf::SetSessionOption { ctx, option, value } => CallOf::SetSessionOption { ctx: *ctx, option: *option, value: *value },
            CallOf::GetSessionOption { ctx, option } => CallOf::GetSessionOption { ctx: *ctx, option: *option },
            CallOf::SetIoFuncs { ctx } => CallOf::SetIoFuncs { ctx: *ctx },
            CallOf::SetConnection { ctx } => CallOf::SetConnection { ctx: *ctx },
            CallOf::Handshake { ctx } => CallOf::Handshake { ctx: *ctx },
            CallOf::Close { ctx } => CallOf::Close { ctx: *ctx },
            CallOf::Read { ctx, len } => CallOf::Read { ctx: *ctx, len: *len },
            CallOf::Write { ctx, len } => CallOf::Write { ctx: *ctx, len: *len },
            CallOf::SetAnchorCertificates { trust, certs } => CallOf::SetAnchorCertificates { trust: *trust, certs: certs.clone() },
            CallOf::SetAnchorCertificatesOnly { trust, only } => CallOf::SetAnchorCertificatesOnly { trust: *trust, only: *only },
            CallOf::CreateSslPolicy { side, hostname } => CallOf::CreateSslPolicy { side: *side, hostname: hostname.clone() },
            CallOf::SetPolicies { trust, policy } => CallOf::SetPolicies { trust: *trust, policy: *policy },
            CallOf::Evaluate { trust } => CallOf::Evaluate { trust: *trust },
        }
    }
}

/// What a platform call leaves behind besides its status.
#[derive(Debug)]
pub enum Value {
    /// Nothing.
    Nothing,
    /// The function does not exist on this system, and no call was made.
    Unavailable,
    /// A reference to a new object.
    Ref(usize),
    /// A reference to an object, or none.
    OptionalRef(Option<usize>),
    /// A length, a count, or a number of bytes.
    Size(usize),
    /// A number that names a state or a version.
    Code(i32),
    /// The number of a cipher suite.
    Cipher(u32),
    /// The result of a trust evaluation.
    Trust(u32),
    /// A flag, set unless it is zero.
    Flag(u8),
    /// A buffer of bytes.
    Bytes(Vec<u8>),
    /// A byte string, or none.
    OptionalBytes(Option<Vec<u8>>),
    /// A buffer of cipher suites.
    Ciphers(Vec<u32>),
    /// A list of names, or none.
    Names(Option<Vec<String>>),
}

/// The platform's reply to a call.
#[derive(Debug)]
pub struct Reply {
    /// The status that the call returned. Calls that return an object
    /// instead have no status, and nothing reads it.
    pub status: OSStatus,
    /// What the call left behind.
    pub value: Value,
}

impl Reply {
    /// Whether this can be the reply to a call: the value has the form that
    /// the call leaves behind. After a failed query nothing is said of the
    /// value, for nothing reads it. A filled buffer has the size that was
    /// asked for, and a peer's domain name is text. Only the functions for
    /// ALPN may be missing.
    pub open spec fn answers(self, call: CallView) -> bool {
        let success = self.status == ERR_SEC_SUCCESS;
        &&& self.value is Unavailable ==> call is CopyAlpnProtocols || call is SetAlpnProtocols
        &&& match call {
            CallOf::CreateContext { .. } | CallOf::CreateSslPolicy { .. } => self.value is Ref,
            CallOf::Read { .. } | CallOf::Write { .. } => self.value is Size,
            CallOf::GetPeerDomainNameLength { .. }
            | CallOf::GetNumberSupportedCiphers { .. }
            | CallOf::GetNumberEnabledCiphers { .. }
            | CallOf::GetBufferedReadSize { .. } => success ==> self.value is Size,
            CallOf::GetPeerDomainName { ctx, len } => success ==> (self.value matches Value::Bytes(
                bytes,
            ) && bytes@.len() == len && valid_utf8(bytes@)),
            CallOf::GetSupportedCiphers { ctx, count }
            | CallOf::GetEnabledCiphers { ctx, count } => success ==> (
            self.value matches Value::Ciphers(ciphers) && ciphers@.len() == count),
            CallOf::GetPeerId { .. } => success ==> self.value is OptionalBytes,
            CallOf::GetNegotiatedCipher { .. } => success ==> self.value is Cipher,
            CallOf::GetClientCertificateState { .. }
            | CallOf::GetSessionState { .. }
            | CallOf::GetNegotiatedProtocolVersion { .. }
            | CallOf::GetProtocolVersionMax { .. }
            | CallOf::GetProtocolVersionMin { .. } => success ==> self.value is Code,
            CallOf::CopyPeerTrust { .. } => success ==> self.value is OptionalRef,
            CallOf::CopyAlpnProtocols { .. } => self.value is Unavailable || (success
                ==> self.value is Names),
            CallOf::SetAlpnProtocols { .. } => self.value is Unavailable || self.value is Nothing,
            CallOf::GetSessionOption { .. } => success ==> self.value is Flag,
            CallOf::Evaluate { .. } => success ==> self.value is Trust,
            _ => self.value is Nothing,
        }
    }

    /// What the reply means for a call that only sets something.
    pub open spec fn outcome(self) -> Result<(), Error> {
        if self.value is Unavailable {
            Err(Error { code: ERR_SEC_UNIMPLEMENTED })
        } else {
            converted(self.status)
        }
    }

    /// Reads the reply to a call that only sets something: success is `Ok`,
    /// a missing function is the error that says so, and every other status
    /// is the error with that code.
    pub fn check(&self) -> (result: Result<(), Error>)
        ensures
            result == self.outcome(),
    {
        match self.value {
            Value::Unavailable => Err(Error::from_code(ERR_SEC_UNIMPLEMENTED)),
            _ => cvt(self.status),
        }
    }
}

} // verus!
