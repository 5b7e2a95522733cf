//! The plain values that sessions are configured with and report.
//!
//! Each enumeration names the values that the platform documents. Where the
//! platform may report a value of its own, `OTHER` carries it unchanged.
use vstd::prelude::*;

verus! {

/// Specifies a side of a TLS session.
#[allow(non_camel_case_types)]
#[derive(Debug, Copy, Clone, PartialEq, Eq, Structural)]
pub enum SslProtocolSide {
    /// The server side of the session.
    SERVER,
    /// The client side of the session.
    CLIENT,
}

impl SslProtocolSide {
    /// The platform's number for the side.
    pub open spec fn raw(self) -> i32 {
        match self {
            SslProtocolSide::SERVER => 0,
            SslProtocolSide::CLIENT => 1,
        }
    }

    /// Returns the platform's number for the side.
    pub fn to_raw(self) -> (raw: i32)
        ensures
            raw == self.raw(),
    {
        match self {
            SslProtocolSide::SERVER => 0,
            SslProtocolSide::CLIENT => 1,
        }
    }
}

/// Specifies the type of TLS session.
#[allow(non_camel_case_types)]
#[derive(Debug, Copy, Clone, PartialEq, Eq, Structural)]
pub enum SslConnectionType {
    /// A traditional TLS stream.
    STREAM,
    /// A DTLS session.
    DATAGRAM,
}

impl SslConnectionType {
    /// The platform's number for the type.
    pub open spec fn raw(self) -> i32 {
        match self {
            SslConnectionType::STREAM => 0,
            SslConnectionType::DATAGRAM => 1,
        }
    }

    /// Returns the platform's number for the type.
    pub fn to_raw(self) -> (raw: i32)
        ensures
            raw == self.raw(),
    {
        match self {
            SslConnectionType::STREAM => 0,
            SslConnectionType::DATAGRAM => 1,
        }
    }
}

/// Specifies the state of a TLS session.
#[allow(non_camel_case_types)]
#[derive(Debug, Copy, Clone, PartialEq, Eq, Structural)]
pub enum SessionState {
    /// The session has not yet started.
    IDLE,
    /// The session is in the handshake process.
    HANDSHAKE,
    /// The session is connected.
    CONNECTED,
    /// The session has been terminated.
    CLOSED,
    /// The session has been aborted due to an error.
    ABORTED,
    /// A state that has no name here.
    OTHER(i32),
}

impl SessionState {
    /// The state that a number of the platform stands for.
    pub open spec fn of_raw(raw: i32) -> SessionState {
        if raw == 0 {
            SessionState::IDLE
        } else if raw == 1 {
            SessionState::HANDSHAKE
        } else if raw == 2 {
            SessionState::CONNECTED
        } else if raw == 3 {
            SessionState::CLOSED
        } else if raw == 4 {
            SessionState::ABORTED
        } else {
            SessionState::OTHER(raw)
        }
    }

    /// Reads a number of the platform.
    pub fn from_raw(raw: i32) -> (state: SessionState)
        ensures
            state == SessionState::of_raw(raw),
    {
        match raw {
            0 => SessionState::IDLE,
            1 => SessionState::HANDSHAKE,
            2 => SessionState::CONNECTED,
            3 => SessionState::CLOSED,
            4 => SessionState::ABORTED,
            other => SessionState::OTHER(other),
        }
    }
}

/// Specifies a server's requirement for client certificates.
#[allow(non_camel_case_types)]
#[derive(Debug, Copy, Clone, PartialEq, Eq, Structural)]
pub enum SslAuthenticate {
    /// Do not request a client certificate.
    NEVER,
    /// Require a client certificate.
    ALWAYS,
    /// Request but do not require a client certificate.
    TRY,
}

impl SslAuthenticate {
    /// The platform's number for the requirement.
    pub open spec fn raw(self) -> i32 {
        match self {
            SslAuthenticate::NEVER => 0,
            SslAuthenticate::ALWAYS => 1,
            SslAuthenticate::TRY => 2,
        }
    }

    /// Returns the platform's number for the requirement.
    pub fn to_raw(self) -> (raw: i32)
        ensures
            raw == self.raw(),
    {
        match self {
            SslAuthenticate::NEVER => 0,
            SslAuthenticate::ALWAYS => 1,
            SslAuthenticate::TRY => 2,
        }
    }
}

/// Specifies the state of client certificate processing.
#[allow(non_camel_case_types)]
#[derive(Debug, Copy, Clone, PartialEq, Eq, Structural)]
pub enum SslClientCertificateState {
    /// A client certificate has not been requested or sent.
    NONE,
    /// A client certificate has been requested but not received.
    REQUESTED,
    /// A client certificate has been received and successfully validated.
    SENT,
    /// A client certificate has been received but has failed to validate.
    REJECTED,
    /// A state that has no name here.
    OTHER(i32),
}

impl SslClientCertificateState {
    /// The state that a number of the platform stands for.
    pub open spec fn of_raw(raw: i32) -> SslClientCertificateState {
        if raw == 0 {
            SslClientCertificateState::NONE
        } else if raw == 1 {
            SslClientCertificateState::REQUESTED
        } else if raw == 2 {
            SslClientCertificateState::SENT
        } else if raw == 3 {
            SslClientCertificateState::REJECTED
        } else {
            SslClientCertificateState::OTHER(raw)
        }
    }

    /// Reads a number of the platform.
    pub fn from_raw(raw: i32) -> (state: SslClientCertificateState)
        ensures
            state == SslClientCertificateState::of_raw(raw),
    {
        match raw {
            0 => SslClientCertificateState::NONE,
            1 => SslClientCertificateState::REQUESTED,
            2 => SslClientCertificateState::SENT,
            3 => SslClientCertificateState::REJECTED,
            other => SslClientCertificateState::OTHER(other),
        }
    }
}

/// Specifies protocol versions.
#[allow(non_camel_case_types)]
#[derive(Debug, Copy, Clone, PartialEq, Eq, Structural)]
pub enum SslProtocol {
    /// No protocol has been or should be negotiated or specified; use the default.
    UNKNOWN,
    /// The SSL 3.0 protocol is preferred, though SSL 2.0 may be used if the peer does not support
    /// SSL 3.0.
    SSL3,
    /// The TLS 1.0 protocol is preferred, though lower versions may be used
    /// if the peer does not support TLS 1.0.
    TLS1,
    /// The TLS 1.1 protocol is preferred, though lower versions may be used
    /// if the peer does not support TLS 1.1.
    TLS11,
    /// The TLS 1.2 protocol is preferred, though lower versions may be used
    /// if the peer does not support TLS 1.2.
    TLS12,
    /// Only the SSL 2.0 protocol is accepted.
    SSL2,
    /// The DTLSv1 protocol is preferred.
    DTLS1,
    /// Only the SSL 3.0 protocol is accepted.
    SSL3_ONLY,
    /// Only the TLS 1.0 protocol is accepted.
    TLS1_ONLY,
    /// All supported TLS/SSL versions are accepted.
    ALL,
    /// A version that has no name here.
    OTHER(i32),
}

impl SslProtocol {
    /// Whether a version that has a name goes by its name.
    pub open spec fn wf(self) -> bool {
        self matches SslProtocol::OTHER(raw) ==> !(0 <= raw <= 9)
    }

    /// The platform's number for the version.
    pub open spec fn raw(self) -> i32 {
        match self {
            SslProtocol::UNKNOWN => 0,
            SslProtocol::SSL2 => 1,
            SslProtocol::SSL3 => 2,
            SslProtocol::SSL3_ONLY => 3,
            SslProtocol::TLS1 => 4,
            SslProtocol::TLS1_ONLY => 5,
            SslProtocol::ALL => 6,
            SslProtocol::TLS11 => 7,
            SslProtocol::TLS12 => 8,
            SslProtocol::DTLS1 => 9,
            SslProtocol::OTHER(raw) => raw,
        }
    }

    /// The version that a number of the platform stands for.
    pub open spec fn of_raw(raw: i32) -> SslProtocol {
        if raw == 0 {
            SslProtocol::UNKNOWN
        } else if raw == 1 {
            SslProtocol::SSL2
        } else if raw == 2 {
            SslProtocol::SSL3
        } else if raw == 3 {
            SslProtocol::SSL3_ONLY
        } else if raw == 4 {
            SslProtocol::TLS1
        } else if raw == 5 {
            SslProtocol::TLS1_ONLY
        } else if raw == 6 {
            SslProtocol::ALL
        } else if raw == 7 {
            SslProtocol::TLS11
        } else if raw == 8 {
            SslProtocol::TLS12
        } else if raw == 9 {
            SslProtocol::DTLS1
        } else {
            SslProtocol::OTHER(raw)
        }
    }

    /// Returns the platform's number for the version.
    pub fn to_raw(self) -> (raw: i32)
        ensures
            raw == self.raw(),
    {
        match self {
            SslProtocol::UNKNOWN => 0,
            SslProtocol::SSL2 => 1,
            SslProtocol::SSL3 => 2,
            SslProtocol::SSL3_ONLY => 3,
            SslProtocol::TLS1 => 4,
            SslProtocol::TLS1_ONLY => 5,
            SslProtocol::ALL => 6,
            SslProtocol::TLS11 => 7,
            SslProtocol::TLS12 => 8,
            SslProtocol::DTLS1 => 9,
            SslProtocol::OTHER(raw) => raw,
        }
    }

    /// Reads a number of the platform.
    pub fn from_raw(raw: i32) -> (version: SslProtocol)
        ensures
            version == SslProtocol::of_raw(raw),
            version.wf(),
    {
        match raw {
            0 => SslProtocol::UNKNOWN,
            1 => SslProtocol::SSL2,
            2 => SslProtocol::SSL3,
            3 => SslProtocol::SSL3_ONLY,
            4 => SslProtocol::TLS1,
            5 => SslProtocol::TLS1_ONLY,
            6 => SslProtocol::ALL,
            7 => SslProtocol::TLS11,
            8 => SslProtocol::TLS12,
            9 => SslProtocol::DTLS1,
            other => SslProtocol::OTHER(other),
        }
    }
}

/// The result of a trust evaluation.
#[allow(non_camel_case_types)]
#[derive(Debug, Copy, Clone, PartialEq, Eq, Structural)]
pub enum TrustResult {
    /// An invalid setting or result.
    INVALID,
    /// You may proceed.
    PROCEED,
    /// Indicates a denial by the user, do not proceed.
    DENY,
    /// The certificate is implicitly trusted.
    UNSPECIFIED,
    /// Indicates a trust policy failure that the user can override.
    RECOVERABLE_TRUST_FAILURE,
    /// Indicates a trust policy failure that the user cannot override.
    FATAL_TRUST_FAILURE,
    /// An error not related to trust validation.
    OTHER_ERROR,
    /// A result that has no name here.
    OTHER(u32),
}

impl TrustResult {
    /// The result that a number of the platform stands for.
    pub open spec fn of_raw(raw: u32) -> TrustResult {
        if raw == 0 {
            TrustResult::INVALID
        } else if raw == 1 {
            TrustResult::PROCEED
        } else if raw == 3 {
            TrustResult::DENY
        } else if raw == 4 {
            TrustResult::UNSPECIFIED
        } else if raw == 5 {
            TrustResult::RECOVERABLE_TRUST_FAILURE
        } else if raw == 6 {
            TrustResult::FATAL_TRUST_FAILURE
        } else if raw == 7 {
            TrustResult::OTHER_ERROR
        } else {
            TrustResult::OTHER(raw)
        }
    }

    /// Reads a number of the platform.
    pub fn from_raw(raw: u32) -> (result: TrustResult)
        ensures
            result == TrustResult::of_raw(raw),
    {
        match raw {
            0 => TrustResult::INVALID,
            1 => TrustResult::PROCEED,
            3 => TrustResult::DENY,
            4 => TrustResult::UNSPECIFIED,
            5 => TrustResult::RECOVERABLE_TRUST_FAILURE,
            6 => TrustResult::FATAL_TRUST_FAILURE,
            7 => TrustResult::OTHER_ERROR,
            other => TrustResult::OTHER(other),
        }
    }
}

/// A cipher suite, by its number in the TLS registry.
#[derive(Debug, Copy, Clone, PartialEq, Eq, Structural)]
pub struct CipherSuite {
    pub raw: u32,
}

impl CipherSuite {
    /// The suite with a number.
    pub fn from_raw(raw: u32) -> (suite: CipherSuite)
        ensures
            suite == (CipherSuite { raw }),
    {
        CipherSuite { raw }
    }

    /// The number of the suite.
    pub fn to_raw(&self) -> (raw: u32)
        ensures
            raw == self.raw,
    {
        self.raw
    }
}

/// A certificate, by the platform's reference to it. Whoever performs the
/// platform calls keeps the object alive.
#[derive(Debug, Copy, Clone, PartialEq, Eq, Structural)]
pub struct SecCertificate {
    pub raw: usize,
}

/// A certificate together with its private key, by the platform's reference
/// to it.
#[derive(Debug, Copy, Clone, PartialEq, Eq, Structural)]
pub struct SecIdentity {
    pub raw: usize,
}

/// The platform's record of how a peer's certificate is to be judged, by the
/// platform's reference to it.
#[derive(Debug, Copy, Clone, PartialEq, Eq, Structural)]
pub struct SecTrust {
    pub raw: usize,
}

/// A rule by which certificates are judged, by the platform's reference to
/// it.
#[derive(Debug, Copy, Clone, PartialEq, Eq, Structural)]
pub struct SecPolicy {
    pub raw: usize,
}

/// Law: the platform's numbers for protocol versions and the versions here
/// stand for each other. Every number is read as a version that has it, and
/// every version comes back from its number.
pub proof fn law_protocol_numbers(raw: i32, version: SslProtocol)
    requires
        version.wf(),
    ensures
        SslProtocol::of_raw(raw).wf(),
        SslProtocol::of_raw(raw).raw() == raw,
        SslProtocol::of_raw(version.raw()) == version,
{
}

} // verus!
