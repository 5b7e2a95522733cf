//! Status codes of the platform, and the error made of one.
use vstd::prelude::*;

verus! {

/// The status that a platform call returns.
pub type OSStatus = i32;

/// The call succeeded.
pub const ERR_SEC_SUCCESS: OSStatus = 0;

/// The function is not implemented on this system.
pub const ERR_SEC_UNIMPLEMENTED: OSStatus = -4;

/// An input or output operation failed.
pub const ERR_SEC_IO: OSStatus = -36;

/// The request was invalid.
pub const ERR_SEC_BAD_REQ: OSStatus = -909;

/// The trust settings of the certificate deny it.
pub const ERR_SEC_TRUST_SETTING_DENY: OSStatus = -67654;

/// The certificate is not trusted.
pub const ERR_SEC_NOT_TRUSTED: OSStatus = -67843;

/// The stream has nothing to give or no room to take at the moment.
pub const ERR_SSL_WOULD_BLOCK: OSStatus = -9803;

/// The peer closed the connection in an orderly way.
pub const ERR_SSL_CLOSED_GRACEFUL: OSStatus = -9805;

/// The connection was closed because of an error.
pub const ERR_SSL_CLOSED_ABORT: OSStatus = -9806;

/// The peer closed the connection without notice.
pub const ERR_SSL_CLOSED_NO_NOTIFY: OSStatus = -9816;

/// The handshake stopped so that the server's certificate can be judged.
pub const ERR_SSL_PEER_AUTH_COMPLETED: OSStatus = -9841;

/// The handshake stopped because the server asked for a client certificate.
pub const ERR_SSL_CLIENT_CERT_REQUESTED: OSStatus = -9842;

/// The handshake stopped because the client's first message came in.
pub const ERR_SSL_CLIENT_HELLO_RECEIVED: OSStatus = -9851;

/// An error reported by the platform.
#[derive(Debug, Copy, Clone, PartialEq, Eq, Structural)]
pub struct Error {
    pub code: OSStatus,
}

impl Error {
    /// Creates the error that stands for a status.
    pub fn from_code(code: OSStatus) -> (error: Error)
        ensures
            error == (Error { code }),
    {
        Error { code }
    }

    /// Returns the status of the error.
    pub fn code(&self) -> (code: OSStatus)
        ensures
            code == self.code,
    {
        self.code
    }
}

impl From<OSStatus> for Error {
    fn from(code: OSStatus) -> (error: Error) {
        Error::from_code(code)
    }
}

impl vstd::std_specs::convert::FromSpecImpl<OSStatus> for Error {
    open spec fn obeys_from_spec() -> bool {
        true
    }

    open spec fn from_spec(code: OSStatus) -> Error {
        Error { code }
    }
}

/// What a status means for a call that has nothing else to return.
pub open spec fn converted(status: OSStatus) -> Result<(), Error> {
    if status == ERR_SEC_SUCCESS {
        Ok(())
    } else {
        Err(Error { code: status })
    }
}

/// Turns a status into a result: success is `Ok`, every other status is the
/// error with that code.
pub fn cvt(status: OSStatus) -> (result: Result<(), Error>)
    ensures
        result == converted(status),
{
    match status {
        ERR_SEC_SUCCESS => Ok(()),
        err => Err(Error::from_code(err)),
    }
}

} // verus!
