//! The pieces, one by one.
use secure_transport::base::{
    ERR_SEC_BAD_REQ, ERR_SEC_IO, ERR_SEC_NOT_TRUSTED, ERR_SEC_SUCCESS, ERR_SEC_TRUST_SETTING_DENY,
    ERR_SEC_UNIMPLEMENTED, ERR_SSL_CLIENT_CERT_REQUESTED, ERR_SSL_CLIENT_HELLO_RECEIVED,
    ERR_SSL_CLOSED_ABORT, ERR_SSL_CLOSED_GRACEFUL, ERR_SSL_CLOSED_NO_NOTIFY,
    ERR_SSL_PEER_AUTH_COMPLETED, ERR_SSL_WOULD_BLOCK, Error, cvt,
};
use secure_transport::connection::{
    Connection, ErrorKind, ErrorSource, IoError, Outcome, PanicPayload, StreamOutcome, Transfer,
    TransferStep, read_func, translate_err, write_func,
};
use secure_transport::context::{
    OPTION_BREAK_ON_CERT_REQUESTED, OPTION_BREAK_ON_CLIENT_AUTH, OPTION_BREAK_ON_SERVER_AUTH,
    OPTION_FALSE_START, OPTION_SEND_ONE_BYTE_RECORD, SslContext,
};
use secure_transport::handshake::{ClientHandshakeError, ClientStep};
use secure_transport::operation::{Next, Operation};
use secure_transport::platform::{CallOf, Reply, Value};
use secure_transport::stream::{HandshakeError, SslStream};
use secure_transport::trust::{TrustCheck, TrustSettings, judge};
use secure_transport::types::{
    SecCertificate, SessionState, SslAuthenticate, SslClientCertificateState, SslConnectionType,
    SslProtocol, SslProtocolSide, TrustResult,
};
use security_framework_sys::base as sys_base;
use security_framework_sys::secure_transport as sys;
use security_framework_sys::trust as sys_trust;

fn failure(kind: ErrorKind, number: usize) -> IoError {
    IoError {
        kind,
        source: ErrorSource::Stream(number),
    }
}

#[test]
fn statuses_are_the_platforms() {
    assert_eq!(ERR_SEC_SUCCESS, sys_base::errSecSuccess);
    assert_eq!(ERR_SEC_UNIMPLEMENTED, sys_base::errSecUnimplemented);
    assert_eq!(ERR_SEC_IO, sys_base::errSecIO);
    assert_eq!(ERR_SEC_BAD_REQ, sys_base::errSecBadReq);
    assert_eq!(ERR_SEC_TRUST_SETTING_DENY, sys_base::errSecTrustSettingDeny);
    assert_eq!(ERR_SEC_NOT_TRUSTED, sys_base::errSecNotTrusted);
    assert_eq!(ERR_SSL_WOULD_BLOCK, sys::errSSLWouldBlock);
    assert_eq!(ERR_SSL_CLOSED_GRACEFUL, sys::errSSLClosedGraceful);
    assert_eq!(ERR_SSL_CLOSED_ABORT, sys::errSSLClosedAbort);
    assert_eq!(ERR_SSL_CLOSED_NO_NOTIFY, sys::errSSLClosedNoNotify);
    assert_eq!(ERR_SSL_PEER_AUTH_COMPLETED, sys::errSSLPeerAuthCompleted);
    assert_eq!(ERR_SSL_CLIENT_CERT_REQUESTED, sys::errSSLClientCertRequested);
    assert_eq!(ERR_SSL_CLIENT_HELLO_RECEIVED, sys::errSSLClientHelloReceived);
}

#[test]
#[allow(deprecated)]
fn numbers_are_the_platforms() {
    assert_eq!(SslProtocolSide::SERVER.to_raw(), sys::kSSLServerSide);
    assert_eq!(SslProtocolSide::CLIENT.to_raw(), sys::kSSLClientSide);
    assert_eq!(SslConnectionType::STREAM.to_raw(), sys::kSSLStreamType);
    assert_eq!(SslConnectionType::DATAGRAM.to_raw(), sys::kSSLDatagramType);

    assert_eq!(SessionState::from_raw(sys::kSSLIdle), SessionState::IDLE);
    assert_eq!(SessionState::from_raw(sys::kSSLHandshake), SessionState::HANDSHAKE);
    assert_eq!(SessionState::from_raw(sys::kSSLConnected), SessionState::CONNECTED);
    assert_eq!(SessionState::from_raw(sys::kSSLClosed), SessionState::CLOSED);
    assert_eq!(SessionState::from_raw(sys::kSSLAborted), SessionState::ABORTED);
    assert_eq!(SessionState::from_raw(5), SessionState::OTHER(5));

    assert_eq!(SslAuthenticate::NEVER.to_raw(), sys::kNeverAuthenticate);
    assert_eq!(SslAuthenticate::ALWAYS.to_raw(), sys::kAlwaysAuthenticate);
    assert_eq!(SslAuthenticate::TRY.to_raw(), sys::kTryAuthenticate);

    for (raw, state) in [
        (sys::kSSLClientCertNone, SslClientCertificateState::NONE),
        (sys::kSSLClientCertRequested, SslClientCertificateState::REQUESTED),
        (sys::kSSLClientCertSent, SslClientCertificateState::SENT),
        (sys::kSSLClientCertRejected, SslClientCertificateState::REJECTED),
        (9, SslClientCertificateState::OTHER(9)),
    ] {
        assert_eq!(SslClientCertificateState::from_raw(raw), state);
    }

    for (raw, version) in [
        (sys::kSSLProtocolUnknown, SslProtocol::UNKNOWN),
        (sys::kSSLProtocol3, SslProtocol::SSL3),
        (sys::kTLSProtocol1, SslProtocol::TLS1),
        (sys::kTLSProtocol11, SslProtocol::TLS11),
        (sys::kTLSProtocol12, SslProtocol::TLS12),
        (sys::kSSLProtocol2, SslProtocol::SSL2),
        (sys::kDTLSProtocol1, SslProtocol::DTLS1),
        (sys::kSSLProtocol3Only, SslProtocol::SSL3_ONLY),
        (sys::kTLSProtocol1Only, SslProtocol::TLS1_ONLY),
        (sys::kSSLProtocolAll, SslProtocol::ALL),
        (sys::kTLSProtocol13, SslProtocol::OTHER(10)),
    ] {
        assert_eq!(SslProtocol::from_raw(raw), version);
        assert_eq!(version.to_raw(), raw);
    }

    for (raw, result) in [
        (sys_trust::kSecTrustResultInvalid, TrustResult::INVALID),
        (sys_trust::kSecTrustResultProceed, TrustResult::PROCEED),
        (sys_trust::kSecTrustResultDeny, TrustResult::DENY),
        (sys_trust::kSecTrustResultUnspecified, TrustResult::UNSPECIFIED),
        (
            sys_trust::kSecTrustResultRecoverableTrustFailure,
            TrustResult::RECOVERABLE_TRUST_FAILURE,
        ),
        (
            sys_trust::kSecTrustResultFatalTrustFailure,
            TrustResult::FATAL_TRUST_FAILURE,
        ),
        (sys_trust::kSecTrustResultOtherError, TrustResult::OTHER_ERROR),
        (2, TrustResult::OTHER(2)),
    ] {
        assert_eq!(TrustResult::from_raw(raw), result);
    }

    assert_eq!(OPTION_BREAK_ON_SERVER_AUTH, sys::kSSLSessionOptionBreakOnServerAuth);
    assert_eq!(
        OPTION_BREAK_ON_CERT_REQUESTED,
        sys::kSSLSessionOptionBreakOnCertRequested
    );
    assert_eq!(OPTION_BREAK_ON_CLIENT_AUTH, sys::kSSLSessionOptionBreakOnClientAuth);
    assert_eq!(OPTION_FALSE_START, sys::kSSLSessionOptionFalseStart);
    assert_eq!(OPTION_SEND_ONE_BYTE_RECORD, sys::kSSLSessionOptionSendOneByteRecord);
}

#[test]
fn statuses_become_results() {
    assert_eq!(cvt(0), Ok(()));
    assert_eq!(cvt(-909), Err(Error::from_code(-909)));
    assert_eq!(Error::from(-50).code(), -50);
    let from: HandshakeError<u8> = HandshakeError::from(Error::from_code(3));
    assert!(matches!(from, HandshakeError::Failure(Error { code: 3 })));
    let from: ClientHandshakeError<u8> = ClientHandshakeError::from(Error::from_code(4));
    assert!(matches!(from, ClientHandshakeError::Failure(Error { code: 4 })));
}

#[test]
fn stream_errors_are_translated() {
    for (kind, status) in [
        (ErrorKind::NotFound, -9805),
        (ErrorKind::ConnectionReset, -9806),
        (ErrorKind::WouldBlock, -9803),
        (ErrorKind::NotConnected, -9803),
        (ErrorKind::Other, -36),
    ] {
        assert_eq!(translate_err(&failure(kind, 0)), status);
    }
}

#[test]
fn transfers_are_offered_piece_by_piece() {
    let mut conn = Connection::new(());
    let first = match read_func(10) {
        TransferStep::Offer(transfer) => transfer,
        TransferStep::Finished { .. } => panic!("ten bytes are to be moved"),
    };
    assert_eq!(first, Transfer { len: 10, done: 0 });
    let second = match conn.transferred(first, StreamOutcome::Moved(4)) {
        TransferStep::Offer(transfer) => transfer,
        TransferStep::Finished { .. } => panic!("six bytes are left"),
    };
    assert_eq!(second, Transfer { len: 10, done: 4 });
    assert_eq!(
        conn.transferred(second, StreamOutcome::Moved(6)),
        TransferStep::Finished { status: 0, data_length: 10 }
    );
    assert!(conn.err.is_none() && conn.panic.is_none());
    assert_eq!(
        read_func(0),
        TransferStep::Finished { status: 0, data_length: 0 }
    );
    assert_eq!(
        write_func(0),
        TransferStep::Finished { status: 0, data_length: 0 }
    );
    assert_eq!(write_func(2), TransferStep::Offer(Transfer { len: 2, done: 0 }));
}

#[test]
fn transfers_end_with_the_stream() {
    let mut conn = Connection::new(());
    let half = Transfer { len: 10, done: 5 };
    assert_eq!(
        conn.transferred(half, StreamOutcome::Moved(0)),
        TransferStep::Finished { status: -9816, data_length: 5 }
    );
    let reset = failure(ErrorKind::ConnectionReset, 2);
    assert_eq!(
        conn.transferred(half, StreamOutcome::Failed(reset)),
        TransferStep::Finished { status: -9806, data_length: 5 }
    );
    assert_eq!(conn.err, Some(failure(ErrorKind::ConnectionReset, 2)));
    let panic = PanicPayload { number: 1 };
    assert_eq!(
        conn.transferred(half, StreamOutcome::Panicked(panic)),
        TransferStep::Finished { status: -36, data_length: 5 }
    );
    assert_eq!(conn.panic, Some(PanicPayload { number: 1 }));
}

fn broken_stream() -> SslStream<u8> {
    let mut conn = Connection::new(9);
    conn.err = Some(failure(ErrorKind::Other, 4));
    conn.panic = Some(PanicPayload { number: 6 });
    SslStream { ctx: SslContext { raw: 1 }, conn: Box::new(conn) }
}

#[test]
fn errors_are_reported_once() {
    let mut stream = broken_stream();
    assert!(matches!(
        stream.read_done(-36, 0),
        Outcome::Unwind(PanicPayload { number: 6 })
    ));
    match stream.write_done(-36, 0) {
        Outcome::Return(Err(err)) => assert_eq!(err, failure(ErrorKind::Other, 4)),
        _ => panic!("expected the stream's error"),
    }
    match stream.close(-36) {
        Outcome::Return(Err(err)) => assert_eq!(
            err,
            IoError {
                kind: ErrorKind::Other,
                source: ErrorSource::Platform(Error::from_code(-36)),
            }
        ),
        _ => panic!("expected the platform's error"),
    }
    assert_eq!(*stream.get_ref(), 9);
    assert!(stream.check_panic().is_none());
}

#[test]
fn bytes_go_before_errors() {
    let mut stream = broken_stream();
    assert!(matches!(stream.read_done(-36, 2), Outcome::Return(Ok(2))));
    assert!(matches!(stream.write_done(-36, 2), Outcome::Return(Ok(2))));
    for closed in [-9805, -9806, -9816] {
        assert!(matches!(stream.read_done(closed, 0), Outcome::Return(Ok(0))));
    }
    assert!(stream.connection().panic.is_some());
}

#[test]
fn pauses_do_not_resume_panics() {
    for (pause, option) in [(-9841, 0), (-9842, 1)] {
        match broken_stream().handshake(pause) {
            Next::Ask(op) => {
                assert!(matches!(
                    op.call(),
                    CallOf::GetSessionOption { ctx: 1, option: asked } if asked == option
                ));
                let reply = Reply { status: 0, value: Value::Flag(1) };
                match op.resume(reply) {
                    Next::Done(mid) => assert!(mid.break_set && mid.reason() == pause),
                    Next::Ask(_) => panic!("one question is enough"),
                }
            }
            Next::Done(_) => panic!("the option is asked for"),
        }
    }
    for pause in [-9803, -9851] {
        assert!(matches!(
            broken_stream().handshake(pause),
            Next::Done(Outcome::Return(Err(HandshakeError::Interrupted(_))))
        ));
    }
    assert!(matches!(
        broken_stream().handshake(-36),
        Next::Done(Outcome::Unwind(_))
    ));
    assert!(matches!(
        broken_stream().handshake(0),
        Next::Done(Outcome::Return(Ok(_)))
    ));
    let mut stream = broken_stream();
    stream.conn.panic = None;
    assert!(matches!(
        stream.handshake(-36),
        Next::Done(Outcome::Return(Err(HandshakeError::Failure(Error {
            code: -36
        }))))
    ));
}

#[test]
fn reads_stay_within_the_buffer() {
    for (len, buffered, expected) in [(10, 0, 10), (10, 4, 4), (10, 10, 10), (10, 99, 10)] {
        let reading = match broken_stream().read(len) {
            Next::Ask(op) => op,
            Next::Done(_) => panic!("the buffer is not empty"),
        };
        let reply = Reply { status: 0, value: Value::Size(buffered) };
        match reading.resume(reply) {
            Next::Ask(op) => assert_eq!(op.size, Some(expected)),
            Next::Done(_) => panic!("nothing was read yet"),
        }
    }
    // What is there already cannot be told: the whole buffer is asked for.
    let reading = match broken_stream().read(10) {
        Next::Ask(op) => op,
        Next::Done(_) => panic!("the buffer is not empty"),
    };
    match reading.resume(Reply { status: -50, value: Value::Nothing }) {
        Next::Ask(op) => assert_eq!(op.size, Some(10)),
        Next::Done(_) => panic!("nothing was read yet"),
    }
}

#[test]
fn judgements() {
    for (result, code) in [
        (TrustResult::PROCEED, 0),
        (TrustResult::UNSPECIFIED, 0),
        (TrustResult::DENY, -67654),
        (TrustResult::RECOVERABLE_TRUST_FAILURE, -67843),
        (TrustResult::FATAL_TRUST_FAILURE, -67843),
        (TrustResult::INVALID, -909),
        (TrustResult::OTHER_ERROR, -909),
        (TrustResult::OTHER(2), -909),
    ] {
        assert_eq!(judge(result), cvt(code));
    }
}

#[test]
fn peers_without_a_trust_object_are_accepted() {
    let settings = TrustSettings {
        domain: Some("google.com".to_string()),
        certs: vec![SecCertificate { raw: 3 }],
        trust_certs_only: true,
        danger_accept_invalid_certs: false,
    };
    let check = TrustCheck::new(SslContext { raw: 1 }, settings);
    let check = match check.resume(Reply { status: 0, value: Value::Code(1) }) {
        Next::Ask(check) => check,
        Next::Done(_) => panic!("the trust object is asked for"),
    };
    let reply = Reply { status: 0, value: Value::OptionalRef(None) };
    match check.resume(reply) {
        Next::Done((settings, judgement)) => {
            assert_eq!(judgement, Ok(()));
            assert_eq!(settings.certs, vec![SecCertificate { raw: 3 }]);
        }
        Next::Ask(_) => panic!("there is nothing to judge"),
    }
}

#[test]
fn denied_certificates_fail_the_handshake() {
    let stream = SslStream { ctx: SslContext { raw: 1 }, conn: Box::new(Connection::new(())) };
    let settings = TrustSettings {
        domain: None,
        certs: Vec::new(),
        trust_certs_only: false,
        danger_accept_invalid_certs: false,
    };
    let replies = [
        Value::Code(1),
        Value::OptionalRef(Some(50)),
        Value::Nothing,
        Value::Nothing,
        Value::Ref(60),
        Value::Nothing,
        Value::Trust(3),
    ];
    let mut step = ClientStep::handshake(stream, settings, ERR_SSL_PEER_AUTH_COMPLETED);
    for value in replies {
        step = match step {
            ClientStep::Check { stream, op } => {
                ClientStep::check(stream, op, Reply { status: 0, value })
            }
            _ => panic!("the check is not over"),
        };
    }
    match step {
        ClientStep::Done(Outcome::Return(Err(ClientHandshakeError::Failure(err)))) => {
            assert_eq!(err.code(), ERR_SEC_TRUST_SETTING_DENY)
        }
        _ => panic!("expected failure"),
    }
}
