//! Whole sessions, over a platform that is played by the tests.
use secure_transport::base::{
    ERR_SEC_NOT_TRUSTED, ERR_SEC_SUCCESS, ERR_SEC_TRUST_SETTING_DENY, ERR_SSL_CLIENT_CERT_REQUESTED,
    ERR_SSL_CLOSED_GRACEFUL, ERR_SSL_PEER_AUTH_COMPLETED, ERR_SSL_WOULD_BLOCK, Error, OSStatus,
};
use secure_transport::client::{ClientBuilder, ClientSetup};
use secure_transport::connection::{
    Connection, ErrorKind, ErrorSource, IoError, Outcome, PanicPayload, StreamOutcome, TransferStep,
    read_func, write_func,
};
use secure_transport::context::SslContext;
use secure_transport::handshake::{ClientHandshakeError, ClientStep, MidHandshakeClientBuilder};
use secure_transport::operation::{Next, Operation};
use secure_transport::platform::{Call, CallOf, Reply, Value};
use secure_transport::server::{ServerBuilder, ServerStep};
use secure_transport::stream::{HandshakeError, HandshakeStep, SslStream};
use secure_transport::types::{
    CipherSuite, SecCertificate, SecIdentity, SslConnectionType, SslProtocol, SslProtocolSide,
};

/// The status for a certificate that the platform itself rejects.
const ERR_SSL_X_CERT_CHAIN_INVALID: OSStatus = -9807;

const PANIC_TEXT: &str = "blammo";

/// The stream of the tests: an endless line of zero bytes, until it is told
/// to fail.
#[derive(Debug, Default)]
struct Wire {
    written: usize,
    read: usize,
    chunk: usize,
    fail_read: Option<StreamOutcome>,
    fail_write: Option<StreamOutcome>,
}

impl Wire {
    fn open() -> Wire {
        Wire {
            chunk: 4,
            ..Wire::default()
        }
    }
}

/// The server at the other end.
struct Server {
    name: &'static str,
    expired: bool,
    root: usize,
    alpn: Vec<&'static str>,
}

fn google() -> Server {
    Server {
        name: "google.com",
        expired: false,
        root: SYSTEM_ROOT,
        alpn: vec!["h2"],
    }
}

/// The root certificate that the system trusts.
const SYSTEM_ROOT: usize = 1;

#[derive(Clone)]
struct Session {
    side: i32,
    state: i32,
    domain: Vec<u8>,
    peer_id: Option<Vec<u8>>,
    enabled: Vec<u32>,
    options: [u8; 8],
    min: i32,
    max: i32,
    auth: i32,
    chain: Vec<usize>,
    offered: Vec<String>,
    judged: bool,
}

/// What a trust object was told.
#[derive(Clone, Default)]
struct Judgement {
    anchors: Vec<usize>,
    only: bool,
    hostname: Option<String>,
}

/// The platform, as far as the tests need one.
struct Platform {
    server: Server,
    sessions: Vec<Session>,
    trusts: Vec<Judgement>,
    policies: Vec<Option<String>>,
    has_alpn: bool,
    log: Vec<Call>,
    refuse: Option<(&'static str, OSStatus)>,
}

const SUPPORTED: [u32; 5] = [0xC02C, 0xC02B, 0xC030, 0x009D, 0x002F];

fn status(status: OSStatus) -> Reply {
    Reply {
        status,
        value: Value::Nothing,
    }
}

fn value(value: Value) -> Reply {
    Reply {
        status: ERR_SEC_SUCCESS,
        value,
    }
}

fn unavailable() -> Reply {
    Reply {
        status: ERR_SEC_SUCCESS,
        value: Value::Unavailable,
    }
}

impl Platform {
    fn new(server: Server) -> Platform {
        Platform {
            server,
            sessions: Vec::new(),
            trusts: Vec::new(),
            policies: Vec::new(),
            has_alpn: true,
            log: Vec::new(),
            refuse: None,
        }
    }

    fn session(&mut self, ctx: usize) -> &mut Session {
        &mut self.sessions[ctx - 100]
    }

    /// Makes a call.
    fn perform(&mut self, call: Call) -> Reply {
        let text = format!("{:?}", call);
        self.log.push(call.clone());
        if let Some((name, code)) = self.refuse {
            if text.starts_with(name) {
                return status(code);
            }
        }
        match call {
            CallOf::CreateContext { side, kind } => {
                assert_eq!(kind, 0);
                self.sessions.push(Session {
                    side,
                    state: 0,
                    domain: Vec::new(),
                    peer_id: None,
                    enabled: SUPPORTED[..4].to_vec(),
                    options: [0; 8],
                    min: 4,
                    max: 8,
                    auth: 0,
                    chain: Vec::new(),
                    offered: Vec::new(),
                    judged: false,
                });
                value(Value::Ref(99 + self.sessions.len()))
            }
            CallOf::SetPeerDomainName { ctx, name } => {
                self.session(ctx).domain = name;
                status(0)
            }
            CallOf::GetPeerDomainNameLength { ctx } => {
                value(Value::Size(self.session(ctx).domain.len()))
            }
            CallOf::GetPeerDomainName { ctx, len } => {
                assert_eq!(self.session(ctx).domain.len(), len);
                value(Value::Bytes(self.session(ctx).domain.clone()))
            }
            CallOf::SetCertificate { ctx, chain } => {
                self.session(ctx).chain = chain;
                status(0)
            }
            CallOf::SetPeerId { ctx, id } => {
                self.session(ctx).peer_id = Some(id);
                status(0)
            }
            CallOf::GetPeerId { ctx } => {
                value(Value::OptionalBytes(self.session(ctx).peer_id.clone()))
            }
            CallOf::GetNumberSupportedCiphers { .. } => value(Value::Size(SUPPORTED.len())),
            CallOf::GetSupportedCiphers { count, .. } => {
                assert_eq!(count, SUPPORTED.len());
                value(Value::Ciphers(SUPPORTED.to_vec()))
            }
            CallOf::GetNumberEnabledCiphers { ctx } => {
                value(Value::Size(self.session(ctx).enabled.len()))
            }
            CallOf::GetEnabledCiphers { ctx, count } => {
                assert_eq!(count, self.session(ctx).enabled.len());
                value(Value::Ciphers(self.session(ctx).enabled.clone()))
            }
            CallOf::SetEnabledCiphers { ctx, ciphers } => {
                self.session(ctx).enabled = ciphers;
                status(0)
            }
            CallOf::GetNegotiatedCipher { ctx } => {
                value(Value::Cipher(self.session(ctx).enabled[0]))
            }
            CallOf::SetClientSideAuthenticate { ctx, auth } => {
                self.session(ctx).auth = auth;
                status(0)
            }
            CallOf::GetClientCertificateState { ctx } => {
                let requested = i32::from(self.session(ctx).auth != 0);
                value(Value::Code(requested))
            }
            CallOf::CopyPeerTrust { .. } => {
                self.trusts.push(Judgement::default());
                value(Value::OptionalRef(Some(199 + self.trusts.len())))
            }
            CallOf::GetSessionState { ctx } => value(Value::Code(self.session(ctx).state)),
            CallOf::GetNegotiatedProtocolVersion { ctx } => {
                value(Value::Code(self.session(ctx).max))
            }
            CallOf::GetProtocolVersionMax { ctx } => value(Value::Code(self.session(ctx).max)),
            CallOf::SetProtocolVersionMax { ctx, version } => {
                self.session(ctx).max = version;
                status(0)
            }
            CallOf::GetProtocolVersionMin { ctx } => value(Value::Code(self.session(ctx).min)),
            CallOf::SetProtocolVersionMin { ctx, version } => {
                self.session(ctx).min = version;
                status(0)
            }
            CallOf::CopyAlpnProtocols { ctx } => {
                if !self.has_alpn {
                    return unavailable();
                }
                let offered = self.session(ctx).offered.clone();
                let server = self.server.alpn.clone();
                if offered.is_empty() {
                    return value(Value::Names(None));
                }
                match offered
                    .iter()
                    .find(|name| server.contains(&name.as_str()))
                {
                    Some(name) => value(Value::Names(Some(vec![name.clone()]))),
                    None => status(-50),
                }
            }
            CallOf::SetAlpnProtocols { ctx, protocols } => {
                if !self.has_alpn {
                    return unavailable();
                }
                self.session(ctx).offered = protocols;
                status(0)
            }
            CallOf::SetProtocolVersionEnabled { .. } => status(0),
            CallOf::GetBufferedReadSize { .. } => value(Value::Size(3)),
            CallOf::SetSessionOption { ctx, option, value } => {
                self.session(ctx).options[option as usize] = value;
                status(0)
            }
            CallOf::GetSessionOption { ctx, option } => {
                value(Value::Flag(self.session(ctx).options[option as usize]))
            }
            CallOf::SetIoFuncs { .. } | CallOf::SetConnection { .. } => status(0),
            CallOf::SetAnchorCertificates { trust, certs } => {
                self.trusts[trust - 200].anchors = certs;
                status(0)
            }
            CallOf::SetAnchorCertificatesOnly { trust, only } => {
                self.trusts[trust - 200].only = only;
                status(0)
            }
            CallOf::CreateSslPolicy { side, hostname } => {
                assert_eq!(side, 0);
                self.policies.push(hostname);
                value(Value::Ref(299 + self.policies.len()))
            }
            CallOf::SetPolicies { trust, policy } => {
                self.trusts[trust - 200].hostname = self.policies[policy - 300].clone();
                status(0)
            }
            CallOf::Evaluate { trust } => {
                let judgement = self.trusts[trust - 200].clone();
                let root = self.server.root;
                let trusted = judgement.anchors.contains(&root)
                    || (root == SYSTEM_ROOT && !judgement.only);
                let named = match judgement.hostname {
                    Some(name) => name == self.server.name,
                    None => true,
                };
                let result = if trusted && named && !self.server.expired {
                    4
                } else {
                    5
                };
                value(Value::Trust(result))
            }
            CallOf::Handshake { .. }
            | CallOf::Close { .. }
            | CallOf::Read { .. }
            | CallOf::Write { .. } => unreachable!(),
        }
    }

    /// Runs an operation to its end.
    fn drive<O: Operation>(&mut self, mut op: O) -> O::Output {
        loop {
            let reply = self.perform(op.call());
            match op.resume(reply) {
                Next::Ask(next) => op = next,
                Next::Done(output) => return output,
            }
        }
    }

    /// Moves bytes over the stream, as the platform does while it works.
    fn transfer(conn: &mut Connection<Wire>, mut step: TransferStep, reading: bool) -> OSStatus {
        loop {
            match step {
                TransferStep::Offer(transfer) => {
                    let wire = &mut conn.stream;
                    let failure = if reading {
                        wire.fail_read.take()
                    } else {
                        wire.fail_write.take()
                    };
                    let outcome = match failure {
                        Some(failure) => failure,
                        None => {
                            let n = wire.chunk.min(transfer.len - transfer.done);
                            if reading {
                                wire.read += n;
                            } else {
                                wire.written += n;
                            }
                            StreamOutcome::Moved(n)
                        }
                    };
                    step = conn.transferred(transfer, outcome);
                }
                TransferStep::Finished { status, .. } => return status,
            }
        }
    }

    /// Attempts a handshake.
    fn handshake(&mut self, stream: &mut SslStream<Wire>) -> OSStatus {
        let call = stream.handshake_call();
        let ctx = match call {
            CallOf::Handshake { ctx } => ctx,
            _ => unreachable!(),
        };
        self.log.push(call);
        self.session(ctx).state = 1;
        let sent = Platform::transfer(stream.connection_mut(), write_func(10), false);
        if sent != ERR_SEC_SUCCESS {
            return sent;
        }
        let received = Platform::transfer(stream.connection_mut(), read_func(10), true);
        if received != ERR_SEC_SUCCESS {
            return received;
        }
        if self.session(ctx).side == 1 && !self.session(ctx).judged {
            self.session(ctx).judged = true;
            if self.session(ctx).options[0] != 0 {
                return ERR_SSL_PEER_AUTH_COMPLETED;
            }
            let name = self.session(ctx).domain.clone();
            if name != self.server.name.as_bytes() {
                return ERR_SSL_X_CERT_CHAIN_INVALID;
            }
        }
        self.session(ctx).state = 2;
        ERR_SEC_SUCCESS
    }

    fn connect(
        &mut self,
        ctx: SslContext,
        wire: Wire,
    ) -> Result<SslStream<Wire>, HandshakeError<Wire>> {
        let step = ctx.handshake(wire);
        self.finish(step)
    }

    fn finish(
        &mut self,
        mut step: HandshakeStep<Wire>,
    ) -> Result<SslStream<Wire>, HandshakeError<Wire>> {
        loop {
            step = match step {
                HandshakeStep::Attach(op) => {
                    let reply = self.perform(op.call());
                    HandshakeStep::attach(op, reply)
                }
                HandshakeStep::Handshake(mut stream) => {
                    let status = self.handshake(&mut stream);
                    HandshakeStep::handshake(stream, status)
                }
                HandshakeStep::Pause(op) => {
                    let reply = self.perform(op.call());
                    HandshakeStep::pause(op, reply)
                }
                HandshakeStep::Done(outcome) => return returned(outcome),
            }
        }
    }

    fn client(
        &mut self,
        builder: &ClientBuilder,
        domain: &str,
        wire: Wire,
    ) -> Result<SslStream<Wire>, ClientHandshakeError<Wire>> {
        let step = builder.handshake(domain, wire);
        self.finish_client(step)
    }

    fn finish_client(
        &mut self,
        mut step: ClientStep<Wire>,
    ) -> Result<SslStream<Wire>, ClientHandshakeError<Wire>> {
        loop {
            step = match step {
                ClientStep::Setup { op, settings } => {
                    let reply = self.perform(op.call());
                    ClientStep::setup(op, settings, reply)
                }
                ClientStep::Handshake {
                    mut stream,
                    settings,
                } => {
                    let status = self.handshake(&mut stream);
                    ClientStep::handshake(stream, settings, status)
                }
                ClientStep::Check { stream, op } => {
                    let reply = self.perform(op.call());
                    ClientStep::check(stream, op, reply)
                }
                ClientStep::Done(outcome) => return returned(outcome),
            }
        }
    }

    fn serve(&mut self, builder: &ServerBuilder, wire: Wire) -> Result<SslStream<Wire>, Error> {
        let mut step = builder.handshake(wire);
        loop {
            step = match step {
                ServerStep::Setup(op) => {
                    let reply = self.perform(op.call());
                    ServerStep::setup(op, reply)
                }
                ServerStep::Handshake(mut stream) => {
                    let status = self.handshake(&mut stream);
                    ServerStep::handshake(stream, status)
                }
                ServerStep::Done(outcome) => return returned(outcome),
            }
        }
    }

    fn new_context(&mut self, side: SslProtocolSide) -> SslContext {
        self.drive(SslContext::new(side, SslConnectionType::STREAM))
            .unwrap()
    }
}

/// What an operation returned. A panic of the stream goes on.
fn returned<T>(outcome: Outcome<T>) -> T {
    match outcome {
        Outcome::Return(value) => value,
        Outcome::Unwind(payload) => {
            assert_eq!(payload.number, 7);
            panic!("{}", PANIC_TEXT)
        }
    }
}

fn stream_error(kind: ErrorKind, number: usize) -> StreamOutcome {
    StreamOutcome::Failed(IoError {
        kind,
        source: ErrorSource::Stream(number),
    })
}

#[test]
fn connect() {
    let mut platform = Platform::new(google());
    let mut ctx = platform.new_context(SslProtocolSide::CLIENT);
    platform
        .drive(ctx.set_peer_domain_name("google.com"))
        .unwrap();
    platform.connect(ctx, Wire::open()).unwrap();
}

#[test]
fn connect_bad_domain() {
    let mut platform = Platform::new(google());
    let mut ctx = platform.new_context(SslProtocolSide::CLIENT);
    platform
        .drive(ctx.set_peer_domain_name("foobar.com"))
        .unwrap();
    match platform.connect(ctx, Wire::open()) {
        Ok(_) => panic!("expected failure"),
        Err(HandshakeError::Failure(err)) => assert_eq!(err.code(), ERR_SSL_X_CERT_CHAIN_INVALID),
        Err(HandshakeError::Interrupted(_)) => panic!("expected failure"),
    }
}

#[test]
fn client_alpn_accept() {
    let mut platform = Platform::new(google());
    let mut ctx = platform.new_context(SslProtocolSide::CLIENT);
    platform
        .drive(ctx.set_peer_domain_name("google.com"))
        .unwrap();
    platform.drive(ctx.set_alpn_protocols(&["h2"])).unwrap();
    let stream = platform.connect(ctx, Wire::open()).unwrap();
    assert_eq!(
        vec!["h2"],
        platform.drive(stream.context().alpn_protocols()).unwrap()
    );
}

#[test]
fn client_alpn_reject() {
    let mut platform = Platform::new(google());
    let mut ctx = platform.new_context(SslProtocolSide::CLIENT);
    platform
        .drive(ctx.set_peer_domain_name("google.com"))
        .unwrap();
    platform.drive(ctx.set_alpn_protocols(&["h2c"])).unwrap();
    let stream = platform.connect(ctx, Wire::open()).unwrap();
    assert!(platform.drive(stream.context().alpn_protocols()).is_err());
}

#[test]
fn alpn_needs_a_recent_system() {
    let mut platform = Platform::new(google());
    platform.has_alpn = false;
    let mut ctx = platform.new_context(SslProtocolSide::CLIENT);
    let set = platform.drive(ctx.set_alpn_protocols(&["h2"]));
    assert_eq!(set.unwrap_err().code(), -4);
    let read = platform.drive(ctx.alpn_protocols());
    assert_eq!(read.unwrap_err().code(), -4);
}

#[test]
fn alpn_without_a_selection_is_empty() {
    let mut platform = Platform::new(google());
    let ctx = platform.new_context(SslProtocolSide::CLIENT);
    assert!(platform.drive(ctx.alpn_protocols()).unwrap().is_empty());
}

#[test]
fn client_no_anchor_certs() {
    let mut platform = Platform::new(google());
    let mut builder = ClientBuilder::new();
    builder.trust_anchor_certificates_only(true);
    assert!(platform
        .client(&builder, "google.com", Wire::open())
        .is_err());
}

#[test]
fn client_own_anchor_cert() {
    let mut server = google();
    server.root = 5;
    let mut platform = Platform::new(server);
    let mut builder = ClientBuilder::new();
    assert!(platform
        .client(&builder, "google.com", Wire::open())
        .is_err());
    builder
        .anchor_certificates(&[SecCertificate { raw: 5 }])
        .trust_anchor_certificates_only(true);
    assert!(platform
        .client(&builder, "google.com", Wire::open())
        .is_ok());
}

#[test]
fn client_bad_domain() {
    let mut platform = Platform::new(google());
    let refused = platform.client(&ClientBuilder::new(), "foobar.com", Wire::open());
    match refused {
        Err(ClientHandshakeError::Failure(err)) => assert_eq!(err.code(), ERR_SEC_NOT_TRUSTED),
        _ => panic!("expected failure"),
    }
}

#[test]
fn client_bad_domain_ignored() {
    let mut platform = Platform::new(google());
    let mut builder = ClientBuilder::new();
    builder.danger_accept_invalid_hostnames(true);
    platform
        .client(&builder, "foobar.com", Wire::open())
        .unwrap();
}

#[test]
fn connect_no_verify_ssl() {
    let mut platform = Platform::new(Server {
        name: "expired.badssl.com",
        expired: true,
        ..google()
    });
    assert!(platform
        .client(&ClientBuilder::new(), "expired.badssl.com", Wire::open())
        .is_err());
    let mut builder = ClientBuilder::new();
    builder.danger_accept_invalid_certs(true);
    platform
        .client(&builder, "expired.badssl.com", Wire::open())
        .unwrap();
    assert!(!platform.log.iter().any(|call| {
        matches!(call, CallOf::CopyPeerTrust { ctx: 101 })
    }));
}

#[test]
fn cipher_configuration() {
    let mut platform = Platform::new(google());
    let mut ctx = platform.new_context(SslProtocolSide::SERVER);
    let ciphers = platform.drive(ctx.enabled_ciphers()).unwrap();
    let ciphers = ciphers
        .iter()
        .enumerate()
        .filter_map(|(i, c)| if i % 2 == 0 { Some(*c) } else { None })
        .collect::<Vec<_>>();
    platform.drive(ctx.set_enabled_ciphers(&ciphers)).unwrap();
    assert_eq!(ciphers, platform.drive(ctx.enabled_ciphers()).unwrap());
}

#[test]
fn test_builder_whitelist_ciphers() {
    let mut platform = Platform::new(google());
    let ctx = platform.new_context(SslProtocolSide::CLIENT);
    assert!(platform.drive(ctx.enabled_ciphers()).unwrap().len() > 1);

    let ciphers = platform.drive(ctx.enabled_ciphers()).unwrap();
    let cipher = ciphers.first().unwrap();
    let mut builder = ClientBuilder::new();
    builder.whitelist_ciphers(&[*cipher]);
    let stream = platform
        .drive(builder.ctx_into_stream("google.com", Wire::open()))
        .unwrap();

    assert_eq!(
        1,
        platform
            .drive(stream.context().enabled_ciphers())
            .unwrap()
            .len()
    );
}

#[test]
fn test_builder_blacklist_ciphers() {
    let mut platform = Platform::new(google());
    let ctx = platform.new_context(SslProtocolSide::CLIENT);
    let num = platform.drive(ctx.enabled_ciphers()).unwrap().len();
    assert!(num > 1);

    let ciphers = platform.drive(ctx.enabled_ciphers()).unwrap();
    let cipher = ciphers.first().unwrap();
    let mut builder = ClientBuilder::new();
    builder.blacklist_ciphers(&[*cipher]);
    let stream = platform
        .drive(builder.ctx_into_stream("google.com", Wire::open()))
        .unwrap();

    assert_eq!(
        num - 1,
        platform
            .drive(stream.context().enabled_ciphers())
            .unwrap()
            .len()
    );
}

#[test]
fn blacklist_wins_over_whitelist() {
    let suite = |raw: u32| CipherSuite::from_raw(raw);
    let mut builder = ClientBuilder::new();
    builder
        .whitelist_ciphers(&[suite(7), suite(8), suite(7), suite(9)])
        .blacklist_ciphers(&[suite(8), suite(1)]);
    assert_eq!(
        builder.retain_ciphers(&[suite(1), suite(2)]),
        vec![suite(7), suite(7), suite(9)]
    );
}

#[test]
fn idle_context_peer_trust() {
    let mut platform = Platform::new(google());
    let ctx = platform.new_context(SslProtocolSide::SERVER);
    assert!(platform.drive(ctx.peer_trust2()).is_err());
    assert!(platform.trusts.is_empty());
}

#[test]
fn started_context_peer_trust() {
    let mut platform = Platform::new(google());
    let ctx = platform.new_context(SslProtocolSide::CLIENT);
    platform.session(ctx.as_inner()).state = 1;
    let found = platform.drive(ctx.peer_trust2());
    assert_eq!(ctx.peer_trust(found).unwrap().raw, 200);
}

#[test]
fn peer_id() {
    let mut platform = Platform::new(google());
    let mut ctx = platform.new_context(SslProtocolSide::SERVER);
    assert!(platform.drive(ctx.peer_id()).unwrap().is_none());
    platform.drive(ctx.set_peer_id(b"foobar")).unwrap();
    assert_eq!(
        platform.drive(ctx.peer_id()).unwrap().as_deref(),
        Some(&b"foobar"[..])
    );
}

#[test]
fn peer_domain_name() {
    let mut platform = Platform::new(google());
    let mut ctx = platform.new_context(SslProtocolSide::CLIENT);
    assert_eq!("", platform.drive(ctx.peer_domain_name()).unwrap());
    platform
        .drive(ctx.set_peer_domain_name("foobar.com"))
        .unwrap();
    assert_eq!("foobar.com", platform.drive(ctx.peer_domain_name()).unwrap());
}

#[test]
fn peer_domain_name_beyond_ascii() {
    let mut platform = Platform::new(google());
    let mut ctx = platform.new_context(SslProtocolSide::CLIENT);
    platform
        .drive(ctx.set_peer_domain_name("b\u{fc}cher.example"))
        .unwrap();
    assert_eq!(platform.session(ctx.as_inner()).domain.len(), 15);
    assert_eq!(
        "b\u{fc}cher.example",
        platform.drive(ctx.peer_domain_name()).unwrap()
    );
}

#[test]
#[should_panic(expected = "blammo")]
fn write_panic() {
    let mut platform = Platform::new(google());
    let mut ctx = platform.new_context(SslProtocolSide::CLIENT);
    platform
        .drive(ctx.set_peer_domain_name("google.com"))
        .unwrap();
    let mut wire = Wire::open();
    wire.fail_write = Some(StreamOutcome::Panicked(PanicPayload { number: 7 }));
    let _ = platform.connect(ctx, wire);
}

#[test]
#[should_panic(expected = "blammo")]
fn read_panic() {
    let mut platform = Platform::new(google());
    let mut ctx = platform.new_context(SslProtocolSide::CLIENT);
    platform
        .drive(ctx.set_peer_domain_name("google.com"))
        .unwrap();
    let mut wire = Wire::open();
    wire.fail_read = Some(StreamOutcome::Panicked(PanicPayload { number: 7 }));
    let _ = platform.connect(ctx, wire);
}

#[test]
fn zero_length_buffers() {
    let mut platform = Platform::new(google());
    let mut ctx = platform.new_context(SslProtocolSide::CLIENT);
    platform
        .drive(ctx.set_peer_domain_name("google.com"))
        .unwrap();
    let stream = platform.connect(ctx, Wire::open()).unwrap();
    assert!(matches!(stream.write(0), Next::Done(0)));
    assert!(matches!(stream.read(0), Next::Done(0)));
}

#[test]
fn load_page() {
    let mut platform = Platform::new(google());
    let mut ctx = platform.new_context(SslProtocolSide::CLIENT);
    platform
        .drive(ctx.set_peer_domain_name("google.com"))
        .unwrap();
    let mut stream = platform.connect(ctx, Wire::open()).unwrap();
    let request = b"GET / HTTP/1.0\r\n\r\n";
    let writing = match stream.write(request.len()) {
        Next::Ask(op) => op,
        Next::Done(_) => panic!("nothing to write"),
    };
    assert!(matches!(
        writing.call(),
        CallOf::Write { ctx: 100, len: 18 }
    ));
    let reply = Reply {
        status: 0,
        value: Value::Size(18),
    };
    let (status, nwritten) = match writing.resume(reply) {
        Next::Done(end) => end,
        Next::Ask(_) => panic!("one call is enough"),
    };
    assert_eq!(returned(stream.write_done(status, nwritten)).unwrap(), 18);

    // Three bytes are there already, so no more are asked for.
    let reading = match stream.read(50) {
        Next::Ask(op) => op,
        Next::Done(_) => panic!("nothing to read"),
    };
    let reply = platform.perform(reading.call());
    let reading = match reading.resume(reply) {
        Next::Ask(op) => op,
        Next::Done(_) => panic!("nothing was read"),
    };
    assert!(matches!(reading.call(), CallOf::Read { ctx: 100, len: 3 }));
    // The last bytes come along with the end of the stream.
    let reply = Reply {
        status: ERR_SSL_CLOSED_GRACEFUL,
        value: Value::Size(3),
    };
    let (status, nread) = match reading.resume(reply) {
        Next::Done(end) => end,
        Next::Ask(_) => panic!("two calls are enough"),
    };
    assert_eq!(returned(stream.read_done(status, nread)).unwrap(), 3);
    assert_eq!(
        returned(stream.read_done(ERR_SSL_CLOSED_GRACEFUL, 0)).unwrap(),
        0
    );
}

#[test]
fn load_page_client() {
    let mut platform = Platform::new(google());
    let mut stream = platform
        .client(&ClientBuilder::default(), "google.com", Wire::open())
        .unwrap();
    assert_eq!(stream.get_ref().written, 20);
    assert_eq!(stream.get_ref().read, 20);
    stream.get_mut().written = 0;
    assert_eq!(stream.get_ref().written, 0);
    let state = platform.drive(stream.context().state()).unwrap();
    assert_eq!(state, secure_transport::types::SessionState::CONNECTED);
    assert!(matches!(stream.close_call(), CallOf::Close { ctx: 100 }));
    assert!(returned(stream.close(ERR_SEC_SUCCESS)).is_ok());
}

#[test]
fn client_setup_in_order() {
    let mut platform = Platform::new(google());
    let mut builder = ClientBuilder::new();
    builder
        .identity(&SecIdentity { raw: 40 }, &[SecCertificate { raw: 41 }])
        .alpn_protocols(&["h2", "http/1.1"])
        .protocol_min(SslProtocol::TLS11)
        .protocol_max(SslProtocol::TLS12)
        .blacklist_ciphers(&[CipherSuite::from_raw(0xC02B)]);
    let setup: ClientSetup<Wire> = builder.ctx_into_stream("google.com", Wire::open());
    platform.drive(setup).unwrap();
    let asked: Vec<String> = platform.log.iter().map(|call| format!("{:?}", call)).collect();
    let numbers: Vec<u8> = b"google.com".to_vec();
    assert_eq!(
        asked,
        vec![
            "CreateContext { side: 1, kind: 0 }".to_string(),
            format!("SetPeerDomainName {{ ctx: 100, name: {:?} }}", numbers),
            "SetCertificate { ctx: 100, chain: [40, 41] }".to_string(),
            "SetAlpnProtocols { ctx: 100, protocols: [\"h2\", \"http/1.1\"] }".to_string(),
            "SetSessionOption { ctx: 100, option: 0, value: 1 }".to_string(),
            "SetProtocolVersionMin { ctx: 100, version: 7 }".to_string(),
            "SetProtocolVersionMax { ctx: 100, version: 8 }".to_string(),
            "GetNumberEnabledCiphers { ctx: 100 }".to_string(),
            "GetEnabledCiphers { ctx: 100, count: 4 }".to_string(),
            "SetEnabledCiphers { ctx: 100, ciphers: [49196, 49200, 157] }".to_string(),
            "SetIoFuncs { ctx: 100 }".to_string(),
            "SetConnection { ctx: 100 }".to_string(),
        ]
    );
}

#[test]
fn client_setup_stops_at_the_first_failure() {
    for (name, calls) in [
        ("SetPeerDomainName", 2),
        ("SetSessionOption", 3),
        ("GetNumberEnabledCiphers", 4),
        ("GetEnabledCiphers", 5),
        ("SetEnabledCiphers", 6),
        ("SetIoFuncs", 7),
        ("SetConnection", 8),
    ] {
        let mut platform = Platform::new(google());
        platform.refuse = Some((name, -50));
        let builder = ClientBuilder::new();
        match platform.client(&builder, "google.com", Wire::open()) {
            Err(ClientHandshakeError::Failure(err)) => assert_eq!(err.code(), -50),
            _ => panic!("expected failure at {}", name),
        }
        assert_eq!(platform.log.len(), calls, "{}", name);
    }
}

#[test]
fn check_stops_at_the_first_failure() {
    for name in [
        "GetSessionState",
        "CopyPeerTrust",
        "SetAnchorCertificates",
        "SetAnchorCertificatesOnly",
        "SetPolicies",
        "Evaluate",
    ] {
        let mut platform = Platform::new(google());
        platform.refuse = Some((name, -25));
        let builder = ClientBuilder::new();
        match platform.client(&builder, "google.com", Wire::open()) {
            Err(ClientHandshakeError::Failure(err)) => assert_eq!(err.code(), -25),
            _ => panic!("expected failure at {}", name),
        }
    }
}

#[test]
fn domain_is_ignored_without_sni_and_verification() {
    let mut logs: Vec<Vec<String>> = Vec::new();
    for domain in ["google.com", "foobar.com"] {
        let mut platform = Platform::new(google());
        let mut builder = ClientBuilder::new();
        builder.use_sni(false).danger_accept_invalid_hostnames(true);
        platform.client(&builder, domain, Wire::open()).unwrap();
        logs.push(platform.log.iter().map(|c| format!("{:?}", c)).collect());
    }
    assert_eq!(logs[0], logs[1]);
    assert!(logs[0].contains(&"CreateSslPolicy { side: 0, hostname: None }".to_string()));
}

#[test]
fn client_handshake_is_interrupted_and_restarted() {
    let mut platform = Platform::new(google());
    let mut wire = Wire::open();
    wire.fail_read = Some(stream_error(ErrorKind::WouldBlock, 3));
    let mut mid: MidHandshakeClientBuilder<Wire> =
        match platform.client(&ClientBuilder::new(), "google.com", wire) {
            Err(ClientHandshakeError::Interrupted(mid)) => mid,
            _ => panic!("expected an interruption"),
        };
    assert_eq!(mid.error().code(), ERR_SSL_WOULD_BLOCK);
    assert_eq!(mid.get_ref().written, 10);
    mid.get_mut().chunk = 1;
    let step = mid.handshake();
    let stream = platform.finish_client(step).unwrap();
    assert_eq!(stream.get_ref().written, 30);
}

#[test]
fn handshake_pauses_for_a_client_certificate() {
    let mut platform = Platform::new(google());
    let mut ctx = platform.new_context(SslProtocolSide::CLIENT);
    platform.drive(ctx.set_break_on_cert_requested(true)).unwrap();
    let stream = platform.drive(ctx.into_stream(Wire::open())).unwrap();
    let pause = HandshakeStep::handshake(stream, ERR_SSL_CLIENT_CERT_REQUESTED);
    let mut mid = match platform.finish(pause) {
        Err(HandshakeError::Interrupted(mid)) => mid,
        _ => panic!("expected an interruption"),
    };
    assert!(mid.client_cert_requested());
    assert!(!mid.server_auth_completed());
    assert!(!mid.would_block());
    assert_eq!(mid.reason(), ERR_SSL_CLIENT_CERT_REQUESTED);
    assert_eq!(mid.error().code(), ERR_SSL_CLIENT_CERT_REQUESTED);
    assert_eq!(mid.context().as_inner(), 100);
    mid.get_mut().chunk = 2;
    assert_eq!(mid.get_ref().chunk, 2);
    platform.refuse = Some(("GetSessionOption", -1));
    assert!(platform
        .drive(mid.context_mut().break_on_server_auth())
        .is_err());
    assert!(matches!(mid.handshake(), HandshakeStep::Handshake(_)));
}

#[test]
fn client_fails_on_pauses_that_it_cannot_answer() {
    let mut platform = Platform::new(google());
    let ctx = platform.new_context(SslProtocolSide::CLIENT);
    let stream = platform.drive(ctx.into_stream(Wire::open())).unwrap();
    let settings = match ClientBuilder::new().handshake("google.com", Wire::open()) {
        ClientStep::Setup { settings, .. } => settings,
        _ => panic!("expected the set-up"),
    };
    match ClientStep::handshake(stream, settings, ERR_SSL_CLIENT_CERT_REQUESTED) {
        ClientStep::Done(Outcome::Return(Err(ClientHandshakeError::Failure(err)))) => {
            assert_eq!(err.code(), ERR_SSL_CLIENT_CERT_REQUESTED)
        }
        _ => panic!("expected failure"),
    }
}

#[test]
fn server_handshake() {
    let mut platform = Platform::new(google());
    let builder = ServerBuilder::new(
        &SecIdentity { raw: 40 },
        &[SecCertificate { raw: 41 }, SecCertificate { raw: 42 }],
    );
    let stream = platform.serve(&builder, Wire::open()).unwrap();
    let raw = stream.context().as_inner();
    assert_eq!(platform.session(raw).chain, vec![40, 41, 42]);
    assert_eq!(platform.session(raw).side, 0);
    assert_eq!(platform.log.len(), 5);
}

#[test]
fn server_handshake_has_no_way_back() {
    let mut platform = Platform::new(google());
    let builder = ServerBuilder::new(&SecIdentity { raw: 40 }, &[]);
    let mut wire = Wire::open();
    wire.fail_write = Some(stream_error(ErrorKind::WouldBlock, 1));
    let refused = platform.serve(&builder, wire);
    assert_eq!(refused.err().unwrap().code(), ERR_SSL_WOULD_BLOCK);

    platform.refuse = Some(("SetCertificate", ERR_SEC_TRUST_SETTING_DENY));
    let refused = platform.serve(&builder, Wire::open());
    assert_eq!(refused.err().unwrap().code(), ERR_SEC_TRUST_SETTING_DENY);
}

#[test]
fn settings_are_read_back() {
    let mut platform = Platform::new(google());
    let mut ctx = platform.new_context(SslProtocolSide::CLIENT);
    assert!(!platform.drive(ctx.break_on_server_auth()).unwrap());
    platform.drive(ctx.set_break_on_server_auth(true)).unwrap();
    assert!(platform.drive(ctx.break_on_server_auth()).unwrap());
    platform.drive(ctx.set_break_on_cert_requested(true)).unwrap();
    platform.drive(ctx.set_break_on_client_auth(true)).unwrap();
    platform.drive(ctx.set_false_start(true)).unwrap();
    platform.drive(ctx.set_send_one_byte_record(true)).unwrap();
    assert_eq!(
        platform.session(ctx.as_inner()).options,
        [1, 1, 1, 1, 1, 0, 0, 0]
    );
    platform.drive(ctx.set_false_start(false)).unwrap();
    assert!(platform.drive(ctx.break_on_cert_requested()).unwrap());
    assert!(platform.drive(ctx.break_on_client_auth()).unwrap());
    assert!(!platform.drive(ctx.false_start()).unwrap());
    assert!(platform.drive(ctx.send_one_byte_record()).unwrap());

    platform
        .drive(ctx.set_protocol_version_min(SslProtocol::TLS11))
        .unwrap();
    platform
        .drive(ctx.set_protocol_version_max(SslProtocol::DTLS1))
        .unwrap();
    assert_eq!(
        platform.drive(ctx.protocol_version_min()).unwrap(),
        SslProtocol::TLS11
    );
    assert_eq!(
        platform.drive(ctx.protocol_version_max()).unwrap(),
        SslProtocol::DTLS1
    );
    assert_eq!(
        platform.drive(ctx.negotiated_protocol_version()).unwrap(),
        SslProtocol::DTLS1
    );
    assert_eq!(
        platform.drive(ctx.negotiated_cipher()).unwrap().to_raw(),
        0xC02C
    );
    assert_eq!(platform.drive(ctx.supported_ciphers()).unwrap().len(), 5);
    assert_eq!(platform.drive(ctx.buffered_read_size()).unwrap(), 3);
    assert_eq!(
        platform.drive(ctx.client_certificate_state()).unwrap(),
        secure_transport::types::SslClientCertificateState::NONE
    );
    platform
        .drive(ctx.set_client_side_authenticate(
            secure_transport::types::SslAuthenticate::ALWAYS,
        ))
        .unwrap();
    assert_eq!(
        platform.drive(ctx.client_certificate_state()).unwrap(),
        secure_transport::types::SslClientCertificateState::REQUESTED
    );
    let op = ctx.set_protocol_version_enabled(SslProtocol::ALL, true);
    assert!(matches!(
        op.call(),
        CallOf::SetProtocolVersionEnabled {
            ctx: 100,
            version: 6,
            enabled: 1
        }
    ));
}

#[test]
fn server_setup_stops_at_the_first_failure() {
    for (name, calls) in [("SetCertificate", 2), ("SetIoFuncs", 3), ("SetConnection", 4)] {
        let mut platform = Platform::new(google());
        platform.refuse = Some((name, -61));
        let builder = ServerBuilder::new(&SecIdentity { raw: 40 }, &[]);
        let refused = platform.serve(&builder, Wire::open());
        assert_eq!(refused.err().unwrap().code(), -61);
        assert_eq!(platform.log.len(), calls, "{}", name);
    }
}

#[test]
fn acceptance_comes_before_the_next_attempt() {
    let mut platform = Platform::new(google());
    let mut builder = ClientBuilder::new();
    builder.anchor_certificates(&[SecCertificate { raw: 8 }, SecCertificate { raw: 9 }]);
    platform
        .client(&builder, "google.com", Wire::open())
        .unwrap();
    let asked: Vec<String> = platform.log.iter().map(|call| format!("{:?}", call)).collect();
    let first = asked
        .iter()
        .position(|call| call == "Handshake { ctx: 100 }")
        .unwrap();
    assert_eq!(
        asked[first..].to_vec(),
        vec![
            "Handshake { ctx: 100 }".to_string(),
            "GetSessionState { ctx: 100 }".to_string(),
            "CopyPeerTrust { ctx: 100 }".to_string(),
            "SetAnchorCertificates { trust: 200, certs: [8, 9] }".to_string(),
            "SetAnchorCertificatesOnly { trust: 200, only: false }".to_string(),
            "CreateSslPolicy { side: 0, hostname: Some(\"google.com\") }".to_string(),
            "SetPolicies { trust: 200, policy: 300 }".to_string(),
            "Evaluate { trust: 200 }".to_string(),
            "Handshake { ctx: 100 }".to_string(),
        ]
    );
}

#[test]
fn a_failed_attempt_is_a_failure() {
    let mut platform = Platform::new(google());
    let mut wire = Wire::open();
    wire.fail_read = Some(stream_error(ErrorKind::ConnectionReset, 3));
    match platform.client(&ClientBuilder::new(), "google.com", wire) {
        Err(ClientHandshakeError::Failure(err)) => assert_eq!(err.code(), -9806),
        _ => panic!("expected failure"),
    }
    let mut wire = Wire::open();
    wire.fail_write = Some(StreamOutcome::Moved(0));
    match platform.client(&ClientBuilder::new(), "google.com", wire) {
        Err(ClientHandshakeError::Failure(err)) => assert_eq!(err.code(), -9816),
        _ => panic!("expected failure"),
    }
}

#[test]
fn would_block_tells_the_kind_of_error() {
    for (kind, expected) in [(ErrorKind::WouldBlock, true), (ErrorKind::NotConnected, false)] {
        let mut platform = Platform::new(google());
        let ctx = platform.new_context(SslProtocolSide::CLIENT);
        let mut wire = Wire::open();
        wire.fail_write = Some(stream_error(kind, 3));
        match platform.connect(ctx, wire) {
            Err(HandshakeError::Interrupted(mid)) => {
                assert_eq!(mid.reason(), ERR_SSL_WOULD_BLOCK);
                assert_eq!(mid.would_block(), expected);
            }
            _ => panic!("expected an interruption"),
        }
    }
    // The platform may pause on its own account.
    let mut platform = Platform::new(google());
    let ctx = platform.new_context(SslProtocolSide::CLIENT);
    let stream = platform.drive(ctx.into_stream(Wire::open())).unwrap();
    let pause = HandshakeStep::handshake(stream, ERR_SSL_WOULD_BLOCK);
    match platform.finish(pause) {
        Err(HandshakeError::Interrupted(mid)) => assert!(!mid.would_block()),
        _ => panic!("expected an interruption"),
    }
}

#[test]
fn client_waits_for_a_stream_that_is_not_connected() {
    let mut platform = Platform::new(google());
    let mut wire = Wire::open();
    wire.fail_write = Some(stream_error(ErrorKind::NotConnected, 3));
    let mid = match platform.client(&ClientBuilder::new(), "google.com", wire) {
        Err(ClientHandshakeError::Interrupted(mid)) => mid,
        _ => panic!("expected an interruption"),
    };
    assert!(!mid.stream.would_block());
    assert_eq!(mid.settings.domain.as_deref(), Some("google.com"));
    let step = mid.handshake();
    platform.finish_client(step).unwrap();
}

#[test]
fn an_empty_whitelist_disables_all_ciphers() {
    let suite = |raw: u32| CipherSuite::from_raw(raw);
    let mut platform = Platform::new(google());
    let mut builder = ClientBuilder::new();
    assert_eq!(
        builder.retain_ciphers(&[suite(1), suite(2)]),
        vec![suite(1), suite(2)]
    );
    builder.whitelist_ciphers(&[]);
    assert!(builder.retain_ciphers(&[suite(1), suite(2)]).is_empty());
    let stream = platform
        .drive(builder.ctx_into_stream("google.com", Wire::open()))
        .unwrap();
    assert!(platform
        .drive(stream.context().enabled_ciphers())
        .unwrap()
        .is_empty());
}

#[test]
fn refused_certificates_are_judged_by_the_settings() {
    let mut platform = Platform::new(google());
    let mut builder = ClientBuilder::new();
    builder
        .anchor_certificates(&[SecCertificate { raw: 8 }])
        .trust_anchor_certificates_only(true);
    assert!(platform
        .client(&builder, "google.com", Wire::open())
        .is_err());
    let asked: Vec<String> = platform.log.iter().map(|call| format!("{:?}", call)).collect();
    assert_eq!(
        asked[asked.len() - 5..].to_vec(),
        vec![
            "SetAnchorCertificates { trust: 200, certs: [8] }".to_string(),
            "SetAnchorCertificatesOnly { trust: 200, only: true }".to_string(),
            "CreateSslPolicy { side: 0, hostname: Some(\"google.com\") }".to_string(),
            "SetPolicies { trust: 200, policy: 300 }".to_string(),
            "Evaluate { trust: 200 }".to_string(),
        ]
    );
}

#[test]
fn pauses_are_told_by_the_option() {
    // Neither option, then each of them alone, then both.
    for (auth, cert) in [(false, false), (true, false), (false, true), (true, true)] {
        for status in [ERR_SSL_PEER_AUTH_COMPLETED, ERR_SSL_CLIENT_CERT_REQUESTED] {
            let mut platform = Platform::new(google());
            let mut ctx = platform.new_context(SslProtocolSide::SERVER);
            // A server that pauses for the client's certificate does so with
            // the status of a completed authentication.
            platform.drive(ctx.set_break_on_client_auth(true)).unwrap();
            platform.drive(ctx.set_break_on_server_auth(auth)).unwrap();
            platform.drive(ctx.set_break_on_cert_requested(cert)).unwrap();
            let stream = platform.drive(ctx.into_stream(Wire::open())).unwrap();
            let pause = HandshakeStep::handshake(stream, status);
            let mut mid = match platform.finish(pause) {
                Err(HandshakeError::Interrupted(mid)) => mid,
                _ => panic!("expected an interruption"),
            };
            let completed = auth && status == ERR_SSL_PEER_AUTH_COMPLETED;
            let requested = cert && status == ERR_SSL_CLIENT_CERT_REQUESTED;
            assert_eq!(mid.reason(), status);
            assert_eq!(mid.server_auth_completed(), completed);
            assert_eq!(mid.client_cert_requested(), requested);
            // It was set when the handshake paused, whatever comes later.
            let op = mid.context_mut().set_break_on_server_auth(false);
            platform.drive(op).unwrap();
            let op = mid.context_mut().set_break_on_cert_requested(false);
            platform.drive(op).unwrap();
            assert_eq!(mid.server_auth_completed(), completed);
            assert_eq!(mid.client_cert_requested(), requested);
        }
    }
}

#[test]
fn a_pause_that_cannot_be_explained_is_still_one() {
    let mut platform = Platform::new(google());
    let mut ctx = platform.new_context(SslProtocolSide::CLIENT);
    platform.drive(ctx.set_break_on_server_auth(true)).unwrap();
    platform.refuse = Some(("GetSessionOption", -1));
    match platform.connect(ctx, Wire::open()) {
        Err(HandshakeError::Interrupted(mid)) => {
            assert_eq!(mid.reason(), ERR_SSL_PEER_AUTH_COMPLETED);
            assert!(!mid.server_auth_completed());
        }
        _ => panic!("expected an interruption"),
    }
}

#[test]
fn server_auth_pauses_a_session_that_asks_for_it() {
    let mut platform = Platform::new(google());
    let mut ctx = platform.new_context(SslProtocolSide::CLIENT);
    platform.drive(ctx.set_break_on_server_auth(true)).unwrap();
    let mid = match platform.connect(ctx, Wire::open()) {
        Err(HandshakeError::Interrupted(mid)) => mid,
        _ => panic!("expected an interruption"),
    };
    assert!(mid.server_auth_completed());
    let step = mid.handshake();
    assert!(platform.finish(step).is_ok());
}
