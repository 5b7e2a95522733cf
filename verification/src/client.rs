//! The client side: configuration, and the set-up of the session.
use crate::base::{ERR_SEC_SUCCESS, Error, cvt};
use crate::context::{
    Creation, OPTION_BREAK_ON_SERVER_AUTH, SslContext, certificate_refs, cipher_numbers,
    cipher_suites, flag_of, from_cipher_numbers, to_strings,
};
use crate::connection::Connection;
use crate::operation::{Next, Operation, answered, calls, run};
use crate::platform::{Call, CallOf, CallView, Reply, Value, names_view};
use crate::stream::{Attachment, SslStream};
use crate::types::{
    CipherSuite, SecCertificate, SecIdentity, SslConnectionType, SslProtocol, SslProtocolSide,
};
use vstd::prelude::*;
use vstd::slice::slice_to_vec;
use vstd::utf8::encode_utf8;

verus! {

/// A builder type to simplify the creation of client side `SslStream`s.
#[derive(Debug)]
pub struct ClientBuilder {
    pub identity: Option<SecIdentity>,
    pub certs: Vec<SecCertificate>,
    pub chain: Vec<SecCertificate>,
    pub protocol_min: Option<SslProtocol>,
    pub protocol_max: Option<SslProtocol>,
    pub trust_certs_only: bool,
    pub use_sni: bool,
    pub danger_accept_invalid_certs: bool,
    pub danger_accept_invalid_hostnames: bool,
    /// The only suites to allow, if there is such a list. An empty one allows
    /// none.
    pub whitelisted_ciphers: Option<Vec<CipherSuite>>,
    pub blacklisted_ciphers: Vec<CipherSuite>,
    pub alpn: Option<Vec<String>>,
}

/// Whether a builder has the default options: no identity, no certificates,
/// no limits on versions or suites, no ALPN, the name announced to the server
/// and the certificate judged in full.
pub open spec fn is_default(builder: ClientBuilder) -> bool {
    &&& builder.identity is None
    &&& builder.certs@.len() == 0
    &&& builder.chain@.len() == 0
    &&& builder.protocol_min is None
    &&& builder.protocol_max is None
    &&& !builder.trust_certs_only
    &&& builder.use_sni
    &&& !builder.danger_accept_invalid_certs
    &&& !builder.danger_accept_invalid_hostnames
    &&& builder.whitelisted_ciphers is None
    &&& builder.blacklisted_ciphers@.len() == 0
    &&& builder.alpn is None
}

impl Default for ClientBuilder {
    fn default() -> (builder: ClientBuilder)
        ensures
            is_default(builder),
    {
        ClientBuilder::new()
    }
}

impl ClientBuilder {
    /// Creates a new builder with default options.
    pub fn new() -> (builder: Self)
        ensures
            is_default(builder),
    {
        ClientBuilder {
            identity: None,
            certs: Vec::new(),
            chain: Vec::new(),
            protocol_min: None,
            protocol_max: None,
            trust_certs_only: false,
            use_sni: true,
            danger_accept_invalid_certs: false,
            danger_accept_invalid_hostnames: false,
            whitelisted_ciphers: None,
            blacklisted_ciphers: Vec::new(),
            alpn: None,
        }
    }

    /// Specifies the set of root certificates to trust when
    /// verifying the server's certificate.
    pub fn anchor_certificates(&mut self, certs: &[SecCertificate]) -> (builder: &mut Self)
        ensures
            builder.certs@ == certs@,
            *builder == (ClientBuilder { certs: builder.certs, ..*old(self) }),
            *final(self) == *final(builder),
    {
        self.certs = slice_to_vec(certs);
        self
    }

    /// Specifies whether to trust the built-in certificates in addition
    /// to specified anchor certificates.
    pub fn trust_anchor_certificates_only(&mut self, only: bool) -> (builder: &mut Self)
        ensures
            *builder == (ClientBuilder { trust_certs_only: only, ..*old(self) }),
            *final(self) == *final(builder),
    {
        self.trust_certs_only = only;
        self
    }

    /// Specifies whether to trust invalid certificates.
    ///
    /// # Warning
    ///
    /// You should think very carefully before using this method. If invalid
    /// certificates are trusted, *any* certificate for *any* site will be
    /// trusted for use. This includes expired certificates. This introduces
    /// significant vulnerabilities, and should only be used as a last resort.
    pub fn danger_accept_invalid_certs(&mut self, noverify: bool) -> (builder: &mut Self)
        ensures
            *builder == (ClientBuilder { danger_accept_invalid_certs: noverify, ..*old(self) }),
            *final(self) == *final(builder),
    {
        self.danger_accept_invalid_certs = noverify;
        self
    }

    /// Specifies whether to use Server Name Indication (SNI).
    pub fn use_sni(&mut self, use_sni: bool) -> (builder: &mut Self)
        ensures
            *builder == (ClientBuilder { use_sni: use_sni, ..*old(self) }),
            *final(self) == *final(builder),
    {
        self.use_sni = use_sni;
        self
    }

    /// Specifies whether to verify that the server's hostname matches its certificate.
    ///
    /// # Warning
    ///
    /// You should think very carefully before using this method. If hostnames are not verified,
    /// *any* valid certificate for *any* site will be trusted for use. This introduces significant
    /// vulnerabilities, and should only be used as a last resort.
    pub fn danger_accept_invalid_hostnames(&mut self, danger_accept_invalid_hostnames: bool) -> (builder: &mut Self)
        ensures
            *builder == (ClientBuilder { danger_accept_invalid_hostnames: danger_accept_invalid_hostnames, ..*old(self) }),
            *final(self) == *final(builder),
    {
        self.danger_accept_invalid_hostnames = danger_accept_invalid_hostnames;
        self
    }

    /// Set a whitelist of enabled ciphers. Any ciphers not whitelisted will be disabled.
    pub fn whitelist_ciphers(&mut self, whitelisted_ciphers: &[CipherSuite]) -> (builder: &mut Self)
        ensures
            builder.whitelisted_ciphers matches Some(list) && list@ == whitelisted_ciphers@,
            *builder == (ClientBuilder { whitelisted_ciphers: builder.whitelisted_ciphers, ..*old(self) }),
            *final(self) == *final(builder),
    {
        self.whitelisted_ciphers = Some(slice_to_vec(whitelisted_ciphers));
        self
    }

    /// Set a blacklist of disabled ciphers. Blacklisted ciphers will be disabled.
    pub fn blacklist_ciphers(&mut self, blacklisted_ciphers: &[CipherSuite]) -> (builder: &mut Self)
        ensures
            builder.blacklisted_ciphers@ == blacklisted_ciphers@,
            *builder == (ClientBuilder { blacklisted_ciphers: builder.blacklisted_ciphers, ..*old(self) }),
            *final(self) == *final(builder),
    {
        self.blacklisted_ciphers = slice_to_vec(blacklisted_ciphers);
        self
    }

    /// Use the specified identity as a SSL/TLS client certificate.
    pub fn identity(&mut self, identity: &SecIdentity, chain: &[SecCertificate]) -> (builder:
        &mut Self)
        ensures
            builder.chain@ == chain@,
            *builder == (ClientBuilder {
                identity: Some(*identity),
                chain: builder.chain,
                ..*old(self)
            }),
            *final(self) == *final(builder),
    {
        self.identity = Some(*identity);
        self.chain = slice_to_vec(chain);
        self
    }

    /// Configure the minimum protocol that this client will support.
    pub fn protocol_min(&mut self, min: SslProtocol) -> (builder: &mut Self)
        ensures
            *builder == (ClientBuilder { protocol_min: Some(min), ..*old(self) }),
            *final(self) == *final(builder),
    {
        self.protocol_min = Some(min);
        self
    }

    /// Configure the maximum protocol that this client will support.
    pub fn protocol_max(&mut self, max: SslProtocol) -> (builder: &mut Self)
        ensures
            *builder == (ClientBuilder { protocol_max: Some(max), ..*old(self) }),
            *final(self) == *final(builder),
    {
        self.protocol_max = Some(max);
        self
    }

    /// Configures the set of protocols used for ALPN.
    pub fn alpn_protocols(&mut self, protocols: &[&str]) -> (builder: &mut Self)
        ensures
            builder.alpn matches Some(alpn) && names_view(alpn@) == protocols@.map_values(
                |protocol: &str| protocol@,
            ),
            *builder == (ClientBuilder { alpn: builder.alpn, ..*old(self) }),
            *final(self) == *final(builder),
    {
        self.alpn = Some(to_strings(protocols));
        self
    }
}

/// Whether a suite is in a list.
fn contains_cipher(list: &[CipherSuite], cipher: CipherSuite) -> (found: bool)
    ensures
        found == list@.contains(cipher),
{
    let mut i: usize = 0;
    while i < list.len()
        invariant
            i <= list@.len(),
            forall|j: int| 0 <= j < i ==> list@[j] != cipher,
        decreases list@.len() - i,
    {
        if list[i] == cipher {
            assert(list@[i as int] == cipher);
            return true;
        }
        i += 1;
    }
    false
}

/// The list with each call as a mathematical value.
pub open spec fn calls_view(calls: Seq<Call>) -> Seq<CallView> {
    calls.map_values(|call: Call| call@)
}

impl ClientBuilder {
    /// The suites to enable, given those that the platform has enabled: the
    /// whitelisted ones if there is a whitelist, be it empty, else the enabled
    /// ones, in either case without the blacklisted ones.
    pub open spec fn allowed_ciphers(self, enabled: Seq<CipherSuite>) -> Seq<CipherSuite> {
        let candidates = match self.whitelisted_ciphers {
            Some(list) => list@,
            None => enabled,
        };
        candidates.filter(|cipher: CipherSuite| !self.blacklisted_ciphers@.contains(cipher))
    }

    /// The settings for the protocol versions.
    pub open spec fn protocol_settings(self, ctx: usize) -> Seq<CallView> {
        (match self.protocol_min {
            Some(min) => seq![CallView::SetProtocolVersionMin { ctx, version: min.raw() }],
            None => Seq::empty(),
        }) + (match self.protocol_max {
            Some(max) => seq![CallView::SetProtocolVersionMax { ctx, version: max.raw() }],
            None => Seq::empty(),
        })
    }

    /// The settings that a new session is given before its cipher suites,
    /// in order. `sni` is the name to announce to the server, if any.
    pub open spec fn session_settings(self, ctx: usize, sni: Option<Seq<char>>) -> Seq<CallView> {
        (match sni {
            Some(name) => seq![CallView::SetPeerDomainName { ctx, name: encode_utf8(name) }],
            None => Seq::empty(),
        }) + (match self.identity {
            Some(identity) => seq![
                CallView::SetCertificate {
                    ctx,
                    chain: seq![identity.raw] + certificate_refs(self.chain@),
                },
            ],
            None => Seq::empty(),
        }) + (match self.alpn {
            Some(protocols) => seq![
                CallView::SetAlpnProtocols { ctx, protocols: names_view(protocols@) },
            ],
            None => Seq::empty(),
        }) + seq![
            CallView::SetSessionOption {
                ctx,
                option: OPTION_BREAK_ON_SERVER_AUTH,
                value: flag_of(true),
            },
        ] + self.protocol_settings(ctx)
    }

    /// Returns the suites to enable, given those that the platform has
    /// enabled.
    pub fn retain_ciphers(&self, enabled: &[CipherSuite]) -> (ciphers: Vec<CipherSuite>)
        ensures
            ciphers@ == self.allowed_ciphers(enabled@),
    {
        let candidates: &[CipherSuite] = match &self.whitelisted_ciphers {
            Some(list) => list.as_slice(),
            None => enabled,
        };
        let ghost keep = |cipher: CipherSuite| !self.blacklisted_ciphers@.contains(cipher);
        let mut ciphers: Vec<CipherSuite> = Vec::new();
        let mut i: usize = 0;
        while i < candidates.len()
            invariant
                i <= candidates@.len(),
                keep == (|cipher: CipherSuite| !self.blacklisted_ciphers@.contains(cipher)),
                ciphers@ == candidates@.take(i as int).filter(keep),
            decreases candidates@.len() - i,
        {
            let cipher = candidates[i];
            proof {
                assert(candidates@.take(i + 1).drop_last() =~= candidates@.take(i as int));
                assert(candidates@.take(i + 1).last() == cipher);
                reveal(Seq::filter);
            }
            if !contains_cipher(self.blacklisted_ciphers.as_slice(), cipher) {
                ciphers.push(cipher);
            }
            i += 1;
        }
        assert(candidates@.take(i as int) =~= candidates@);
        ciphers
    }

    /// Returns the settings for the protocol versions.
    pub fn configure_protocols(&self, ctx: SslContext) -> (calls: Vec<Call>)
        ensures
            calls_view(calls@) == self.protocol_settings(ctx.raw),
    {
        let mut ctx = ctx;
        let mut calls: Vec<Call> = Vec::new();
        if let Some(min) = self.protocol_min {
            calls.push(ctx.set_protocol_version_min(min).call);
        }
        if let Some(max) = self.protocol_max {
            calls.push(ctx.set_protocol_version_max(max).call);
        }
        assert(calls_view(calls@) =~= self.protocol_settings(ctx.raw));
        calls
    }

    /// Returns the settings that a new session is given before its cipher
    /// suites, in order. `sni` is the name to announce to the server, if any.
    pub fn configure_session(&self, ctx: SslContext, sni: Option<&str>) -> (calls: Vec<Call>)
        ensures
            calls_view(calls@) == self.session_settings(ctx.raw, sni_view(sni)),
    {
        let mut ctx = ctx;
        let mut calls: Vec<Call> = Vec::new();
        if let Some(domain) = sni {
            calls.push(ctx.set_peer_domain_name(domain).call);
        }
        if let Some(identity) = &self.identity {
            calls.push(ctx.set_certificate(identity, self.chain.as_slice()).call);
        }
        if let Some(alpn) = &self.alpn {
            calls.push(CallOf::SetAlpnProtocols { ctx: ctx.raw, protocols: alpn.clone() });
        }
        calls.push(ctx.set_break_on_server_auth(true).call);
        let mut versions = self.configure_protocols(ctx);
        let ghost before = calls@;
        let ghost after = versions@;
        calls.append(&mut versions);
        assert(calls_view(calls@) =~= calls_view(before) + calls_view(after));
        assert(calls_view(calls@) =~= self.session_settings(ctx.raw, sni_view(sni)));
        calls
    }

    /// Configures the cipher suites of a session.
    pub fn configure_ciphers(&self, ctx: SslContext) -> (op: CipherConfiguration<'_>)
        ensures
            op == CipherConfiguration::started(self, ctx),
    {
        CipherConfiguration {
            builder: self,
            ctx,
            stage: if self.whitelisted_ciphers.is_none() {
                CipherStage::Count
            } else {
                CipherStage::Enable { enabled: None }
            },
        }
    }

    /// The name to announce to the server, if any.
    pub open spec fn sni<'a>(self, domain: &'a str) -> Option<&'a str> {
        if self.use_sni {
            Some(domain)
        } else {
            None
        }
    }

    /// Creates a session, configures it and attaches it to a stream that is
    /// connected to the given domain.
    pub fn ctx_into_stream<'a, S>(&'a self, domain: &'a str, stream: S) -> (op: ClientSetup<'a, S>)
        ensures
            op == (ClientSetup::Create { builder: self, sni: self.sni(domain), stream }),
    {
        let sni = if self.use_sni {
            Some(domain)
        } else {
            None
        };
        ClientSetup::Create { builder: self, sni, stream }
    }
}

/// The characters of an optional text.
pub open spec fn sni_view(sni: Option<&str>) -> Option<Seq<char>> {
    match sni {
        Some(name) => Some(name@),
        None => None,
    }
}

/// The configuration of a session up to its cipher suites, one setting after
/// the other. It ends with the first setting that fails.
#[derive(Debug)]
pub struct Configuration<'a> {
    pub builder: &'a ClientBuilder,
    pub sni: Option<&'a str>,
    pub ctx: SslContext,
    /// The number of settings that are made.
    pub made: usize,
}

impl<'a> Configuration<'a> {
    /// The settings to make.
    pub open spec fn settings(self) -> Seq<CallView> {
        self.builder.session_settings(self.ctx.raw, sni_view(self.sni))
    }
}

impl<'a> Operation for Configuration<'a> {
    type Output = Result<(), Error>;

    type Model = Result<(), Error>;

    open spec fn model(output: Result<(), Error>) -> Result<(), Error> {
        output
    }

    open spec fn wf(&self) -> bool {
        self.made < self.settings().len()
    }

    open spec fn awaiting(&self) -> CallView {
        self.settings()[self.made as int]
    }

    open spec fn after(self, reply: Reply) -> Next<Configuration<'a>, Result<(), Error>> {
        if reply.outcome() is Ok && self.made + 1 < self.settings().len() {
            Next::Ask(Configuration { made: (self.made + 1) as usize, ..self })
        } else {
            Next::Done(reply.outcome())
        }
    }

    fn call(&self) -> (call: Call) {
        let mut calls = self.builder.configure_session(self.ctx, self.sni);
        calls.swap_remove(self.made)
    }

    fn resume(self, reply: Reply) -> (next: Next<Configuration<'a>, Result<(), Error>>) {
        let result = reply.check();
        if result.is_ok() && self.made + 1 < self.builder.configure_session(
            self.ctx,
            self.sni,
        ).len() {
            Next::Ask(
                Configuration {
                    builder: self.builder,
                    sni: self.sni,
                    ctx: self.ctx,
                    made: self.made + 1,
                },
            )
        } else {
            Next::Done(result)
        }
    }
}

/// Where the configuration of the cipher suites stands.
#[derive(Debug)]
pub enum CipherStage {
    /// The number of enabled suites is asked for.
    Count,
    /// The enabled suites are asked for.
    List { count: usize },
    /// The allowed suites are set. The enabled ones are known by number if
    /// they were asked for.
    Enable { enabled: Option<Vec<u32>> },
}

/// The configuration of the cipher suites of a session. What the platform
/// has enabled is asked for only where there is no whitelist.
#[derive(Debug)]
pub struct CipherConfiguration<'a> {
    pub builder: &'a ClientBuilder,
    pub ctx: SslContext,
    pub stage: CipherStage,
}

impl<'a> CipherConfiguration<'a> {
    /// The configuration before its first call.
    pub open spec fn started(builder: &'a ClientBuilder, ctx: SslContext) -> CipherConfiguration<
        'a,
    > {
        CipherConfiguration {
            builder,
            ctx,
            stage: if builder.whitelisted_ciphers is None {
                CipherStage::Count
            } else {
                CipherStage::Enable { enabled: None }
            },
        }
    }
}

/// The suites with the numbers of an optional list.
pub open spec fn enabled_suites(enabled: Option<Vec<u32>>) -> Seq<CipherSuite> {
    match enabled {
        Some(numbers) => cipher_suites(numbers@),
        None => Seq::empty(),
    }
}

impl<'a> Operation for CipherConfiguration<'a> {
    type Output = Result<(), Error>;

    type Model = Result<(), Error>;

    open spec fn model(output: Result<(), Error>) -> Result<(), Error> {
        output
    }

    open spec fn wf(&self) -> bool {
        true
    }

    open spec fn awaiting(&self) -> CallView {
        match self.stage {
            CipherStage::Count => CallOf::GetNumberEnabledCiphers { ctx: self.ctx.raw },
            CipherStage::List { count } => CallOf::GetEnabledCiphers { ctx: self.ctx.raw, count },
            CipherStage::Enable { enabled } => CallOf::SetEnabledCiphers {
                ctx: self.ctx.raw,
                ciphers: cipher_numbers(self.builder.allowed_ciphers(enabled_suites(enabled))),
            },
        }
    }

    open spec fn after(self, reply: Reply) -> Next<CipherConfiguration<'a>, Result<(), Error>> {
        if reply.status != ERR_SEC_SUCCESS {
            Next::Done(Err(Error { code: reply.status }))
        } else {
            match self.stage {
                CipherStage::Count => Next::Ask(
                    CipherConfiguration {
                        stage: CipherStage::List { count: reply.value->Size_0 },
                        ..self
                    },
                ),
                CipherStage::List { count } => Next::Ask(
                    CipherConfiguration {
                        stage: CipherStage::Enable { enabled: Some(reply.value->Ciphers_0) },
                        ..self
                    },
                ),
                CipherStage::Enable { enabled } => Next::Done(Ok(())),
            }
        }
    }

    fn call(&self) -> (call: Call) {
        match &self.stage {
            CipherStage::Count => CallOf::GetNumberEnabledCiphers { ctx: self.ctx.raw },
            CipherStage::List { count } => CallOf::GetEnabledCiphers {
                ctx: self.ctx.raw,
                count: *count,
            },
            CipherStage::Enable { enabled } => {
                let current: Vec<CipherSuite> = match enabled {
                    Some(numbers) => from_cipher_numbers(numbers.as_slice()),
                    None => Vec::new(),
                };
                let ciphers = self.builder.retain_ciphers(current.as_slice());
                let mut ctx = self.ctx;
                ctx.set_enabled_ciphers(ciphers.as_slice()).call
            },
        }
    }

    fn resume(self, reply: Reply) -> (next: Next<CipherConfiguration<'a>, Result<(), Error>>) {
        if let Err(err) = cvt(reply.status) {
            return Next::Done(Err(err));
        }
        let CipherConfiguration { builder, ctx, stage } = self;
        match (stage, reply.value) {
            (CipherStage::Count, Value::Size(count)) => Next::Ask(
                CipherConfiguration { builder, ctx, stage: CipherStage::List { count } },
            ),
            (CipherStage::List { count: _ }, Value::Ciphers(numbers)) => Next::Ask(
                CipherConfiguration {
                    builder,
                    ctx,
                    stage: CipherStage::Enable { enabled: Some(numbers) },
                },
            ),
            (CipherStage::Enable { enabled: _ }, _) => Next::Done(Ok(())),
            (stage, _) => Next::Ask(CipherConfiguration { builder, ctx, stage }),
        }
    }
}

/// The set-up of a client's session over a stream.
#[allow(inconsistent_fields)]
#[derive(Debug)]
pub enum ClientSetup<'a, S> {
    /// The session is created.
    Create { builder: &'a ClientBuilder, sni: Option<&'a str>, stream: S },
    /// The session is configured up to its cipher suites.
    Configure { op: Configuration<'a>, stream: S },
    /// The cipher suites are configured.
    Ciphers { op: CipherConfiguration<'a>, stream: S },
    /// The session is attached to the stream.
    Attach { op: Attachment<S> },
}

/// How a client creates its session.
pub open spec fn client_creation() -> Creation {
    Creation { side: SslProtocolSide::CLIENT, kind: SslConnectionType::STREAM }
}

impl<'a, S> Operation for ClientSetup<'a, S> {
    type Output = Result<SslStream<S>, Error>;

    type Model = Result<SslStream<S>, Error>;

    open spec fn model(output: Result<SslStream<S>, Error>) -> Result<SslStream<S>, Error> {
        output
    }

    open spec fn wf(&self) -> bool {
        match *self {
            ClientSetup::Configure { op, stream } => op.wf(),
            _ => true,
        }
    }

    open spec fn awaiting(&self) -> CallView {
        match *self {
            ClientSetup::Create { .. } => client_creation().awaiting(),
            ClientSetup::Configure { op, stream } => op.awaiting(),
            ClientSetup::Ciphers { op, stream } => op.awaiting(),
            ClientSetup::Attach { op } => op.awaiting(),
        }
    }

    open spec fn after(self, reply: Reply) -> Next<
        ClientSetup<'a, S>,
        Result<SslStream<S>, Error>,
    > {
        match self {
            ClientSetup::Create { builder, sni, stream } => match client_creation().after(reply) {
                Next::Ask(_) => Next::Ask(self),
                Next::Done(Err(err)) => Next::Done(Err(err)),
                Next::Done(Ok(ctx)) => Next::Ask(
                    ClientSetup::Configure {
                        op: Configuration { builder, sni, ctx, made: 0 },
                        stream,
                    },
                ),
            },
            ClientSetup::Configure { op, stream } => match op.after(reply) {
                Next::Ask(rest) => Next::Ask(ClientSetup::Configure { op: rest, stream }),
                Next::Done(Err(err)) => Next::Done(Err(err)),
                Next::Done(Ok(())) => Next::Ask(
                    ClientSetup::Ciphers {
                        op: CipherConfiguration::started(op.builder, op.ctx),
                        stream,
                    },
                ),
            },
            ClientSetup::Ciphers { op, stream } => match op.after(reply) {
                Next::Ask(rest) => Next::Ask(ClientSetup::Ciphers { op: rest, stream }),
                Next::Done(Err(err)) => Next::Done(Err(err)),
                Next::Done(Ok(())) => Next::Ask(
                    ClientSetup::Attach { op: op.ctx.attachment(stream) },
                ),
            },
            ClientSetup::Attach { op } => match op.after(reply) {
                Next::Ask(rest) => Next::Ask(ClientSetup::Attach { op: rest }),
                Next::Done(result) => Next::Done(result),
            },
        }
    }

    fn call(&self) -> (call: Call) {
        match self {
            ClientSetup::Create { .. } => SslContext::new(
                SslProtocolSide::CLIENT,
                SslConnectionType::STREAM,
            ).call(),
            ClientSetup::Configure { op, .. } => op.call(),
            ClientSetup::Ciphers { op, .. } => op.call(),
            ClientSetup::Attach { op } => op.call(),
        }
    }

    fn resume(self, reply: Reply) -> (next: Next<ClientSetup<'a, S>, Result<SslStream<S>, Error>>) {
        match self {
            ClientSetup::Create { builder, sni, stream } => {
                let creation = SslContext::new(SslProtocolSide::CLIENT, SslConnectionType::STREAM);
                match creation.resume(reply) {
                    Next::Ask(_) => Next::Ask(ClientSetup::Create { builder, sni, stream }),
                    Next::Done(Err(err)) => Next::Done(Err(err)),
                    Next::Done(Ok(ctx)) => Next::Ask(
                        ClientSetup::Configure {
                            op: Configuration { builder, sni, ctx, made: 0 },
                            stream,
                        },
                    ),
                }
            },
            ClientSetup::Configure { op, stream } => {
                let builder: &'a ClientBuilder = op.builder;
                let ctx = op.ctx;
                match op.resume(reply) {
                    Next::Ask(rest) => Next::Ask(ClientSetup::Configure { op: rest, stream }),
                    Next::Done(Err(err)) => Next::Done(Err(err)),
                    Next::Done(Ok(())) => Next::Ask(
                        ClientSetup::Ciphers { op: builder.configure_ciphers(ctx), stream },
                    ),
                }
            },
            ClientSetup::Ciphers { op, stream } => {
                let ctx = op.ctx;
                match op.resume(reply) {
                    Next::Ask(rest) => Next::Ask(ClientSetup::Ciphers { op: rest, stream }),
                    Next::Done(Err(err)) => Next::Done(Err(err)),
                    Next::Done(Ok(())) => Next::Ask(
                        ClientSetup::Attach { op: ctx.into_stream(stream) },
                    ),
                }
            },
            ClientSetup::Attach { op } => match op.resume(reply) {
                Next::Ask(rest) => Next::Ask(ClientSetup::Attach { op: rest }),
                Next::Done(result) => Next::Done(result),
            },
        }
    }
}

/// The calls that configure the cipher suites of a session, given the
/// replies to them.
pub open spec fn cipher_calls(builder: ClientBuilder, ctx: usize, replies: Seq<Reply>) -> Seq<
    CallView,
> {
    if builder.whitelisted_ciphers is None {
        seq![
            CallView::GetNumberEnabledCiphers { ctx },
            CallView::GetEnabledCiphers { ctx, count: replies[0].value->Size_0 },
            CallView::SetEnabledCiphers {
                ctx,
                ciphers: cipher_numbers(
                    builder.allowed_ciphers(cipher_suites(replies[1].value->Ciphers_0@)),
                ),
            },
        ]
    } else {
        seq![
            CallView::SetEnabledCiphers {
                ctx,
                ciphers: cipher_numbers(builder.allowed_ciphers(Seq::empty())),
            },
        ]
    }
}

proof fn lemma_attach_calls<S>(ctx: SslContext, stream: S, replies: Seq<Reply>)
    requires
        run(ClientSetup::Attach { op: ctx.attachment(stream) }, replies) matches Next::Done(Ok(_)),
    ensures
        calls(ClientSetup::Attach { op: ctx.attachment(stream) }, replies) == seq![
            CallView::SetIoFuncs { ctx: ctx.raw },
            CallView::SetConnection { ctx: ctx.raw },
        ],
        run(ClientSetup::Attach { op: ctx.attachment(stream) }, replies) == Next::<
            ClientSetup<S>,
            Result<SslStream<S>, Error>,
        >::Done(Ok(SslStream { ctx, conn: ctx.attachment(stream).conn })),
{
    reveal_with_fuel(run, 3);
    reveal_with_fuel(calls, 3);
}

proof fn lemma_cipher_calls<S>(
    builder: &ClientBuilder,
    ctx: SslContext,
    stream: S,
    replies: Seq<Reply>,
)
    requires
        run(
            ClientSetup::Ciphers { op: CipherConfiguration::started(builder, ctx), stream },
            replies,
        ) matches Next::Done(Ok(_)),
    ensures
        calls(
            ClientSetup::Ciphers { op: CipherConfiguration::started(builder, ctx), stream },
            replies,
        ) == cipher_calls(*builder, ctx.raw, replies) + seq![
            CallView::SetIoFuncs { ctx: ctx.raw },
            CallView::SetConnection { ctx: ctx.raw },
        ],
        run(
            ClientSetup::Ciphers { op: CipherConfiguration::started(builder, ctx), stream },
            replies,
        ) == Next::<ClientSetup<S>, Result<SslStream<S>, Error>>::Done(
            Ok(SslStream { ctx, conn: ctx.attachment(stream).conn }),
        ),
{
    reveal_with_fuel(run, 4);
    reveal_with_fuel(calls, 4);
    let r1 = replies.drop_first();
    if builder.whitelisted_ciphers is None {
        let r3 = r1.drop_first().drop_first();
        lemma_attach_calls(ctx, stream, r3);
    } else {
        lemma_attach_calls(ctx, stream, r1);
    }
    assert(calls(
        ClientSetup::Ciphers { op: CipherConfiguration::started(builder, ctx), stream },
        replies,
    ) =~= cipher_calls(*builder, ctx.raw, replies) + seq![
        CallView::SetIoFuncs { ctx: ctx.raw },
        CallView::SetConnection { ctx: ctx.raw },
    ]);
}

proof fn lemma_configure_calls<S>(op: Configuration, stream: S, replies: Seq<Reply>)
    requires
        op.wf(),
        run(ClientSetup::Configure { op, stream }, replies) matches Next::Done(Ok(_)),
    ensures
        ({
            let left = op.settings().len() - op.made;
            let ciphers = ClientSetup::Ciphers {
                op: CipherConfiguration::started(op.builder, op.ctx),
                stream,
            };
            &&& left <= replies.len()
            &&& run(ciphers, replies.skip(left)) == run(
                ClientSetup::Configure { op, stream },
                replies,
            )
            &&& calls(ClientSetup::Configure { op, stream }, replies) == op.settings().skip(
                op.made as int,
            ) + calls(ciphers, replies.skip(left))
        }),
    decreases op.settings().len() - op.made,
{
    let setup = ClientSetup::Configure { op, stream };
    let left = op.settings().len() - op.made;
    assert(replies.len() > 0);
    let rest = replies.drop_first();
    let ciphers = ClientSetup::Ciphers {
        op: CipherConfiguration::started(op.builder, op.ctx),
        stream,
    };
    if left > 1 {
        let next = Configuration { made: (op.made + 1) as usize, ..op };
        lemma_configure_calls(next, stream, rest);
        assert(rest.skip(left - 1) =~= replies.skip(left));
        assert(op.settings().skip(op.made as int) =~= seq![op.awaiting()] + op.settings().skip(
            op.made + 1,
        ));
    } else {
        assert(rest =~= replies.skip(1));
        assert(op.settings().skip(op.made as int) =~= seq![op.awaiting()]);
    }
    assert(calls(setup, replies) =~= op.settings().skip(op.made as int) + calls(
        ciphers,
        replies.skip(left),
    ));
}

/// Law: what a client asks of the platform before the handshake. A session
/// is created for the client side of a stream; it is given all settings of
/// the builder, and among them always the one that makes the handshake pause
/// for the server's certificate; its cipher suites are cut down to the
/// allowed ones; and it is attached to the stream. Nothing else is asked, and
/// the stream of the session is the one that was given, with no failure kept.
pub proof fn law_client_setup<S>(
    builder: &ClientBuilder,
    sni: Option<&str>,
    stream: S,
    replies: Seq<Reply>,
)
    requires
        run(ClientSetup::Create { builder, sni, stream }, replies) matches Next::Done(Ok(_)),
    ensures
        ({
            let ctx = replies[0].value->Ref_0;
            let settings = builder.session_settings(ctx, sni_view(sni));
            let asked = calls(ClientSetup::Create { builder, sni, stream }, replies);
            &&& asked == seq![
                CallView::CreateContext {
                    side: SslProtocolSide::CLIENT.raw(),
                    kind: SslConnectionType::STREAM.raw(),
                },
            ] + settings + cipher_calls(
                *builder,
                ctx,
                replies.skip((1 + settings.len()) as int),
            ) + seq![CallView::SetIoFuncs { ctx }, CallView::SetConnection { ctx }]
            &&& asked.contains(
                CallView::SetSessionOption {
                    ctx,
                    option: OPTION_BREAK_ON_SERVER_AUTH,
                    value: flag_of(true),
                },
            )
        }),
        run(ClientSetup::Create { builder, sni, stream }, replies) matches Next::Done(Ok(ssl))
            && ssl.ctx.raw == replies[0].value->Ref_0 && *ssl.conn == (Connection {
            stream,
            err: None,
            panic: None,
        }),
{
    let create = ClientSetup::Create { builder, sni, stream };
    let ctx = SslContext { raw: replies[0].value->Ref_0 };
    let op = Configuration { builder, sni, ctx, made: 0 };
    let settings = op.settings();
    let rest = replies.drop_first();
    lemma_configure_calls(op, stream, rest);
    assert(rest.skip(settings.len() as int) =~= replies.skip((1 + settings.len()) as int));
    lemma_cipher_calls(builder, ctx, stream, replies.skip((1 + settings.len()) as int));
    assert(settings.skip(0) =~= settings);
    let asked = calls(create, replies);
    assert(asked =~= seq![create.awaiting()] + settings + cipher_calls(
        *builder,
        ctx.raw,
        replies.skip((1 + settings.len()) as int),
    ) + seq![CallView::SetIoFuncs { ctx: ctx.raw }, CallView::SetConnection { ctx: ctx.raw }]);
    let at = settings.len() - builder.protocol_settings(ctx.raw).len() - 1;
    assert(settings[at] == (CallView::SetSessionOption {
        ctx: ctx.raw,
        option: OPTION_BREAK_ON_SERVER_AUTH,
        value: flag_of(true),
    }));
    assert(asked[1 + at] == settings[at]);
}

/// Law: once a whitelist is set, even an empty one, any suites that are not
/// whitelisted will be disabled, and blacklisted suites will be disabled. The
/// suites that a session is given are exactly the whitelisted ones, or, where
/// no whitelist was ever set, the ones that the platform has enabled, as far
/// as they are not blacklisted.
pub proof fn law_allowed_ciphers(
    builder: ClientBuilder,
    enabled: Seq<CipherSuite>,
    cipher: CipherSuite,
)
    ensures
        builder.allowed_ciphers(enabled).contains(cipher) <==> {
            &&& !builder.blacklisted_ciphers@.contains(cipher)
            &&& match builder.whitelisted_ciphers {
                Some(list) => list@.contains(cipher),
                None => enabled.contains(cipher),
            }
        },
{
    let candidates = match builder.whitelisted_ciphers {
        Some(list) => list@,
        None => enabled,
    };
    let keep = |c: CipherSuite| !builder.blacklisted_ciphers@.contains(c);
    let allowed = candidates.filter(keep);
    assert(allowed == builder.allowed_ciphers(enabled));
    if allowed.contains(cipher) {
        candidates.lemma_filter_contains_rev(keep, cipher);
        let i = choose|i: int| 0 <= i < allowed.len() && allowed[i] == cipher;
        candidates.lemma_filter_pred(keep, i);
    }
    if candidates.contains(cipher) && keep(cipher) {
        let i = choose|i: int| 0 <= i < candidates.len() && candidates[i] == cipher;
        candidates.lemma_filter_contains(keep, i);
    }
}

proof fn lemma_setup_stops_at_failure<S>(op: ClientSetup<S>, replies: Seq<Reply>)
    requires
        !(op is Create),
        answered(op, replies),
    ensures
        calls(op, replies).len() >= 1,
        forall|k: int|
            0 <= k < calls(op, replies).len() - 1 ==> (#[trigger] replies[k]).outcome() is Ok,
        run(op, replies) matches Next::Done(result) ==> {
            let last = replies[calls(op, replies).len() - 1].outcome();
            &&& calls(op, replies).len() <= replies.len()
            &&& result is Ok <==> last is Ok
            &&& result matches Err(err) ==> last == Err::<(), Error>(err)
        },
        run(op, replies) is Ask ==> calls(op, replies).len() == replies.len() + 1,
    decreases replies.len(),
{
    if replies.len() > 0 {
        let rest = replies.drop_first();
        match op.after(replies[0]) {
            Next::Ask(next) => {
                lemma_setup_stops_at_failure(next, rest);
                assert forall|k: int| 0 <= k < calls(op, replies).len() - 1 implies (
                #[trigger] replies[k]).outcome() is Ok by {
                    if k > 0 {
                        assert(rest[k - 1] == replies[k]);
                    }
                }
                if run(op, replies) is Done {
                    assert(rest[calls(next, rest).len() - 1] == replies[calls(op, replies).len()
                        - 1]);
                }
            },
            Next::Done(_) => {},
        }
    }
}

/// Law: the set-up of a client's session ends with the first call that
/// fails. Every call but the first, which creates the session and has no
/// status, is followed by another one only if it succeeded; the set-up
/// succeeds if its last call does, and else ends with the error of that call.
pub proof fn law_client_setup_stops_at_failure<S>(
    builder: &ClientBuilder,
    sni: Option<&str>,
    stream: S,
    replies: Seq<Reply>,
)
    requires
        answered(ClientSetup::Create { builder, sni, stream }, replies),
    ensures
        ({
            let create = ClientSetup::Create { builder, sni, stream };
            let asked = calls(create, replies).len();
            &&& forall|k: int| 1 <= k < asked - 1 ==> (#[trigger] replies[k]).outcome() is Ok
            &&& run(create, replies) matches Next::Done(result) ==> {
                let last = replies[asked - 1].outcome();
                &&& 1 < asked <= replies.len()
                &&& result is Ok <==> last is Ok
                &&& result matches Err(err) ==> last == Err::<(), Error>(err)
            }
        }),
{
    let create = ClientSetup::Create { builder, sni, stream };
    if replies.len() > 0 {
        let rest = replies.drop_first();
        let next = create.after(replies[0])->Ask_0;
        lemma_setup_stops_at_failure(next, rest);
        assert forall|k: int| 1 <= k < calls(create, replies).len() - 1 implies (
        #[trigger] replies[k]).outcome() is Ok by {
            assert(rest[k - 1] == replies[k]);
        }
        if run(create, replies) is Done {
            assert(rest[calls(next, rest).len() - 1] == replies[calls(create, replies).len() - 1]);
        }
    }
}

} // verus!
