//! Passing connections on through an HTTP proxy server with the CONNECT method.

use hyper::http::uri::InvalidUri;
use hyper::http::Error;
use hyper::{Body, Request, Uri};
use tokio_rustls::webpki::{DNSNameRef, InvalidDNSNameError};
use vstd::prelude::*;
use vstd::string::StringExecFns;

use crate::error::ErrorKind;
#[allow(unused_imports)]
use crate::text::{decimal, decimal_reads_back, value_of};
use crate::text::to_decimal;

verus! {

/// Declares `hyper::Uri`, which is `http::Uri`.
#[verifier::external_type_specification]
#[verifier::external_body]
pub struct ExUri(Uri);

/// Declares `http::uri::InvalidUri`.
#[verifier::external_type_specification]
#[verifier::external_body]
pub struct ExInvalidUri(InvalidUri);

/// Declares `hyper::Request`, which is `http::Request`.
#[verifier::external_type_specification]
#[verifier::external_body]
#[verifier::reject_recursive_types(T)]
pub struct ExRequest<T>(Request<T>);

/// Declares `hyper::Body`.
#[verifier::external_type_specification]
#[verifier::external_body]
pub struct ExBody(Body);

/// Declares `http::Error`.
#[verifier::external_type_specification]
#[verifier::external_body]
pub struct ExError(Error);

/// Declares `webpki::InvalidDNSNameError`.
#[verifier::external_type_specification]
#[verifier::external_body]
pub struct ExInvalidDNSNameError(InvalidDNSNameError);

/// The parts of a URI that tell where a server is.
#[derive(Debug)]
pub struct UriParts {
    pub scheme: Option<String>,
    pub host: Option<String>,
    pub port: Option<u16>,
}

/// The parts of a URI, with text as sequences of characters.
#[verifier::ext_equal]
pub struct UriPartsView {
    pub scheme: Option<Seq<char>>,
    pub host: Option<Seq<char>>,
    pub port: Option<u16>,
}

/// The characters of a text that may be missing.
pub open spec fn text_of(text: Option<String>) -> Option<Seq<char>> {
    match text {
        Some(text) => Some(text@),
        None => None,
    }
}

impl View for UriParts {
    type V = UriPartsView;

    open spec fn view(&self) -> UriPartsView {
        UriPartsView {
            scheme: text_of(self.scheme),
            host: text_of(self.host),
            port: self.port,
        }
    }
}

/// The URI that `text` is, or why it is none.
pub uninterp spec fn uri_of(text: Seq<char>) -> Result<Uri, InvalidUri>;

/// Calls `Uri::from_str`. What comes of a text depends on the text alone.
#[verifier::external_body]
fn read_uri(text: &str) -> (read: Result<Uri, InvalidUri>)
    ensures
        read == uri_of(text@),
{
    text.parse()
}

/// The scheme of a URI, if it has one.
pub uninterp spec fn scheme_of(uri: Uri) -> Option<Seq<char>>;

/// Calls `Uri::scheme_str`, which gives the scheme as text.
#[verifier::external_body]
fn read_scheme(uri: &Uri) -> (scheme: Option<String>)
    ensures
        text_of(scheme) == scheme_of(*uri),
{
    uri.scheme_str().map(String::from)
}

/// The host in a URI, if there is one.
pub uninterp spec fn host_of(uri: Uri) -> Option<Seq<char>>;

/// Calls `Uri::host`, which gives the host as text.
#[verifier::external_body]
fn read_host(uri: &Uri) -> (host: Option<String>)
    ensures
        text_of(host) == host_of(*uri),
{
    uri.host().map(String::from)
}

/// The port in a URI, if there is one.
pub uninterp spec fn port_of(uri: Uri) -> Option<u16>;

/// Calls `Uri::port_u16`, which gives the port as a number.
#[verifier::external_body]
fn read_port(uri: &Uri) -> (port: Option<u16>)
    ensures
        port == port_of(*uri),
{
    uri.port_u16()
}

/// The parts of a URI.
pub open spec fn parts_of(uri: Uri) -> UriPartsView {
    UriPartsView { scheme: scheme_of(uri), host: host_of(uri), port: port_of(uri) }
}

impl UriParts {
    /// The parts of a URI.
    pub fn of(uri: &Uri) -> (parts: UriParts)
        ensures
            parts@ == parts_of(*uri),
    {
        UriParts { scheme: read_scheme(uri), host: read_host(uri), port: read_port(uri) }
    }
}

/// A text is not a URI.
#[derive(Debug)]
pub struct NotAUri {
    pub error: InvalidUri,
}

impl NotAUri {
    /// The sort of failure that is reported.
    pub fn kind(&self) -> (kind: ErrorKind)
        ensures
            kind == ErrorKind::InvalidInput,
    {
        ErrorKind::InvalidInput
    }
}

/// What a text is read as: the URI that it is, or the failure that it is none.
pub open spec fn read_as(text: Seq<char>) -> Result<Uri, NotAUri> {
    match uri_of(text) {
        Ok(uri) => Ok(uri),
        Err(error) => Err(NotAUri { error }),
    }
}

/// The URI that `text` is.
pub fn parse_uri(text: &str) -> (read: Result<Uri, NotAUri>)
    ensures
        read == read_as(text@),
        read is Ok <==> uri_of(text@) is Ok,
        read matches Ok(uri) ==> uri_of(text@) == Ok::<Uri, InvalidUri>(uri),
        read matches Err(e) ==> uri_of(text@) == Err::<Uri, InvalidUri>(e.error),
{
    match read_uri(text) {
        Ok(uri) => Ok(uri),
        Err(error) => Err(NotAUri { error }),
    }
}

/// A text is read whole and as it is: as the URI that it is, and if it is none, as the failure
/// that says why.
pub proof fn text_is_read_whole(text: Seq<char>, uri: Uri, error: InvalidUri)
    ensures
        read_as(text) == Ok::<Uri, NotAUri>(uri) <==> uri_of(text) == Ok::<Uri, InvalidUri>(uri),
        read_as(text) == Err::<Uri, NotAUri>(NotAUri { error }) <==> uri_of(text) == Err::<
            Uri,
            InvalidUri,
        >(error),
{
}

/// Why a URI does not tell where a proxy server is.
#[derive(Debug)]
pub enum UriError {
    /// The scheme is neither `http` nor `https`.
    UnknownScheme { scheme: String },
    /// There is no host.
    NoHost,
}

/// The same, with text as a sequence of characters.
pub enum UriErrorView {
    UnknownScheme { scheme: Seq<char> },
    NoHost,
}

impl View for UriError {
    type V = UriErrorView;

    open spec fn view(&self) -> UriErrorView {
        match *self {
            UriError::UnknownScheme { scheme } => UriErrorView::UnknownScheme { scheme: scheme@ },
            UriError::NoHost => UriErrorView::NoHost,
        }
    }
}

impl UriErrorView {
    /// The text that is reported.
    pub open spec fn message(self) -> Seq<char> {
        match self {
            UriErrorView::UnknownScheme { scheme } => "unknown scheme "@ + scheme,
            UriErrorView::NoHost => "unknown port"@,
        }
    }
}

impl UriError {
    /// The sort of failure that is reported.
    pub fn kind(&self) -> (kind: ErrorKind)
        ensures
            kind == ErrorKind::InvalidInput,
    {
        ErrorKind::InvalidInput
    }

    /// The text that is reported.
    pub fn message(&self) -> (text: String)
        ensures
            text@ == self@.message(),
    {
        match self {
            UriError::UnknownScheme { scheme } => {
                let mut text = String::from_str("unknown scheme ");
                text.append(scheme.as_str());
                text
            },
            UriError::NoHost => String::from_str("unknown port"),
        }
    }
}

/// Where a proxy server is, and whether it is spoken to over TLS.
#[derive(Debug)]
pub struct InnerProxy {
    pub host: String,
    pub port: u16,
    pub tls: bool,
}

/// The same, with text as a sequence of characters.
pub struct InnerProxyView {
    pub host: Seq<char>,
    pub port: u16,
    pub tls: bool,
}

impl View for InnerProxy {
    type V = InnerProxyView;

    open spec fn view(&self) -> InnerProxyView {
        InnerProxyView { host: self.host@, port: self.port, tls: self.tls }
    }
}

/// Whether the scheme asks for TLS.
pub open spec fn asks_for_tls(scheme: Option<Seq<char>>) -> bool {
    scheme == Some("https"@)
}

/// Whether a proxy server can be spoken to by the scheme. A URI without a scheme will do.
pub open spec fn known_scheme(scheme: Option<Seq<char>>) -> bool {
    scheme matches Some(s) ==> s == "http"@ || s == "https"@
}

/// The port that goes with a scheme.
pub open spec fn default_port(scheme: Option<Seq<char>>) -> u16 {
    if asks_for_tls(scheme) {
        443
    } else {
        80
    }
}

/// The proxy server that a URI tells of.
pub open spec fn server_at(uri: UriPartsView) -> Result<InnerProxyView, UriErrorView> {
    if !known_scheme(uri.scheme) {
        Err(UriErrorView::UnknownScheme { scheme: uri.scheme->0 })
    } else {
        match uri.host {
            None => Err(UriErrorView::NoHost),
            Some(host) => Ok(
                InnerProxyView {
                    host,
                    port: match uri.port {
                        Some(port) => port,
                        None => default_port(uri.scheme),
                    },
                    tls: asks_for_tls(uri.scheme),
                },
            ),
        }
    }
}

/// The views of both sides of a result.
pub open spec fn result_view<T: View, E: View>(r: Result<T, E>) -> Result<T::V, E::V> {
    match r {
        Ok(t) => Ok(t@),
        Err(e) => Err(e@),
    }
}

/// Where a server is, as a host and a port joined by a colon.
pub open spec fn host_and_port(host: Seq<char>, port: u16) -> Seq<char> {
    host + ":"@ + decimal(port as nat)
}

/// The address that is dialled is the host as it is, one colon, and then a run of digits, at
/// least one and without leading zeros, that reads back as the port.
pub proof fn address_reads_back(host: Seq<char>, port: u16)
    ensures
        ({
            let addr = host_and_port(host, port);
            let digits = addr.skip(host.len() as int + 1);
            &&& addr.len() > host.len() + 1
            &&& addr.take(host.len() as int) == host
            &&& addr[host.len() as int] == ':'
            &&& forall|i: int| 0 <= i < digits.len() ==> '0' <= #[trigger] digits[i] <= '9'
            &&& digits[0] == '0' ==> digits.len() == 1
            &&& value_of(digits) == port
        }),
{
    reveal_strlit(":");
    decimal_reads_back(port as nat);
    let addr = host_and_port(host, port);
    assert(addr.take(host.len() as int) =~= host);
    assert(addr.skip(host.len() as int + 1) =~= decimal(port as nat));
}

/// Two servers are dialled at the same address exactly if they have the same host and the same
/// port, also where a host holds colons itself.
pub proof fn address_is_unambiguous(a: Seq<char>, p: u16, b: Seq<char>, q: u16)
    ensures
        host_and_port(a, p) == host_and_port(b, q) <==> a == b && p == q,
{
    address_reads_back(a, p);
    address_reads_back(b, q);
    let addr = host_and_port(a, p);
    if addr == host_and_port(b, q) {
        if a.len() < b.len() {
            assert(addr.skip(a.len() as int + 1)[b.len() - a.len() - 1] == ':');
        }
        if b.len() < a.len() {
            assert(addr.skip(b.len() as int + 1)[a.len() - b.len() - 1] == ':');
        }
    }
}

/// Whether `host` is a name that a certificate can be checked against.
pub uninterp spec fn is_dns_name(host: Seq<char>) -> bool;

/// Calls `DNSNameRef::try_from_ascii_str`, which takes a text if it is syntactically a DNS
/// name. Whether it is depends on the text alone.
#[verifier::external_body]
fn check_dns_name(host: &str) -> (checked: Result<(), InvalidDNSNameError>)
    ensures
        checked is Ok == is_dns_name(host@),
{
    match DNSNameRef::try_from_ascii_str(host) {
        Ok(_) => Ok(()),
        Err(error) => Err(error),
    }
}

/// The host of a proxy server is not a name that a certificate can be checked against.
#[derive(Debug)]
pub struct NotADnsName {
    pub error: InvalidDNSNameError,
}

impl NotADnsName {
    /// The sort of failure that is reported.
    pub fn kind(&self) -> (kind: ErrorKind)
        ensures
            kind == ErrorKind::Other,
    {
        ErrorKind::Other
    }
}

/// How the connection to a proxy server is used once it is made.
#[derive(Debug)]
pub enum Transport {
    /// As it is.
    Tcp,
    /// With TLS on top; the server's certificate is checked against the name.
    Tls { server_name: String },
}

/// The same, with text as a sequence of characters.
pub enum TransportView {
    Tcp,
    Tls { server_name: Seq<char> },
}

impl View for Transport {
    type V = TransportView;

    open spec fn view(&self) -> TransportView {
        match *self {
            Transport::Tcp => TransportView::Tcp,
            Transport::Tls { server_name } => TransportView::Tls { server_name: server_name@ },
        }
    }
}

impl InnerProxy {
    /// The proxy server that a URI tells of.
    pub fn new(uri: UriParts) -> (server: Result<Self, UriError>)
        ensures
            result_view(server) == server_at(uri@),
    {
        let (tls, default_port): (bool, u16) = match uri.scheme {
            Some(scheme) => if scheme == String::from_str("http") {
                proof {
                    reveal_strlit("http");
                    reveal_strlit("https");
                    assert("http"@.len() != "https"@.len());
                }
                (false, 80)
            } else if scheme == String::from_str("https") {
                (true, 443)
            } else {
                return Err(UriError::UnknownScheme { scheme });
            },
            None => (false, 80),
        };
        let port: u16 = match uri.port {
            Some(port) => port,
            None => default_port,
        };
        match uri.host {
            Some(host) => Ok(InnerProxy { host, port, tls }),
            None => Err(UriError::NoHost),
        }
    }

    /// Starts to connect to the server: first of all its address is dialled.
    pub fn call(&self) -> (started: (Connector<'_>, Dial))
        ensures
            started.0.server() == self@,
            started.0.stage() == DialStage::Dial,
            started.1@ == (DialView::Connect { addr: host_and_port(self@.host, self@.port) }),
    {
        (Connector { server: self, stage: DialStage::Dial }, Dial::Connect { addr: self.addr() })
    }

    /// The address to connect to.
    pub fn addr(&self) -> (addr: String)
        ensures
            addr@ == host_and_port(self@.host, self@.port),
            addr@.len() > self.host@.len() + 1,
            addr@.take(self.host@.len() as int) == self.host@,
            addr@[self.host@.len() as int] == ':',
            value_of(addr@.skip(self.host@.len() as int + 1)) == self.port,
    {
        proof {
            address_reads_back(self.host@, self.port);
        }
        let mut addr = self.host.clone();
        addr.append(":");
        addr.append(to_decimal(self.port as u64).as_str());
        addr
    }

    /// How a connection that needs TLS is used, given whether the host is a DNS name.
    pub fn secured(&self, checked: Result<(), InvalidDNSNameError>) -> (used: Result<
        Transport,
        NotADnsName,
    >)
        ensures
            match checked {
                Ok(_) => used matches Ok(t) && t@ == (TransportView::Tls {
                    server_name: self@.host,
                }),
                Err(error) => used == Err::<Transport, NotADnsName>(NotADnsName { error }),
            },
    {
        match checked {
            Ok(_) => Ok(Transport::Tls { server_name: self.host.clone() }),
            Err(error) => Err(NotADnsName { error }),
        }
    }

    /// How the connection is used once it is made. A host that is not a DNS name will do
    /// without TLS only.
    pub fn transport(&self) -> (used: Result<Transport, NotADnsName>)
        ensures
            used is Err <==> self@.tls && !is_dns_name(self@.host),
            used matches Ok(t) ==> t@ == (if self@.tls {
                TransportView::Tls { server_name: self@.host }
            } else {
                TransportView::Tcp
            }),
    {
        if self.tls {
            self.secured(check_dns_name(self.host.as_str()))
        } else {
            Ok(Transport::Tcp)
        }
    }
}

/// What is under way while a server is being connected to.
#[derive(Debug, Copy, Clone, PartialEq, Eq, Structural)]
pub enum DialStage {
    /// Its address is dialled.
    Dial,
    /// TLS is put on top of the connection.
    Secure,
    /// Nothing.
    Over,
}

/// What the owner of the sockets is to do next to connect to a server.
#[derive(Debug)]
pub enum Dial {
    /// Dial the address.
    Connect { addr: String },
    /// Put TLS on top of the connection, and check the server's certificate against the name.
    Secure { server_name: String },
    /// Use the connection as it is.
    UseTcp,
    /// Use the connection with TLS on top.
    UseTls,
    /// Give the connection up, and report the failure.
    Fail { error: NotADnsName },
    /// Give the connection up, and report the failure that was handed in last as it is.
    Report,
}

/// The same, with text as sequences of characters.
pub enum DialView {
    Connect { addr: Seq<char> },
    Secure { server_name: Seq<char> },
    UseTcp,
    UseTls,
    Fail { error: NotADnsName },
    Report,
}

impl View for Dial {
    type V = DialView;

    open spec fn view(&self) -> DialView {
        match *self {
            Dial::Connect { addr } => DialView::Connect { addr: addr@ },
            Dial::Secure { server_name } => DialView::Secure { server_name: server_name@ },
            Dial::UseTcp => DialView::UseTcp,
            Dial::UseTls => DialView::UseTls,
            Dial::Fail { error } => DialView::Fail { error },
            Dial::Report => DialView::Report,
        }
    }
}

/// Whether `next` and `action` follow once what was under way has succeeded or failed. The
/// host is held against the rules for DNS names only once the connection is made, and only
/// if TLS is wanted.
pub open spec fn dial_follows(
    server: InnerProxyView,
    stage: DialStage,
    ok: bool,
    next: DialStage,
    action: DialView,
) -> bool {
    match (stage, ok) {
        (DialStage::Dial, true) => if !server.tls {
            next == DialStage::Over && action == DialView::UseTcp
        } else if is_dns_name(server.host) {
            &&& next == DialStage::Secure
            &&& action == (DialView::Secure { server_name: server.host })
        } else {
            next == DialStage::Over && action is Fail
        },
        (DialStage::Secure, true) => next == DialStage::Over && action == DialView::UseTls,
        (_, false) => next == DialStage::Over && action == DialView::Report,
        (DialStage::Over, true) => false,
    }
}

/// A server that is being connected to.
#[derive(Debug)]
pub struct Connector<'a> {
    server: &'a InnerProxy,
    stage: DialStage,
}

impl<'a> Connector<'a> {
    /// The server.
    pub closed spec fn server(self) -> InnerProxyView {
        self.server@
    }

    /// What is under way.
    pub closed spec fn spec_stage(&self) -> DialStage {
        self.stage
    }

    /// What is under way.
    #[verifier::when_used_as_spec(spec_stage)]
    pub fn stage(&self) -> (stage: DialStage)
        ensures
            stage == self.spec_stage(),
    {
        self.stage
    }

    /// Takes whether what was under way succeeded and says what to do next.
    pub fn step(&mut self, ok: bool) -> (action: Dial)
        requires
            old(self).stage() != DialStage::Over,
        ensures
            final(self).server() == old(self).server(),
            dial_follows(
                old(self).server(),
                old(self).stage(),
                ok,
                final(self).stage(),
                action@,
            ),
    {
        if !ok {
            self.stage = DialStage::Over;
            return Dial::Report;
        }
        match self.stage {
            DialStage::Dial => match self.server.transport() {
                Ok(Transport::Tcp) => {
                    self.stage = DialStage::Over;
                    Dial::UseTcp
                },
                Ok(Transport::Tls { server_name }) => {
                    self.stage = DialStage::Secure;
                    Dial::Secure { server_name }
                },
                Err(error) => {
                    self.stage = DialStage::Over;
                    Dial::Fail { error }
                },
            },
            _ => {
                self.stage = DialStage::Over;
                Dial::UseTls
            },
        }
    }
}

/// Whether the results, and the actions that follow them, are the whole way to a connection:
/// it starts with the dialling, and goes on until nothing is under way.
pub open spec fn is_dial(
    server: InnerProxyView,
    results: Seq<bool>,
    stages: Seq<DialStage>,
    actions: Seq<DialView>,
) -> bool {
    &&& results.len() > 0
    &&& stages.len() == results.len() + 1
    &&& actions.len() == results.len()
    &&& stages[0] == DialStage::Dial
    &&& forall|i: int| #![trigger results[i]]
        0 <= i < results.len() ==> {
            &&& stages[i] != DialStage::Over
            &&& dial_follows(server, stages[i], results[i], stages[i + 1], actions[i])
            &&& stages[i + 1] == DialStage::Over <==> i == results.len() - 1
        }
}

/// A server that is to be spoken to over TLS is never spoken to without it: what is used
/// without TLS is a connection to a server that needs none, and a failure to put TLS on top
/// is reported, as is a failure to connect. A host that is no DNS name fails only after the
/// connection is made, and only where TLS is wanted.
pub proof fn tls_never_falls_back(
    server: InnerProxyView,
    results: Seq<bool>,
    stages: Seq<DialStage>,
    actions: Seq<DialView>,
)
    requires
        is_dial(server, results, stages, actions),
    ensures
        results.len() <= 2,
        actions.last() == DialView::UseTcp <==> !server.tls && results == seq![true],
        actions.last() == DialView::UseTls <==> server.tls && is_dns_name(server.host) && results
            == seq![true, true],
        actions.last() is Fail <==> server.tls && !is_dns_name(server.host) && results
            == seq![true],
        actions.last() == DialView::Report <==> !results.last(),
        results[0] && server.tls && is_dns_name(server.host) ==> actions[0] == (DialView::Secure {
            server_name: server.host,
        }),
{
    assert(dial_follows(server, stages[0], results[0], stages[1], actions[0]));
    if results.len() > 1 {
        assert(dial_follows(server, stages[1], results[1], stages[2], actions[1]));
    }
    if results.len() > 2 {
        assert(dial_follows(server, stages[2], results[2], stages[3], actions[2]));
    }
    if results.len() == 1 && results[0] {
        assert(results =~= seq![true]);
    }
    if results.len() == 2 && results[0] && results[1] {
        assert(results =~= seq![true, true]);
    }
}

/// The CONNECT request for a target, with no body.
pub uninterp spec fn connect_request(target: Uri) -> Request<Body>;

/// The name of a request's method, as `Request::method` gives it.
pub uninterp spec fn method_of(request: Request<Body>) -> Seq<char>;

/// The target of a request, as `Request::uri` gives it.
pub uninterp spec fn target_of(request: Request<Body>) -> Uri;

/// Whether a request's body, as `Request::body` gives it, is empty.
pub uninterp spec fn is_bodiless(request: Request<Body>) -> bool;

/// Calls `Request::connect`, and `Builder::body` of that with `Body::empty()`. The request
/// is one with the method CONNECT, that target and an empty body, and depends on the target
/// alone. Building it succeeds: it fails only where a method or a target has to be read
/// from something else, and both are there as they are.
#[verifier::external_body]
fn build_connect(target: Uri) -> (built: Result<Request<Body>, Error>)
    ensures
        built is Ok,
        built->Ok_0 == connect_request(target),
        method_of(built->Ok_0) == "CONNECT"@,
        target_of(built->Ok_0) == target,
        is_bodiless(built->Ok_0),
{
    Request::connect(target).body(Body::empty())
}

/// Why there is no request for a connection.
#[derive(Debug)]
pub enum RequestError {
    /// The text for the target is not a URI.
    NotAUri { text: NotAUri },
    /// The request could not be put together.
    NotBuilt { request: Error },
}

impl RequestError {
    /// The sort of failure that is reported.
    pub fn kind(&self) -> (kind: ErrorKind)
        ensures
            kind == ErrorKind::InvalidInput,
    {
        ErrorKind::InvalidInput
    }
}

/// An HTTP proxy server through which connections are passed on.
#[derive(Debug)]
pub struct Proxy {
    inner: InnerProxy,
}

impl View for Proxy {
    type V = InnerProxyView;

    closed spec fn view(&self) -> InnerProxyView {
        self.inner@
    }
}

impl Proxy {
    /// The server that a URI tells of.
    pub fn new(uri: UriParts) -> (proxy: Result<Self, UriError>)
        ensures
            result_view(proxy) == server_at(uri@),
    {
        match InnerProxy::new(uri) {
            Ok(inner) => Ok(Proxy { inner }),
            Err(error) => Err(error),
        }
    }

    /// Where the server is.
    pub fn inner(&self) -> (inner: &InnerProxy)
        ensures
            inner@ == self@,
    {
        &self.inner
    }

    /// Starts to pass on a connection, given the request that was put together for it: the
    /// request is to be sent.
    pub fn start(built: Result<Request<Body>, Error>) -> (started: Result<
        (Tunnel, Request<Body>),
        RequestError,
    >)
        ensures
            match built {
                Ok(request) => started matches Ok((tunnel, r)) && tunnel.stage() == Stage::Send
                    && r == request,
                Err(error) => started == Err::<(Tunnel, Request<Body>), RequestError>(
                    RequestError::NotBuilt { request: error },
                ),
            },
    {
        match built {
            Ok(request) => Ok((Tunnel { stage: Stage::Send }, request)),
            Err(error) => Err(RequestError::NotBuilt { request: error }),
        }
    }

    /// Starts to pass on a connection to the address that `addr` writes out: a CONNECT
    /// request is to be sent, with the address as its target and no body.
    pub fn handle(&self, addr: &str) -> (started: Result<(Tunnel, Request<Body>), RequestError>)
        ensures
            match read_as(addr@) {
                Ok(target) => {
                    &&& started matches Ok((tunnel, request))
                    &&& tunnel.stage() == Stage::Send
                    &&& request == connect_request(target)
                    &&& method_of(request) == "CONNECT"@
                    &&& target_of(request) == target
                    &&& is_bodiless(request)
                },
                Err(text) => started == Err::<(Tunnel, Request<Body>), RequestError>(
                    RequestError::NotAUri { text },
                ),
            },
            started is Ok <==> uri_of(addr@) is Ok,
            started matches Ok((tunnel, request)) ==> uri_of(addr@) == Ok::<Uri, InvalidUri>(
                target_of(request),
            ),
            started matches Err(e) ==> (e matches RequestError::NotAUri { text } && uri_of(addr@)
                == Err::<Uri, InvalidUri>(text.error)),
    {
        match parse_uri(addr) {
            Ok(target) => Self::start(build_connect(target)),
            Err(text) => Err(RequestError::NotAUri { text }),
        }
    }
}

/// What is under way.
#[derive(Debug, Copy, Clone, PartialEq, Eq, Structural)]
pub enum Stage {
    /// The request is sent, and the response awaited.
    Send,
    /// The connection is taken over from HTTP.
    Upgrade,
    /// Bytes are copied in both directions.
    Copy,
    /// Nothing.
    Over,
}

/// What the owner of the sockets is to do next.
#[derive(Debug, Copy, Clone, PartialEq, Eq, Structural)]
pub enum Action {
    /// Take the connection over from HTTP.
    Upgrade,
    /// Copy bytes in both directions.
    Copy,
    /// Stop.
    Finish,
    /// Stop, and report the failure that was handed in last as one of that sort.
    Wrap { kind: ErrorKind },
    /// Stop, and report the failure that was handed in last as it is.
    Report,
}

/// What follows once what was under way has succeeded or failed.
pub open spec fn after(stage: Stage, ok: bool) -> (Stage, Action) {
    match (stage, ok) {
        (Stage::Send, true) => (Stage::Upgrade, Action::Upgrade),
        (Stage::Upgrade, true) => (Stage::Copy, Action::Copy),
        (Stage::Copy, true) => (Stage::Over, Action::Finish),
        (Stage::Send, false) => (Stage::Over, Action::Wrap { kind: ErrorKind::Other }),
        (Stage::Upgrade, false) => (Stage::Over, Action::Wrap { kind: ErrorKind::Other }),
        _ => (Stage::Over, Action::Report),
    }
}

/// A connection that is being passed on.
#[derive(Debug, Copy, Clone)]
pub struct Tunnel {
    stage: Stage,
}

impl Tunnel {
    /// What is under way.
    pub closed spec fn spec_stage(self) -> Stage {
        self.stage
    }

    /// What is under way.
    #[verifier::when_used_as_spec(spec_stage)]
    pub fn stage(self) -> (stage: Stage)
        ensures
            stage == self.spec_stage(),
    {
        self.stage
    }

    /// Takes whether what was under way succeeded and says what to do next.
    pub fn step(&mut self, ok: bool) -> (action: Action)
        requires
            old(self).stage() != Stage::Over,
        ensures
            (final(self).stage(), action) == after(old(self).stage(), ok),
    {
        let (stage, action) = match self.stage {
            Stage::Send => if ok {
                (Stage::Upgrade, Action::Upgrade)
            } else {
                (Stage::Over, Action::Wrap { kind: ErrorKind::Other })
            },
            Stage::Upgrade => if ok {
                (Stage::Copy, Action::Copy)
            } else {
                (Stage::Over, Action::Wrap { kind: ErrorKind::Other })
            },
            _ => if ok {
                (Stage::Over, Action::Finish)
            } else {
                (Stage::Over, Action::Report)
            },
        };
        self.stage = stage;
        action
    }
}

/// The port in a URI wins over the one that goes with its scheme, and TLS is used exactly
/// for `https`, whatever the port.
pub proof fn uri_settles_server(uri: UriPartsView)
    ensures
        server_at(uri) is Ok <==> known_scheme(uri.scheme) && uri.host is Some,
        known_scheme(uri.scheme) <==> uri.scheme is None || uri.scheme == Some("http"@)
            || uri.scheme == Some("https"@),
        known_scheme(uri.scheme) && uri.host is None ==> server_at(uri) == Err::<
            InnerProxyView,
            UriErrorView,
        >(UriErrorView::NoHost),
        server_at(uri) matches Ok(server) ==> {
            &&& Some(server.host) == uri.host
            &&& server.tls <==> uri.scheme == Some("https"@)
            &&& uri.port matches Some(port) ==> server.port == port
            &&& uri.port is None && server.tls ==> server.port == 443
            &&& uri.port is None && !server.tls ==> server.port == 80
        },
        !known_scheme(uri.scheme) ==> server_at(uri) == Err::<InnerProxyView, UriErrorView>(
            UriErrorView::UnknownScheme { scheme: uri.scheme->0 },
        ),
{
}

/// How many stages are still to come.
pub open spec fn stages_left(stage: Stage) -> nat {
    match stage {
        Stage::Send => 3,
        Stage::Upgrade => 2,
        Stage::Copy => 1,
        Stage::Over => 0,
    }
}

/// Every success brings a connection one stage on, and every failure ends it with a report;
/// bytes are copied only after the request has been sent and the connection taken over. A
/// failure of HTTP is reported as one of another sort, and a failure to copy as it is.
pub proof fn tunnel_advances(stage: Stage, ok: bool)
    requires
        stage != Stage::Over,
    ensures
        ok ==> stages_left(after(stage, ok).0) == stages_left(stage) - 1,
        !ok ==> after(stage, ok).0 == Stage::Over && (after(stage, ok).1 is Wrap || after(
            stage,
            ok,
        ).1 is Report),
        after(stage, ok).1 is Copy <==> stage == Stage::Upgrade && ok,
        after(stage, ok).1 is Upgrade <==> stage == Stage::Send && ok,
        after(stage, ok).1 is Finish <==> stage == Stage::Copy && ok,
        after(stage, ok).0 is Upgrade <==> after(stage, ok).1 is Upgrade,
        after(stage, ok).0 is Copy <==> after(stage, ok).1 is Copy,
        !(after(stage, ok).0 is Send),
        after(stage, ok).1 == (Action::Wrap { kind: ErrorKind::Other }) <==> !ok && stage
            != Stage::Copy,
        after(stage, ok).1 is Report <==> !ok && stage == Stage::Copy,
{
}

/// A URI that cannot be used is reported with its scheme as it was written, or without one if
/// there is no host.
pub proof fn bad_uri_is_told(scheme: Seq<char>)
    ensures
        (UriErrorView::UnknownScheme { scheme }).message() == "unknown scheme "@ + scheme,
        UriErrorView::NoHost.message() == "unknown port"@,
{
}

/// The parts of a URI are its scheme, its host and its port, each as the URI has it, and none
/// where it has none.
pub proof fn parts_are_those_of_the_uri(uri: Uri)
    ensures
        parts_of(uri).scheme == scheme_of(uri),
        parts_of(uri).host == host_of(uri),
        parts_of(uri).port == port_of(uri),
{
}

/// Views show what is there, with each text as its characters.
pub proof fn views_show_what_is_there(
    parts: UriParts,
    server: InnerProxy,
    used: Transport,
    dial: Dial,
    error: UriError,
)
    ensures
        parts.scheme matches Some(scheme) ==> parts@.scheme == Some(scheme@),
        parts.scheme is None ==> parts@.scheme is None,
        parts.host matches Some(host) ==> parts@.host == Some(host@),
        parts.host is None ==> parts@.host is None,
        parts@.port == parts.port,
        server@.host == server.host@,
        server@.port == server.port,
        server@.tls == server.tls,
        used is Tcp <==> used@ is Tcp,
        used matches Transport::Tls { server_name } ==> used@ == (TransportView::Tls {
            server_name: server_name@,
        }),
        dial matches Dial::Connect { addr } ==> dial@ == (DialView::Connect { addr: addr@ }),
        dial matches Dial::Secure { server_name } ==> dial@ == (DialView::Secure {
            server_name: server_name@,
        }),
        dial is UseTcp <==> dial@ is UseTcp,
        dial is UseTls <==> dial@ is UseTls,
        dial is Report <==> dial@ is Report,
        dial matches Dial::Fail { error } ==> dial@ == (DialView::Fail { error }),
        error is NoHost <==> error@ is NoHost,
        error matches UriError::UnknownScheme { scheme } ==> error@ == (
        UriErrorView::UnknownScheme { scheme: scheme@ }),
        result_view(Ok::<InnerProxy, UriError>(server)) == Ok::<InnerProxyView, UriErrorView>(
            server@,
        ),
        result_view(Err::<InnerProxy, UriError>(error)) == Err::<InnerProxyView, UriErrorView>(
            error@,
        ),
{
}

/// A server that a URI tells of is dialled at the host in the URI, and at the port in it; where
/// the URI has no port, at 443 for `https` and at 80 otherwise.
pub proof fn uri_settles_address(uri: UriPartsView)
    requires
        server_at(uri) is Ok,
    ensures
        ({
            let server = server_at(uri)->Ok_0;
            let host = uri.host->0;
            let addr = host_and_port(server.host, server.port);
            let port = value_of(addr.skip(host.len() as int + 1));
            &&& addr.len() > host.len() + 1
            &&& addr.take(host.len() as int) == host
            &&& addr[host.len() as int] == ':'
            &&& uri.port matches Some(given) ==> port == given
            &&& uri.port is None && uri.scheme == Some("https"@) ==> port == 443
            &&& uri.port is None && uri.scheme != Some("https"@) ==> port == 80
        }),
{
    uri_settles_server(uri);
    address_reads_back(server_at(uri)->Ok_0.host, server_at(uri)->Ok_0.port);
}

} // verus!
