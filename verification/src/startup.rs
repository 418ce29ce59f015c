//! From the command line to a running proxy.
//!
//! [`Startup`] decides the order in which things are set up; whoever runs the program sets
//! them up and hands back how that went. Then [`handle`] decides what becomes of each
//! connection that the listener hands on.

use hyper::Uri;
use vstd::prelude::*;

use crate::addr::SocketAddr;
use crate::error::ErrorKind;
use crate::http;
#[allow(unused_imports)]
use crate::http::{parts_of, read_as, server_at, uri_of, NotAUri, UriError, UriParts};
use crate::listener;
use crate::socks;

verus! {

/// How much is logged.
#[derive(Debug, Copy, Clone, PartialEq, Eq, Structural)]
pub enum LogLevel {
    Debug,
    Info,
}

/// How much is logged, given whether the user asked for more than usual.
pub fn log_level(debug: bool) -> (level: LogLevel)
    ensures
        level == (if debug {
            LogLevel::Debug
        } else {
            LogLevel::Info
        }),
{
    if debug {
        LogLevel::Debug
    } else {
        LogLevel::Info
    }
}

/// The proxy server that the user named.
#[derive(Debug)]
pub enum SubCommand {
    /// An HTTP proxy server, by its URI.
    Http { addr: String },
    /// A SOCKS5 proxy server, by its socket address.
    Socks { addr: String },
}

/// What the user asked for.
#[derive(Debug)]
pub struct Opt {
    pub listen_addr: String,
    pub debug: bool,
    pub cmd: SubCommand,
}

/// Why there is no proxy server to pass connections on to.
#[derive(Debug)]
pub enum StartError {
    /// The text for an HTTP proxy server is not a URI.
    NotAUri { text: NotAUri },
    /// The URI `at` does not tell where the server is.
    BadUri { at: Uri, uri: UriError },
}

impl StartError {
    /// The sort of failure that is reported.
    pub fn kind(&self) -> (kind: ErrorKind)
        ensures
            kind == ErrorKind::InvalidInput,
    {
        match self {
            StartError::NotAUri { text } => text.kind(),
            StartError::BadUri { uri, .. } => uri.kind(),
        }
    }
}

/// Where the setting up stands.
#[derive(Debug, Copy, Clone, PartialEq, Eq, Structural)]
pub enum Stage {
    /// The log is being set up.
    Log,
    /// The local endpoint is being opened.
    Bind,
    /// The socket address of the SOCKS5 server is being read.
    Parse,
    /// All is set up, or setting up has failed.
    Over,
}

/// What is to be done next.
#[derive(Debug)]
pub enum Action {
    /// Open the local endpoint.
    Bind { addr: String },
    /// Read a socket address.
    Parse { addr: String },
    /// Pass connections on to the HTTP proxy server that the URI `at` tells of.
    ServeHttp { at: Uri, http: http::Proxy },
    /// Pass connections on to a SOCKS5 server.
    ServeSocks { socks: socks::Proxy },
    /// Stop, and report the failure.
    Fail { error: StartError },
    /// Stop, and report the failure that was handed in last as one of that sort.
    Wrap { kind: ErrorKind },
    /// Stop, and report the failure that was handed in last as it is.
    Report,
}

/// How it went.
#[derive(Debug, Copy, Clone, PartialEq, Eq)]
pub enum Event {
    /// The log is set up.
    Logging,
    /// The local endpoint is open, or could not be opened.
    Bound { ok: bool },
    /// The socket address that the text is, if it is one.
    Parsed { addr: Option<SocketAddr> },
}

/// Whether the event is what the stage waits for.
pub open spec fn awaited(stage: Stage, event: Event) -> bool {
    match stage {
        Stage::Log => event is Logging,
        Stage::Bind => event is Bound,
        Stage::Parse => event is Parsed,
        Stage::Over => false,
    }
}

/// Whether `action` is what comes of the text for an HTTP proxy server, given what it was read
/// as.
pub open spec fn serves_http(read: Result<Uri, NotAUri>, action: Action) -> bool {
    match read {
        Err(text) => action == (Action::Fail { error: StartError::NotAUri { text } }),
        Ok(uri) => match server_at(parts_of(uri)) {
            Ok(server) => {
                &&& action matches Action::ServeHttp { at, http: proxy }
                &&& at == uri
                &&& proxy@ == server
            },
            Err(error) => {
                &&& action matches Action::Fail { error: StartError::BadUri { at, uri: e } }
                &&& at == uri
                &&& e@ == error
            },
        },
    }
}

/// Whether `next` and `action` follow the event.
pub open spec fn follows(opt: Opt, event: Event, next: Stage, action: Action) -> bool {
    match event {
        Event::Logging => {
            &&& next == Stage::Bind
            &&& action matches Action::Bind { addr }
            &&& addr@ == opt.listen_addr@
        },
        Event::Bound { ok: false } => next == Stage::Over && action is Report,
        Event::Bound { ok: true } => match opt.cmd {
            SubCommand::Http { addr } => next == Stage::Over && serves_http(read_as(addr@), action),
            SubCommand::Socks { addr } => {
                &&& next == Stage::Parse
                &&& action matches Action::Parse { addr: a }
                &&& a@ == addr@
            },
        },
        Event::Parsed { addr: Some(addr) } => {
            &&& next == Stage::Over
            &&& action matches Action::ServeSocks { socks: proxy }
            &&& proxy.spec_addr() == addr
        },
        Event::Parsed { addr: None } => {
            &&& next == Stage::Over
            &&& action == (Action::Wrap { kind: ErrorKind::InvalidInput })
        },
    }
}

/// A proxy that is being set up.
#[derive(Debug)]
pub struct Startup {
    opt: Opt,
    stage: Stage,
}

/// What becomes of the text for an HTTP proxy server, given what it was read as.
pub fn serve_http(read: Result<Uri, NotAUri>) -> (action: Action)
    ensures
        serves_http(read, action),
{
    match read {
        Err(text) => Action::Fail { error: StartError::NotAUri { text } },
        Ok(at) => match http::Proxy::new(UriParts::of(&at)) {
            Ok(proxy) => Action::ServeHttp { at, http: proxy },
            Err(error) => Action::Fail { error: StartError::BadUri { at, uri: error } },
        },
    }
}

impl Startup {
    /// What the user asked for.
    pub closed spec fn opt(self) -> Opt {
        self.opt
    }

    /// Where the setting up stands.
    pub closed spec fn spec_stage(self) -> Stage {
        self.stage
    }

    /// Where the setting up stands.
    pub fn stage(&self) -> (stage: Stage)
        ensures
            stage == self.spec_stage(),
    {
        self.stage
    }

    /// Starts to set up what the user asked for: first of all the log, at that level.
    pub fn run(opt: Opt) -> (started: (Startup, LogLevel))
        ensures
            started.0.opt() == opt,
            started.0.spec_stage() == Stage::Log,
            started.1 == (if opt.debug {
                LogLevel::Debug
            } else {
                LogLevel::Info
            }),
    {
        let level = log_level(opt.debug);
        (Startup { opt, stage: Stage::Log }, level)
    }

    /// Takes how it went and says what to do next.
    pub fn step(&mut self, event: Event) -> (action: Action)
        requires
            awaited(old(self).spec_stage(), event),
        ensures
            final(self).opt() == old(self).opt(),
            follows(old(self).opt(), event, final(self).spec_stage(), action),
    {
        match event {
            Event::Logging => {
                self.stage = Stage::Bind;
                Action::Bind { addr: self.opt.listen_addr.clone() }
            },
            Event::Bound { ok } => if ok {
                match &self.opt.cmd {
                    SubCommand::Http { addr } => {
                        let action = serve_http(http::parse_uri(addr.as_str()));
                        self.stage = Stage::Over;
                        action
                    },
                    SubCommand::Socks { addr } => {
                        let action = Action::Parse { addr: addr.clone() };
                        self.stage = Stage::Parse;
                        action
                    },
                }
            } else {
                self.stage = Stage::Over;
                Action::Report
            },
            Event::Parsed { addr: Some(addr) } => {
                self.stage = Stage::Over;
                Action::ServeSocks { socks: socks::Proxy::new(addr) }
            },
            Event::Parsed { addr: None } => {
                self.stage = Stage::Over;
                Action::Wrap { kind: ErrorKind::InvalidInput }
            },
        }
    }
}

/// What the listener hands on.
#[derive(Debug, Copy, Clone, PartialEq, Eq)]
pub enum Incoming {
    /// A connection, and where it was headed.
    Connection { addr: SocketAddr },
    /// A failure to accept one.
    Failure,
    /// Nothing, now and for ever.
    End,
}

/// What becomes of it.
#[derive(Debug, Copy, Clone, PartialEq, Eq)]
pub enum Served {
    /// The connection is passed on beside all others, and the next one waited for.
    Spawn { addr: SocketAddr },
    /// The failure is logged, and the next connection waited for.
    Warn,
    /// No more connections are waited for.
    Stop,
}

/// What becomes of what the listener hands on.
pub open spec fn served(incoming: Incoming) -> Served {
    match incoming {
        Incoming::Connection { addr } => Served::Spawn { addr },
        Incoming::Failure => Served::Warn,
        Incoming::End => Served::Stop,
    }
}

/// What becomes of what the listener hands on. A failure does not keep later connections
/// from being served.
pub fn handle(incoming: Incoming) -> (becomes: Served)
    ensures
        becomes == served(incoming),
{
    match incoming {
        Incoming::Connection { addr } => Served::Spawn { addr },
        Incoming::Failure => Served::Warn,
        Incoming::End => Served::Stop,
    }
}

/// No connection is served before the local endpoint is open, and setting up ends exactly
/// when a proxy server is found or a failure is reported.
pub proof fn endpoint_opens_first(
    opt: Opt,
    stage: Stage,
    event: Event,
    next: Stage,
    action: Action,
)
    requires
        awaited(stage, event),
        follows(opt, event, next, action),
    ensures
        action is ServeHttp || action is ServeSocks ==> stage == Stage::Bind && event == (
        Event::Bound { ok: true }) || stage == Stage::Parse,
        next == Stage::Parse ==> stage == Stage::Bind && event == (Event::Bound { ok: true }),
        next == Stage::Bind <==> action is Bind,
        next == Stage::Over <==> !(action is Bind || action is Parse),
        action is ServeHttp ==> opt.cmd is Http,
        next == Stage::Parse ==> opt.cmd is Socks,
{
}

/// What the listener hands on with an action, if anything.
pub open spec fn handed_on(action: listener::Action) -> Option<Incoming> {
    match action {
        listener::Action::Yield { addr } => Some(Incoming::Connection { addr }),
        listener::Action::Report => Some(Incoming::Failure),
        _ => None,
    }
}

/// Where the program stands.
pub enum Phase {
    /// It is being set up.
    SettingUp { stage: Stage },
    /// It serves connections.
    Serving { listener: listener::Stage },
    /// It has ended with a failure.
    Failed,
    /// It has ended without one.
    Finished,
}

/// What happens to the program, and how it takes it. What happens to a connection that is
/// passed on does not happen to the program.
pub enum Happening {
    SetUp { event: Event, next: Stage, action: Action },
    Poll { polled: listener::Event, listener: listener::Stage, answer: listener::Action },
}

/// Whether what happens takes the program from one phase to the other.
pub open spec fn leads_to(opt: Opt, phase: Phase, happening: Happening, after: Phase) -> bool {
    match (phase, happening) {
        (Phase::SettingUp { stage }, Happening::SetUp { event, next, action }) => {
            &&& awaited(stage, event)
            &&& follows(opt, event, next, action)
            &&& after == (match action {
                Action::Bind { .. } | Action::Parse { .. } => Phase::SettingUp { stage: next },
                Action::ServeHttp { .. } | Action::ServeSocks { .. } => Phase::Serving {
                    listener: listener::Stage::Accept,
                },
                Action::Fail { .. } | Action::Wrap { .. } | Action::Report => Phase::Failed,
            })
        },
        (Phase::Serving { listener: stage }, Happening::Poll { polled, listener, answer }) => {
            &&& listener::awaited(stage, polled)
            &&& listener::follows(polled, listener, answer)
            &&& after == (match handed_on(answer) {
                Some(incoming) => if served(incoming) is Stop {
                    Phase::Finished
                } else {
                    Phase::Serving { listener }
                },
                None => Phase::Serving { listener },
            })
        },
        _ => false,
    }
}

/// The program never ends without a failure: it ends only while it is being set up, because
/// the endpoint cannot be opened or there is no proxy server at the address given. Once it
/// serves, it goes on serving, whatever connections the listener fails to accept.
pub proof fn run_never_finishes(opt: Opt, phases: Seq<Phase>, happenings: Seq<Happening>)
    requires
        phases.len() == happenings.len() + 1,
        phases[0] == (Phase::SettingUp { stage: Stage::Log }),
        forall|i: int| #![trigger happenings[i]]
            0 <= i < happenings.len() ==> leads_to(opt, phases[i], happenings[i], phases[i + 1]),
    ensures
        forall|i: int| 0 <= i < phases.len() ==> !(#[trigger] phases[i] is Finished),
        forall|i: int| #![trigger phases[i]]
            0 < i < phases.len() ==> {
                &&& phases[i] is Failed ==> phases[i - 1] is SettingUp
                &&& phases[i - 1] is Serving ==> phases[i] is Serving
            },
{
    assert forall|i: int| #![trigger phases[i]] 0 < i < phases.len() implies {
        &&& !(phases[i] is Finished)
        &&& phases[i] is Failed ==> phases[i - 1] is SettingUp
        &&& phases[i - 1] is Serving ==> phases[i] is Serving
    } by {
        assert(leads_to(opt, phases[i - 1], happenings[i - 1], phases[i]));
    }
}

/// The endpoint is opened at the address that the user gave, and the text for the proxy server
/// is used as the user gave it, all of it: for HTTP it is read as a URI, and the server is the
/// one that the URI tells of; for SOCKS5 it is handed out to be read as a socket address, and
/// the server is the one at the address that comes back.
pub proof fn user_is_taken_at_their_word(opt: Opt, event: Event, next: Stage, action: Action)
    requires
        follows(opt, event, next, action),
    ensures
        event is Logging ==> (action matches Action::Bind { addr } && addr@ == opt.listen_addr@),
        event == (Event::Bound { ok: false }) ==> action is Report,
        event == (Event::Bound { ok: true }) ==> {
            &&& opt.cmd matches SubCommand::Socks { addr } ==> (action matches Action::Parse {
                addr: text,
            } && text@ == addr@)
            &&& opt.cmd matches SubCommand::Http { addr } ==> match uri_of(addr@) {
                Err(error) => action == (Action::Fail {
                    error: StartError::NotAUri { text: NotAUri { error } },
                }),
                Ok(uri) => {
                    &&& action is ServeHttp <==> server_at(parts_of(uri)) is Ok
                    &&& action matches Action::ServeHttp { at, http: proxy } ==> at == uri
                        && server_at(parts_of(uri)) == Ok::<
                        http::InnerProxyView,
                        http::UriErrorView,
                    >(proxy@)
                    &&& !(action is ServeHttp) ==> (action matches Action::Fail {
                        error: StartError::BadUri { at, uri: bad },
                    } && at == uri && server_at(parts_of(uri)) == Err::<
                        http::InnerProxyView,
                        http::UriErrorView,
                    >(bad@))
                },
            }
        },
        event matches Event::Parsed { addr: Some(addr) } ==> (action matches Action::ServeSocks {
            socks: proxy,
        } && proxy.spec_addr() == addr),
        event == (Event::Parsed { addr: None }) ==> action == (Action::Wrap {
            kind: ErrorKind::InvalidInput,
        }),
{
}

/// What is to be done is what is taken next, however it goes: the opening of the endpoint, the
/// reading of an address, and nothing once setting up is over. The log comes before all else.
pub proof fn what_was_asked_is_awaited(
    opt: Opt,
    event: Event,
    next: Stage,
    action: Action,
    later: Event,
)
    requires
        follows(opt, event, next, action),
    ensures
        awaited(next, later) <==> (match action {
            Action::Bind { .. } => later is Bound,
            Action::Parse { .. } => later is Parsed,
            _ => false,
        }),
        awaited(Stage::Log, later) <==> later is Logging,
{
}

/// Every connection is passed on to the address that it was headed for, every failure is logged,
/// and neither keeps the next connection from being served: only the end of the stream does.
pub proof fn every_connection_is_served(incoming: Incoming, addr: SocketAddr)
    ensures
        served(incoming) == (Served::Spawn { addr }) <==> incoming == (Incoming::Connection {
            addr,
        }),
        served(incoming) is Warn <==> incoming is Failure,
        served(incoming) is Stop <==> incoming is End,
{
}

} // verus!
