use easy_proxy::addr::{SocketAddr, SocketAddrV4};
use easy_proxy::error::ErrorKind;
use easy_proxy::startup::{
    handle, log_level, Action, Event, Incoming, LogLevel, Opt, Served, Stage, StartError, Startup,
    SubCommand,
};
use easy_proxy::text::to_decimal;

fn http(addr: &str) -> Opt {
    Opt {
        listen_addr: "127.0.0.1:1888".to_string(),
        debug: false,
        cmd: SubCommand::Http { addr: addr.to_string() },
    }
}

fn socks(addr: &str) -> Opt {
    Opt {
        listen_addr: "127.0.0.1:1888".to_string(),
        debug: true,
        cmd: SubCommand::Socks { addr: addr.to_string() },
    }
}

fn bound(opt: Opt) -> Startup {
    let (mut startup, _) = Startup::run(opt);
    startup.step(Event::Logging);
    startup
}

const ADDR: SocketAddr = SocketAddr::V4(SocketAddrV4 { octets: [127, 0, 0, 1], port: 1080 });

#[test]
fn log_levels() {
    assert_eq!(log_level(true), LogLevel::Debug);
    assert_eq!(log_level(false), LogLevel::Info);
    assert_eq!(Startup::run(socks("a")).1, LogLevel::Debug);
    assert_eq!(Startup::run(http("a")).1, LogLevel::Info);
}

#[test]
fn endpoint_is_opened_first() {
    let (mut startup, _) = Startup::run(http("http://127.0.0.1:8080"));
    assert_eq!(startup.stage(), Stage::Log);
    match startup.step(Event::Logging) {
        Action::Bind { addr } => assert_eq!(addr, "127.0.0.1:1888"),
        _ => panic!("not bound"),
    }
    assert_eq!(startup.stage(), Stage::Bind);
    assert!(matches!(startup.step(Event::Bound { ok: false }), Action::Report));
    assert_eq!(startup.stage(), Stage::Over);
}

#[test]
fn http_is_served() {
    let mut startup = bound(http("https://proxy.example"));
    match startup.step(Event::Bound { ok: true }) {
        Action::ServeHttp { at, http } => {
            assert_eq!(at.to_string(), "https://proxy.example/");
            assert_eq!(http.inner().addr(), "proxy.example:443");
            assert!(http.inner().tls);
        }
        _ => panic!("not served"),
    }
    assert_eq!(startup.stage(), Stage::Over);
}

#[test]
fn http_text_is_not_a_uri() {
    match bound(http("")).step(Event::Bound { ok: true }) {
        Action::Fail { error } => {
            assert!(matches!(error, StartError::NotAUri { .. }));
            assert_eq!(error.kind(), ErrorKind::InvalidInput);
        }
        _ => panic!("no failure"),
    }
}

#[test]
fn http_uri_tells_of_no_server() {
    match bound(http("ftp://proxy.example")).step(Event::Bound { ok: true }) {
        Action::Fail { error } => {
            assert_eq!(error.kind(), ErrorKind::InvalidInput);
            match error {
                StartError::BadUri { at, uri } => {
                    assert_eq!(at.to_string(), "ftp://proxy.example/");
                    assert_eq!(uri.message(), "unknown scheme ftp");
                }
                _ => panic!("not this failure"),
            }
        }
        _ => panic!("no failure"),
    }
}

#[test]
fn socks_is_served() {
    let mut startup = bound(socks("127.0.0.1:1080"));
    match startup.step(Event::Bound { ok: true }) {
        Action::Parse { addr } => assert_eq!(addr, "127.0.0.1:1080"),
        _ => panic!("not read"),
    }
    assert_eq!(startup.stage(), Stage::Parse);
    match startup.step(Event::Parsed { addr: Some(ADDR) }) {
        Action::ServeSocks { socks } => assert_eq!(socks.addr(), ADDR),
        _ => panic!("not served"),
    }
}

#[test]
fn socks_text_is_not_an_address() {
    let mut startup = bound(socks("nowhere"));
    startup.step(Event::Bound { ok: true });
    let action = startup.step(Event::Parsed { addr: None });
    assert!(matches!(action, Action::Wrap { kind: ErrorKind::InvalidInput }));
    assert_eq!(startup.stage(), Stage::Over);
}

#[test]
fn failures_do_not_stop_the_serving() {
    assert_eq!(handle(Incoming::Failure), Served::Warn);
    assert_eq!(handle(Incoming::Connection { addr: ADDR }), Served::Spawn { addr: ADDR });
    assert_eq!(handle(Incoming::End), Served::Stop);
}

#[test]
fn decimal_notation() {
    for n in [0u64, 9, 10, 99, 100, 65535, u64::MAX] {
        assert_eq!(to_decimal(n), n.to_string());
    }
}
