use easy_proxy::error::ErrorKind;
use easy_proxy::http::{
    parse_uri, Action, Dial, DialStage, InnerProxy, Proxy, RequestError, Stage, Transport, Tunnel,
    UriError, UriParts,
};
use http::Method;
use hyper::body::HttpBody;
use tokio_rustls::webpki::InvalidDNSNameError;

fn parts(scheme: Option<&str>, host: Option<&str>, port: Option<u16>) -> UriParts {
    UriParts { scheme: scheme.map(String::from), host: host.map(String::from), port }
}

fn server(text: &str) -> Result<InnerProxy, UriError> {
    InnerProxy::new(UriParts::of(&parse_uri(text).unwrap()))
}

fn tunnel() -> Tunnel {
    let proxy = Proxy::new(parts(Some("http"), Some("proxy"), None)).unwrap();
    proxy.handle("1.2.3.4:80").unwrap().0
}

#[test]
fn parts_of_a_uri() {
    let uri = parse_uri("http://127.0.0.1:8080").unwrap();
    assert_eq!(uri.to_string(), "http://127.0.0.1:8080/");
    let read = UriParts::of(&uri);
    assert_eq!(read.scheme.as_deref(), Some("http"));
    assert_eq!(read.host.as_deref(), Some("127.0.0.1"));
    assert_eq!(read.port, Some(8080));
    let read = UriParts::of(&parse_uri("/only/a/path").unwrap());
    assert_eq!(read.scheme, None);
    assert_eq!(read.host, None);
    assert_eq!(read.port, None);
    let error = parse_uri("not a uri").unwrap_err();
    assert_eq!(error.kind(), ErrorKind::InvalidInput);
    assert_eq!(error.error.to_string(), "invalid uri character");
}

#[test]
fn server_of_a_uri() {
    let s = server("http://127.0.0.1:8080").unwrap();
    assert_eq!((s.host.as_str(), s.port, s.tls), ("127.0.0.1", 8080, false));
    assert_eq!(s.addr(), "127.0.0.1:8080");
}

#[test]
fn default_ports() {
    let s = server("http://proxy.example").unwrap();
    assert_eq!((s.port, s.tls), (80, false));
    let s = server("HTTPS://proxy.example").unwrap();
    assert_eq!((s.port, s.tls), (443, true));
    assert_eq!(s.addr(), "proxy.example:443");
    let s = server("proxy.example").unwrap();
    assert_eq!((s.port, s.tls), (80, false));
}

#[test]
fn explicit_ports_win() {
    let s = server("https://proxy.example:80").unwrap();
    assert_eq!((s.port, s.tls), (80, true));
    let s = server("proxy.example:443").unwrap();
    assert_eq!((s.port, s.tls), (443, false));
}

#[test]
fn unknown_scheme() {
    let error = server("ftp://proxy.example").unwrap_err();
    assert!(matches!(&error, UriError::UnknownScheme { scheme } if scheme == "ftp"));
    assert_eq!(error.kind(), ErrorKind::InvalidInput);
    assert_eq!(error.message(), "unknown scheme ftp");
    let error = InnerProxy::new(parts(Some("socks"), None, None)).unwrap_err();
    assert_eq!(error.message(), "unknown scheme socks");
}

#[test]
fn no_host() {
    let error = server("/path").unwrap_err();
    assert!(matches!(error, UriError::NoHost));
    assert_eq!(error.kind(), ErrorKind::InvalidInput);
    assert_eq!(error.message(), "unknown port");
}

#[test]
fn transport_without_tls() {
    let s = server("http://127.0.0.1:8080").unwrap();
    assert!(matches!(s.transport(), Ok(Transport::Tcp)));
}

#[test]
fn transport_with_tls() {
    let s = server("https://proxy.example").unwrap();
    match s.transport() {
        Ok(Transport::Tls { server_name }) => assert_eq!(server_name, "proxy.example"),
        _ => panic!("no TLS"),
    }
    let s = server("https://127.0.0.1").unwrap();
    let error = s.transport().unwrap_err();
    assert_eq!(error.kind(), ErrorKind::Other);
    assert_eq!(error.error, InvalidDNSNameError);
    assert!(s.secured(Err(InvalidDNSNameError)).is_err());
    assert!(s.secured(Ok(())).is_ok());
}

#[test]
fn dialling_without_tls() {
    let s = server("http://127.0.0.1:8080").unwrap();
    let (mut connector, action) = s.call();
    assert!(matches!(action, Dial::Connect { addr } if addr == "127.0.0.1:8080"));
    assert_eq!(connector.stage(), DialStage::Dial);
    assert!(matches!(connector.step(true), Dial::UseTcp));
    assert_eq!(connector.stage(), DialStage::Over);
    let (mut connector, _) = s.call();
    assert!(matches!(connector.step(false), Dial::Report));
    assert_eq!(connector.stage(), DialStage::Over);
}

#[test]
fn dialling_with_tls() {
    let s = server("https://proxy.example").unwrap();
    let (mut connector, action) = s.call();
    assert!(matches!(action, Dial::Connect { addr } if addr == "proxy.example:443"));
    match connector.step(true) {
        Dial::Secure { server_name } => assert_eq!(server_name, "proxy.example"),
        _ => panic!("no TLS"),
    }
    assert_eq!(connector.stage(), DialStage::Secure);
    assert!(matches!(connector.step(true), Dial::UseTls));
    let (mut connector, _) = s.call();
    connector.step(true);
    assert!(matches!(connector.step(false), Dial::Report));
    let (mut connector, _) = s.call();
    assert!(matches!(connector.step(false), Dial::Report));
}

#[test]
fn host_is_checked_after_dialling() {
    let s = server("https://127.0.0.1").unwrap();
    let (mut connector, _) = s.call();
    assert!(matches!(connector.step(false), Dial::Report));
    let (mut connector, _) = s.call();
    match connector.step(true) {
        Dial::Fail { error } => assert_eq!(error.kind(), ErrorKind::Other),
        _ => panic!("no failure"),
    }
    assert_eq!(connector.stage(), DialStage::Over);
}

#[test]
fn proxy_keeps_its_server() {
    let proxy = Proxy::new(parts(Some("https"), Some("h"), Some(1))).unwrap();
    assert_eq!(proxy.inner().addr(), "h:1");
    assert!(Proxy::new(parts(None, None, None)).is_err());
}

#[test]
fn request_connects_to_the_address() {
    let proxy = Proxy::new(parts(None, Some("h"), None)).unwrap();
    for addr in ["93.184.216.34:443", "[2001:db8::1]:443", "[fe80::1%5]:80"] {
        let (tunnel, request) = proxy.handle(addr).unwrap();
        assert_eq!(tunnel.stage(), Stage::Send);
        assert_eq!(request.method(), Method::CONNECT);
        assert_eq!(request.method().as_str(), "CONNECT");
        assert_eq!(request.uri().authority().unwrap().as_str(), addr);
        assert_eq!(request.uri(), &parse_uri(addr).unwrap());
        assert!(request.body().is_end_stream());
        assert!(request.headers().is_empty());
    }
}

#[test]
fn no_request_without_a_target() {
    let proxy = Proxy::new(parts(None, Some("h"), None)).unwrap();
    let error = proxy.handle("").unwrap_err();
    assert_eq!(error.kind(), ErrorKind::InvalidInput);
    match error {
        RequestError::NotAUri { text } => assert_eq!(text.error.to_string(), "empty string"),
        _ => panic!("not this failure"),
    }
    let built = http::Request::connect("").body(hyper::Body::empty());
    let error = Proxy::start(built).unwrap_err();
    assert!(matches!(error, RequestError::NotBuilt { .. }));
    assert_eq!(error.kind(), ErrorKind::InvalidInput);
}

#[test]
fn tunnel_stands() {
    let mut tunnel = tunnel();
    assert_eq!(tunnel.step(true), Action::Upgrade);
    assert_eq!(tunnel.step(true), Action::Copy);
    assert_eq!(tunnel.step(true), Action::Finish);
    assert_eq!(tunnel.stage(), Stage::Over);
}

#[test]
fn tunnel_fails() {
    let expected = [
        Action::Wrap { kind: ErrorKind::Other },
        Action::Wrap { kind: ErrorKind::Other },
        Action::Report,
    ];
    for (successes, action) in expected.iter().enumerate() {
        let mut tunnel = tunnel();
        for _ in 0..successes {
            tunnel.step(true);
        }
        assert_eq!(tunnel.step(false), *action);
        assert_eq!(tunnel.stage(), Stage::Over);
    }
}
