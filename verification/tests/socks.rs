use easy_proxy::addr::{SocketAddr, SocketAddrV4, SocketAddrV6};
use easy_proxy::error::ErrorKind;
use easy_proxy::socks::{Action, Auth, Cmd, Handshake, HandshakeError, Proxy, ReplyCode, Stage};

fn v4(octets: [u8; 4], port: u16) -> SocketAddr {
    SocketAddr::V4(SocketAddrV4 { octets, port })
}

fn v6(octets: [u8; 16], port: u16) -> SocketAddr {
    SocketAddr::V6(SocketAddrV6 { octets, port, flowinfo: 7, scope_id: 9 })
}

fn message(action: Action) -> Vec<u8> {
    match action {
        Action::Exchange { message } => message.to_vec(),
        _ => panic!("not an exchange"),
    }
}

/// A dialogue that has come to where the method is awaited.
fn greeted(target: SocketAddr) -> Handshake {
    let proxy = Proxy::new(v4([127, 0, 0, 1], 1080));
    let (mut handshake, _) = proxy.handle(target);
    handshake.step(&[]);
    handshake
}

/// A dialogue that has come to where the answer is awaited.
fn requested(target: SocketAddr) -> Handshake {
    let mut handshake = greeted(target);
    handshake.step(&[5, 0]);
    handshake
}

/// The error that the bytes lead to.
fn error_of(mut handshake: Handshake, bytes: &[u8]) -> HandshakeError {
    match handshake.step(bytes) {
        Action::Fail { error } => {
            assert_eq!(handshake.stage(), Stage::Over);
            error
        }
        _ => panic!("no failure"),
    }
}

/// Plays a whole dialogue; gives what the client sent, what the server's stream still held
/// at the end, and the error if there was one.
fn play(target: SocketAddr, stream: &[u8]) -> (Vec<u8>, Vec<u8>, Option<HandshakeError>) {
    let (mut handshake, mut action) = Proxy::new(v4([10, 0, 0, 1], 1080)).handle(target);
    let mut sent = Vec::new();
    let mut at = 0;
    loop {
        match action {
            Action::Connect { .. } | Action::Read => {}
            Action::Exchange { message } => sent.extend_from_slice(&message),
            Action::Tunnel { len } => {
                assert_eq!(len, 65535);
                return (sent, stream[at..].to_vec(), None);
            }
            Action::Fail { error } => return (sent, stream[at..].to_vec(), Some(error)),
        }
        let n = handshake.stage().expects();
        let bytes = &stream[at..at + n];
        at += n;
        action = handshake.step(bytes);
    }
}

#[test]
fn commands_and_methods_have_their_codes() {
    assert_eq!(u8::from(Cmd::Connect), 1);
    assert_eq!(u8::from(Auth::NoAuth), 0);
}

#[test]
fn reply_codes_are_read() {
    let all = [
        ReplyCode::Succeeded,
        ReplyCode::ServerFail,
        ReplyCode::ConnectionNotAllowed,
        ReplyCode::NetWorkUnreachable,
        ReplyCode::HostUnreachable,
        ReplyCode::ConnectionRefused,
        ReplyCode::TTLExpired,
        ReplyCode::CmdNotSupport,
        ReplyCode::AddressTypeNotSupport,
        ReplyCode::Other,
    ];
    for (value, reply) in all.iter().enumerate() {
        assert_eq!(ReplyCode::try_from(value as u8), Ok(*reply));
        assert_eq!(reply.name(), format!("{:?}", reply));
    }
    for value in 10..=255u8 {
        assert_eq!(
            ReplyCode::try_from(value),
            Err(HandshakeError::UnknownReply { code: value })
        );
    }
}

#[test]
fn server_is_connected_to_first() {
    let server = v4([127, 0, 0, 1], 1080);
    let proxy = Proxy::new(server);
    assert_eq!(proxy.addr(), server);
    let (handshake, action) = proxy.handle(v4([1, 2, 3, 4], 80));
    assert_eq!(handshake.stage(), Stage::Dial);
    assert!(matches!(action, Action::Connect { server: s } if s == server));
}

#[test]
fn greeting_offers_no_authentication() {
    let (mut handshake, _) = Proxy::new(v4([127, 0, 0, 1], 1080)).handle(v4([1, 2, 3, 4], 80));
    assert_eq!(message(handshake.step(&[])), [5, 1, 0]);
    assert_eq!(handshake.stage(), Stage::Method);
    assert_eq!(handshake.stage().expects(), 2);
}

#[test]
fn request_for_ipv4() {
    let mut handshake = greeted(v4([93, 184, 216, 34], 443));
    assert_eq!(message(handshake.step(&[5, 0])), [5, 1, 0, 1, 93, 184, 216, 34, 1, 187]);
    assert_eq!(handshake.stage().expects(), 4);
}

#[test]
fn request_for_ipv6() {
    let octets = [0x20, 1, 0xd, 0xb8, 0, 0, 0, 0, 0, 0, 0, 0, 0, 0, 0, 1];
    let mut handshake = greeted(v6(octets, 8080));
    let mut expected = vec![5, 1, 0, 4];
    expected.extend_from_slice(&octets);
    expected.extend_from_slice(&[0x1f, 0x90]);
    assert_eq!(message(handshake.step(&[5, 0])), expected);
}

#[test]
fn request_leaves_flow_and_scope_out() {
    let octets = [1u8; 16];
    let other = SocketAddr::V6(SocketAddrV6 { octets, port: 5, flowinfo: 1, scope_id: 2 });
    let a = message(greeted(v6(octets, 5)).step(&[5, 0]));
    let b = message(greeted(other).step(&[5, 0]));
    let c = message(greeted(v6(octets, 6)).step(&[5, 0]));
    assert_eq!(a, b);
    assert_ne!(a, c);
}

#[test]
fn other_version_in_the_method() {
    let error = error_of(greeted(v4([1, 2, 3, 4], 80)), &[4, 91]);
    assert_eq!(error, HandshakeError::Version { next: 91 });
    assert_eq!(error.kind(), ErrorKind::ConnectionAborted);
    assert_eq!(error.message(), "socks server version is 91 not 5");
}

#[test]
fn authentication_wanted() {
    let error = error_of(greeted(v4([1, 2, 3, 4], 80)), &[5, 255]);
    assert_eq!(error, HandshakeError::Auth { code: 255 });
    assert_eq!(error.kind(), ErrorKind::ConnectionAborted);
    assert_eq!(error.message(), "socks server auth code is 255 not NoAuth");
}

#[test]
fn other_version_in_the_answer() {
    let error = error_of(requested(v4([1, 2, 3, 4], 80)), &[0, 7, 0, 1]);
    assert_eq!(error, HandshakeError::Version { next: 7 });
    assert_eq!(error.message(), "socks server version is 7 not 5");
}

#[test]
fn unknown_answer() {
    let error = error_of(requested(v4([1, 2, 3, 4], 80)), &[5, 10, 0, 1]);
    assert_eq!(error, HandshakeError::UnknownReply { code: 10 });
    assert_eq!(error.kind(), ErrorKind::Other);
    assert_eq!(error.message(), "unknown reply code 10");
}

#[test]
fn refused() {
    let error = error_of(requested(v4([1, 2, 3, 4], 80)), &[5, 5, 0, 1]);
    assert_eq!(error, HandshakeError::Refused { reply: ReplyCode::ConnectionRefused });
    assert_eq!(error.kind(), ErrorKind::ConnectionAborted);
    assert_eq!(error.message(), "socks connect failed ConnectionRefused");
}

#[test]
fn unknown_address_type() {
    let error = error_of(requested(v4([1, 2, 3, 4], 80)), &[5, 0, 0, 2]);
    assert_eq!(error, HandshakeError::UnknownAddrType { code: 2 });
    assert_eq!(error.kind(), ErrorKind::Other);
    assert_eq!(error.message(), "unknown reply addr type 2");
}

#[test]
fn tunnel_after_an_ipv4_answer() {
    let mut stream = vec![5, 0, 5, 0, 0, 1];
    stream.extend_from_slice(&[10, 0, 0, 9, 4, 56]);
    stream.extend_from_slice(b"payload");
    let (sent, rest, error) = play(v4([1, 2, 3, 4], 80), &stream);
    assert_eq!(sent, [5, 1, 0, 5, 1, 0, 1, 1, 2, 3, 4, 0, 80]);
    assert_eq!(rest, b"payload");
    assert_eq!(error, None);
}

#[test]
fn tunnel_after_an_ipv6_answer() {
    let mut stream = vec![5, 0, 5, 0, 0, 4];
    stream.extend_from_slice(&[0; 18]);
    stream.extend_from_slice(b"xy");
    assert_eq!(play(v4([1, 2, 3, 4], 80), &stream).1, b"xy");
}

#[test]
fn tunnel_after_a_domain_answer() {
    for len in [0usize, 1, 11, 255] {
        let mut stream = vec![5, 0, 5, 0, 0, 3, len as u8];
        stream.extend(vec![b'a'; len + 2]);
        stream.extend_from_slice(b"rest");
        let (_, rest, error) = play(v4([1, 2, 3, 4], 80), &stream);
        assert_eq!(rest, b"rest");
        assert_eq!(error, None);
    }
}

#[test]
fn reserved_byte_plays_no_part() {
    for reserved in 0..=255u8 {
        let stream = [5, 0, 5, 0, reserved, 1, 1, 1, 1, 1, 1, 1];
        assert_eq!(play(v4([1, 2, 3, 4], 80), &stream).2, None);
    }
}

#[test]
fn target_is_not_told_to_a_server_that_wants_authentication() {
    let (sent, _, error) = play(v4([1, 2, 3, 4], 80), &[5, 2]);
    assert_eq!(sent, [5, 1, 0]);
    assert_eq!(error, Some(HandshakeError::Auth { code: 2 }));
}
