use easy_proxy::addr::{SocketAddr, SocketAddrV4, SocketAddrV6};
use easy_proxy::listener::{
    read_v4, read_v6, Action, Event, Listener, RawAddrV4, RawAddrV6, Stage,
};

const RAW4: RawAddrV4 = RawAddrV4 { addr: [93, 184, 216, 34], port: [1, 187] };
const RAW6: RawAddrV6 = RawAddrV6 {
    addr: [0x20, 1, 0xd, 0xb8, 0, 0, 0, 0, 0, 0, 0, 0, 0, 0, 0, 1],
    port: [0x1f, 0x90],
    flowinfo: 3,
    scope_id: 4,
};

#[test]
fn addresses_are_read_in_network_order() {
    assert_eq!(read_v4(RAW4), SocketAddrV4 { octets: [93, 184, 216, 34], port: 443 });
    assert_eq!(
        read_v6(RAW6),
        SocketAddrV6 { octets: RAW6.addr, port: 8080, flowinfo: 3, scope_id: 4 }
    );
}

#[test]
fn every_port_survives() {
    for port in 0..=65535u16 {
        let raw = RawAddrV4 { addr: [0; 4], port: port.to_be_bytes() };
        assert_eq!(read_v4(raw).port, port);
    }
}

#[test]
fn ipv6_is_asked_for_first() {
    let mut listener = Listener::new();
    assert_eq!(listener.stage(), Stage::Accept);
    assert_eq!(listener.step(Event::Accept { ok: true }), Action::QueryV6);
    assert_eq!(
        listener.step(Event::AnswerV6 { v6: Some(RAW6) }),
        Action::Yield { addr: SocketAddr::V6(read_v6(RAW6)) }
    );
    assert_eq!(listener.stage(), Stage::Accept);
}

#[test]
fn ipv4_is_asked_for_next() {
    let mut listener = Listener::new();
    listener.step(Event::Accept { ok: true });
    assert_eq!(listener.step(Event::AnswerV6 { v6: None }), Action::QueryV4);
    assert_eq!(
        listener.step(Event::AnswerV4 { v4: Some(RAW4) }),
        Action::Yield { addr: SocketAddr::V4(read_v4(RAW4)) }
    );
    assert_eq!(listener.stage(), Stage::Accept);
}

#[test]
fn poll_waits_exactly_if_there_is_nothing_to_accept() {
    let mut listener = Listener::new();
    assert_eq!(listener.step(Event::NotReady), Action::Wait);
    assert_eq!(listener.stage(), Stage::Accept);
    assert_eq!(listener.step(Event::Accept { ok: false }), Action::Report);
    assert_eq!(listener.step(Event::NotReady), Action::Wait);
    assert_eq!(listener.step(Event::Accept { ok: true }), Action::QueryV6);
}

#[test]
fn failures_are_handed_on_and_the_listener_goes_on() {
    let mut listener = Listener::new();
    assert_eq!(listener.step(Event::Accept { ok: false }), Action::Report);
    assert_eq!(listener.step(Event::Accept { ok: true }), Action::QueryV6);
    assert_eq!(listener.step(Event::AnswerV6 { v6: None }), Action::QueryV4);
    assert_eq!(listener.step(Event::AnswerV4 { v4: None }), Action::Report);
    assert_eq!(listener.step(Event::Accept { ok: true }), Action::QueryV6);
}
