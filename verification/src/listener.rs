//! Accepting redirected connections and finding out where they were headed.
//!
//! The packet filter redirects a connection to the local endpoint and remembers the address
//! that it was made to; a socket option tells that address, one for IPv6 and one for IPv4.
//! [`Listener`] decides which is asked for; whoever owns the sockets asks, and hands back
//! the answer.

use vstd::prelude::*;

use crate::addr::{SocketAddr, SocketAddrV4, SocketAddrV6};
#[allow(unused_imports)]
use crate::buffer::{be_bytes, from_be_bytes};

verus! {

/// An IPv4 socket address as the system stores it: address and port are bytes in network
/// order.
#[derive(Debug, Copy, Clone, PartialEq, Eq)]
pub struct RawAddrV4 {
    pub addr: [u8; 4],
    pub port: [u8; 2],
}

/// An IPv6 socket address as the system stores it: address and port are bytes in network
/// order.
#[derive(Debug, Copy, Clone, PartialEq, Eq)]
pub struct RawAddrV6 {
    pub addr: [u8; 16],
    pub port: [u8; 2],
    pub flowinfo: u32,
    pub scope_id: u32,
}

/// Whether `addr` is the address that the system stores as `raw`.
pub open spec fn stored_as_v4(addr: SocketAddrV4, raw: RawAddrV4) -> bool {
    &&& addr.octets == raw.addr
    &&& addr.port == from_be_bytes(raw.port@)
}

/// Whether `addr` is the address that the system stores as `raw`.
pub open spec fn stored_as_v6(addr: SocketAddrV6, raw: RawAddrV6) -> bool {
    &&& addr.octets == raw.addr
    &&& addr.port == from_be_bytes(raw.port@)
    &&& addr.flowinfo == raw.flowinfo
    &&& addr.scope_id == raw.scope_id
}

/// The port that two bytes in network order stand for.
fn port_of(bytes: [u8; 2]) -> (port: u16)
    ensures
        port == from_be_bytes(bytes@),
{
    bytes[0] as u16 * 256 + bytes[1] as u16
}

/// The address that the system stores as `raw`.
pub fn read_v4(raw: RawAddrV4) -> (addr: SocketAddrV4)
    ensures
        stored_as_v4(addr, raw),
        addr.octets == raw.addr,
        addr.port == raw.port@[0] * 256 + raw.port@[1],
{
    SocketAddrV4 { octets: raw.addr, port: port_of(raw.port) }
}

/// The address that the system stores as `raw`.
pub fn read_v6(raw: RawAddrV6) -> (addr: SocketAddrV6)
    ensures
        stored_as_v6(addr, raw),
        addr.octets == raw.addr,
        addr.port == raw.port@[0] * 256 + raw.port@[1],
        addr.flowinfo == raw.flowinfo,
        addr.scope_id == raw.scope_id,
{
    SocketAddrV6 {
        octets: raw.addr,
        port: port_of(raw.port),
        flowinfo: raw.flowinfo,
        scope_id: raw.scope_id,
    }
}

/// What the owner of the sockets is to do next.
#[derive(Debug, Copy, Clone, PartialEq, Eq)]
pub enum Action {
    /// Come back when there may be a connection to accept.
    Wait,
    /// Ask for the original address of the accepted connection as an IPv6 address.
    QueryV6,
    /// Ask for it as an IPv4 address.
    QueryV4,
    /// Hand on the accepted connection, which was headed for `addr`.
    Yield { addr: SocketAddr },
    /// Hand on the failure that was handed in last.
    Report,
}

/// How an action went. The first event is how accepting went.
#[derive(Debug, Copy, Clone, PartialEq, Eq)]
pub enum Event {
    /// There is no connection to accept yet.
    NotReady,
    /// A connection was accepted, or accepting failed.
    Accept { ok: bool },
    /// The original address as an IPv6 address, if the system told one.
    AnswerV6 { v6: Option<RawAddrV6> },
    /// The original address as an IPv4 address, if the system told one.
    AnswerV4 { v4: Option<RawAddrV4> },
}

/// What the listener waits for.
#[derive(Debug, Copy, Clone, PartialEq, Eq, Structural)]
pub enum Stage {
    Accept,
    AnswerV6,
    AnswerV4,
}

/// Whether the event is what the stage waits for.
pub open spec fn awaited(stage: Stage, event: Event) -> bool {
    match stage {
        Stage::Accept => event is NotReady || event is Accept,
        Stage::AnswerV6 => event is AnswerV6,
        Stage::AnswerV4 => event is AnswerV4,
    }
}

/// Whether `next` and `action` follow the event. The IPv6 address is asked for first, and
/// the IPv4 address only if there is none. After a connection or a failure has been handed
/// on, the next connection is waited for.
pub open spec fn follows(event: Event, next: Stage, action: Action) -> bool {
    match event {
        Event::NotReady => next == Stage::Accept && action == Action::Wait,
        Event::Accept { ok: true } => next == Stage::AnswerV6 && action == Action::QueryV6,
        Event::Accept { ok: false } => next == Stage::Accept && action == Action::Report,
        Event::AnswerV6 { v6: Some(raw) } => {
            &&& next == Stage::Accept
            &&& action matches Action::Yield { addr: SocketAddr::V6(addr) }
            &&& stored_as_v6(addr, raw)
        },
        Event::AnswerV6 { v6: None } => next == Stage::AnswerV4 && action == Action::QueryV4,
        Event::AnswerV4 { v4: Some(raw) } => {
            &&& next == Stage::Accept
            &&& action matches Action::Yield { addr: SocketAddr::V4(addr) }
            &&& stored_as_v4(addr, raw)
        },
        Event::AnswerV4 { v4: None } => next == Stage::Accept && action == Action::Report,
    }
}

/// The local endpoint.
#[derive(Debug, Copy, Clone)]
pub struct Listener {
    stage: Stage,
}

impl Listener {
    /// What the listener waits for.
    pub closed spec fn spec_stage(self) -> Stage {
        self.stage
    }

    /// What the listener waits for.
    #[verifier::when_used_as_spec(spec_stage)]
    pub fn stage(self) -> (stage: Stage)
        ensures
            stage == self.spec_stage(),
    {
        self.stage
    }

    /// An endpoint that waits for its first connection.
    pub fn new() -> (listener: Self)
        ensures
            listener.stage() == Stage::Accept,
    {
        Listener { stage: Stage::Accept }
    }

    /// Takes what was waited for and says what to do next.
    pub fn step(&mut self, event: Event) -> (action: Action)
        requires
            awaited(old(self).stage(), event),
        ensures
            follows(event, final(self).stage(), action),
    {
        match event {
            Event::NotReady => {
                self.stage = Stage::Accept;
                Action::Wait
            },
            Event::Accept { ok } => if ok {
                self.stage = Stage::AnswerV6;
                Action::QueryV6
            } else {
                self.stage = Stage::Accept;
                Action::Report
            },
            Event::AnswerV6 { v6: Some(raw) } => {
                self.stage = Stage::Accept;
                Action::Yield { addr: SocketAddr::V6(read_v6(raw)) }
            },
            Event::AnswerV6 { v6: None } => {
                self.stage = Stage::AnswerV4;
                Action::QueryV4
            },
            Event::AnswerV4 { v4: Some(raw) } => {
                self.stage = Stage::Accept;
                Action::Yield { addr: SocketAddr::V4(read_v4(raw)) }
            },
            Event::AnswerV4 { v4: None } => {
                self.stage = Stage::Accept;
                Action::Report
            },
        }
    }
}

/// The system stores every port in one way, and what is stored in that way is read as that
/// port.
pub proof fn ports_survive_storage(port: u16)
    ensures
        be_bytes(port).len() == 2,
        be_bytes(port)[0] * 256 + be_bytes(port)[1] == port,
        from_be_bytes(be_bytes(port)) == port,
        forall|bytes: Seq<u8>|
            bytes.len() == 2 && #[trigger] from_be_bytes(bytes) == port ==> bytes == be_bytes(port),
{
    assert forall|bytes: Seq<u8>|
        bytes.len() == 2 && #[trigger] from_be_bytes(bytes) == port implies bytes == be_bytes(
        port,
    ) by {
        assert(bytes =~= be_bytes(port));
    }
}

/// Storing an address and then reading it gives the address back, and nothing else: the same
/// octets in the same order, the port whose bytes were stored in network order, and for IPv6
/// the same flow information and scope.
pub proof fn stored_addresses_read_back(
    v4: SocketAddrV4,
    v6: SocketAddrV6,
    bytes4: [u8; 2],
    bytes6: [u8; 2],
    read4: SocketAddrV4,
    read6: SocketAddrV6,
)
    requires
        bytes4@ == be_bytes(v4.port),
        bytes6@ == be_bytes(v6.port),
    ensures
        stored_as_v4(read4, RawAddrV4 { addr: v4.octets, port: bytes4 }) <==> read4 == v4,
        stored_as_v6(
            read6,
            RawAddrV6 {
                addr: v6.octets,
                port: bytes6,
                flowinfo: v6.flowinfo,
                scope_id: v6.scope_id,
            },
        ) <==> read6 == v6,
{
    ports_survive_storage(v4.port);
    ports_survive_storage(v6.port);
}

/// What is stored is read as one address only.
pub proof fn stored_addresses_are_unambiguous(
    a: SocketAddrV4,
    b: SocketAddrV4,
    raw4: RawAddrV4,
    c: SocketAddrV6,
    d: SocketAddrV6,
    raw6: RawAddrV6,
)
    ensures
        stored_as_v4(a, raw4) && stored_as_v4(b, raw4) ==> a == b,
        stored_as_v6(c, raw6) && stored_as_v6(d, raw6) ==> c == d,
{
}

/// Whatever happens with one connection, the listener is back to waiting for the next after
/// it has handed on the connection or a failure, and it hands on one of them after at most
/// three events.
pub proof fn listener_returns_to_accept(
    stage: Stage,
    event: Event,
    next: Stage,
    action: Action,
)
    requires
        awaited(stage, event),
        follows(event, next, action),
    ensures
        next == Stage::Accept <==> ends_poll(action),
        stage == Stage::AnswerV4 ==> next == Stage::Accept,
        stage == Stage::AnswerV6 ==> next != Stage::AnswerV6,
        stage == Stage::Accept ==> next != Stage::AnswerV4,
        action is Report ==> stage != Stage::AnswerV6,
{
}

/// Whether the action ends a poll of the listener: there is something to hand on, or the
/// poll is to be made again later.
pub open spec fn ends_poll(action: Action) -> bool {
    action is Wait || action is Yield || action is Report
}

/// Whether the events and the actions that follow them are one poll of a listener: it starts
/// where a connection is waited for, and goes on until an action ends it.
pub open spec fn is_poll(events: Seq<Event>, stages: Seq<Stage>, actions: Seq<Action>) -> bool {
    &&& events.len() > 0
    &&& stages.len() == events.len() + 1
    &&& actions.len() == events.len()
    &&& stages[0] == Stage::Accept
    &&& forall|i: int| #![trigger events[i]]
        0 <= i < events.len() ==> {
            &&& awaited(stages[i], events[i])
            &&& follows(events[i], stages[i + 1], actions[i])
            &&& ends_poll(actions[i]) <==> i == events.len() - 1
        }
}

/// Every poll of a listener ends, after at most three events, and leaves the listener fit for
/// the next. It comes to nothing exactly if there is no connection to accept yet; otherwise
/// it hands on a connection or a failure, so the stream of them has no end, not even after a
/// failure. A failure to accept is handed on at once.
pub proof fn poll_hands_on_or_waits(
    events: Seq<Event>,
    stages: Seq<Stage>,
    actions: Seq<Action>,
)
    requires
        is_poll(events, stages, actions),
    ensures
        events.len() <= 3,
        stages.last() == Stage::Accept,
        actions.last() is Wait <==> events[0] is NotReady,
        actions.last() is Yield || actions.last() is Report <==> events[0] is Accept,
        events[0] == (Event::Accept { ok: false }) ==> events.len() == 1 && actions.last()
            == Action::Report,
        actions.last() is Report ==> events[0] == (Event::Accept { ok: false }) || events.last()
            == (Event::AnswerV4 { v4: None }),
{
    assert(awaited(stages[0], events[0]));
    if events.len() > 1 {
        assert(awaited(stages[1], events[1]));
    }
    if events.len() > 2 {
        assert(awaited(stages[2], events[2]));
    }
}

/// Where a connection was headed is asked for as an IPv6 address first, and as an IPv4 address
/// exactly if there is no such. The first address that the system tells is handed on as it is
/// stored: its octets, its port in network order, and for IPv6 the flow information and the
/// scope.
pub proof fn address_told_is_handed_on(event: Event, next: Stage, action: Action)
    requires
        follows(event, next, action),
    ensures
        action is QueryV6 <==> event == (Event::Accept { ok: true }),
        action is QueryV4 <==> event == (Event::AnswerV6 { v6: None }),
        action is Wait <==> event is NotReady,
        action is Report <==> event == (Event::Accept { ok: false }) || event == (Event::AnswerV4 {
            v4: None,
        }),
        event matches Event::AnswerV6 { v6: Some(raw) } ==> {
            &&& action matches Action::Yield { addr: SocketAddr::V6(addr) }
            &&& addr.octets@ == raw.addr@
            &&& addr.port == raw.port@[0] * 256 + raw.port@[1]
            &&& addr.flowinfo == raw.flowinfo
            &&& addr.scope_id == raw.scope_id
        },
        event matches Event::AnswerV4 { v4: Some(raw) } ==> {
            &&& action matches Action::Yield { addr: SocketAddr::V4(addr) }
            &&& addr.octets@ == raw.addr@
            &&& addr.port == raw.port@[0] * 256 + raw.port@[1]
        },
{
}

/// What has been asked for is what is taken next, whatever the answer: after a question for an
/// address of one family any answer of that family, and after anything else how accepting went.
pub proof fn answer_to_the_question_is_awaited(
    event: Event,
    next: Stage,
    action: Action,
    later: Event,
)
    requires
        follows(event, next, action),
    ensures
        awaited(next, later) <==> (match action {
            Action::QueryV6 => later is AnswerV6,
            Action::QueryV4 => later is AnswerV4,
            _ => later is NotReady || later is Accept,
        }),
        awaited(Stage::Accept, later) <==> later is NotReady || later is Accept,
{
}

} // verus!
