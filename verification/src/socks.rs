//! The client side of SOCKS5: the messages, and the dialogue that ends in a tunnel to the
//! target.
//!
//! [`Handshake`] decides; whoever owns the sockets performs the [`Action`] it asks for and
//! hands back the bytes that were read.

use bytes::BytesMut;
use vstd::prelude::*;
use vstd::string::StringExecFns;

use crate::addr::SocketAddr;
use crate::buffer;
#[allow(unused_imports)]
use crate::buffer::{be_bytes, bytes_of, from_be_bytes};
use crate::error::ErrorKind;
#[allow(unused_imports)]
use crate::relay;
#[allow(unused_imports)]
use crate::text::{decimal, decimal_reads_back};
use crate::text::to_decimal;
#[allow(unused_imports)]
use crate::zero_copy;

verus! {

/// The protocol version.
pub const VERSION: u8 = 5;

/// How many bytes at most go through the pipe at a time once the tunnel stands.
pub const PIPE_BUF_SIZE: usize = 65535;

/// The address type of IPv4.
pub const ADDR_IPV4: u8 = 1;

/// The address type of a domain name.
pub const ADDR_DOMAIN: u8 = 3;

/// The address type of IPv6.
pub const ADDR_IPV6: u8 = 4;

/// What is asked of the server.
#[derive(Debug, Copy, Clone)]
pub enum Cmd {
    Connect,
}

impl From<Cmd> for u8 {
    fn from(cmd: Cmd) -> (code: u8) {
        match cmd {
            Cmd::Connect => 1,
        }
    }
}

impl vstd::std_specs::convert::FromSpecImpl<Cmd> for u8 {
    open spec fn obeys_from_spec() -> bool {
        true
    }

    open spec fn from_spec(cmd: Cmd) -> u8 {
        match cmd {
            Cmd::Connect => 1,
        }
    }
}

/// How the client shows who it is.
#[derive(Debug, Copy, Clone)]
pub enum Auth {
    NoAuth,
}

impl From<Auth> for u8 {
    fn from(auth: Auth) -> (code: u8) {
        match auth {
            Auth::NoAuth => 0,
        }
    }
}

impl vstd::std_specs::convert::FromSpecImpl<Auth> for u8 {
    open spec fn obeys_from_spec() -> bool {
        true
    }

    open spec fn from_spec(auth: Auth) -> u8 {
        match auth {
            Auth::NoAuth => 0,
        }
    }
}

/// The server's answer to a request.
#[derive(Debug, Copy, Clone, PartialEq, Eq, Structural)]
pub enum ReplyCode {
    Succeeded,
    ServerFail,
    ConnectionNotAllowed,
    NetWorkUnreachable,
    HostUnreachable,
    ConnectionRefused,
    TTLExpired,
    CmdNotSupport,
    AddressTypeNotSupport,
    Other,
}

impl ReplyCode {
    /// The number that stands for the answer on the wire.
    pub open spec fn code(self) -> u8 {
        match self {
            ReplyCode::Succeeded => 0,
            ReplyCode::ServerFail => 1,
            ReplyCode::ConnectionNotAllowed => 2,
            ReplyCode::NetWorkUnreachable => 3,
            ReplyCode::HostUnreachable => 4,
            ReplyCode::ConnectionRefused => 5,
            ReplyCode::TTLExpired => 6,
            ReplyCode::CmdNotSupport => 7,
            ReplyCode::AddressTypeNotSupport => 8,
            ReplyCode::Other => 9,
        }
    }

    /// The answer's name.
    pub open spec fn spec_name(self) -> Seq<char> {
        match self {
            ReplyCode::Succeeded => "Succeeded"@,
            ReplyCode::ServerFail => "ServerFail"@,
            ReplyCode::ConnectionNotAllowed => "ConnectionNotAllowed"@,
            ReplyCode::NetWorkUnreachable => "NetWorkUnreachable"@,
            ReplyCode::HostUnreachable => "HostUnreachable"@,
            ReplyCode::ConnectionRefused => "ConnectionRefused"@,
            ReplyCode::TTLExpired => "TTLExpired"@,
            ReplyCode::CmdNotSupport => "CmdNotSupport"@,
            ReplyCode::AddressTypeNotSupport => "AddressTypeNotSupport"@,
            ReplyCode::Other => "Other"@,
        }
    }

    /// The answer's name.
    pub fn name(self) -> (name: &'static str)
        ensures
            name@ == self.spec_name(),
    {
        match self {
            ReplyCode::Succeeded => "Succeeded",
            ReplyCode::ServerFail => "ServerFail",
            ReplyCode::ConnectionNotAllowed => "ConnectionNotAllowed",
            ReplyCode::NetWorkUnreachable => "NetWorkUnreachable",
            ReplyCode::HostUnreachable => "HostUnreachable",
            ReplyCode::ConnectionRefused => "ConnectionRefused",
            ReplyCode::TTLExpired => "TTLExpired",
            ReplyCode::CmdNotSupport => "CmdNotSupport",
            ReplyCode::AddressTypeNotSupport => "AddressTypeNotSupport",
            ReplyCode::Other => "Other",
        }
    }
}

/// The answer whose number is `value`; a number without an answer is an error that names it.
pub open spec fn reply_code(value: u8) -> Result<ReplyCode, HandshakeError> {
    match value {
        0 => Ok(ReplyCode::Succeeded),
        1 => Ok(ReplyCode::ServerFail),
        2 => Ok(ReplyCode::ConnectionNotAllowed),
        3 => Ok(ReplyCode::NetWorkUnreachable),
        4 => Ok(ReplyCode::HostUnreachable),
        5 => Ok(ReplyCode::ConnectionRefused),
        6 => Ok(ReplyCode::TTLExpired),
        7 => Ok(ReplyCode::CmdNotSupport),
        8 => Ok(ReplyCode::AddressTypeNotSupport),
        9 => Ok(ReplyCode::Other),
        _ => Err(HandshakeError::UnknownReply { code: value }),
    }
}

/// Reading the number of an answer gives the answer back, and a number that is read as an
/// answer is that answer's number: answers and the numbers in use pair off.
pub proof fn reply_codes_pair_off(reply: ReplyCode, value: u8)
    ensures
        reply_code(reply.code()) == Ok::<ReplyCode, HandshakeError>(reply),
        reply_code(value) matches Ok(r) ==> r.code() == value,
        reply_code(value) is Ok <==> exists|r: ReplyCode| #[trigger] r.code() == value,
{
    if let Ok(r) = reply_code(value) {
        assert(r.code() == value);
    }
}

impl TryFrom<u8> for ReplyCode {
    type Error = HandshakeError;

    fn try_from(value: u8) -> (r: Result<Self, HandshakeError>) {
        match value {
            0 => Ok(ReplyCode::Succeeded),
            1 => Ok(ReplyCode::ServerFail),
            2 => Ok(ReplyCode::ConnectionNotAllowed),
            3 => Ok(ReplyCode::NetWorkUnreachable),
            4 => Ok(ReplyCode::HostUnreachable),
            5 => Ok(ReplyCode::ConnectionRefused),
            6 => Ok(ReplyCode::TTLExpired),
            7 => Ok(ReplyCode::CmdNotSupport),
            8 => Ok(ReplyCode::AddressTypeNotSupport),
            9 => Ok(ReplyCode::Other),
            _ => Err(HandshakeError::UnknownReply { code: value }),
        }
    }
}

impl vstd::std_specs::convert::TryFromSpecImpl<u8> for ReplyCode {
    open spec fn obeys_try_from_spec() -> bool {
        true
    }

    open spec fn try_from_spec(value: u8) -> Result<Self, HandshakeError> {
        reply_code(value)
    }
}

/// Why a dialogue with the server ended without a tunnel.
#[derive(Debug, Copy, Clone, PartialEq, Eq, Structural)]
pub enum HandshakeError {
    /// The server speaks another version. `next` is the byte that followed the version.
    Version { next: u8 },
    /// The server wants the client to authenticate, by method `code`.
    Auth { code: u8 },
    /// The server's answer has a number that stands for nothing.
    UnknownReply { code: u8 },
    /// The server did not connect to the target.
    Refused { reply: ReplyCode },
    /// The server's own address in its answer is of an unknown type.
    UnknownAddrType { code: u8 },
}

impl HandshakeError {
    /// The sort of failure that is reported.
    pub open spec fn spec_kind(self) -> ErrorKind {
        match self {
            HandshakeError::Version { .. } => ErrorKind::ConnectionAborted,
            HandshakeError::Auth { .. } => ErrorKind::ConnectionAborted,
            HandshakeError::UnknownReply { .. } => ErrorKind::Other,
            HandshakeError::Refused { .. } => ErrorKind::ConnectionAborted,
            HandshakeError::UnknownAddrType { .. } => ErrorKind::Other,
        }
    }

    /// The text that is reported.
    pub open spec fn spec_message(self) -> Seq<char> {
        match self {
            HandshakeError::Version { next } => "socks server version is "@ + decimal(next as nat)
                + " not "@ + decimal(VERSION as nat),
            HandshakeError::UnknownReply { code } => "unknown reply code "@ + decimal(code as nat),
            HandshakeError::Refused { reply } => "socks connect failed "@ + reply.spec_name(),
            HandshakeError::UnknownAddrType { code } => "unknown reply addr type "@ + decimal(
                code as nat,
            ),
            HandshakeError::Auth { code } => "socks server auth code is "@ + decimal(code as nat)
                + " not NoAuth"@,
        }
    }

    /// The sort of failure that is reported.
    pub fn kind(self) -> (kind: ErrorKind)
        ensures
            kind == self.spec_kind(),
    {
        match self {
            HandshakeError::Version { .. } => ErrorKind::ConnectionAborted,
            HandshakeError::Auth { .. } => ErrorKind::ConnectionAborted,
            HandshakeError::UnknownReply { .. } => ErrorKind::Other,
            HandshakeError::Refused { .. } => ErrorKind::ConnectionAborted,
            HandshakeError::UnknownAddrType { .. } => ErrorKind::Other,
        }
    }

    /// The text that is reported. A text about a version shows the byte that followed the
    /// version, and a text about authentication the method that the server picked.
    pub fn message(self) -> (text: String)
        ensures
            text@ == self.spec_message(),
    {
        match self {
            HandshakeError::Version { next } => {
                let mut text = String::from_str("socks server version is ");
                text.append(to_decimal(next as u64).as_str());
                text.append(" not ");
                text.append(to_decimal(VERSION as u64).as_str());
                text
            },
            HandshakeError::UnknownReply { code } => {
                let mut text = String::from_str("unknown reply code ");
                text.append(to_decimal(code as u64).as_str());
                text
            },
            HandshakeError::Refused { reply } => {
                let mut text = String::from_str("socks connect failed ");
                text.append(reply.name());
                text
            },
            HandshakeError::UnknownAddrType { code } => {
                let mut text = String::from_str("unknown reply addr type ");
                text.append(to_decimal(code as u64).as_str());
                text
            },
            HandshakeError::Auth { code } => {
                let mut text = String::from_str("socks server auth code is ");
                text.append(to_decimal(code as u64).as_str());
                text.append(" not NoAuth");
                text
            },
        }
    }
}

/// The client's first message: one method of authentication is on offer, and that is to go
/// without.
pub open spec fn greeting() -> Seq<u8> {
    seq![VERSION, 1, 0]
}

/// The address type that goes with a target.
pub open spec fn addr_type(target: SocketAddr) -> u8 {
    match target {
        SocketAddr::V4(_) => ADDR_IPV4,
        SocketAddr::V6(_) => ADDR_IPV6,
    }
}

/// The request to connect to `target`.
pub open spec fn request(target: SocketAddr) -> Seq<u8> {
    seq![VERSION, 1, 0, addr_type(target)] + target.octets() + be_bytes(target.port())
}

/// Where a dialogue stands: which bytes are awaited next.
#[derive(Debug, Copy, Clone, PartialEq, Eq, Structural)]
pub enum Stage {
    /// None: the connection to the server is to be made.
    Dial,
    /// The method of authentication that the server picked.
    Method,
    /// The head of the answer to the request.
    Reply,
    /// The IPv4 address and port at the end of the answer.
    Ipv4,
    /// The length of the domain name at the end of the answer.
    DomainLen,
    /// The domain name of that length, and the port.
    Domain { len: u8 },
    /// The IPv6 address and port at the end of the answer.
    Ipv6,
    /// None: the dialogue is over.
    Over,
}

impl Stage {
    /// How many bytes are awaited.
    pub open spec fn spec_expects(self) -> nat {
        match self {
            Stage::Dial => 0,
            Stage::Method => 2,
            Stage::Reply => 4,
            Stage::Ipv4 => 6,
            Stage::DomainLen => 1,
            Stage::Domain { len } => (len + 2) as nat,
            Stage::Ipv6 => 18,
            Stage::Over => 0,
        }
    }

    /// How many bytes are awaited.
    pub fn expects(self) -> (n: usize)
        ensures
            n == self.spec_expects(),
    {
        match self {
            Stage::Dial => 0,
            Stage::Method => 2,
            Stage::Reply => 4,
            Stage::Ipv4 => 4 + 2,
            Stage::DomainLen => 1,
            Stage::Domain { len } => len as usize + 2,
            Stage::Ipv6 => 16 + 2,
            Stage::Over => 0,
        }
    }
}

/// What the owner of the sockets is to do next.
pub enum Action {
    /// Connect to the server.
    Connect { server: SocketAddr },
    /// Send all of the message, then read exactly as many bytes as are awaited.
    Exchange { message: BytesMut },
    /// Read exactly as many bytes as are awaited.
    Read,
    /// Start to copy in both directions, up to `len` bytes at a time: the tunnel stands, and
    /// [`Relay`](crate::relay::Relay) says when it is over.
    Tunnel { len: usize },
    /// Give the connection up.
    Fail { error: HandshakeError },
}

/// An action, with the message as a sequence of bytes.
pub enum ActionView {
    Connect { server: SocketAddr },
    Exchange { message: Seq<u8> },
    Read,
    Tunnel { len: usize },
    Fail { error: HandshakeError },
}

impl View for Action {
    type V = ActionView;

    open spec fn view(&self) -> ActionView {
        match *self {
            Action::Connect { server } => ActionView::Connect { server },
            Action::Exchange { message } => ActionView::Exchange { message: bytes_of(message) },
            Action::Read => ActionView::Read,
            Action::Tunnel { len } => ActionView::Tunnel { len },
            Action::Fail { error } => ActionView::Fail { error },
        }
    }
}

/// The stage in which a failed dialogue stays, and the action that goes with it.
pub open spec fn failed(error: HandshakeError) -> (Stage, ActionView) {
    (Stage::Over, ActionView::Fail { error })
}

/// What follows the method that the server picked.
pub open spec fn after_method(target: SocketAddr, bytes: Seq<u8>) -> (Stage, ActionView) {
    if bytes[0] != VERSION {
        failed(HandshakeError::Version { next: bytes[1] })
    } else if bytes[1] != 0 {
        failed(HandshakeError::Auth { code: bytes[1] })
    } else {
        (Stage::Reply, ActionView::Exchange { message: request(target) })
    }
}

/// What follows the head of the answer. Its third byte is reserved.
pub open spec fn after_reply(bytes: Seq<u8>) -> (Stage, ActionView) {
    if bytes[0] != VERSION {
        failed(HandshakeError::Version { next: bytes[1] })
    } else {
        match reply_code(bytes[1]) {
            Err(error) => failed(error),
            Ok(ReplyCode::Succeeded) => match bytes[3] {
                1 => (Stage::Ipv4, ActionView::Read),
                3 => (Stage::DomainLen, ActionView::Read),
                4 => (Stage::Ipv6, ActionView::Read),
                code => failed(HandshakeError::UnknownAddrType { code }),
            },
            Ok(reply) => failed(HandshakeError::Refused { reply }),
        }
    }
}

/// What follows the bytes that were awaited.
pub open spec fn after(stage: Stage, target: SocketAddr, bytes: Seq<u8>) -> (Stage, ActionView)
    recommends
        stage != Stage::Over,
        bytes.len() == stage.spec_expects(),
{
    match stage {
        Stage::Dial => (Stage::Method, ActionView::Exchange { message: greeting() }),
        Stage::Method => after_method(target, bytes),
        Stage::Reply => after_reply(bytes),
        Stage::DomainLen => (Stage::Domain { len: bytes[0] }, ActionView::Read),
        Stage::Ipv4 | Stage::Domain { .. } | Stage::Ipv6 | Stage::Over => (
            Stage::Over,
            ActionView::Tunnel { len: PIPE_BUF_SIZE },
        ),
    }
}

/// A SOCKS5 server through which connections are passed on.
#[derive(Debug, Copy, Clone)]
pub struct Proxy {
    addr: SocketAddr,
}

impl Proxy {
    /// The address of the server.
    pub closed spec fn spec_addr(self) -> SocketAddr {
        self.addr
    }

    /// The server at `addr`.
    pub fn new(addr: SocketAddr) -> (proxy: Self)
        ensures
            proxy.spec_addr() == addr,
    {
        Self { addr }
    }

    /// The address of the server.
    pub fn addr(&self) -> (addr: SocketAddr)
        ensures
            addr == self.spec_addr(),
    {
        self.addr
    }

    /// Starts the dialogue that passes a connection to `addr` on: first of all the server
    /// is connected to.
    pub fn handle(&self, addr: SocketAddr) -> (started: (Handshake, Action))
        ensures
            started.0.target() == addr,
            started.0.stage() == Stage::Dial,
            started.1@ == (ActionView::Connect { server: self.spec_addr() }),
    {
        (Handshake { target: addr, stage: Stage::Dial }, Action::Connect { server: self.addr })
    }
}

/// The greeting, in a buffer that has room for the request to `target` too.
fn greeting_message(target: SocketAddr) -> (message: BytesMut)
    ensures
        bytes_of(message) == greeting(),
{
    let mut buf = if target.is_ipv4() {
        buffer::with_capacity(4 + 4 + 2)
    } else {
        buffer::with_capacity(4 + 16 + 2)
    };
    buffer::put_u8(&mut buf, VERSION);
    buffer::put_u8(&mut buf, 1);
    buffer::put_u8(&mut buf, Auth::NoAuth.into());
    assert(bytes_of(buf) =~= greeting());
    buf
}

/// The request to connect to `target`.
fn request_message(target: SocketAddr) -> (message: BytesMut)
    ensures
        bytes_of(message) == request(target),
{
    let mut buf = if target.is_ipv4() {
        buffer::with_capacity(4 + 4 + 2)
    } else {
        buffer::with_capacity(4 + 16 + 2)
    };
    buffer::put_u8(&mut buf, VERSION);
    buffer::put_u8(&mut buf, Cmd::Connect.into());
    buffer::put_u8(&mut buf, 0);
    if target.is_ipv4() {
        buffer::put_u8(&mut buf, ADDR_IPV4);
    } else {
        buffer::put_u8(&mut buf, ADDR_IPV6);
    }
    assert(bytes_of(buf) =~= seq![VERSION, 1, 0, addr_type(target)]);
    match target {
        SocketAddr::V4(v4) => buffer::put_slice(&mut buf, v4.octets.as_slice()),
        SocketAddr::V6(v6) => buffer::put_slice(&mut buf, v6.octets.as_slice()),
    }
    buffer::put_u16(&mut buf, target.port());
    buf
}

/// A dialogue with a server about one target.
#[derive(Debug, Copy, Clone)]
pub struct Handshake {
    target: SocketAddr,
    stage: Stage,
}

impl Handshake {
    /// The target that the server is to connect to.
    pub closed spec fn target(self) -> SocketAddr {
        self.target
    }

    /// Where the dialogue stands.
    pub closed spec fn spec_stage(self) -> Stage {
        self.stage
    }

    /// Where the dialogue stands.
    #[verifier::when_used_as_spec(spec_stage)]
    pub fn stage(self) -> (stage: Stage)
        ensures
            stage == self.spec_stage(),
    {
        self.stage
    }

    /// Takes the bytes that were awaited and says what to do next.
    pub fn step(&mut self, bytes: &[u8]) -> (action: Action)
        requires
            old(self).stage() != Stage::Over,
            bytes@.len() == old(self).stage().spec_expects(),
        ensures
            final(self).target() == old(self).target(),
            (final(self).stage(), action@) == after(old(self).stage(), old(self).target(), bytes@),
            action matches Action::Tunnel { len } ==> len == PIPE_BUF_SIZE,
    {
        let (stage, action) = match self.stage {
            Stage::Dial => (
                Stage::Method,
                Action::Exchange { message: greeting_message(self.target) },
            ),
            Stage::Method => step_method(self.target, bytes),
            Stage::Reply => step_reply(bytes),
            Stage::DomainLen => {
                let mut buf = received(bytes);
                (Stage::Domain { len: buffer::get_u8(&mut buf) }, Action::Read)
            },
            _ => (Stage::Over, Action::Tunnel { len: PIPE_BUF_SIZE }),
        };
        self.stage = stage;
        action
    }
}

/// The bytes that were read, in a buffer.
fn received(bytes: &[u8]) -> (buf: BytesMut)
    requires
        bytes@.len() <= buffer::MAX_LEN,
    ensures
        bytes_of(buf) == bytes@,
{
    let mut buf = buffer::with_capacity(bytes.len());
    buffer::put_slice(&mut buf, bytes);
    buf
}

/// Looks at the method that the server picked.
fn step_method(target: SocketAddr, bytes: &[u8]) -> (next: (Stage, Action))
    requires
        bytes@.len() == Stage::Method.spec_expects(),
    ensures
        (next.0, next.1@) == after_method(target, bytes@),
{
    let mut buf = received(bytes);
    if buffer::get_u8(&mut buf) != VERSION {
        let next: u8 = buffer::get_u8(&mut buf);
        return (Stage::Over, Action::Fail { error: HandshakeError::Version { next } });
    }
    let code: u8 = buffer::get_u8(&mut buf);
    if code != u8::from(Auth::NoAuth) {
        return (Stage::Over, Action::Fail { error: HandshakeError::Auth { code } });
    }
    (Stage::Reply, Action::Exchange { message: request_message(target) })
}

/// Looks at the head of the answer.
fn step_reply(bytes: &[u8]) -> (next: (Stage, Action))
    requires
        bytes@.len() == Stage::Reply.spec_expects(),
    ensures
        (next.0, next.1@) == after_reply(bytes@),
{
    let mut buf = received(bytes);
    if buffer::get_u8(&mut buf) != VERSION {
        let next: u8 = buffer::get_u8(&mut buf);
        return (Stage::Over, Action::Fail { error: HandshakeError::Version { next } });
    }
    let reply = match ReplyCode::try_from(buffer::get_u8(&mut buf)) {
        Ok(reply) => reply,
        Err(error) => return (Stage::Over, Action::Fail { error }),
    };
    if reply != ReplyCode::Succeeded {
        return (Stage::Over, Action::Fail { error: HandshakeError::Refused { reply } });
    }
    // The reserved byte.
    buffer::advance(&mut buf, 1);
    match buffer::get_u8(&mut buf) {
        ADDR_IPV4 => (Stage::Ipv4, Action::Read),
        ADDR_DOMAIN => (Stage::DomainLen, Action::Read),
        ADDR_IPV6 => (Stage::Ipv6, Action::Read),
        code => (Stage::Over, Action::Fail { error: HandshakeError::UnknownAddrType { code } }),
    }
}

/// How a dialogue ends, given all the bytes that the server will ever send.
pub enum Outcome {
    /// The tunnel stands, to copy up to `len` bytes at a time. `rest` is what the server sent
    /// behind its answer.
    Tunnel { len: usize, rest: Seq<u8> },
    /// The connection is given up.
    Fail { error: HandshakeError },
    /// The server closed the connection before it had said all that was awaited.
    Short,
}

/// How many more stages can follow.
pub open spec fn stages_left(stage: Stage) -> nat {
    match stage {
        Stage::Dial => 5,
        Stage::Method => 4,
        Stage::Reply => 3,
        Stage::DomainLen => 2,
        Stage::Ipv4 | Stage::Domain { .. } | Stage::Ipv6 => 1,
        Stage::Over => 0,
    }
}

/// Plays a dialogue from `stage` on with a server that sends `stream`: what the client
/// sends, and how it ends.
pub open spec fn play(stage: Stage, target: SocketAddr, stream: Seq<u8>) -> (Seq<u8>, Outcome)
    decreases stages_left(stage),
{
    let n = stage.spec_expects() as int;
    if stream.len() < n {
        (Seq::empty(), Outcome::Short)
    } else {
        let (next, action) = after(stage, target, stream.take(n));
        match action {
            ActionView::Exchange { message } => {
                let (sent, outcome) = play(next, target, stream.skip(n));
                (message + sent, outcome)
            },
            ActionView::Read => play(next, target, stream.skip(n)),
            ActionView::Fail { error } => (Seq::empty(), Outcome::Fail { error }),
            ActionView::Tunnel { len } => (
                Seq::empty(),
                Outcome::Tunnel { len, rest: stream.skip(n) },
            ),
            // A second connection to the server brings nothing: its stream starts anew.
            ActionView::Connect { .. } => (Seq::empty(), Outcome::Short),
        }
    }
}

/// How long the server's answer to a request is, the answer starting at the first byte of
/// `s`: a head of four bytes, then an address of the type that the head names, then a port.
pub open spec fn answer_len(s: Seq<u8>) -> int {
    match s[3] {
        1 => 4 + 4 + 2int,
        3 => 4 + 1 + s[4] + 2,
        _ => 4 + 16 + 2int,
    }
}

/// Whether `stream` starts with the two messages that grant a tunnel, both of them whole.
pub open spec fn grants(stream: Seq<u8>) -> bool {
    let answer = stream.skip(2);
    &&& stream.len() >= 2 + 4
    &&& stream[0] == VERSION
    &&& stream[1] == 0
    &&& answer[0] == VERSION
    &&& answer[1] == 0
    &&& answer[3] == ADDR_IPV4 || answer[3] == ADDR_DOMAIN || answer[3] == ADDR_IPV6
    &&& answer[3] == ADDR_DOMAIN ==> answer.len() >= 5
    &&& answer.len() >= answer_len(answer)
}

/// Every step of a dialogue brings it nearer to its end, so it ends after at most five; and
/// it is over exactly when the step stands the tunnel up or gives the connection up.
pub proof fn dialogue_advances(stage: Stage, target: SocketAddr, bytes: Seq<u8>)
    requires
        stage != Stage::Over,
    ensures
        stages_left(after(stage, target, bytes).0) < stages_left(stage) <= 5,
        after(stage, target, bytes).0 == Stage::Over <==> (after(
            stage,
            target,
            bytes,
        ).1 is Tunnel || after(stage, target, bytes).1 is Fail),
{
}

/// The tunnel stands exactly if the server grants it, and then the dialogue has read the
/// server's two messages and not one byte more: all that the server sent behind them goes
/// to the tunnel. The length that it copies at a time is the same for every target. Neither the reserved byte of the answer nor the address in it plays a
/// part.
pub proof fn tunnel_iff_granted(target: SocketAddr, stream: Seq<u8>)
    ensures
        play(Stage::Dial, target, stream).1 is Tunnel <==> grants(stream),
        grants(stream) ==> play(Stage::Dial, target, stream).1 == (Outcome::Tunnel {
            len: PIPE_BUF_SIZE,
            rest: stream.skip(2 + answer_len(stream.skip(2))),
        }),
{
    reveal_with_fuel(play, 6);
    assert(stream.skip(0) =~= stream);
    if stream.len() >= 2 {
        let answer = stream.skip(2);
        if answer.len() >= 4 {
            let tail = answer.skip(4);
            if tail.len() >= 6 {
                assert(tail.skip(6) =~= stream.skip(12));
            }
            if tail.len() >= 18 {
                assert(tail.skip(18) =~= stream.skip(24));
            }
            if tail.len() >= 1 && tail.len() >= 1 + tail[0] + 2 {
                assert(tail.skip(1).skip(tail[0] + 2) =~= stream.skip(2 + 4 + 1 + tail[0] + 2));
            }
        }
    }
}

/// The client sends the greeting, and nothing else until the server has agreed to go
/// without authentication; then it sends the request, and nothing after that. So a server
/// that does not agree never learns the target.
pub proof fn target_only_after_agreement(target: SocketAddr, stream: Seq<u8>)
    ensures
        stream.len() >= 2 && stream[0] == VERSION && stream[1] == 0 ==> play(
            Stage::Dial,
            target,
            stream,
        ).0 == greeting() + request(target),
        !(stream.len() >= 2 && stream[0] == VERSION && stream[1] == 0) ==> play(
            Stage::Dial,
            target,
            stream,
        ).0 == greeting(),
{
    reveal_with_fuel(play, 6);
    assert(stream.skip(0) =~= stream);
    assert(greeting() + Seq::<u8>::empty() =~= greeting());
    assert(request(target) + Seq::<u8>::empty() =~= request(target));
}

/// A tunnel that succeeds has passed all on, both ways. The server got the greeting, the
/// request and then what the client sent; the client got what the server sent behind its
/// answer, and no byte of the dialogue. Both copies are started with the length that the
/// dialogue hands out. `ends` is how they ended, `up` and `down` what happened in them.
pub proof fn tunnel_passes_all_on(
    target: SocketAddr,
    stream: Seq<u8>,
    len: usize,
    rest: Seq<u8>,
    client: Seq<u8>,
    up: Seq<zero_copy::Event>,
    down: Seq<zero_copy::Event>,
    ends: Seq<relay::Ended>,
    stages: Seq<relay::Stage>,
    actions: Seq<relay::Action>,
)
    requires
        play(Stage::Dial, target, stream).1 == (Outcome::Tunnel { len, rest }),
        relay::is_relay(ends, stages, actions),
        actions.last() is Finish,
        ends.contains(relay::Ended { direction: relay::Direction::ToServer, ok: true })
            ==> zero_copy::finishes(client, Some(len), up),
        ends.contains(relay::Ended { direction: relay::Direction::ToClient, ok: true })
            ==> zero_copy::finishes(rest, Some(len), down),
    ensures
        grants(stream),
        rest == stream.skip(2 + answer_len(stream.skip(2))),
        play(Stage::Dial, target, stream).0 + zero_copy::after_all(client, Some(len), up).sink
            == greeting() + request(target) + client,
        zero_copy::after_all(rest, Some(len), down).sink == rest,
{
    relay::tunnel_needs_both(ends, stages, actions);
    tunnel_iff_granted(target, stream);
    target_only_after_agreement(target, stream);
    zero_copy::finish_means_all(client, Some(len), up);
    zero_copy::finish_means_all(rest, Some(len), down);
}

/// Whether the server agreed to go without authentication, and then sent at least the head
/// of an answer in the client's version.
pub open spec fn answers(stream: Seq<u8>) -> bool {
    &&& stream.len() >= 2 + 4
    &&& stream[0] == VERSION
    &&& stream[1] == 0
    &&& stream[2] == VERSION
}

/// Whether what the server sent is cause for the failure.
pub open spec fn is_cause(stream: Seq<u8>, error: HandshakeError) -> bool {
    match error {
        HandshakeError::Version { next } => {
            ||| stream.len() >= 2 && stream[0] != VERSION && stream[1] == next
            ||| {
                &&& stream.len() >= 2 + 4
                &&& stream[0] == VERSION
                &&& stream[1] == 0
                &&& stream[2] != VERSION
                &&& stream[3] == next
            }
        },
        HandshakeError::Auth { code } => {
            &&& stream.len() >= 2
            &&& stream[0] == VERSION
            &&& stream[1] == code
            &&& code != 0
        },
        HandshakeError::UnknownReply { code } => {
            &&& answers(stream)
            &&& stream[3] == code
            &&& forall|r: ReplyCode| #[trigger] r.code() != code
        },
        HandshakeError::Refused { reply } => {
            &&& answers(stream)
            &&& stream[3] == reply.code()
            &&& reply != ReplyCode::Succeeded
        },
        HandshakeError::UnknownAddrType { code } => {
            &&& answers(stream)
            &&& stream[3] == ReplyCode::Succeeded.code()
            &&& stream[5] == code
            &&& code != ADDR_IPV4
            &&& code != ADDR_DOMAIN
            &&& code != ADDR_IPV6
        },
    }
}

/// A dialogue fails exactly if the server gives cause for it, and the failure that is
/// reported is the one that there is cause for: another version, a method of authentication,
/// a number that stands for nothing, an answer other than success, or an address of an
/// unknown type.
pub proof fn failure_iff_cause(target: SocketAddr, stream: Seq<u8>, error: HandshakeError)
    ensures
        play(Stage::Dial, target, stream).1 == (Outcome::Fail { error }) <==> is_cause(
            stream,
            error,
        ),
{
    reveal_with_fuel(play, 6);
    assert(stream.skip(0) =~= stream);
    if stream.len() >= 6 {
        if let Ok(r) = reply_code(stream[3]) {
            assert(r.code() == stream[3]);
        }
    }
}

/// A request can be read back: its first three bytes are the version, the command to connect
/// and a zero, its fourth byte gives the family of the target, the bytes behind it are the
/// octets of the address, and the last two bytes are the port, the more significant one first.
pub proof fn request_tells_target(target: SocketAddr)
    ensures
        request(target).len() == (if target is V4 {
            4 + 4 + 2int
        } else {
            4 + 16 + 2int
        }),
        request(target)[0] == 5,
        request(target)[1] == 1,
        request(target)[2] == 0,
        request(target)[3] == (if target is V4 {
            1int
        } else {
            4int
        }),
        request(target)[3] == ADDR_IPV4 <==> target is V4,
        request(target).subrange(4, request(target).len() - 2) == target.octets(),
        from_be_bytes(request(target).skip(request(target).len() - 2)) == target.port(),
        target matches SocketAddr::V4(v4) ==> {
            &&& request(target).subrange(4, 8) == v4.octets@
            &&& request(target)[8] * 256 + request(target)[9] == v4.port
        },
        target matches SocketAddr::V6(v6) ==> {
            &&& request(target).subrange(4, 20) == v6.octets@
            &&& request(target)[20] * 256 + request(target)[21] == v6.port
        },
{
    assert(request(target).subrange(4, request(target).len() - 2) =~= target.octets());
}

/// Two targets get the same request exactly if they are the same address and port.
pub proof fn request_is_unambiguous(a: SocketAddr, b: SocketAddr)
    ensures
        request(a) == request(b) <==> (a is V4 <==> b is V4) && a.octets() == b.octets() && a.port()
            == b.port(),
{
    request_tells_target(a);
    request_tells_target(b);
}

/// Whatever the stage, the target and the bytes, a tunnel that is to stand copies up to 65535
/// bytes at a time. The step that stands it up is the one that takes the end of the answer.
pub proof fn tunnel_length_is_fixed(stage: Stage, target: SocketAddr, bytes: Seq<u8>)
    ensures
        after(stage, target, bytes).1 matches ActionView::Tunnel { len } ==> len == 65535,
        stage != Stage::Over ==> (after(stage, target, bytes).1 is Tunnel <==> stage
            == Stage::Ipv4 || stage == Stage::Ipv6 || stage is Domain),
        PIPE_BUF_SIZE == 65535,
{
}

/// The server is connected to once, and what the target is plays a part in the request alone:
/// dialogues about two targets that get the same bytes go through the same stages, and ask for
/// the same but for the request.
pub proof fn target_matters_to_the_request_only(
    stage: Stage,
    a: SocketAddr,
    b: SocketAddr,
    bytes: Seq<u8>,
)
    ensures
        !(after(stage, a, bytes).1 is Connect),
        after(stage, a, bytes).0 == after(stage, b, bytes).0,
        after(stage, a, bytes).1 != after(stage, b, bytes).1 ==> stage == Stage::Method && after(
            stage,
            a,
            bytes,
        ).1 == (ActionView::Exchange { message: request(a) }),
{
}

/// First comes the greeting, three bytes that offer to go without authentication and nothing
/// else. The request comes exactly if the server speaks the same version and takes the offer.
pub proof fn greeting_then_request(target: SocketAddr, bytes: Seq<u8>)
    ensures
        after(Stage::Dial, target, bytes) == (
            Stage::Method,
            ActionView::Exchange { message: seq![5u8, 1, 0] },
        ),
        after(Stage::Method, target, bytes) == (
            Stage::Reply,
            ActionView::Exchange { message: request(target) },
        ) <==> bytes[0] == 5 && bytes[1] == 0,
        after(Stage::Method, target, bytes).1 is Exchange <==> bytes[0] == 5 && bytes[1] == 0,
{
}

/// A server that takes the offer and then grants the request is read to the end of its answer,
/// and no further. The answer holds a reserved byte, an address and a port, which may be any:
/// an IPv4 address, an IPv6 address, or a name of up to 255 bytes with its length before it.
pub proof fn answer_is_read_to_its_end(
    target: SocketAddr,
    reserved: u8,
    bound: Seq<u8>,
    port: Seq<u8>,
    rest: Seq<u8>,
)
    requires
        port.len() == 2,
    ensures
        bound.len() == 4 ==> play(
            Stage::Dial,
            target,
            seq![5u8, 0, 5, 0, reserved, 1] + bound + port + rest,
        ).1 == (Outcome::Tunnel { len: 65535, rest }),
        bound.len() == 16 ==> play(
            Stage::Dial,
            target,
            seq![5u8, 0, 5, 0, reserved, 4] + bound + port + rest,
        ).1 == (Outcome::Tunnel { len: 65535, rest }),
        bound.len() <= 255 ==> play(
            Stage::Dial,
            target,
            seq![5u8, 0, 5, 0, reserved, 3, bound.len() as u8] + bound + port + rest,
        ).1 == (Outcome::Tunnel { len: 65535, rest }),
{
    if bound.len() == 4 {
        let stream = seq![5u8, 0, 5, 0, reserved, 1] + bound + port + rest;
        tunnel_iff_granted(target, stream);
        assert(stream.skip(12) =~= rest);
    }
    if bound.len() == 16 {
        let stream = seq![5u8, 0, 5, 0, reserved, 4] + bound + port + rest;
        tunnel_iff_granted(target, stream);
        assert(stream.skip(24) =~= rest);
    }
    if bound.len() <= 255 {
        let stream = seq![5u8, 0, 5, 0, reserved, 3, bound.len() as u8] + bound + port + rest;
        tunnel_iff_granted(target, stream);
        assert(stream.skip(2)[4] == bound.len());
        assert(stream.skip(2 + 4 + 1 + bound.len() as int + 2) =~= rest);
    }
}

/// How many bytes each stage awaits: none before the greeting and after the end, a method of
/// two bytes, a head of four, and then an address with its port, a name after its length.
pub proof fn bytes_awaited(stage: Stage)
    ensures
        stage.spec_expects() == (match stage {
            Stage::Dial | Stage::Over => 0int,
            Stage::Method => 2,
            Stage::Reply => 4,
            Stage::DomainLen => 1,
            Stage::Ipv4 => 4 + 2int,
            Stage::Ipv6 => 16 + 2int,
            Stage::Domain { len } => len + 2,
        }),
{
}

/// Each answer has its number, from zero for success upwards.
pub proof fn answers_are_numbered(value: u8)
    ensures
        reply_code(value) is Ok <==> value < 10,
        value >= 10 ==> reply_code(value) == Err::<ReplyCode, HandshakeError>(
            HandshakeError::UnknownReply { code: value },
        ),
        reply_code(value) matches Ok(reply) ==> {
            &&& reply is Succeeded <==> value == 0
            &&& reply is ServerFail <==> value == 1
            &&& reply is ConnectionNotAllowed <==> value == 2
            &&& reply is NetWorkUnreachable <==> value == 3
            &&& reply is HostUnreachable <==> value == 4
            &&& reply is ConnectionRefused <==> value == 5
            &&& reply is TTLExpired <==> value == 6
            &&& reply is CmdNotSupport <==> value == 7
            &&& reply is AddressTypeNotSupport <==> value == 8
            &&& reply is Other <==> value == 9
        },
{
}

/// An action shows what is in it: the message byte by byte, and all else as it is.
pub proof fn actions_show_what_is_there(action: Action)
    ensures
        action matches Action::Connect { server } ==> action@ == (ActionView::Connect { server }),
        action matches Action::Exchange { message } ==> action@ == (ActionView::Exchange {
            message: bytes_of(message),
        }),
        action is Read <==> action@ is Read,
        action matches Action::Tunnel { len } ==> action@ == (ActionView::Tunnel { len }),
        action matches Action::Fail { error } ==> action@ == (ActionView::Fail { error }),
{
}

/// What is reported of a failure: a connection that was aborted where the server broke the
/// dialogue off or went its own way, and another sort of failure where its answer cannot be
/// read. The text ends with what the server sent, or holds it: a byte in decimal notation, or
/// the name of its answer.
pub proof fn failures_are_told(error: HandshakeError)
    ensures
        error.spec_kind() == (if error is UnknownReply || error is UnknownAddrType {
            ErrorKind::Other
        } else {
            ErrorKind::ConnectionAborted
        }),
        error matches HandshakeError::Version { next } ==> error.spec_message()
            == "socks server version is "@ + decimal(next as nat) + " not 5"@,
        error matches HandshakeError::Auth { code } ==> error.spec_message()
            == "socks server auth code is "@ + decimal(code as nat) + " not NoAuth"@,
        error matches HandshakeError::UnknownReply { code } ==> error.spec_message()
            == "unknown reply code "@ + decimal(code as nat),
        error matches HandshakeError::UnknownAddrType { code } ==> error.spec_message()
            == "unknown reply addr type "@ + decimal(code as nat),
        error matches HandshakeError::Refused { reply } ==> error.spec_message()
            == "socks connect failed "@ + (match reply {
            ReplyCode::Succeeded => "Succeeded"@,
            ReplyCode::ServerFail => "ServerFail"@,
            ReplyCode::ConnectionNotAllowed => "ConnectionNotAllowed"@,
            ReplyCode::NetWorkUnreachable => "NetWorkUnreachable"@,
            ReplyCode::HostUnreachable => "HostUnreachable"@,
            ReplyCode::ConnectionRefused => "ConnectionRefused"@,
            ReplyCode::TTLExpired => "TTLExpired"@,
            ReplyCode::CmdNotSupport => "CmdNotSupport"@,
            ReplyCode::AddressTypeNotSupport => "AddressTypeNotSupport"@,
            ReplyCode::Other => "Other"@,
        }),
{
    if let HandshakeError::Version { next } = error {
        reveal_strlit(" not ");
        reveal_strlit(" not 5");
        decimal_reads_back(VERSION as nat);
        assert(decimal(5) =~= seq!['5']);
        assert(error.spec_message() =~= "socks server version is "@ + decimal(next as nat)
            + " not 5"@);
    }
}

} // verus!
