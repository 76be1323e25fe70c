//! The two directions of a proxied connection, as state machines.
//!
//! A [`Connection`] decides what happens next to the bytes of one direction. Whoever drives it
//! performs the [`Action`] that it asks for on the sockets and the packet buffer, and hands back
//! the [`Event`] that came of it.
use vstd::prelude::*;

use crate::message::Level;
use crate::message::LogLine;
use crate::proxy::Proxy;
use crate::proxy::ProxyView;
use crate::util::debug_buffer;

verus! {

/// How far a client and a server have come with each other.
#[derive(Debug, Clone, Copy, PartialEq, Eq, Structural)]
pub enum ConnectionState {
    Disconnected,
    Handshake,
    Status,
    Login,
    Play,
}

impl ConnectionState {
    /// The name of the state.
    pub open spec fn name(self) -> Seq<char> {
        match self {
            ConnectionState::Disconnected => "Disconnected"@,
            ConnectionState::Handshake => "Handshake"@,
            ConnectionState::Status => "Status"@,
            ConnectionState::Login => "Login"@,
            ConnectionState::Play => "Play"@,
        }
    }

    /// The name of the state.
    pub fn text(&self) -> (text: &'static str)
        ensures
            text@ == self.name(),
    {
        match self {
            ConnectionState::Disconnected => "Disconnected",
            ConnectionState::Handshake => "Handshake",
            ConnectionState::Status => "Status",
            ConnectionState::Login => "Login",
            ConnectionState::Play => "Play",
        }
    }
}

/// What the proxy reads of a packet that a client sends.
#[derive(Debug)]
pub enum ServerBoundPacket {
    Handshake { protocol_version: i32, next_state: i32 },
    Other,
}

/// What the proxy reads of a packet that a server sends.
#[derive(Debug)]
pub enum ClientBoundPacket {
    LoginSuccess,
    Other,
}

/// A packet of either direction.
#[derive(Debug)]
pub enum Packet {
    ServerBound(ServerBoundPacket),
    ClientBound(ClientBoundPacket),
}

/// The numbers of the protocol that decisions depend on.
#[derive(Debug, Clone, Copy)]
pub struct Protocol {
    /// The version that the proxy can parse.
    pub version: i32,
    /// The packet ID of the legacy ping, which has no length before it.
    pub legacy_ping_packet_id: i32,
}

/// What is logged of a change of state, where the logging of packets is on.
pub open spec fn state_log(
    old_state: ConnectionState,
    new_state: ConnectionState,
    log_packets: bool,
) -> Seq<(Level, Seq<char>)> {
    if log_packets {
        seq![
            (
                Level::Info,
                "Connection state updated from "@ + old_state.name() + " to "@ + new_state.name(),
            ),
        ]
    } else {
        Seq::empty()
    }
}

/// The views of log lines.
pub open spec fn log_views(lines: Seq<LogLine>) -> Seq<(Level, Seq<char>)> {
    lines.map_values(|line: LogLine| line@)
}

/// Adds a line to the log.
fn log(lines: &mut Vec<LogLine>, level: Level, text: String)
    ensures
        log_views(final(lines)@) == log_views(old(lines)@).push((level, text@)),
{
    let ghost before = log_views(lines@);
    let ghost view = text@;
    lines.push(LogLine { level, text });
    assert(log_views(lines@) =~= before.push((level, view)));
}

/// Changes the state, and logs that where the logging of packets is on.
pub fn set_state(
    old_state: &mut ConnectionState,
    new_state: ConnectionState,
    log_packets: bool,
    lines: &mut Vec<LogLine>,
)
    ensures
        *final(old_state) == new_state,
        log_views(final(lines)@) == log_views(old(lines)@) + state_log(
            *old(old_state),
            new_state,
            log_packets,
        ),
{
    let ghost before = log_views(lines@);
    if log_packets {
        let mut text = "Connection state updated from ".to_owned();
        text.append(old_state.text());
        text.append(" to ");
        text.append(new_state.text());
        log(lines, Level::Info, text);
    }
    *old_state = new_state;
    assert(log_views(lines@) =~= before + state_log(*old(old_state), new_state, log_packets));
}

/// The state that a packet from a client asks for, if any.
pub open spec fn server_bound_state(packet: ServerBoundPacket, version: i32) -> Option<
    ConnectionState,
> {
    match packet {
        ServerBoundPacket::Handshake { protocol_version, next_state } => {
            if protocol_version != version {
                Some(ConnectionState::Disconnected)
            } else if next_state == 1 {
                Some(ConnectionState::Status)
            } else if next_state == 2 {
                Some(ConnectionState::Login)
            } else {
                None
            }
        },
        ServerBoundPacket::Other => None,
    }
}

/// The state that a packet from a server asks for, if any.
pub open spec fn client_bound_state(packet: ClientBoundPacket) -> Option<ConnectionState> {
    match packet {
        ClientBoundPacket::LoginSuccess => Some(ConnectionState::Play),
        ClientBoundPacket::Other => None,
    }
}

/// The state that a packet asks for, if any.
pub open spec fn requested_state(packet: Packet, version: i32) -> Option<ConnectionState> {
    match packet {
        Packet::ServerBound(packet) => server_bound_state(packet, version),
        Packet::ClientBound(packet) => client_bound_state(packet),
    }
}

/// The state after one was asked for, or not.
pub open spec fn state_after_request(
    state: ConnectionState,
    request: Option<ConnectionState>,
) -> ConnectionState {
    match request {
        Some(new_state) => new_state,
        None => state,
    }
}

/// What is logged where a state was asked for, or not.
pub open spec fn request_log(
    state: ConnectionState,
    request: Option<ConnectionState>,
    log_packets: bool,
) -> Seq<(Level, Seq<char>)> {
    match request {
        Some(new_state) => state_log(state, new_state, log_packets),
        None => Seq::empty(),
    }
}

/// Moves the state on for a packet from a client: a handshake for another protocol version
/// disconnects, and one for this version leads to the state that it names.
pub fn handle_server_state(
    packet: &ServerBoundPacket,
    state: &mut ConnectionState,
    protocol: &Protocol,
    log_packets: bool,
    lines: &mut Vec<LogLine>,
)
    ensures
        *final(state) == state_after_request(
            *old(state),
            server_bound_state(*packet, protocol.version),
        ),
        log_views(final(lines)@) == log_views(old(lines)@) + request_log(
            *old(state),
            server_bound_state(*packet, protocol.version),
            log_packets,
        ),
{
    assert(log_views(lines@) + Seq::empty() =~= log_views(lines@));
    if let ServerBoundPacket::Handshake { protocol_version, next_state } = packet {
        if *protocol_version != protocol.version {
            set_state(state, ConnectionState::Disconnected, log_packets, lines);
            return;
        }
        if *next_state == 1 {
            set_state(state, ConnectionState::Status, log_packets, lines);
        } else if *next_state == 2 {
            set_state(state, ConnectionState::Login, log_packets, lines);
        }
    }
}

/// Moves the state on for a packet from a server: a successful login leads to play.
pub fn handle_client_state(
    packet: &ClientBoundPacket,
    state: &mut ConnectionState,
    log_packets: bool,
    lines: &mut Vec<LogLine>,
)
    ensures
        *final(state) == state_after_request(*old(state), client_bound_state(*packet)),
        log_views(final(lines)@) == log_views(old(lines)@) + request_log(
            *old(state),
            client_bound_state(*packet),
            log_packets,
        ),
{
    assert(log_views(lines@) + Seq::empty() =~= log_views(lines@));
    match packet {
        ClientBoundPacket::LoginSuccess => {
            set_state(state, ConnectionState::Play, log_packets, lines);
        },
        ClientBoundPacket::Other => {},
    }
}

/// What a direction is waiting for.
#[derive(Debug)]
pub enum Phase {
    /// For the next packet to be asked for.
    Idle,
    /// For a first chunk of bytes.
    Receiving,
    /// For the first chunk to be forwarded.
    Forwarding { count: usize },
    /// For the first byte of the chunk.
    Peeking { count: usize },
    /// For the length of the packet.
    Measuring,
    /// For the rest of a packet that is longer than the buffer.
    Gathering { start: usize, end: usize, packet_len: usize },
    /// For the rest of the packet to be forwarded.
    ForwardingRest { start: usize, end: usize, packet_len: usize },
    /// For the packet to be parsed.
    Parsing { packet_len: usize },
    /// For the ID of a packet, from `start` to `end` in the buffer, that could not be parsed.
    Identifying { error: String, start: usize, end: usize },
    /// For the bytes of a packet that could not be parsed.
    Excerpting { error: String, start: usize, end: usize },
    /// For nothing any more.
    Closed,
}

/// A packet that was parsed, and its textual form.
#[derive(Debug)]
pub struct ParsedPacket {
    pub packet: Packet,
    pub debug: String,
}

/// What came of an action.
#[derive(Debug)]
pub enum Event {
    /// The next packet is asked for, with so many bytes of the buffer not yet handled.
    Ready { remaining: usize },
    /// So many bytes were read to the start of the buffer.
    Received { count: usize },
    /// The bytes were sent on.
    Forwarded,
    /// The byte at the cursor.
    Peeked { first: Option<u8> },
    /// The length before a packet was read, up to `cursor`, from a buffer of `buffered` bytes.
    Measured { value: i32, cursor: usize, buffered: usize },
    /// The rest of the packet was read.
    Gathered,
    /// The packet at `cursor` was parsed, or not.
    Parsed { cursor: usize, result: Result<ParsedPacket, String> },
    /// The ID of the packet was read, or not.
    Identified { id: Result<i32, String> },
    /// The bytes of the packet.
    Excerpt { bytes: Vec<u8> },
    /// The action failed.
    Failed { error: String },
}

/// What is to be done.
#[derive(Debug, Clone, Copy, PartialEq, Eq, Structural)]
pub enum Action {
    /// Reset the cursor, grow the buffer to its capacity and read into it.
    Receive,
    /// Move the bytes not yet handled to the start of the buffer and read a length.
    ShiftAndMeasure,
    /// Send the bytes of the buffer from `start` to `end` on.
    Forward { start: usize, end: usize },
    /// Cut the buffer down to `length` and look at the byte at the cursor.
    ResizeAndPeek { length: usize },
    /// Read a length.
    Measure,
    /// Grow the buffer to `end` and fill it from `start`.
    Gather { start: usize, end: usize },
    /// Parse the packet at the cursor.
    Parse { packet_len: usize },
    /// Go back to `cursor` and read a packet ID.
    Identify { cursor: usize },
    /// Get the bytes of the buffer from `start` to `end`.
    Excerpt { start: usize, end: usize },
    /// Go on at `cursor`, and ask for the next packet.
    Resume { cursor: usize },
    /// Clear the buffer and be done.
    ClearAndFinish,
    /// Be done.
    Finish,
    /// Shut both sockets down and be done.
    Shutdown,
}

/// What to do about a packet of a known length. A packet of no length means that the other side
/// is gone.
pub open spec fn whole_packet(packet_len: usize) -> (Phase, Action) {
    if packet_len == 0 {
        (Phase::Closed, Action::Finish)
    } else {
        (Phase::Parsing { packet_len }, Action::Parse { packet_len })
    }
}

/// What to do to get a packet, with so many bytes of the buffer not yet handled.
pub open spec fn next_read(remaining: usize) -> (Phase, Action) {
    if remaining > 0 {
        (Phase::Measuring, Action::ShiftAndMeasure)
    } else {
        (Phase::Receiving, Action::Receive)
    }
}

/// What to do about a packet whose length was read, up to `cursor`, from a buffer of `buffered`
/// bytes. The rest of a packet that is longer than the buffer is gathered first.
pub open spec fn collected(packet_len: usize, cursor: usize, buffered: usize) -> (Phase, Action) {
    if packet_len > buffered {
        let end = (cursor + packet_len) as usize;
        (
            Phase::Gathering { start: buffered, end, packet_len },
            Action::Gather { start: buffered, end },
        )
    } else {
        whole_packet(packet_len)
    }
}

/// What to do about a packet from `start` to `end` in the buffer that was parsed, or not. One
/// that was not is looked into where warnings are logged.
pub open spec fn handled(
    start: usize,
    end: usize,
    result: Result<ParsedPacket, String>,
    proxy: ProxyView,
) -> (Phase, Action) {
    match result {
        Err(error) if proxy.log_packets && proxy.log_warnings => (
            Phase::Identifying { error, start, end },
            Action::Identify { cursor: start },
        ),
        _ => (Phase::Idle, Action::Resume { cursor: end }),
    }
}

/// What is logged of a packet that was parsed.
pub open spec fn packet_log(
    peer: Seq<char>,
    parsed: ParsedPacket,
    proxy: ProxyView,
    state: ConnectionState,
    version: i32,
) -> Seq<(Level, Seq<char>)> {
    request_log(state, requested_state(parsed.packet, version), proxy.log_packets) + (
    if proxy.log_packets && proxy.filter.logs(parsed.debug@) {
        seq![(Level::Info, "Received packet from "@ + peer + "\n"@ + parsed.debug@)]
    } else {
        Seq::empty()
    })
}

/// Whether a byte, where there is one, is a packet ID.
pub open spec fn starts_packet(first: Option<u8>, id: i32) -> bool {
    match first {
        Some(byte) => byte as int == id as int,
        None => id == 0,
    }
}

/// Whether a warning about a packet is held back. One about a packet whose ID is not known is
/// not.
pub open spec fn holds_back(proxy: ProxyView, id: Result<i32, String>) -> bool {
    match id {
        Ok(id) => proxy.filter.suppresses(id as u32),
        Err(_) => false,
    }
}

/// Whether an event can come of what the phase waits for.
pub open spec fn accepts(phase: Phase, event: Event) -> bool {
    match (phase, event) {
        (Phase::Idle, Event::Ready { .. }) => true,
        (Phase::Receiving, Event::Received { .. }) => true,
        (Phase::Receiving, Event::Failed { .. }) => true,
        (Phase::Forwarding { .. }, Event::Forwarded) => true,
        (Phase::Forwarding { .. }, Event::Failed { .. }) => true,
        (Phase::Peeking { .. }, Event::Peeked { .. }) => true,
        (Phase::Measuring, Event::Measured { value, cursor, .. }) => value >= 0 && cursor + value
            <= usize::MAX,
        (Phase::Measuring, Event::Failed { .. }) => true,
        (Phase::Gathering { .. }, Event::Gathered) => true,
        (Phase::Gathering { .. }, Event::Failed { .. }) => true,
        (Phase::ForwardingRest { .. }, Event::Forwarded) => true,
        (Phase::ForwardingRest { .. }, Event::Failed { .. }) => true,
        (Phase::Parsing { packet_len }, Event::Parsed { cursor, .. }) => cursor + packet_len
            <= usize::MAX,
        (Phase::Identifying { .. }, Event::Identified { .. }) => true,
        (Phase::Excerpting { .. }, Event::Excerpt { .. }) => true,
        _ => false,
    }
}

/// The next phase and what is to be done, where the phase accepts the event.
pub open spec fn transition(
    phase: Phase,
    event: Event,
    proxy: ProxyView,
    state: ConnectionState,
    protocol: Protocol,
) -> (Phase, Action) {
    match (phase, event) {
        (Phase::Idle, Event::Ready { remaining }) => {
            if state == ConnectionState::Disconnected {
                (Phase::Closed, Action::Finish)
            } else {
                next_read(remaining)
            }
        },
        (Phase::Receiving, Event::Received { count }) => (
            Phase::Forwarding { count },
            Action::Forward { start: 0, end: count },
        ),
        (Phase::Forwarding { count }, Event::Forwarded) => {
            if count == 0 {
                (Phase::Closed, Action::ClearAndFinish)
            } else {
                (Phase::Peeking { count }, Action::ResizeAndPeek { length: count })
            }
        },
        (Phase::Peeking { count }, Event::Peeked { first }) => {
            if state == ConnectionState::Handshake && starts_packet(
                first,
                protocol.legacy_ping_packet_id,
            ) {
                whole_packet(count)
            } else {
                (Phase::Measuring, Action::Measure)
            }
        },
        (Phase::Measuring, Event::Measured { value, cursor, buffered }) => collected(
            value as usize,
            cursor,
            buffered,
        ),
        (Phase::Gathering { start, end, packet_len }, Event::Gathered) => (
            Phase::ForwardingRest { start, end, packet_len },
            Action::Forward { start, end },
        ),
        (Phase::ForwardingRest { packet_len, .. }, Event::Forwarded) => whole_packet(packet_len),
        (Phase::Parsing { packet_len }, Event::Parsed { cursor, result }) => handled(
            cursor,
            (cursor + packet_len) as usize,
            result,
            proxy,
        ),
        (Phase::Identifying { error, start, end }, Event::Identified { id }) => {
            if state != ConnectionState::Disconnected && !holds_back(proxy, id) {
                (Phase::Excerpting { error, start, end }, Action::Excerpt { start, end })
            } else {
                (Phase::Idle, Action::Resume { cursor: end })
            }
        },
        (Phase::Excerpting { end, .. }, Event::Excerpt { .. }) => (
            Phase::Idle,
            Action::Resume { cursor: end },
        ),
        _ => (Phase::Closed, Action::Shutdown),
    }
}

/// The state of the connection after an event that the phase accepts.
pub open spec fn state_after(
    phase: Phase,
    event: Event,
    state: ConnectionState,
    protocol: Protocol,
) -> ConnectionState {
    match (phase, event) {
        (Phase::Forwarding { count: 0 }, Event::Forwarded) => ConnectionState::Disconnected,
        (Phase::Parsing { .. }, Event::Parsed { result: Ok(parsed), .. }) => state_after_request(
            state,
            requested_state(parsed.packet, protocol.version),
        ),
        _ => state,
    }
}

/// What is logged of an event that the phase accepts.
pub open spec fn logged(
    peer: Seq<char>,
    phase: Phase,
    event: Event,
    proxy: ProxyView,
    state: ConnectionState,
    protocol: Protocol,
) -> Seq<(Level, Seq<char>)> {
    match (phase, event) {
        (Phase::Forwarding { count: 0 }, Event::Forwarded) => state_log(
            state,
            ConnectionState::Disconnected,
            proxy.log_packets,
        ),
        (Phase::Parsing { .. }, Event::Parsed { result: Ok(parsed), .. }) => packet_log(
            peer,
            parsed,
            proxy,
            state,
            protocol.version,
        ),
        (Phase::Identifying { .. }, Event::Identified { id: Err(error) }) => seq![
            (Level::Warn, "Failed to detect packet ID: "@ + error@),
        ],
        (Phase::Excerpting { error, .. }, Event::Excerpt { bytes }) => seq![
            (
                Level::Warn,
                "Failed to parse packet from "@ + peer + ": "@ + error@ + ", raw buffer:\n"@
                    + crate::util::rendering(bytes@, proxy.max_buffer_display_length as nat),
            ),
        ],
        (_, Event::Failed { error }) => seq![
            (Level::Error, "Error in connection handler: "@ + error@),
        ],
        _ => Seq::empty(),
    }
}

/// One direction of a proxied connection.
#[derive(Debug)]
pub struct Connection {
    /// The other end of the socket that is read from.
    pub peer: String,
    pub phase: Phase,
}

/// What a connection does about an event.
#[derive(Debug)]
pub struct Step {
    pub connection: Connection,
    pub action: Action,
    pub logs: Vec<LogLine>,
}

fn whole(packet_len: usize) -> (result: (Phase, Action))
    ensures
        result == whole_packet(packet_len),
{
    if packet_len == 0 {
        (Phase::Closed, Action::Finish)
    } else {
        (Phase::Parsing { packet_len }, Action::Parse { packet_len })
    }
}

/// Begins to get a packet, with so many bytes of the buffer not yet handled: bytes that are left
/// over come before new ones.
pub fn read_packet(remaining: usize) -> (result: (Phase, Action))
    ensures
        result == next_read(remaining),
{
    if remaining > 0 {
        (Phase::Measuring, Action::ShiftAndMeasure)
    } else {
        (Phase::Receiving, Action::Receive)
    }
}

/// Collects a packet whose length was read, up to `cursor`, from a buffer of `buffered` bytes.
pub fn collect_packet(packet_len: usize, cursor: usize, buffered: usize) -> (result: (
    Phase,
    Action,
))
    requires
        cursor + packet_len <= usize::MAX,
    ensures
        result == collected(packet_len, cursor, buffered),
{
    if packet_len > buffered {
        let end: usize = cursor + packet_len;
        (
            Phase::Gathering { start: buffered, end, packet_len },
            Action::Gather { start: buffered, end },
        )
    } else {
        whole(packet_len)
    }
}

/// Tells whether a warning about a packet is held back.
fn is_held_back(proxy: &Proxy, id: &Result<i32, String>) -> (result: bool)
    ensures
        result == holds_back(proxy@, *id),
{
    match id {
        Ok(id) => proxy.filter.should_suppress_warning(#[verifier::truncate] (*id as u32)),
        Err(_) => false,
    }
}

impl Connection {
    /// A direction that reads from `peer`.
    pub fn new(peer: &str) -> (connection: Connection)
        ensures
            connection.peer@ == peer@,
            connection.phase == Phase::Idle,
    {
        Connection { peer: peer.to_owned(), phase: Phase::Idle }
    }

    /// Handles a packet from `start` to `end` in the buffer. One that was parsed moves the state on
    /// and is logged where the filter lets it through.
    pub fn handle_packet(
        &self,
        start: usize,
        end: usize,
        result: Result<ParsedPacket, String>,
        proxy: &Proxy,
        state: &mut ConnectionState,
        protocol: &Protocol,
        lines: &mut Vec<LogLine>,
    ) -> (next: (Phase, Action))
        requires
            proxy.wf(),
        ensures
            next == handled(start, end, result, proxy@),
            match result {
                Ok(parsed) => {
                    &&& *final(state) == state_after_request(
                        *old(state),
                        requested_state(parsed.packet, protocol.version),
                    )
                    &&& log_views(final(lines)@) == log_views(old(lines)@) + packet_log(
                        self.peer@,
                        parsed,
                        proxy@,
                        *old(state),
                        protocol.version,
                    )
                },
                Err(_) => *final(state) == *old(state) && final(lines)@ == old(lines)@,
            },
    {
        match result {
            Ok(parsed) => {
                match &parsed.packet {
                    Packet::ServerBound(packet) => {
                        handle_server_state(packet, state, protocol, proxy.log_packets, lines);
                    },
                    Packet::ClientBound(packet) => {
                        handle_client_state(packet, state, proxy.log_packets, lines);
                    },
                }
                let ghost before = log_views(lines@);
                if proxy.log_packets && proxy.filter.test(parsed.debug.as_str()) {
                    let mut text = "Received packet from ".to_owned();
                    text.append(self.peer.as_str());
                    text.append("\n");
                    text.append(parsed.debug.as_str());
                    let ghost view = text@;
                    log(lines, Level::Info, text);
                    assert(log_views(lines@) =~= before + seq![(Level::Info, view)]);
                } else {
                    assert(log_views(lines@) =~= before + Seq::empty());
                }
                assert(log_views(lines@) =~= log_views(old(lines)@) + packet_log(
                    self.peer@,
                    parsed,
                    proxy@,
                    *old(state),
                    protocol.version,
                ));
                (Phase::Idle, Action::Resume { cursor: end })
            },
            Err(error) => {
                if proxy.log_packets && proxy.log_warnings {
                    (
                        Phase::Identifying { error, start, end },
                        Action::Identify { cursor: start },
                    )
                } else {
                    (Phase::Idle, Action::Resume { cursor: end })
                }
            },
        }
    }

    /// Decides what to do about an event.
    pub fn step(
        self,
        event: Event,
        proxy: &Proxy,
        state: &mut ConnectionState,
        protocol: &Protocol,
    ) -> (step: Step)
        requires
            proxy.wf(),
            accepts(self.phase, event),
        ensures
            step.connection.peer == self.peer,
            (step.connection.phase, step.action) == transition(
                self.phase,
                event,
                proxy@,
                *old(state),
                *protocol,
            ),
            *final(state) == state_after(self.phase, event, *old(state), *protocol),
            log_views(step.logs@) == logged(
                self.peer@,
                self.phase,
                event,
                proxy@,
                *old(state),
                *protocol,
            ),
    {
        let mut lines: Vec<LogLine> = Vec::new();
        assert(log_views(lines@) =~= Seq::empty());
        let connection = self;
        let (phase, action) = match event {
            Event::Ready { remaining } => {
                if *state == ConnectionState::Disconnected {
                    (Phase::Closed, Action::Finish)
                } else {
                    read_packet(remaining)
                }
            },
            Event::Received { count } => (
                Phase::Forwarding { count },
                Action::Forward { start: 0, end: count },
            ),
            Event::Forwarded => match &connection.phase {
                Phase::Forwarding { count } => {
                    if *count == 0 {
                        set_state(
                            state,
                            ConnectionState::Disconnected,
                            proxy.log_packets,
                            &mut lines,
                        );
                        (Phase::Closed, Action::ClearAndFinish)
                    } else {
                        (
                            Phase::Peeking { count: *count },
                            Action::ResizeAndPeek { length: *count },
                        )
                    }
                },
                Phase::ForwardingRest { packet_len, .. } => whole(*packet_len),
                _ => (Phase::Closed, Action::Shutdown),
            },
            Event::Peeked { first } => {
                let byte: u8 = match first {
                    Some(byte) => byte,
                    None => 0,
                };
                if *state == ConnectionState::Handshake && byte as i32
                    == protocol.legacy_ping_packet_id {
                    match &connection.phase {
                        Phase::Peeking { count } => whole(*count),
                        _ => (Phase::Closed, Action::Shutdown),
                    }
                } else {
                    (Phase::Measuring, Action::Measure)
                }
            },
            Event::Measured { value, cursor, buffered } => collect_packet(
                value as usize,
                cursor,
                buffered,
            ),
            Event::Gathered => match &connection.phase {
                Phase::Gathering { start, end, packet_len } => (
                    Phase::ForwardingRest { start: *start, end: *end, packet_len: *packet_len },
                    Action::Forward { start: *start, end: *end },
                ),
                _ => (Phase::Closed, Action::Shutdown),
            },
            Event::Parsed { cursor, result } => match &connection.phase {
                Phase::Parsing { packet_len } => connection.handle_packet(
                    cursor,
                    cursor + *packet_len,
                    result,
                    proxy,
                    state,
                    protocol,
                    &mut lines,
                ),
                _ => (Phase::Closed, Action::Shutdown),
            },
            Event::Identified { id } => {
                let held_back = is_held_back(proxy, &id);
                if let Err(error) = &id {
                    let mut text = "Failed to detect packet ID: ".to_owned();
                    text.append(error.as_str());
                    log(&mut lines, Level::Warn, text);
                }
                match connection.phase {
                    Phase::Identifying { error, start, end } => {
                        let next = if *state != ConnectionState::Disconnected && !held_back {
                            (Phase::Excerpting { error, start, end }, Action::Excerpt { start, end })
                        } else {
                            (Phase::Idle, Action::Resume { cursor: end })
                        };
                        return Step {
                            connection: Connection { peer: connection.peer, phase: next.0 },
                            action: next.1,
                            logs: lines,
                        };
                    },
                    _ => (Phase::Closed, Action::Shutdown),
                }
            },
            Event::Excerpt { bytes } => match &connection.phase {
                Phase::Excerpting { error, end, .. } => {
                    let mut text = "Failed to parse packet from ".to_owned();
                    text.append(connection.peer.as_str());
                    text.append(": ");
                    text.append(error.as_str());
                    text.append(", raw buffer:\n");
                    text.append(
                        debug_buffer(bytes.as_slice(), proxy.max_buffer_display_length).as_str(),
                    );
                    log(&mut lines, Level::Warn, text);
                    (Phase::Idle, Action::Resume { cursor: *end })
                },
                _ => (Phase::Closed, Action::Shutdown),
            },
            Event::Failed { error } => {
                let mut text = "Error in connection handler: ".to_owned();
                text.append(error.as_str());
                log(&mut lines, Level::Error, text);
                (Phase::Closed, Action::Shutdown)
            },
        };
        Step { connection: Connection { peer: connection.peer, phase }, action, logs: lines }
    }
}

/// A client that connected: the state, the direction from the client and the one from the
/// server.
#[derive(Debug)]
pub struct Session {
    pub state: ConnectionState,
    pub client: Connection,
    pub server: Connection,
}

/// Opens a session for a client at the address that was accepted, or reports why none was. The
/// line is what to log.
pub fn handle_incoming_connection(accepted: Result<String, String>) -> (result: (
    Option<Session>,
    LogLine,
))
    ensures
        match accepted {
            Ok(addr) => {
                &&& result.0 is Some
                &&& result.0->0.state == ConnectionState::Handshake
                &&& result.0->0.client.peer@ == addr@
                &&& result.0->0.client.phase == Phase::Idle
                &&& result.0->0.server.peer@ == "server"@
                &&& result.0->0.server.phase == Phase::Idle
                &&& result.1@ == (Level::Info, "Client connected from "@ + addr@)
            },
            Err(error) => {
                &&& result.0 is None
                &&& result.1@ == (Level::Error, "Failed to accept TCP socket: "@ + error@)
            },
        },
{
    match accepted {
        Ok(addr) => {
            let mut text = "Client connected from ".to_owned();
            text.append(addr.as_str());
            let session = Session {
                state: ConnectionState::Handshake,
                client: Connection::new(addr.as_str()),
                server: Connection::new("server"),
            };
            (Some(session), LogLine { level: Level::Info, text })
        },
        Err(error) => {
            let mut text = "Failed to accept TCP socket: ".to_owned();
            text.append(error.as_str());
            (None, LogLine { level: Level::Error, text })
        },
    }
}

} // verus!
