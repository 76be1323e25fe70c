//! What happens to each packet: how it moves the state on, what is logged of it, and where the
//! bytes after it are taken up.
use vstd::prelude::*;

use crate::connection::Action;
use crate::connection::ClientBoundPacket;
use crate::connection::ConnectionState;
use crate::connection::Event;
use crate::connection::Packet;
use crate::connection::ParsedPacket;
use crate::connection::Phase;
use crate::connection::Protocol;
use crate::connection::ServerBoundPacket;
use crate::message::Level;
use crate::message::LogLine;
use crate::proxy::ProxyView;

verus! {

/// The event that a packet at `cursor` was parsed.
pub open spec fn parsing(cursor: usize, packet: Packet, debug: String) -> Event {
    Event::Parsed { cursor, result: Ok(ParsedPacket { packet, debug }) }
}

/// A login that the server accepts leads to play, and no other packet of the server changes the
/// state.
pub proof fn law_accepted_login_leads_to_play(
    packet_len: usize,
    cursor: usize,
    debug: String,
    state: ConnectionState,
    protocol: Protocol,
)
    ensures
        crate::connection::state_after(
            Phase::Parsing { packet_len },
            parsing(cursor, Packet::ClientBound(ClientBoundPacket::LoginSuccess), debug),
            state,
            protocol,
        ) == ConnectionState::Play,
        crate::connection::state_after(
            Phase::Parsing { packet_len },
            parsing(cursor, Packet::ClientBound(ClientBoundPacket::Other), debug),
            state,
            protocol,
        ) == state,
{
}

/// A handshake in the version of the protocol leads to the state that it asks for, one in
/// another version disconnects, and no other packet of the client changes the state.
pub proof fn law_handshake_chooses_the_state(
    packet_len: usize,
    cursor: usize,
    protocol_version: i32,
    next_state: i32,
    debug: String,
    state: ConnectionState,
    protocol: Protocol,
)
    ensures
        ({
            let after = crate::connection::state_after(
                Phase::Parsing { packet_len },
                parsing(
                    cursor,
                    Packet::ServerBound(
                        ServerBoundPacket::Handshake { protocol_version, next_state },
                    ),
                    debug,
                ),
                state,
                protocol,
            );
            &&& protocol_version != protocol.version ==> after == ConnectionState::Disconnected
            &&& protocol_version == protocol.version && next_state == 1 ==> after
                == ConnectionState::Status
            &&& protocol_version == protocol.version && next_state == 2 ==> after
                == ConnectionState::Login
            &&& protocol_version == protocol.version && next_state != 1 && next_state != 2
                ==> after == state
        }),
        crate::connection::state_after(
            Phase::Parsing { packet_len },
            parsing(cursor, Packet::ServerBound(ServerBoundPacket::Other), debug),
            state,
            protocol,
        ) == state,
{
}

/// A login that is asked for and accepted leads to play, whatever state the session is in and
/// wherever the packets stand.
pub proof fn law_handshake_and_login_lead_to_play(
    handshake_len: usize,
    login_len: usize,
    handshake_cursor: usize,
    login_cursor: usize,
    handshake_debug: String,
    login_debug: String,
    state: ConnectionState,
    protocol: Protocol,
)
    ensures
        crate::connection::state_after(
            Phase::Parsing { packet_len: login_len },
            parsing(
                login_cursor,
                Packet::ClientBound(ClientBoundPacket::LoginSuccess),
                login_debug,
            ),
            crate::connection::state_after(
                Phase::Parsing { packet_len: handshake_len },
                parsing(
                    handshake_cursor,
                    Packet::ServerBound(
                        ServerBoundPacket::Handshake {
                            protocol_version: protocol.version,
                            next_state: 2,
                        },
                    ),
                    handshake_debug,
                ),
                state,
                protocol,
            ),
            protocol,
        ) == ConnectionState::Play,
{
}

/// Only a packet that was parsed and the end of the stream change the state.
pub proof fn law_state_is_kept(
    phase: Phase,
    event: Event,
    state: ConnectionState,
    protocol: Protocol,
)
    requires
        crate::connection::accepts(phase, event),
        crate::connection::state_after(phase, event, state, protocol) != state,
    ensures
        (event matches Event::Parsed { result, .. } && result is Ok) || (event is Forwarded
            && phase == (Phase::Forwarding { count: 0 })),
{
}

/// Whether a packet sets the state, if only to what it is.
pub open spec fn sets_state(packet: Packet, version: i32) -> bool {
    match packet {
        Packet::ServerBound(ServerBoundPacket::Handshake { protocol_version, next_state }) => {
            protocol_version != version || next_state == 1 || next_state == 2
        },
        Packet::ServerBound(ServerBoundPacket::Other) => false,
        Packet::ClientBound(ClientBoundPacket::LoginSuccess) => true,
        Packet::ClientBound(ClientBoundPacket::Other) => false,
    }
}

/// A packet that was parsed is logged, as the last line about it, where logging is on and the
/// filter lets it through, in whatever state the session is. Else no such line is logged.
pub proof fn law_parsed_packet_is_logged(
    peer: Seq<char>,
    packet_len: usize,
    cursor: usize,
    packet: Packet,
    debug: String,
    proxy: ProxyView,
    state: ConnectionState,
    protocol: Protocol,
)
    ensures
        ({
            let log = crate::connection::logged(
                peer,
                Phase::Parsing { packet_len },
                parsing(cursor, packet, debug),
                proxy,
                state,
                protocol,
            );
            &&& proxy.log_packets && proxy.filter.logs(debug@) ==> log.len() > 0 && log.last() == (
                Level::Info,
                "Received packet from "@ + peer + "\n"@ + debug@,
            )
            &&& !(proxy.log_packets && proxy.filter.logs(debug@)) ==> forall|i: int|
                0 <= i < log.len() ==> !"Received packet from "@.is_prefix_of(
                    (#[trigger] log[i]).1,
                )
        }),
{
    let log = crate::connection::logged(
        peer,
        Phase::Parsing { packet_len },
        parsing(cursor, packet, debug),
        proxy,
        state,
        protocol,
    );
    reveal_strlit("Received packet from ");
    reveal_strlit("Connection state updated from ");
    if !(proxy.log_packets && proxy.filter.logs(debug@)) {
        assert forall|i: int| 0 <= i < log.len() implies !"Received packet from "@.is_prefix_of(
            (#[trigger] log[i]).1,
        ) by {
            assert(log[i].1[0] == 'C');
            if "Received packet from "@.is_prefix_of(log[i].1) {
                assert(log[i].1.subrange(0, "Received packet from "@.len() as int)[0]
                    == log[i].1[0]);
            }
        }
    }
}

/// A packet that sets the state has that logged, as the first line about it, where logging is
/// on. There are no other lines about a packet that was parsed.
pub proof fn law_state_of_parsed_packet_is_logged(
    peer: Seq<char>,
    packet_len: usize,
    cursor: usize,
    packet: Packet,
    debug: String,
    proxy: ProxyView,
    state: ConnectionState,
    protocol: Protocol,
)
    ensures
        ({
            let phase = Phase::Parsing { packet_len };
            let event = parsing(cursor, packet, debug);
            let log = crate::connection::logged(peer, phase, event, proxy, state, protocol);
            let after = crate::connection::state_after(phase, event, state, protocol);
            let sets = proxy.log_packets && sets_state(packet, protocol.version);
            let shows = proxy.log_packets && proxy.filter.logs(debug@);
            &&& sets ==> log.len() > 0 && log[0] == (
                Level::Info,
                "Connection state updated from "@ + state.name() + " to "@ + after.name(),
            )
            &&& log.len() == (if sets {
                1int
            } else {
                0
            }) + (if shows {
                1int
            } else {
                0
            })
        }),
{
}

/// The end of a stream is logged as the change of state that it is, where logging is on.
pub proof fn law_end_of_stream_is_logged(
    peer: Seq<char>,
    proxy: ProxyView,
    state: ConnectionState,
    protocol: Protocol,
)
    ensures
        crate::connection::logged(
            peer,
            Phase::Forwarding { count: 0 },
            Event::Forwarded,
            proxy,
            state,
            protocol,
        ) == (if proxy.log_packets {
            seq![
                (
                    Level::Info,
                    "Connection state updated from "@ + state.name() + " to "@ + "Disconnected"@,
                ),
            ]
        } else {
            Seq::<(Level, Seq<char>)>::empty()
        }),
{
}

/// Nothing is logged but packets that were parsed, the end of a stream, what could not be parsed
/// or identified, and errors.
pub proof fn law_nothing_else_is_logged(
    peer: Seq<char>,
    phase: Phase,
    event: Event,
    proxy: ProxyView,
    state: ConnectionState,
    protocol: Protocol,
)
    requires
        crate::connection::accepts(phase, event),
        crate::connection::logged(peer, phase, event, proxy, state, protocol).len() > 0,
    ensures
        event is Failed || event is Excerpt || (event matches Event::Parsed { result, .. }
            && result is Ok) || (event matches Event::Identified { id } && id is Err) || (
        event is Forwarded && phase == (Phase::Forwarding { count: 0 })),
{
}

/// A packet whose ID cannot be read has that logged, and a packet whose ID can be read has not.
pub proof fn law_unreadable_id_is_logged(
    peer: Seq<char>,
    error: String,
    start: usize,
    end: usize,
    id: i32,
    id_error: String,
    proxy: ProxyView,
    state: ConnectionState,
    protocol: Protocol,
)
    ensures
        crate::connection::logged(
            peer,
            Phase::Identifying { error, start, end },
            Event::Identified { id: Err(id_error) },
            proxy,
            state,
            protocol,
        ) == seq![(Level::Warn, "Failed to detect packet ID: "@ + id_error@)],
        crate::connection::logged(
            peer,
            Phase::Identifying { error, start, end },
            Event::Identified { id: Ok(id) },
            proxy,
            state,
            protocol,
        ) == Seq::<(Level, Seq<char>)>::empty(),
{
}

/// What a warning says before the bytes.
pub open spec fn warning_start(peer: Seq<char>, error: Seq<char>) -> Seq<char> {
    "Failed to parse packet from "@ + peer + ": "@ + error + ", raw buffer:\n"@
}

/// The warning about a packet shows its bytes: all of them where they are within the limit that
/// is set, and else as many from either end as a third of the limit.
pub proof fn law_warning_shows_the_bytes(
    peer: Seq<char>,
    error: String,
    start: usize,
    end: usize,
    bytes: Vec<u8>,
    proxy: ProxyView,
    state: ConnectionState,
    protocol: Protocol,
)
    ensures
        ({
            let log = crate::connection::logged(
                peer,
                Phase::Excerpting { error, start, end },
                Event::Excerpt { bytes },
                proxy,
                state,
                protocol,
            );
            let limit = proxy.max_buffer_display_length as int;
            let third = limit / 3;
            &&& log.len() == 1
            &&& log[0].0 == Level::Warn
            &&& bytes@.len() <= limit ==> log[0].1 == warning_start(peer, error@) + ("["@
                + crate::util::hex_list(bytes@) + "]"@)
            &&& bytes@.len() > limit ==> log[0].1 == warning_start(peer, error@) + ("["@
                + crate::util::hex_list(bytes@.take(third)) + " ... "@ + crate::util::hex_list(
                bytes@.skip(bytes@.len() - third),
            ) + "]"@)
        }),
{
}

/// What the console sets as the limit holds for the next warning: with a limit that the packet is
/// within, or without one, the packet is shown whole.
pub proof fn law_limit_reaches_the_warnings(
    peer: Seq<char>,
    error: String,
    start: usize,
    end: usize,
    bytes: Vec<u8>,
    length: usize,
    text: Seq<char>,
    proxy: ProxyView,
    state: ConnectionState,
    protocol: Protocol,
)
    requires
        bytes@.len() <= length,
        crate::grammar::all_digits(text),
        crate::number::number(text, 10, usize::MAX as nat) == Ok::<
            nat,
            crate::number::NumberError,
        >(length as nat),
    ensures
        ({
            let phase = Phase::Excerpting { error, start, end };
            let event = Event::Excerpt { bytes };
            let whole = seq![
                (
                    Level::Warn,
                    warning_start(peer, error@) + ("["@ + crate::util::hex_list(bytes@) + "]"@),
                ),
            ];
            let limited = crate::console::settings_after_line(proxy, "mbdl "@ + text);
            let unlimited = crate::console::settings_after_line(proxy, "mbdl none"@);
            &&& crate::connection::logged(peer, phase, event, limited, state, protocol) == whole
            &&& crate::connection::logged(peer, phase, event, unlimited, state, protocol) == whole
        }),
{
    crate::console_laws::law_limit_line(proxy, text, length);
    crate::line_laws::law_no_limit_line(proxy);
}

/// A packet that cannot be parsed is warned about, where warnings are logged, the connection is
/// not disconnected and its ID is not suppressed: its ID is read, then its bytes are fetched, and
/// the warning names the peer, the error of the parser and these bytes. The settings and the
/// state may change in between.
pub proof fn law_unparsed_packet_is_warned_about(
    peer: Seq<char>,
    packet_len: usize,
    cursor: usize,
    error: String,
    id: Result<i32, String>,
    bytes: Vec<u8>,
    first: ProxyView,
    second: ProxyView,
    third: ProxyView,
    states: (ConnectionState, ConnectionState, ConnectionState),
    protocol: Protocol,
)
    requires
        cursor + packet_len <= usize::MAX,
        first.log_packets,
        first.log_warnings,
        states.1 != ConnectionState::Disconnected,
        id matches Ok(number) ==> !second.filter.suppresses(number as u32),
        bytes@.len() <= third.max_buffer_display_length,
    ensures
        ({
            let end = (cursor + packet_len) as usize;
            let parsed = Event::Parsed { cursor, result: Err(error) };
            let (identifying, identify) = crate::connection::transition(
                Phase::Parsing { packet_len },
                parsed,
                first,
                states.0,
                protocol,
            );
            let (excerpting, excerpt) = crate::connection::transition(
                identifying,
                Event::Identified { id },
                second,
                states.1,
                protocol,
            );
            let (idle, resume) = crate::connection::transition(
                excerpting,
                Event::Excerpt { bytes },
                third,
                states.2,
                protocol,
            );
            &&& identify == (Action::Identify { cursor })
            &&& excerpt == (Action::Excerpt { start: cursor, end })
            &&& resume == (Action::Resume { cursor: end })
            &&& idle == Phase::Idle
            &&& crate::connection::logged(
                peer,
                excerpting,
                Event::Excerpt { bytes },
                third,
                states.2,
                protocol,
            ) == seq![
                (
                    Level::Warn,
                    warning_start(peer, error@) + ("["@ + crate::util::hex_list(bytes@) + "]"@),
                ),
            ]
        }),
{
}

/// A packet that cannot be parsed is passed over in silence where packets or warnings are not
/// logged, and the connection goes on behind it.
pub proof fn law_unparsed_packet_is_passed_over(
    peer: Seq<char>,
    packet_len: usize,
    cursor: usize,
    error: String,
    proxy: ProxyView,
    state: ConnectionState,
    protocol: Protocol,
)
    requires
        cursor + packet_len <= usize::MAX,
        !(proxy.log_packets && proxy.log_warnings),
    ensures
        ({
            let phase = Phase::Parsing { packet_len };
            let event = Event::Parsed { cursor, result: Err(error) };
            &&& crate::connection::transition(phase, event, proxy, state, protocol) == (
                Phase::Idle,
                Action::Resume { cursor: (cursor + packet_len) as usize },
            )
            &&& crate::connection::logged(peer, phase, event, proxy, state, protocol)
                == Seq::<(Level, Seq<char>)>::empty()
        }),
{
}

/// Once disconnected, a packet that cannot be parsed is not warned about, whatever its ID.
pub proof fn law_no_warning_once_disconnected(
    error: String,
    start: usize,
    end: usize,
    id: Result<i32, String>,
    proxy: ProxyView,
    protocol: Protocol,
)
    ensures
        crate::connection::transition(
            Phase::Identifying { error, start, end },
            Event::Identified { id },
            proxy,
            ConnectionState::Disconnected,
            protocol,
        ) == (Phase::Idle, Action::Resume { cursor: end }),
{
}

/// Behind a packet that was parsed the connection goes on, whatever the packet, the settings and
/// the state.
pub proof fn law_goes_on_behind_parsed_packet(
    packet_len: usize,
    cursor: usize,
    packet: Packet,
    debug: String,
    proxy: ProxyView,
    state: ConnectionState,
    protocol: Protocol,
)
    requires
        cursor + packet_len <= usize::MAX,
    ensures
        crate::connection::transition(
            Phase::Parsing { packet_len },
            parsing(cursor, packet, debug),
            proxy,
            state,
            protocol,
        ) == (Phase::Idle, Action::Resume { cursor: (cursor + packet_len) as usize }),
{
}

/// The next packet is taken from what is left in the buffer where anything is, and is received
/// where nothing is, as long as the connection is not disconnected.
pub proof fn law_next_packet(
    remaining: usize,
    proxy: ProxyView,
    state: ConnectionState,
    protocol: Protocol,
)
    requires
        state != ConnectionState::Disconnected,
    ensures
        crate::connection::transition(
            Phase::Idle,
            Event::Ready { remaining },
            proxy,
            state,
            protocol,
        ) == if remaining == 0 {
            (Phase::Receiving, Action::Receive)
        } else {
            (Phase::Measuring, Action::ShiftAndMeasure)
        },
{
}

/// A chunk that was received is forwarded, then the buffer is cut down to it and its first byte
/// looked at. In a handshake that byte tells a legacy ping, which is the whole chunk; else the
/// length before the packet is read. A chunk of no bytes is the end of the stream, which
/// disconnects.
pub proof fn law_first_chunk(
    count: usize,
    byte: Option<u8>,
    proxies: (ProxyView, ProxyView, ProxyView),
    states: (ConnectionState, ConnectionState, ConnectionState),
    protocol: Protocol,
)
    ensures
        ({
            let (forwarding, forward) = crate::connection::transition(
                Phase::Receiving,
                Event::Received { count },
                proxies.0,
                states.0,
                protocol,
            );
            let (peeking, peek) = crate::connection::transition(
                forwarding,
                Event::Forwarded,
                proxies.1,
                states.1,
                protocol,
            );
            let (next, action) = crate::connection::transition(
                peeking,
                Event::Peeked { first: byte },
                proxies.2,
                states.2,
                protocol,
            );
            let legacy = states.2 == ConnectionState::Handshake && (match byte {
                Some(byte) => byte as int,
                None => 0int,
            }) == protocol.legacy_ping_packet_id;
            &&& forward == (Action::Forward { start: 0, end: count })
            &&& count == 0 ==> {
                &&& peek == Action::ClearAndFinish
                &&& peeking == Phase::Closed
                &&& crate::connection::state_after(forwarding, Event::Forwarded, states.1, protocol)
                    == ConnectionState::Disconnected
            }
            &&& count > 0 ==> {
                &&& peek == (Action::ResizeAndPeek { length: count })
                &&& crate::connection::state_after(forwarding, Event::Forwarded, states.1, protocol)
                    == states.1
                &&& legacy ==> action == (Action::Parse { packet_len: count }) && next == (
                Phase::Parsing { packet_len: count })
                &&& !legacy ==> action == Action::Measure && next == Phase::Measuring
            }
        }),
{
}

/// A packet whose length was read is parsed with that length: at once where it is no longer than
/// the buffer, and else once the rest of it was gathered and forwarded. A packet of no length ends
/// the connection.
pub proof fn law_length_decides(
    value: i32,
    cursor: usize,
    buffered: usize,
    proxies: (ProxyView, ProxyView, ProxyView),
    states: (ConnectionState, ConnectionState, ConnectionState),
    protocol: Protocol,
)
    requires
        value >= 0,
        cursor + value <= usize::MAX,
    ensures
        ({
            let (next, action) = crate::connection::transition(
                Phase::Measuring,
                Event::Measured { value, cursor, buffered },
                proxies.0,
                states.0,
                protocol,
            );
            let (gathered, forward) = crate::connection::transition(
                next,
                Event::Gathered,
                proxies.1,
                states.1,
                protocol,
            );
            let (forwarded, parse) = crate::connection::transition(
                gathered,
                Event::Forwarded,
                proxies.2,
                states.2,
                protocol,
            );
            let end = (cursor + value) as usize;
            let packet_len = value as usize;
            &&& value == 0 ==> next == Phase::Closed && action == Action::Finish
            &&& 0 < value <= buffered ==> next == (Phase::Parsing { packet_len }) && action == (
            Action::Parse { packet_len })
            &&& value > buffered ==> {
                &&& action == (Action::Gather { start: buffered, end })
                &&& forward == (Action::Forward { start: buffered, end })
                &&& forwarded == (Phase::Parsing { packet_len })
                &&& parse == (Action::Parse { packet_len })
            }
        }),
{
}

/// What the parts of the machine decide by themselves is what it decides as a whole.
pub proof fn law_parts_agree(
    peer: Seq<char>,
    remaining: usize,
    value: i32,
    cursor: usize,
    buffered: usize,
    packet_len: usize,
    result: Result<ParsedPacket, String>,
    proxy: ProxyView,
    state: ConnectionState,
    protocol: Protocol,
)
    requires
        value >= 0,
        cursor + value <= usize::MAX,
        cursor + packet_len <= usize::MAX,
    ensures
        state != ConnectionState::Disconnected ==> crate::connection::next_read(remaining)
            == crate::connection::transition(
            Phase::Idle,
            Event::Ready { remaining },
            proxy,
            state,
            protocol,
        ),
        crate::connection::collected(value as usize, cursor, buffered)
            == crate::connection::transition(
            Phase::Measuring,
            Event::Measured { value, cursor, buffered },
            proxy,
            state,
            protocol,
        ),
        crate::connection::handled(cursor, (cursor + packet_len) as usize, result, proxy)
            == crate::connection::transition(
            Phase::Parsing { packet_len },
            Event::Parsed { cursor, result },
            proxy,
            state,
            protocol,
        ),
        result matches Ok(parsed) ==> {
            &&& crate::connection::packet_log(peer, parsed, proxy, state, protocol.version)
                == crate::connection::logged(
                peer,
                Phase::Parsing { packet_len },
                Event::Parsed { cursor, result },
                proxy,
                state,
                protocol,
            )
            &&& crate::connection::state_after_request(
                state,
                crate::connection::requested_state(parsed.packet, protocol.version),
            ) == crate::connection::state_after(
                Phase::Parsing { packet_len },
                Event::Parsed { cursor, result },
                state,
                protocol,
            )
        },
{
}

/// A packet asks for a state where it sets one, and only there, and asks for the one that it
/// sets. What is asked for is what the session comes to, and is logged where logging is on.
pub proof fn law_requested_state(
    packet: Packet,
    version: i32,
    state: ConnectionState,
    new_state: ConnectionState,
    log_packets: bool,
)
    ensures
        crate::connection::requested_state(packet, version) is Some <==> sets_state(
            packet,
            version,
        ),
        packet matches Packet::ServerBound(packet) ==> crate::connection::server_bound_state(
            packet,
            version,
        ) == crate::connection::requested_state(Packet::ServerBound(packet), version),
        packet matches Packet::ClientBound(packet) ==> crate::connection::client_bound_state(
            packet,
        ) == crate::connection::requested_state(Packet::ClientBound(packet), version),
        crate::connection::state_after_request(state, Some(new_state)) == new_state,
        crate::connection::state_after_request(state, None) == state,
        crate::connection::request_log(state, Some(new_state), log_packets)
            == crate::connection::state_log(state, new_state, log_packets),
        crate::connection::request_log(state, None, log_packets)
            == Seq::<(Level, Seq<char>)>::empty(),
        crate::connection::state_log(state, new_state, false)
            == Seq::<(Level, Seq<char>)>::empty(),
        crate::connection::state_log(state, new_state, true) == seq![
            (
                Level::Info,
                "Connection state updated from "@ + state.name() + " to "@ + new_state.name(),
            ),
        ],
{
}

/// Each state goes by its own name.
pub proof fn law_state_names(state: ConnectionState)
    ensures
        state == ConnectionState::Disconnected <==> state.name() == "Disconnected"@,
        state == ConnectionState::Handshake <==> state.name() == "Handshake"@,
        state == ConnectionState::Status <==> state.name() == "Status"@,
        state == ConnectionState::Login <==> state.name() == "Login"@,
        state == ConnectionState::Play <==> state.name() == "Play"@,
{
    reveal_strlit("Disconnected");
    reveal_strlit("Handshake");
    reveal_strlit("Status");
    reveal_strlit("Login");
    reveal_strlit("Play");
    assert("Disconnected"@[0] == 'D' && "Handshake"@[0] == 'H' && "Status"@[0] == 'S' && "Login"@[0]
        == 'L' && "Play"@[0] == 'P');
}

/// The lines of a log are seen with their levels and texts, each in its place.
pub proof fn law_log_lines_are_seen_whole(lines: Seq<LogLine>, i: int)
    requires
        0 <= i < lines.len(),
    ensures
        crate::connection::log_views(lines).len() == lines.len(),
        crate::connection::log_views(lines)[i] == (lines[i].level, lines[i].text@),
{
}

/// A packet of any length is collected alike: one of no length ends the connection, one that is no
/// longer than the buffer is parsed, and of a longer one the rest is gathered.
pub proof fn law_collecting(packet_len: usize, cursor: usize, buffered: usize)
    requires
        cursor + packet_len <= usize::MAX,
    ensures
        ({
            let (next, action) = crate::connection::collected(packet_len, cursor, buffered);
            let end = (cursor + packet_len) as usize;
            &&& packet_len == 0 ==> next == Phase::Closed && action == Action::Finish
            &&& 0 < packet_len <= buffered ==> next == (Phase::Parsing { packet_len }) && action
                == (Action::Parse { packet_len })
            &&& packet_len > buffered ==> next == (Phase::Gathering {
                start: buffered,
                end,
                packet_len,
            }) && action == (Action::Gather { start: buffered, end })
        }),
{
}

/// A packet from any place to any other is handled alike: behind one that was parsed, or that is
/// not to be warned about, the connection goes on, and one to be warned about is identified.
pub proof fn law_handling(
    start: usize,
    end: usize,
    parsed: ParsedPacket,
    error: String,
    proxy: ProxyView,
)
    ensures
        crate::connection::handled(start, end, Ok(parsed), proxy) == (
            Phase::Idle,
            Action::Resume { cursor: end },
        ),
        !proxy.log_packets || !proxy.log_warnings ==> crate::connection::handled(
            start,
            end,
            Err(error),
            proxy,
        ) == (Phase::Idle, Action::Resume { cursor: end }),
        proxy.log_packets && proxy.log_warnings ==> crate::connection::handled(
            start,
            end,
            Err(error),
            proxy,
        ) == (Phase::Identifying { error, start, end }, Action::Identify { cursor: start }),
{
}

} // verus!
