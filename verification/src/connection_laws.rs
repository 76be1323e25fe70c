//! What holds of every run of a connection.
use vstd::prelude::*;

use crate::connection::Action;
use crate::connection::ClientBoundPacket;
use crate::connection::ConnectionState;
use crate::connection::Event;
use crate::connection::Packet;
use crate::connection::ParsedPacket;
use crate::connection::Phase;
use crate::connection::Protocol;
use crate::connection::ServerBoundPacket;
use crate::message::Level;
use crate::proxy::ProxyView;

verus! {

/// An event of a connection, with the settings and the state that it meets. Between two events
/// the console may change the settings, and the other direction the state.
pub struct Moment {
    pub event: Event,
    pub proxy: ProxyView,
    pub state: ConnectionState,
    /// The bytes that the event has brought from the peer.
    pub read: Seq<u8>,
    /// The bytes in the buffer once the event has happened, on which the next action is performed.
    pub buffer: Seq<u8>,
}

/// The phase after the events of a run from `phase`.
pub open spec fn phase_after(phase: Phase, run: Seq<Moment>, protocol: Protocol) -> Phase
    decreases run.len(),
{
    if run.len() == 0 {
        phase
    } else {
        let last = run.last();
        crate::connection::transition(
            phase_after(phase, run.drop_last(), protocol),
            last.event,
            last.proxy,
            last.state,
            protocol,
        ).0
    }
}

/// Whether each event of a run from `phase` can come of what is waited for.
pub open spec fn possible(phase: Phase, run: Seq<Moment>, protocol: Protocol) -> bool
    decreases run.len(),
{
    run.len() == 0 || {
        &&& possible(phase, run.drop_last(), protocol)
        &&& crate::connection::accepts(
            phase_after(phase, run.drop_last(), protocol),
            run.last().event,
        )
    }
}

/// The stretch of the buffer that an event has filled with bytes from the peer.
pub open spec fn arrival(phase: Phase, event: Event) -> Seq<(usize, usize)> {
    match (phase, event) {
        (Phase::Receiving, Event::Received { count }) => seq![(0, count)],
        (Phase::Gathering { start, end, .. }, Event::Gathered) => seq![(start, end)],
        _ => Seq::empty(),
    }
}

/// The stretch of the buffer that an action sends on.
pub open spec fn departure(action: Action) -> Seq<(usize, usize)> {
    match action {
        Action::Forward { start, end } => seq![(start, end)],
        _ => Seq::empty(),
    }
}

/// The stretches that were filled in a run from `phase`, in their order.
pub open spec fn arrivals(phase: Phase, run: Seq<Moment>, protocol: Protocol) -> Seq<(usize, usize)>
    decreases run.len(),
{
    if run.len() == 0 {
        Seq::empty()
    } else {
        arrivals(phase, run.drop_last(), protocol) + arrival(
            phase_after(phase, run.drop_last(), protocol),
            run.last().event,
        )
    }
}

/// The stretches that a run from `phase` asks to send on, in their order.
pub open spec fn departures(phase: Phase, run: Seq<Moment>, protocol: Protocol) -> Seq<
    (usize, usize),
>
    decreases run.len(),
{
    if run.len() == 0 {
        Seq::empty()
    } else {
        let last = run.last();
        departures(phase, run.drop_last(), protocol) + departure(
            crate::connection::transition(
                phase_after(phase, run.drop_last(), protocol),
                last.event,
                last.proxy,
                last.state,
                protocol,
            ).1,
        )
    }
}

/// What is logged in a run from `phase`.
pub open spec fn log_of(
    peer: Seq<char>,
    phase: Phase,
    run: Seq<Moment>,
    protocol: Protocol,
) -> Seq<(Level, Seq<char>)>
    decreases run.len(),
{
    if run.len() == 0 {
        Seq::empty()
    } else {
        let last = run.last();
        log_of(peer, phase, run.drop_last(), protocol) + crate::connection::logged(
            peer,
            phase_after(phase, run.drop_last(), protocol),
            last.event,
            last.proxy,
            last.state,
            protocol,
        )
    }
}

/// Whatever arrives is sent on, and nothing else is: the next thing asked for once bytes have
/// filled a stretch of the buffer is to send that very stretch on, whatever the settings.
pub proof fn law_forwarded_at_once(
    phase: Phase,
    event: Event,
    proxy: ProxyView,
    state: ConnectionState,
    protocol: Protocol,
)
    requires
        crate::connection::accepts(phase, event),
    ensures
        departure(crate::connection::transition(phase, event, proxy, state, protocol).1)
            == arrival(phase, event),
{
}

/// Over any run the stretches that are sent on are those that arrived, in their order, each once.
pub proof fn law_forwards_what_arrives(phase: Phase, run: Seq<Moment>, protocol: Protocol)
    requires
        possible(phase, run, protocol),
    ensures
        departures(phase, run, protocol) == arrivals(phase, run, protocol),
    decreases run.len(),
{
    if run.len() > 0 {
        let last = run.last();
        law_forwards_what_arrives(phase, run.drop_last(), protocol);
        law_forwarded_at_once(
            phase_after(phase, run.drop_last(), protocol),
            last.event,
            last.proxy,
            last.state,
            protocol,
        );
    }
}

/// Whether the bytes that an event has brought stand in the buffer where the event says, and an
/// event that fills no stretch of the buffer has brought none.
pub open spec fn stored(phase: Phase, moment: Moment) -> bool {
    let stretches = arrival(phase, moment.event);
    if stretches.len() == 0 {
        moment.read.len() == 0
    } else {
        let (start, end) = stretches[0];
        &&& start <= end <= moment.buffer.len()
        &&& moment.buffer.subrange(start as int, end as int) == moment.read
    }
}

/// Whether each event of a run from `phase` leaves in the buffer what it has brought.
pub open spec fn all_stored(phase: Phase, run: Seq<Moment>, protocol: Protocol) -> bool
    decreases run.len(),
{
    run.len() == 0 || {
        &&& all_stored(phase, run.drop_last(), protocol)
        &&& stored(phase_after(phase, run.drop_last(), protocol), run.last())
    }
}

/// The bytes that an action sends on from a buffer.
pub open spec fn sent(buffer: Seq<u8>, action: Action) -> Seq<u8> {
    match action {
        Action::Forward { start, end } => buffer.subrange(start as int, end as int),
        _ => Seq::empty(),
    }
}

/// The bytes that came from the peer in a run, in their order.
pub open spec fn bytes_received(run: Seq<Moment>) -> Seq<u8>
    decreases run.len(),
{
    if run.len() == 0 {
        Seq::empty()
    } else {
        bytes_received(run.drop_last()) + run.last().read
    }
}

/// The bytes that a run from `phase` sends on, in their order.
pub open spec fn bytes_sent(phase: Phase, run: Seq<Moment>, protocol: Protocol) -> Seq<u8>
    decreases run.len(),
{
    if run.len() == 0 {
        Seq::empty()
    } else {
        bytes_sent(phase, run.drop_last(), protocol) + sent(
            run.last().buffer,
            last_action(phase, run, protocol),
        )
    }
}

/// Over any run the bytes that are sent on are the bytes that came from the peer, in their order,
/// none lost, added or changed.
pub proof fn law_bytes_pass_unchanged(phase: Phase, run: Seq<Moment>, protocol: Protocol)
    requires
        possible(phase, run, protocol),
        all_stored(phase, run, protocol),
    ensures
        bytes_sent(phase, run, protocol) == bytes_received(run),
    decreases run.len(),
{
    if run.len() > 0 {
        let last = run.last();
        let before = phase_after(phase, run.drop_last(), protocol);
        law_bytes_pass_unchanged(phase, run.drop_last(), protocol);
        law_forwarded_at_once(before, last.event, last.proxy, last.state, protocol);
        assert(arrival(before, last.event).len() == 0 ==> last.read =~= Seq::empty());
    }
}

/// Whether performing an action can come to an event.
pub open spec fn comes_to(action: Action, event: Event) -> bool {
    match action {
        Action::Receive => event is Received || event is Failed,
        Action::ShiftAndMeasure | Action::Measure => event is Measured || event is Failed,
        Action::Forward { .. } => event is Forwarded || event is Failed,
        Action::ResizeAndPeek { .. } => event is Peeked,
        Action::Gather { .. } => event is Gathered || event is Failed,
        Action::Parse { .. } => event is Parsed,
        Action::Identify { .. } => event is Identified,
        Action::Excerpt { .. } => event is Excerpt,
        Action::Resume { .. } => event is Ready,
        Action::ClearAndFinish | Action::Finish | Action::Shutdown => false,
    }
}

/// Whether the end of the packet that an event speaks of is a position there can be.
pub open spec fn within_bounds(action: Action, event: Event) -> bool {
    match (action, event) {
        (_, Event::Measured { value, cursor, .. }) => value >= 0 && cursor + value <= usize::MAX,
        (Action::Parse { packet_len }, Event::Parsed { cursor, .. }) => cursor + packet_len
            <= usize::MAX,
        _ => true,
    }
}

/// A connection is never stuck: whatever comes of the action that it asks for is an event that it
/// accepts next, as long as packets end within bounds, and nothing else is. It begins by being
/// asked for a packet.
pub proof fn law_accepts_what_comes(
    phase: Phase,
    event: Event,
    proxy: ProxyView,
    state: ConnectionState,
    protocol: Protocol,
    next: Event,
    remaining: usize,
)
    requires
        crate::connection::accepts(phase, event),
    ensures
        ({
            let (after, action) = crate::connection::transition(
                phase,
                event,
                proxy,
                state,
                protocol,
            );
            crate::connection::accepts(after, next) <==> comes_to(action, next) && within_bounds(
                action,
                next,
            )
        }),
        crate::connection::accepts(Phase::Idle, Event::Ready { remaining }),
{
}

/// Until bytes that arrived are sent on, or that failed, nothing else happens.
pub proof fn law_waits_for_forwarding(
    phase: Phase,
    event: Event,
    proxy: ProxyView,
    state: ConnectionState,
    protocol: Protocol,
    next: Event,
)
    requires
        crate::connection::accepts(phase, event),
        arrival(phase, event).len() > 0,
        crate::connection::accepts(
            crate::connection::transition(phase, event, proxy, state, protocol).0,
            next,
        ),
    ensures
        next is Forwarded || next is Failed,
{
}

/// The rest of a packet that is longer than the buffer goes from the end of what is buffered to
/// the end of the packet, and there is some.
pub proof fn law_gathers_the_rest(
    event: Event,
    proxy: ProxyView,
    state: ConnectionState,
    protocol: Protocol,
)
    requires
        crate::connection::accepts(Phase::Measuring, event),
    ensures
        crate::connection::transition(Phase::Measuring, event, proxy, state, protocol).1
            matches Action::Gather { start, end } ==> {
            &&& event matches Event::Measured { value, cursor, buffered }
            &&& start == buffered
            &&& end == cursor + value
            &&& start < end
        },
{
}

/// The action that the last event of a run from `phase` leads to.
pub open spec fn last_action(phase: Phase, run: Seq<Moment>, protocol: Protocol) -> Action
    recommends
        run.len() > 0,
{
    let last = run.last();
    crate::connection::transition(
        phase_after(phase, run.drop_last(), protocol),
        last.event,
        last.proxy,
        last.state,
        protocol,
    ).1
}

/// Once a packet is handled, parsed or not, and with a warning or without, the cursor is put
/// right behind it, so that a packet that cannot be parsed does not throw the next one off. That
/// takes three events at most.
pub proof fn law_stays_on_track(
    packet_len: usize,
    cursor: usize,
    result: Result<ParsedPacket, String>,
    run: Seq<Moment>,
    protocol: Protocol,
)
    requires
        run.len() > 0,
        run[0].event == (Event::Parsed { cursor, result }),
        possible(Phase::Parsing { packet_len }, run, protocol),
        forall|i: int|
            0 < i < run.len() ==> !(#[trigger] phase_after(
                Phase::Parsing { packet_len },
                run.take(i),
                protocol,
            ) is Idle),
    ensures
        run.len() <= 3,
        run.len() == 3 ==> phase_after(Phase::Parsing { packet_len }, run, protocol) is Idle,
        phase_after(Phase::Parsing { packet_len }, run, protocol) is Idle ==> last_action(
            Phase::Parsing { packet_len },
            run,
            protocol,
        ) == (Action::Resume { cursor: (cursor + packet_len) as usize }),
{
    let before = run.drop_last();
    if before.len() > 0 {
        assert forall|i: int| 0 < i <= before.len() implies !(#[trigger] phase_after(
            Phase::Parsing { packet_len },
            before.take(i),
            protocol,
        ) is Idle) by {
            assert(before.take(i) =~= run.take(i));
        }
        lemma_handling(packet_len, cursor, result, before, protocol);
    }
}

/// While a packet that could not be parsed is looked into, its bounds are kept.
proof fn lemma_handling(
    packet_len: usize,
    cursor: usize,
    result: Result<ParsedPacket, String>,
    run: Seq<Moment>,
    protocol: Protocol,
)
    requires
        run.len() > 0,
        run[0].event == (Event::Parsed { cursor, result }),
        possible(Phase::Parsing { packet_len }, run, protocol),
        forall|i: int|
            0 < i <= run.len() ==> !(#[trigger] phase_after(
                Phase::Parsing { packet_len },
                run.take(i),
                protocol,
            ) is Idle),
    ensures
        match phase_after(Phase::Parsing { packet_len }, run, protocol) {
            Phase::Identifying { start, end, .. } => {
                &&& run.len() == 1
                &&& start == cursor
                &&& end == (cursor + packet_len) as usize
            },
            Phase::Excerpting { start, end, .. } => {
                &&& run.len() == 2
                &&& start == cursor
                &&& end == (cursor + packet_len) as usize
            },
            _ => false,
        },
    decreases run.len(),
{
    let phase = Phase::Parsing { packet_len };
    let before = run.drop_last();
    assert(run.take(run.len() as int) =~= run);
    assert(!(phase_after(phase, run.take(run.len() as int), protocol) is Idle));
    if run.len() == 1 {
        assert(before =~= Seq::empty());
    } else {
        assert forall|i: int| 0 < i <= before.len() implies !(#[trigger] phase_after(
            phase,
            before.take(i),
            protocol,
        ) is Idle) by {
            assert(before.take(i) =~= run.take(i));
        }
        lemma_handling(packet_len, cursor, result, before, protocol);
    }
}

/// Whether a phase deals with a packet that could not be parsed.
pub open spec fn looks_into(phase: Phase) -> bool {
    phase is Identifying || phase is Excerpting
}

/// Where the logging of packets is paused, or warnings are off, all through a run, no packet is
/// looked into and no warning is logged.
pub proof fn law_no_warnings(
    peer: Seq<char>,
    phase: Phase,
    run: Seq<Moment>,
    protocol: Protocol,
)
    requires
        !looks_into(phase),
        possible(phase, run, protocol),
        forall|i: int|
            0 <= i < run.len() ==> !((#[trigger] run[i]).proxy.log_packets
                && run[i].proxy.log_warnings),
    ensures
        !looks_into(phase_after(phase, run, protocol)),
        forall|i: int|
            0 <= i < log_of(peer, phase, run, protocol).len() ==> (#[trigger] log_of(
                peer,
                phase,
                run,
                protocol,
            )[i]).0 != Level::Warn,
    decreases run.len(),
{
    if run.len() > 0 {
        let before = run.drop_last();
        let last = run.last();
        assert forall|i: int| 0 <= i < before.len() implies !((#[trigger] before[i]).proxy.log_packets
            && before[i].proxy.log_warnings) by {
            assert(before[i] == run[i]);
        }
        assert(last == run[run.len() - 1]);
        law_no_warnings(peer, phase, before, protocol);
    }
}

/// Where the logging of packets is paused all through a run, nothing but errors is logged,
/// whatever the filter.
pub proof fn law_paused_logs_errors_only(
    peer: Seq<char>,
    phase: Phase,
    run: Seq<Moment>,
    protocol: Protocol,
)
    requires
        !looks_into(phase),
        possible(phase, run, protocol),
        forall|i: int| 0 <= i < run.len() ==> !(#[trigger] run[i]).proxy.log_packets,
    ensures
        !looks_into(phase_after(phase, run, protocol)),
        forall|i: int|
            0 <= i < log_of(peer, phase, run, protocol).len() ==> (#[trigger] log_of(
                peer,
                phase,
                run,
                protocol,
            )[i]).0 == Level::Error,
    decreases run.len(),
{
    if run.len() > 0 {
        let before = run.drop_last();
        let last = run.last();
        assert forall|i: int| 0 <= i < before.len() implies !(
        #[trigger] before[i]).proxy.log_packets by {
            assert(before[i] == run[i]);
        }
        assert(last == run[run.len() - 1]);
        law_paused_logs_errors_only(peer, phase, before, protocol);
    }
}

/// An error is logged, and ends the connection, whatever the settings and the state.
pub proof fn law_errors_are_logged(
    peer: Seq<char>,
    phase: Phase,
    error: String,
    proxy: ProxyView,
    state: ConnectionState,
    protocol: Protocol,
)
    requires
        crate::connection::accepts(phase, Event::Failed { error }),
    ensures
        crate::connection::logged(peer, phase, Event::Failed { error }, proxy, state, protocol)
            == seq![(Level::Error, "Error in connection handler: "@ + error@)],
        crate::connection::transition(phase, Event::Failed { error }, proxy, state, protocol) == (
            Phase::Closed,
            Action::Shutdown,
        ),
{
}

/// A direction that is done stays done, and a direction is done where it says so and nowhere
/// else.
pub proof fn law_done_is_done(
    phase: Phase,
    event: Event,
    proxy: ProxyView,
    state: ConnectionState,
    protocol: Protocol,
)
    requires
        crate::connection::accepts(phase, event),
    ensures
        !(phase is Closed),
        ({
            let (next, action) = crate::connection::transition(
                phase,
                event,
                proxy,
                state,
                protocol,
            );
            next is Closed <==> (action is Finish || action is ClearAndFinish
                || action is Shutdown)
        }),
{
}

/// A stream that ends disconnects, and so does a handshake for another version of the protocol.
/// Once disconnected, either direction is done when it would go on to the next packet.
pub proof fn law_disconnection_ends(
    remaining: usize,
    cursor: usize,
    packet_len: usize,
    protocol_version: i32,
    next_state: i32,
    debug: String,
    proxy: ProxyView,
    state: ConnectionState,
    protocol: Protocol,
)
    requires
        protocol_version != protocol.version,
    ensures
        crate::connection::state_after(
            Phase::Forwarding { count: 0 },
            Event::Forwarded,
            state,
            protocol,
        ) == ConnectionState::Disconnected,
        crate::connection::transition(
            Phase::Forwarding { count: 0 },
            Event::Forwarded,
            proxy,
            state,
            protocol,
        ).0 == Phase::Closed,
        crate::connection::state_after(
            Phase::Parsing { packet_len },
            Event::Parsed {
                cursor,
                result: Ok(
                    ParsedPacket {
                        packet: Packet::ServerBound(
                            ServerBoundPacket::Handshake { protocol_version, next_state },
                        ),
                        debug,
                    },
                ),
            },
            state,
            protocol,
        ) == ConnectionState::Disconnected,
        crate::connection::transition(
            Phase::Idle,
            Event::Ready { remaining },
            proxy,
            ConnectionState::Disconnected,
            protocol,
        ) == (Phase::Closed, Action::Finish),
{
}

/// A session gets to play by a handshake for login, in the version of the protocol, and a
/// successful login, whatever state it is in.
pub proof fn law_login_leads_to_play(state: ConnectionState, protocol: Protocol)
    ensures
        ({
            let asked = crate::connection::state_after_request(
                state,
                crate::connection::server_bound_state(
                    ServerBoundPacket::Handshake {
                        protocol_version: protocol.version,
                        next_state: 2,
                    },
                    protocol.version,
                ),
            );
            &&& asked == ConnectionState::Login
            &&& crate::connection::state_after_request(
                asked,
                crate::connection::client_bound_state(ClientBoundPacket::LoginSuccess),
            ) == ConnectionState::Play
        }),
{
}

/// A packet that could not be parsed is passed over without a word where warnings about its ID
/// are held back.
pub proof fn law_suppressed_warning_is_silent(
    peer: Seq<char>,
    error: String,
    start: usize,
    end: usize,
    id: i32,
    proxy: ProxyView,
    state: ConnectionState,
    protocol: Protocol,
)
    requires
        proxy.filter.suppresses(id as u32),
    ensures
        ({
            let phase = Phase::Identifying { error, start, end };
            let event = Event::Identified { id: Ok(id) };
            &&& crate::connection::transition(phase, event, proxy, state, protocol) == (
                Phase::Idle,
                Action::Resume { cursor: end },
            )
            &&& crate::connection::logged(peer, phase, event, proxy, state, protocol)
                == Seq::<(Level, Seq<char>)>::empty()
        }),
{
}

} // verus!
