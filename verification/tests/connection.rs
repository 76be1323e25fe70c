use quartz_proxy::connection::collect_packet;
use quartz_proxy::connection::handle_client_state;
use quartz_proxy::connection::handle_incoming_connection;
use quartz_proxy::connection::handle_server_state;
use quartz_proxy::connection::read_packet;
use quartz_proxy::connection::set_state;
use quartz_proxy::connection::Action;
use quartz_proxy::connection::ClientBoundPacket;
use quartz_proxy::connection::Connection;
use quartz_proxy::connection::ConnectionState;
use quartz_proxy::connection::Event;
use quartz_proxy::connection::Packet;
use quartz_proxy::connection::ParsedPacket;
use quartz_proxy::connection::Phase;
use quartz_proxy::connection::Protocol;
use quartz_proxy::connection::ServerBoundPacket;
use quartz_proxy::message::Level;
use quartz_proxy::message::LogLine;
use quartz_proxy::proxy::Proxy;

const PROTOCOL: Protocol = Protocol {
    version: 756,
    legacy_ping_packet_id: 0xFE,
};

fn lines(logs: &[LogLine]) -> Vec<(Level, &str)> {
    logs.iter().map(|line| (line.level, line.text.as_str())).collect()
}

fn parsed(packet: Packet, debug: &str) -> Result<ParsedPacket, String> {
    Ok(ParsedPacket {
        packet,
        debug: debug.to_owned(),
    })
}

fn handshake(protocol_version: i32, next_state: i32) -> Packet {
    Packet::ServerBound(ServerBoundPacket::Handshake {
        protocol_version,
        next_state,
    })
}

fn other() -> Packet {
    Packet::ClientBound(ClientBoundPacket::Other)
}

/// A connection that is driven by hand.
struct Driver {
    connection: Option<Connection>,
    proxy: Proxy,
    state: ConnectionState,
    logs: Vec<(Level, String)>,
    forwarded: Vec<(usize, usize)>,
}

impl Driver {
    fn new() -> Driver {
        Driver {
            connection: Some(Connection::new("1.2.3.4:5")),
            proxy: Proxy::new(),
            state: ConnectionState::Handshake,
            logs: Vec::new(),
            forwarded: Vec::new(),
        }
    }

    fn step(&mut self, event: Event) -> Action {
        let connection = self.connection.take().unwrap();
        let step = connection.step(event, &self.proxy, &mut self.state, &PROTOCOL);
        for line in step.logs {
            self.logs.push((line.level, line.text));
        }
        if let Action::Forward { start, end } = step.action {
            self.forwarded.push((start, end));
        }
        assert_eq!(step.connection.peer, "1.2.3.4:5");
        self.connection = Some(step.connection);
        step.action
    }

    fn phase(&self) -> &Phase {
        &self.connection.as_ref().unwrap().phase
    }

    /// Brings a packet of `packet_len` bytes, at `cursor` in the buffer, up to its parsing.
    fn receive(&mut self, packet_len: usize, cursor: usize) {
        let buffered = cursor + packet_len;
        assert_eq!(self.step(Event::Ready { remaining: 0 }), Action::Receive);
        assert_eq!(
            self.step(Event::Received { count: buffered }),
            Action::Forward { start: 0, end: buffered }
        );
        assert_eq!(
            self.step(Event::Forwarded),
            Action::ResizeAndPeek { length: buffered }
        );
        assert_eq!(
            self.step(Event::Peeked { first: Some(packet_len as u8) }),
            Action::Measure
        );
        let measured = Event::Measured { value: packet_len as i32, cursor, buffered };
        assert_eq!(self.step(measured), Action::Parse { packet_len });
    }
}

#[test]
fn a_client_is_accepted() {
    let (session, line) = handle_incoming_connection(Ok("1.2.3.4:5".to_owned()));
    let session = session.unwrap();
    assert_eq!(session.state, ConnectionState::Handshake);
    assert_eq!(session.client.peer, "1.2.3.4:5");
    assert!(matches!(session.client.phase, Phase::Idle));
    assert_eq!(session.server.peer, "server");
    assert!(matches!(session.server.phase, Phase::Idle));
    assert_eq!((line.level, line.text.as_str()), (Level::Info, "Client connected from 1.2.3.4:5"));
    let (session, line) = handle_incoming_connection(Err("no more files".to_owned()));
    assert!(session.is_none());
    assert_eq!(
        (line.level, line.text.as_str()),
        (Level::Error, "Failed to accept TCP socket: no more files")
    );
}

#[test]
fn states_are_set_and_logged() {
    let mut state = ConnectionState::Handshake;
    let mut logs = Vec::new();
    set_state(&mut state, ConnectionState::Status, true, &mut logs);
    assert_eq!(state, ConnectionState::Status);
    set_state(&mut state, ConnectionState::Play, false, &mut logs);
    assert_eq!(state, ConnectionState::Play);
    assert_eq!(
        lines(&logs),
        vec![(Level::Info, "Connection state updated from Handshake to Status")]
    );
    for (state, name) in [
        (ConnectionState::Disconnected, "Disconnected"),
        (ConnectionState::Handshake, "Handshake"),
        (ConnectionState::Status, "Status"),
        (ConnectionState::Login, "Login"),
        (ConnectionState::Play, "Play"),
    ] {
        assert_eq!(state.text(), name);
        assert_eq!(format!("{:?}", state), name);
    }
}

#[test]
fn handshakes_move_the_state_on() {
    for (version, next_state, expected) in [
        (756, 1, ConnectionState::Status),
        (756, 2, ConnectionState::Login),
        (756, 3, ConnectionState::Handshake),
        (756, 0, ConnectionState::Handshake),
        (755, 1, ConnectionState::Disconnected),
        (757, 2, ConnectionState::Disconnected),
    ] {
        let mut state = ConnectionState::Handshake;
        let mut logs = Vec::new();
        let packet = ServerBoundPacket::Handshake {
            protocol_version: version,
            next_state,
        };
        handle_server_state(&packet, &mut state, &PROTOCOL, true, &mut logs);
        assert_eq!(state, expected);
        assert_eq!(logs.len(), (expected != ConnectionState::Handshake) as usize);
    }
    let mut state = ConnectionState::Login;
    let mut logs = Vec::new();
    handle_server_state(&ServerBoundPacket::Other, &mut state, &PROTOCOL, true, &mut logs);
    assert_eq!(state, ConnectionState::Login);
    assert!(logs.is_empty());
}

#[test]
fn a_login_leads_to_play() {
    let mut state = ConnectionState::Login;
    let mut logs = Vec::new();
    handle_client_state(&ClientBoundPacket::Other, &mut state, true, &mut logs);
    assert_eq!(state, ConnectionState::Login);
    handle_client_state(&ClientBoundPacket::LoginSuccess, &mut state, true, &mut logs);
    assert_eq!(state, ConnectionState::Play);
    assert_eq!(
        lines(&logs),
        vec![(Level::Info, "Connection state updated from Login to Play")]
    );
}

#[test]
fn bytes_left_over_come_first() {
    assert!(matches!(read_packet(1), (Phase::Measuring, Action::ShiftAndMeasure)));
    assert!(matches!(read_packet(0), (Phase::Receiving, Action::Receive)));
}

#[test]
fn packets_are_collected() {
    assert!(matches!(
        collect_packet(10, 1, 11),
        (Phase::Parsing { packet_len: 10 }, Action::Parse { packet_len: 10 })
    ));
    // The length is held against the whole buffer.
    assert!(matches!(
        collect_packet(10, 1, 10),
        (Phase::Parsing { packet_len: 10 }, Action::Parse { packet_len: 10 })
    ));
    assert!(matches!(
        collect_packet(10, 1, 9),
        (
            Phase::Gathering { start: 9, end: 11, packet_len: 10 },
            Action::Gather { start: 9, end: 11 }
        )
    ));
    assert!(matches!(collect_packet(0, 1, 9), (Phase::Closed, Action::Finish)));
}

#[test]
fn a_packet_is_forwarded_and_logged() {
    let mut driver = Driver::new();
    driver.proxy.filter.update("handshake".to_owned(), false);
    driver.receive(15, 1);
    let debug = "Handshake { protocol_version: 756, next_state: 2 }";
    let event = Event::Parsed { cursor: 1, result: parsed(handshake(756, 2), debug) };
    assert_eq!(driver.step(event), Action::Resume { cursor: 16 });
    assert_eq!(driver.state, ConnectionState::Login);
    assert_eq!(
        driver.logs,
        vec![
            (Level::Info, "Connection state updated from Handshake to Login".to_owned()),
            (Level::Info, format!("Received packet from 1.2.3.4:5\n{}", debug)),
        ]
    );
    assert_eq!(driver.forwarded, vec![(0, 16)]);
}

#[test]
fn a_packet_outside_the_filter_is_not_logged() {
    let mut driver = Driver::new();
    driver.receive(15, 1);
    let event = Event::Parsed { cursor: 1, result: parsed(other(), "Chat { text: \"hi\" }") };
    assert_eq!(driver.step(event), Action::Resume { cursor: 16 });
    assert!(driver.logs.is_empty());
    assert_eq!(driver.step(Event::Ready { remaining: 3 }), Action::ShiftAndMeasure);
}

#[test]
fn a_long_packet_is_gathered_and_forwarded() {
    let mut driver = Driver::new();
    driver.step(Event::Ready { remaining: 0 });
    driver.step(Event::Received { count: 4096 });
    driver.step(Event::Forwarded);
    driver.step(Event::Peeked { first: Some(0x80) });
    let measured = Event::Measured { value: 5000, cursor: 2, buffered: 4096 };
    assert_eq!(driver.step(measured), Action::Gather { start: 4096, end: 5002 });
    assert_eq!(driver.step(Event::Gathered), Action::Forward { start: 4096, end: 5002 });
    assert_eq!(driver.step(Event::Forwarded), Action::Parse { packet_len: 5000 });
    assert_eq!(driver.forwarded, vec![(0, 4096), (4096, 5002)]);
    let event = Event::Parsed { cursor: 2, result: parsed(other(), "Chunk") };
    assert_eq!(driver.step(event), Action::Resume { cursor: 5002 });
}

#[test]
fn the_legacy_ping_has_no_length() {
    let mut driver = Driver::new();
    driver.step(Event::Ready { remaining: 0 });
    driver.step(Event::Received { count: 3 });
    driver.step(Event::Forwarded);
    assert_eq!(
        driver.step(Event::Peeked { first: Some(0xFE) }),
        Action::Parse { packet_len: 3 }
    );
    let mut later = Driver::new();
    later.state = ConnectionState::Play;
    later.step(Event::Ready { remaining: 0 });
    later.step(Event::Received { count: 3 });
    later.step(Event::Forwarded);
    assert_eq!(later.step(Event::Peeked { first: Some(0xFE) }), Action::Measure);
    let mut none = Driver::new();
    none.step(Event::Ready { remaining: 0 });
    none.step(Event::Received { count: 3 });
    none.step(Event::Forwarded);
    assert_eq!(none.step(Event::Peeked { first: None }), Action::Measure);
}

#[test]
fn a_packet_that_cannot_be_parsed_is_warned_about() {
    let mut driver = Driver::new();
    driver.receive(3, 1);
    let event = Event::Parsed { cursor: 1, result: Err("unknown packet".to_owned()) };
    assert_eq!(driver.step(event), Action::Identify { cursor: 1 });
    assert_eq!(
        driver.step(Event::Identified { id: Ok(0x2A) }),
        Action::Excerpt { start: 1, end: 4 }
    );
    let excerpt = Event::Excerpt { bytes: vec![0x2A, 0x01, 0x02] };
    assert_eq!(driver.step(excerpt), Action::Resume { cursor: 4 });
    assert_eq!(
        driver.logs,
        vec![(
            Level::Warn,
            "Failed to parse packet from 1.2.3.4:5: unknown packet, raw buffer:\n[2A, 01, 02]"
                .to_owned()
        )]
    );
    assert!(matches!(driver.phase(), Phase::Idle));
}

#[test]
fn long_packets_are_cut_in_warnings() {
    let mut driver = Driver::new();
    driver.proxy.max_buffer_display_length = 10;
    driver.receive(12, 1);
    driver.step(Event::Parsed { cursor: 1, result: Err("bad".to_owned()) });
    driver.step(Event::Identified { id: Ok(1) });
    driver.step(Event::Excerpt { bytes: (1..=12).collect() });
    assert_eq!(
        driver.logs,
        vec![(
            Level::Warn,
            "Failed to parse packet from 1.2.3.4:5: bad, raw buffer:\n[01, 02, 03 ... 0A, 0B, 0C]"
                .to_owned()
        )]
    );
}

#[test]
fn suppressed_warnings_are_silent() {
    let mut driver = Driver::new();
    driver.proxy.filter.update_warning_suppression(0x2A, true);
    driver.proxy.filter.update_warning_suppression(u32::MAX, true);
    for id in [0x2A, -1] {
        driver.receive(3, 1);
        driver.step(Event::Parsed { cursor: 1, result: Err("bad".to_owned()) });
        assert_eq!(
            driver.step(Event::Identified { id: Ok(id) }),
            Action::Resume { cursor: 4 }
        );
    }
    driver.proxy.filter.set_disabled(true);
    driver.receive(3, 1);
    driver.step(Event::Parsed { cursor: 1, result: Err("bad".to_owned()) });
    assert_eq!(
        driver.step(Event::Identified { id: Ok(7) }),
        Action::Resume { cursor: 4 }
    );
    assert!(driver.logs.is_empty());
}

#[test]
fn a_packet_without_an_id_is_warned_about() {
    let mut driver = Driver::new();
    driver.receive(3, 1);
    driver.step(Event::Parsed { cursor: 1, result: Err("bad".to_owned()) });
    assert_eq!(
        driver.step(Event::Identified { id: Err("varint too long".to_owned()) }),
        Action::Excerpt { start: 1, end: 4 }
    );
    driver.step(Event::Excerpt { bytes: vec![0xFF, 0xFF, 0xFF] });
    assert_eq!(driver.logs.len(), 2);
    assert_eq!(
        driver.logs[0],
        (Level::Warn, "Failed to detect packet ID: varint too long".to_owned())
    );
}

#[test]
fn after_a_disconnection_there_are_no_warnings() {
    let mut driver = Driver::new();
    driver.receive(3, 1);
    driver.step(Event::Parsed { cursor: 1, result: Err("bad".to_owned()) });
    driver.state = ConnectionState::Disconnected;
    assert_eq!(
        driver.step(Event::Identified { id: Ok(7) }),
        Action::Resume { cursor: 4 }
    );
    assert!(driver.logs.is_empty());
}

#[test]
fn paused_logging_is_silent() {
    let mut driver = Driver::new();
    driver.proxy.log_packets = false;
    driver.proxy.filter.set_disabled(true);
    driver.receive(3, 1);
    let event = Event::Parsed { cursor: 1, result: parsed(handshake(756, 1), "Handshake") };
    assert_eq!(driver.step(event), Action::Resume { cursor: 4 });
    assert_eq!(driver.state, ConnectionState::Status);
    driver.receive(3, 1);
    let event = Event::Parsed { cursor: 1, result: Err("bad".to_owned()) };
    assert_eq!(driver.step(event), Action::Resume { cursor: 4 });
    assert!(driver.logs.is_empty());
    driver.step(Event::Ready { remaining: 0 });
    let failed = Event::Failed { error: "connection reset".to_owned() };
    assert_eq!(driver.step(failed), Action::Shutdown);
    assert_eq!(
        driver.logs,
        vec![(
            Level::Error,
            "Error in connection handler: connection reset".to_owned()
        )]
    );
    assert!(matches!(driver.phase(), Phase::Closed));
}

#[test]
fn warnings_can_be_off() {
    let mut driver = Driver::new();
    driver.proxy.log_warnings = false;
    driver.proxy.filter.update("chat".to_owned(), false);
    driver.receive(3, 1);
    let event = Event::Parsed { cursor: 1, result: Err("bad".to_owned()) };
    assert_eq!(driver.step(event), Action::Resume { cursor: 4 });
    assert!(driver.logs.is_empty());
    driver.receive(3, 1);
    driver.step(Event::Parsed { cursor: 1, result: parsed(other(), "Chat { }") });
    assert_eq!(driver.logs.len(), 1);
}

#[test]
fn the_end_of_the_stream_disconnects() {
    let mut driver = Driver::new();
    driver.state = ConnectionState::Play;
    driver.step(Event::Ready { remaining: 0 });
    assert_eq!(
        driver.step(Event::Received { count: 0 }),
        Action::Forward { start: 0, end: 0 }
    );
    assert_eq!(driver.step(Event::Forwarded), Action::ClearAndFinish);
    assert_eq!(driver.state, ConnectionState::Disconnected);
    assert!(matches!(driver.phase(), Phase::Closed));
    assert_eq!(
        driver.logs,
        vec![(
            Level::Info,
            "Connection state updated from Play to Disconnected".to_owned()
        )]
    );
}

#[test]
fn another_protocol_version_disconnects_both_directions() {
    let mut driver = Driver::new();
    driver.receive(3, 1);
    let event = Event::Parsed { cursor: 1, result: parsed(handshake(47, 2), "Handshake") };
    assert_eq!(driver.step(event), Action::Resume { cursor: 4 });
    assert_eq!(driver.state, ConnectionState::Disconnected);
    assert_eq!(driver.step(Event::Ready { remaining: 8 }), Action::Finish);
    let server = Connection::new("server");
    let mut state = driver.state;
    let step = server.step(
        Event::Ready { remaining: 0 },
        &driver.proxy,
        &mut state,
        &PROTOCOL,
    );
    assert_eq!(step.action, Action::Finish);
}

#[test]
fn failures_end_the_connection_wherever_they_come() {
    let failed = || Event::Failed { error: "x".to_owned() };
    let mut receiving = Driver::new();
    receiving.step(Event::Ready { remaining: 0 });
    assert_eq!(receiving.step(failed()), Action::Shutdown);
    let mut forwarding = Driver::new();
    forwarding.step(Event::Ready { remaining: 0 });
    forwarding.step(Event::Received { count: 3 });
    assert_eq!(forwarding.step(failed()), Action::Shutdown);
    let mut measuring = Driver::new();
    measuring.step(Event::Ready { remaining: 3 });
    assert_eq!(measuring.step(failed()), Action::Shutdown);
    let mut gathering = Driver::new();
    gathering.step(Event::Ready { remaining: 3 });
    gathering.step(Event::Measured { value: 9, cursor: 1, buffered: 3 });
    assert_eq!(gathering.step(failed()), Action::Shutdown);
    let mut rest = Driver::new();
    rest.step(Event::Ready { remaining: 3 });
    rest.step(Event::Measured { value: 9, cursor: 1, buffered: 3 });
    rest.step(Event::Gathered);
    assert_eq!(rest.step(failed()), Action::Shutdown);
}

#[test]
fn a_packet_handled_by_itself() {
    let connection = Connection::new("server");
    let mut proxy = Proxy::new();
    proxy.filter.set_disabled(true);
    let mut state = ConnectionState::Login;
    let mut logs = Vec::new();
    let result = parsed(Packet::ClientBound(ClientBoundPacket::LoginSuccess), "LoginSuccess { }");
    let (phase, action) =
        connection.handle_packet(2, 9, result, &proxy, &mut state, &PROTOCOL, &mut logs);
    assert!(matches!(phase, Phase::Idle));
    assert_eq!(action, Action::Resume { cursor: 9 });
    assert_eq!(state, ConnectionState::Play);
    assert_eq!(
        lines(&logs),
        vec![
            (Level::Info, "Connection state updated from Login to Play"),
            (Level::Info, "Received packet from server\nLoginSuccess { }"),
        ]
    );
}

/// Runs a connection on a stream of packets, each with its length in one byte before it, which
/// arrives `chunk` bytes at a time. Gives back what was sent on.
fn pass_through(stream: &[u8], chunk: usize) -> Vec<u8> {
    let proxy = Proxy::new();
    let mut state = ConnectionState::Play;
    let mut connection = Connection::new("server");
    let mut sent = Vec::new();
    let mut buffer: Vec<u8> = Vec::new();
    let mut cursor: usize = 0;
    let mut position: usize = 0;
    let mut event = Event::Ready { remaining: 0 };
    loop {
        let step = connection.step(event, &proxy, &mut state, &PROTOCOL);
        connection = step.connection;
        event = match step.action {
            Action::Receive => {
                let count = chunk.min(stream.len() - position);
                buffer = stream[position..position + count].to_vec();
                cursor = 0;
                position += count;
                Event::Received { count }
            }
            Action::Forward { start, end } => {
                sent.extend_from_slice(&buffer[start..end]);
                Event::Forwarded
            }
            Action::ResizeAndPeek { length } => {
                buffer.truncate(length);
                Event::Peeked { first: buffer.first().copied() }
            }
            Action::ShiftAndMeasure | Action::Measure => {
                buffer.drain(..cursor);
                cursor = 1;
                Event::Measured { value: buffer[0] as i32, cursor, buffered: buffer.len() }
            }
            Action::Gather { start, end } => {
                assert_eq!(start, buffer.len());
                buffer.extend_from_slice(&stream[position..position + end - start]);
                position += end - start;
                Event::Gathered
            }
            Action::Parse { .. } => Event::Parsed { cursor, result: parsed(other(), "Other") },
            Action::Resume { cursor: next } => {
                cursor = next;
                Event::Ready { remaining: buffer.len() - cursor }
            }
            Action::ClearAndFinish => return sent,
            action => panic!("{:?}", action),
        };
    }
}

#[test]
fn bytes_pass_unchanged() {
    let mut stream = Vec::new();
    for len in [1u8, 5, 200, 3, 120] {
        stream.push(len);
        stream.extend((0..len).map(|byte| byte.wrapping_mul(7)));
    }
    assert_eq!(pass_through(&stream, 4096), stream);
    assert_eq!(pass_through(&stream, stream.len()), stream);
    // The first two packets, and half of the third one.
    assert_eq!(pass_through(&stream, 100), stream);
    assert!(pass_through(&[], 16).is_empty());
}

#[test]
fn every_event_that_an_action_comes_to_is_accepted() {
    // From each phase, the action's events lead on; what is asked for at last is to be done.
    let mut driver = Driver::new();
    driver.receive(3, 1);
    assert_eq!(
        driver.step(Event::Parsed { cursor: 1, result: Err("bad".to_owned()) }),
        Action::Identify { cursor: 1 }
    );
    assert_eq!(
        driver.step(Event::Identified { id: Err("bad".to_owned()) }),
        Action::Excerpt { start: 1, end: 4 }
    );
    assert_eq!(
        driver.step(Event::Excerpt { bytes: vec![1, 2, 3] }),
        Action::Resume { cursor: 4 }
    );
    assert_eq!(driver.step(Event::Ready { remaining: 2 }), Action::ShiftAndMeasure);
    assert_eq!(
        driver.step(Event::Measured { value: 0, cursor: 1, buffered: 2 }),
        Action::Finish
    );
    assert!(matches!(driver.phase(), Phase::Closed));
}
