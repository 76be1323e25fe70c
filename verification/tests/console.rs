use quartz_proxy::command::metrics_reply;
use quartz_proxy::command::parse_bytes;
use quartz_proxy::command::string_reply;
use quartz_proxy::command::varint_reply;
use quartz_proxy::console::answer as answer_with;
use quartz_proxy::console::run_line;
use quartz_proxy::console::Commands;
use quartz_proxy::console::ConsoleCompleter;
use quartz_proxy::console::LineOutcome;
use quartz_proxy::console::Reply;
use quartz_proxy::grammar::parse_command;
use quartz_proxy::grammar::Command;
use quartz_proxy::help::show_filter_help;
use quartz_proxy::help::show_help;
use quartz_proxy::help::show_warnings_help;
use quartz_proxy::message::Color;
use quartz_proxy::message::Message;
use quartz_proxy::proxy::Proxy;
use quartz_proxy::util::debug_buffer;

fn spans(message: &Message) -> Vec<(Color, &str)> {
    message
        .spans
        .iter()
        .map(|span| (span.color, span.text.as_str()))
        .collect()
}

fn plain(message: &Message) -> String {
    message.spans.iter().map(|span| span.text.as_str()).collect()
}

/// The message that a line is answered with.
fn shown(proxy: &mut Proxy, line: &str) -> Message {
    match Commands.dispatch(line, proxy) {
        Ok(Reply::Show(message)) => message,
        Ok(_) => panic!("{:?} shows nothing", line),
        Err(error) => panic!("{:?}: {}", line, error),
    }
}

/// The single colour and the text that a line is answered with.
fn answer(proxy: &mut Proxy, line: &str) -> (Color, String) {
    let message = shown(proxy, line);
    assert_eq!(message.spans.len(), 1);
    (message.spans[0].color, message.spans[0].text.clone())
}

fn error(line: &str) -> String {
    match Commands.dispatch(line, &mut Proxy::new()) {
        Err(error) => error,
        Ok(_) => panic!("{:?} is no error", line),
    }
}

#[test]
fn the_settings_to_start_with() {
    let proxy = Proxy::new();
    assert!(proxy.log_packets);
    assert!(proxy.log_warnings);
    assert_eq!(proxy.max_buffer_display_length, 64);
    assert_eq!(proxy.filter.listing(), "[whitelist] <empty>");
}

#[test]
fn pause_and_resume() {
    let mut proxy = Proxy::new();
    let already = shown(&mut proxy, "resume");
    assert_eq!(
        spans(&already),
        vec![
            (Color::Yellow, "The proxy is currently logging packets. Use command "),
            (Color::Aqua, "pause"),
            (Color::Yellow, " to pause logging."),
        ]
    );
    assert_eq!(answer(&mut proxy, "pause"), (Color::Green, "Logging paused".to_owned()));
    assert!(!proxy.log_packets);
    let already = shown(&mut proxy, "pause");
    assert_eq!(
        spans(&already),
        vec![
            (Color::Yellow, "Logging is already paused. Use command "),
            (Color::Aqua, "resume"),
            (Color::Yellow, " to resume logging."),
        ]
    );
    assert_eq!(answer(&mut proxy, "resume"), (Color::Green, "Logging resumed".to_owned()));
    assert!(proxy.log_packets);
}

#[test]
fn filter_lines() {
    let mut proxy = Proxy::new();
    let updated = (Color::Green, "Filter successfully updated".to_owned());
    let handled = (
        Color::Yellow,
        "This packet is already handled by the filter.".to_owned(),
    );
    assert_eq!(answer(&mut proxy, "filter allow KeepAlive"), updated);
    assert_eq!(answer(&mut proxy, "filter allow keepALIVE"), handled);
    assert!(proxy.filter.test("KeepAlive { id: 1 }"));
    assert_eq!(answer(&mut proxy, "filter allow \"Chat\""), updated);
    assert_eq!(
        answer(&mut proxy, "filter display"),
        (Color::White, "[whitelist] chat, keepalive".to_owned())
    );
    assert_eq!(answer(&mut proxy, "filter deny Chat"), updated);
    assert_eq!(answer(&mut proxy, "filter deny Chat"), handled);
    assert!(!proxy.filter.test("Chat {}"));
    assert_eq!(
        answer(&mut proxy, "filter reset"),
        (Color::Green, "Filter reset.".to_owned())
    );
    assert_eq!(
        answer(&mut proxy, "filter display"),
        (Color::White, "[whitelist] <empty>".to_owned())
    );
    assert_eq!(
        answer(&mut proxy, "filter reset-as blacklist"),
        (Color::Green, "Reset filter and set mode to blacklist".to_owned())
    );
    assert!(proxy.filter.test("Chat {}"));
    assert_eq!(answer(&mut proxy, "filter deny Chat"), updated);
    assert_eq!(
        answer(&mut proxy, "filter display"),
        (Color::White, "[blacklist] chat".to_owned())
    );
    assert_eq!(
        answer(&mut proxy, "filter reset-as whitelist"),
        (Color::Green, "Reset filter and set mode to whitelist".to_owned())
    );
    assert!(proxy.filter.is_whitelist);
}

#[test]
fn filter_switching_lines() {
    let mut proxy = Proxy::new();
    assert_eq!(
        answer(&mut proxy, "filter enable"),
        (Color::Yellow, "The filter is already enabled".to_owned())
    );
    assert_eq!(
        answer(&mut proxy, "filter disable"),
        (Color::Green, "Packet filter disabled".to_owned())
    );
    assert!(proxy.filter.disabled);
    assert_eq!(
        answer(&mut proxy, "filter disable"),
        (Color::Yellow, "The filter is already disabled".to_owned())
    );
    assert_eq!(
        answer(&mut proxy, "filter enable"),
        (Color::Green, "Packet filter enabled".to_owned())
    );
    assert!(!proxy.filter.disabled);
}

#[test]
fn warnings_lines() {
    let mut proxy = Proxy::new();
    let handled = (
        Color::Yellow,
        "This packet ID is already handled by the warning filter.".to_owned(),
    );
    assert_eq!(
        answer(&mut proxy, "warnings suppress 2A"),
        (Color::Green, "Warnings for packet ID 2A suppressed".to_owned())
    );
    assert!(proxy.filter.should_suppress_warning(0x2A));
    assert_eq!(answer(&mut proxy, "warning suppress 2a"), handled);
    assert_eq!(
        answer(&mut proxy, "warnings allow 2A"),
        (Color::Green, "Warnings for packet ID 2A allowed".to_owned())
    );
    assert!(!proxy.filter.should_suppress_warning(0x2A));
    assert_eq!(answer(&mut proxy, "warnings allow 2A"), handled);
    assert_eq!(
        answer(&mut proxy, "warnings suppress 7"),
        (Color::Green, "Warnings for packet ID 07 suppressed".to_owned())
    );
    assert_eq!(
        answer(&mut proxy, "warnings suppress FFFFFFFF"),
        (Color::Green, "Warnings for packet ID FFFFFFFF suppressed".to_owned())
    );
    assert_eq!(
        error("warnings suppress xyz"),
        "Failed to parse ID: invalid digit found in string"
    );
    assert_eq!(
        error("warnings allow 100000000"),
        "Failed to parse ID: number too large to fit in target type"
    );
    assert_eq!(
        error("warnings allow ''"),
        "Failed to parse ID: cannot parse integer from empty string"
    );
}

#[test]
fn warnings_switching_lines() {
    let mut proxy = Proxy::new();
    assert_eq!(
        answer(&mut proxy, "warnings on"),
        (Color::Yellow, "Warnings are already on".to_owned())
    );
    assert_eq!(
        answer(&mut proxy, "warnings off"),
        (Color::Green, "Warnings turned off".to_owned())
    );
    assert!(!proxy.log_warnings);
    assert_eq!(
        answer(&mut proxy, "warnings off"),
        (Color::Yellow, "Warnings are already off".to_owned())
    );
    assert_eq!(
        answer(&mut proxy, "warnings on"),
        (Color::Green, "Warnings turned on".to_owned())
    );
    assert!(proxy.log_warnings);
}

#[test]
fn limit_lines() {
    let mut proxy = Proxy::new();
    assert_eq!(
        answer(&mut proxy, "mbdl 128"),
        (Color::Green, "Buffer display length limit set to 128 bytes".to_owned())
    );
    assert_eq!(proxy.max_buffer_display_length, 128);
    assert_eq!(
        answer(&mut proxy, "mbdl none"),
        (Color::Green, "Removed buffer display length limit.".to_owned())
    );
    assert_eq!(proxy.max_buffer_display_length, usize::MAX);
    let bytes = vec![0u8; 1000];
    assert_eq!(
        debug_buffer(&bytes, proxy.max_buffer_display_length),
        format!("{:02X?}", bytes)
    );
    assert_eq!(error("mbdl many"), "Unexpected argument \"many\"");
    assert_eq!(
        error("mbdl 99999999999999999999999999"),
        "number too large to fit in target type"
    );
    assert_eq!(error("mbdl"), "Expected one of len, \"none\"");
    assert_eq!(error("mbdl 12 13"), "Unexpected argument \"13\"");
}

#[test]
fn decoding_a_varint() {
    let mut proxy = Proxy::new();
    let bytes = match Commands.dispatch("varint 85 07 00", &mut proxy) {
        Ok(Reply::DecodeVarint(bytes)) => bytes,
        _ => panic!("not a varint"),
    };
    assert_eq!(bytes, vec![0x85, 0x07, 0x00]);
    let message = varint_reply(&bytes, Ok((901, 2))).unwrap();
    assert_eq!(spans(&message), vec![(Color::White, "varint([85, 07]) = 901")]);
    let message = varint_reply(&bytes, Ok((-1, 0))).unwrap();
    assert_eq!(plain(&message), "varint([]) = -1");
    assert_eq!(
        varint_reply(&bytes, Err("end of input".to_owned())).unwrap_err(),
        "end of input"
    );
}

#[test]
fn decoding_a_string() {
    let mut proxy = Proxy::new();
    let bytes = match Commands.dispatch("string 05 68 65 6C 6C 6F FF FF", &mut proxy) {
        Ok(Reply::DecodeText(bytes)) => bytes,
        _ => panic!("not a string"),
    };
    assert_eq!(bytes, vec![0x05, 0x68, 0x65, 0x6C, 0x6C, 0x6F, 0xFF, 0xFF]);
    let message = string_reply(&bytes, Ok(("hello".to_owned(), 6))).unwrap();
    assert_eq!(
        spans(&message),
        vec![(
            Color::White,
            "string([05, 68, 65, 6C, 6C, 6F]) = \"hello\" (length 5)"
        )]
    );
    let message = string_reply(&bytes, Ok(("h\u{e9}".to_owned(), 2))).unwrap();
    assert_eq!(plain(&message), "string([05, 68]) = \"h\u{e9}\" (length 3)");
    let long = vec![7u8; 13];
    let message = string_reply(&long, Ok(("".to_owned(), 13))).unwrap();
    assert_eq!(
        plain(&message),
        "string([07, 07, 07, 07 ... 07, 07, 07, 07]) = \"\" (length 0)"
    );
    assert_eq!(
        string_reply(&bytes, Err("bad text".to_owned())).unwrap_err(),
        "bad text"
    );
}

#[test]
fn byte_lists() {
    assert_eq!(parse_bytes("85 07 00"), Ok(vec![0x85, 0x07, 0x00]));
    assert_eq!(parse_bytes("85, 07, 00,"), Ok(vec![0x85, 0x07, 0x00]));
    assert_eq!(parse_bytes("85, 07 00"), Ok(vec![0x85, 0x07, 0x00]));
    assert_eq!(parse_bytes("+f"), Ok(vec![0x0f]));
    let invalid = Err("Failed to parse bytes: invalid digit found in string".to_owned());
    let empty = Err("Failed to parse bytes: cannot parse integer from empty string".to_owned());
    let large = Err("Failed to parse bytes: number too large to fit in target type".to_owned());
    assert_eq!(parse_bytes("85,,"), invalid);
    assert_eq!(parse_bytes("zz"), invalid);
    assert_eq!(parse_bytes(""), empty);
    assert_eq!(parse_bytes(","), empty);
    assert_eq!(parse_bytes("85  07"), empty);
    assert_eq!(parse_bytes("85 100 zz"), large);
}

#[test]
fn shown_bytes_can_be_given_back() {
    let bytes: Vec<u8> = (0..=255).collect();
    let text = debug_buffer(&bytes, usize::MAX);
    let list = text.trim_matches(|ch| ch == '[' || ch == ']');
    assert_eq!(parse_bytes(list), Ok(bytes.clone()));
    match Commands.dispatch(&format!("varint {}", list), &mut Proxy::new()) {
        Ok(Reply::DecodeVarint(read)) => assert_eq!(read, bytes),
        _ => panic!("not a varint"),
    }
    match Commands.dispatch(&format!("string {}", list), &mut Proxy::new()) {
        Ok(Reply::DecodeText(read)) => assert_eq!(read, bytes),
        _ => panic!("not a string"),
    }
}

#[test]
fn metrics() {
    assert!(matches!(
        Commands.dispatch("metrics", &mut Proxy::new()),
        Ok(Reply::ShowMetrics)
    ));
    assert_eq!(
        spans(&metrics_reply("12.345")),
        vec![(Color::White, "Processing packets at approximately 12.345 Mb/s")]
    );
}

#[test]
fn help_texts() {
    let help = plain(&show_help());
    assert!(help.starts_with("stop: Stops the proxy and exits the program. It may take a few"));
    assert!(help.contains(
        "Pauses all logging of packets and warnings. Errors and general info messages will still \
         be logged.\n"
    ));
    assert!(help.contains("filter <action> [params...]: Updates the packet filter"));
    assert!(help.contains("varint 85 07 00 yields the output varint([85, 07]) = 901."));
    assert!(help.contains("= \"hello\" (length 5). Trailing commas on the bytes will be ignored.\n"));
    assert!(help.ends_with("Entering mbdl none will remove the display length limit."));
    assert_eq!(show_help().spans[0].color, Color::Gold);
    let filter = plain(&show_filter_help());
    assert!(filter.starts_with("filter <allow|deny> <packet-name>: Allows or denies logging"));
    assert!(filter.ends_with("Displays the contents and mode of the packet filter."));
    let warnings = plain(&show_warnings_help());
    assert!(warnings.starts_with("warnings <allow|suppress> <packet-id>: Allows or denies"));
    assert!(warnings.contains("such as \"2A\" for example.\n"));
    assert!(warnings.ends_with("packet processing in megabits per second."));
}

#[test]
fn help_lines() {
    let mut proxy = Proxy::new();
    assert_eq!(plain(&shown(&mut proxy, "help")), plain(&show_help()));
    for word in ["help", "-help", "--help", "-h", "--h"] {
        let filter = shown(&mut proxy, &format!("filter {}", word));
        assert_eq!(plain(&filter), plain(&show_filter_help()));
        let warnings = shown(&mut proxy, &format!("warnings {}", word));
        assert_eq!(plain(&warnings), plain(&show_warnings_help()));
    }
}

#[test]
fn errors_in_lines() {
    assert_eq!(error("stop"), "Invalid command \"stop\"");
    assert_eq!(error("Pause"), "Invalid command \"Pause\"");
    assert_eq!(error("pause now"), "Unexpected argument \"now\"");
    assert_eq!(error("filter allow"), "Expected value for argument \"allow_packet\"");
    assert_eq!(error("filter deny"), "Expected value for argument \"deny_packet\"");
    assert_eq!(error("filter reset-as greylist"), "Unexpected argument \"greylist\"");
    assert_eq!(
        error("filter reset-as"),
        "Expected one of \"whitelist\", \"blacklist\""
    );
    assert_eq!(error("filter unknown"), "Unexpected argument \"unknown\"");
    assert_eq!(
        error("filter"),
        "Expected one of \"allow\", \"deny\", \"reset-as\", \"enable\", \"disable\", \"reset\", \
         \"display\", help"
    );
    assert_eq!(error("filter allow Chat Login"), "Unexpected argument \"Login\"");
    assert_eq!(
        error("warnings"),
        "Expected one of \"allow\", \"suppress\", \"on\", \"off\", help"
    );
    assert_eq!(error("warnings allow"), "Expected value for argument \"allow_id\"");
    assert_eq!(error("warnings suppress"), "Expected value for argument \"suppress_id\"");
    assert_eq!(error("varint"), "Expected value for argument \"bytes\"");
    assert_eq!(error("string"), "Expected value for argument \"bytes\"");
    assert_eq!(
        error("varint zz"),
        "Failed to parse bytes: invalid digit found in string"
    );
}

#[test]
fn errors_change_no_setting() {
    let mut proxy = Proxy::new();
    for line in ["filter allow", "warnings suppress zz", "mbdl -1", "pause now", "unknown"] {
        assert!(Commands.dispatch(line, &mut proxy).is_err());
        assert!(proxy.log_packets && proxy.log_warnings);
        assert_eq!(proxy.max_buffer_display_length, 64);
        assert_eq!(proxy.filter.listing(), "[whitelist] <empty>");
        assert!(proxy.filter.suppress_warnings.is_empty());
    }
}

#[test]
fn commands_are_parsed() {
    assert!(parse_command("").is_none());
    assert!(parse_command("   ").is_none());
    assert!(matches!(parse_command("  help"), Some(Ok(Command::Help))));
    match parse_command("filter allow 'Keep Alive'") {
        Some(Ok(Command::AllowPacket(name))) => assert_eq!(name, "Keep Alive"),
        other => panic!("{:?}", other),
    }
    match parse_command("varint  85  07 ") {
        Some(Ok(Command::Varint(bytes))) => assert_eq!(bytes, "85  07 "),
        other => panic!("{:?}", other),
    }
    assert!(matches!(parse_command("mbdl 007"), Some(Ok(Command::LimitBuffer(7)))));
    assert!(matches!(parse_command("warning off"), Some(Ok(Command::WarningsOff))));
}

#[test]
fn lines_at_the_console() {
    let mut proxy = Proxy::new();
    assert!(matches!(run_line(&mut proxy, "stop"), LineOutcome::Stop));
    for blank in ["", "   ", "\t\u{2003}"] {
        assert!(matches!(
            run_line(&mut proxy, blank),
            LineOutcome::Continue(Reply::Nothing)
        ));
    }
    match run_line(&mut proxy, " stop ") {
        LineOutcome::Continue(Reply::Show(message)) => {
            assert_eq!(spans(&message), vec![(Color::Red, "Invalid command \"stop\"")])
        }
        _ => panic!("stopped"),
    }
    match run_line(&mut proxy, "\u{3000} pause\t") {
        LineOutcome::Continue(Reply::Show(message)) => {
            assert_eq!(spans(&message), vec![(Color::Green, "Logging paused")])
        }
        _ => panic!("not paused"),
    }
    assert!(!proxy.log_packets);
}

#[test]
fn a_command_repeated_sets_nothing_more() {
    for line in [
        "pause",
        "resume",
        "filter allow Chat",
        "filter disable",
        "filter reset-as blacklist",
        "warnings suppress 2A",
        "warnings off",
        "mbdl 10",
    ] {
        let mut once = Proxy::new();
        assert!(Commands.dispatch(line, &mut once).is_ok());
        let mut twice = Proxy::new();
        assert!(Commands.dispatch(line, &mut twice).is_ok());
        assert!(Commands.dispatch(line, &mut twice).is_ok());
        assert_eq!(once.log_packets, twice.log_packets);
        assert_eq!(once.log_warnings, twice.log_warnings);
        assert_eq!(once.max_buffer_display_length, twice.max_buffer_display_length);
        assert_eq!(once.filter.listing(), twice.filter.listing());
        assert_eq!(once.filter.suppress_warnings, twice.filter.suppress_warnings);
        assert_eq!(once.filter.disabled, twice.filter.disabled);
    }
}

#[test]
fn suggestions_for_commands() {
    let all = vec![
        "help", "pause", "resume", "filter", "varint", "string", "warning", "mbdl", "metrics",
    ];
    assert_eq!(Commands.get_suggestions(""), all);
    assert_eq!(Commands.get_suggestions("m"), vec!["mbdl", "metrics"]);
    assert_eq!(Commands.get_suggestions("res"), vec!["resume"]);
    assert!(Commands.get_suggestions("x").is_empty());
    assert!(Commands.get_suggestions("help").is_empty());
    assert!(Commands.get_suggestions("varint 8").is_empty());
}

#[test]
fn suggestions_for_words() {
    assert_eq!(
        Commands.get_suggestions("filter "),
        vec!["allow", "deny", "reset-as", "enable", "disable", "reset", "display", "-help"]
    );
    assert_eq!(Commands.get_suggestions("filter d"), vec!["deny", "disable", "display"]);
    assert_eq!(Commands.get_suggestions("filter res"), vec!["reset-as", "reset"]);
    assert_eq!(
        Commands.get_suggestions("warnings "),
        vec!["allow", "suppress", "on", "off", "-help"]
    );
    assert_eq!(Commands.get_suggestions("warning o"), vec!["on", "off"]);
    assert_eq!(Commands.get_suggestions("mbdl n"), vec!["none"]);
    assert!(Commands.get_suggestions("filter").is_empty());
}

#[test]
fn completions_before_the_cursor() {
    let at_end: Vec<(String, Option<char>)> = ConsoleCompleter
        .complete("filter d", 8)
        .into_iter()
        .map(|completion| (completion.completion, completion.suffix))
        .collect();
    assert_eq!(
        at_end,
        vec![
            ("deny".to_owned(), Some(' ')),
            ("disable".to_owned(), Some(' ')),
            ("display".to_owned(), Some(' ')),
        ]
    );
    let within: Vec<(String, Option<char>)> = ConsoleCompleter
        .complete("res\u{e9}", 3)
        .into_iter()
        .map(|completion| (completion.completion, completion.suffix))
        .collect();
    assert_eq!(within, vec![("resume".to_owned(), None)]);
    assert_eq!(ConsoleCompleter.complete("", 0).len(), 9);
}

#[test]
fn errors_are_shown_in_red() {
    let message = answer_with(Err("no such thing".to_owned()));
    assert_eq!(spans(&message), vec![(Color::Red, "no such thing")]);
    let message = answer_with(Ok(Message::colored("fine", Color::Green)));
    assert_eq!(spans(&message), vec![(Color::Green, "fine")]);
}

#[test]
fn suggestions_for_the_last_argument_only() {
    assert_eq!(Commands.get_suggestions("filter reset-as w"), vec!["whitelist"]);
    assert_eq!(Commands.get_suggestions("filter reset-as b"), vec!["blacklist"]);
    assert_eq!(Commands.get_suggestions("filter reset-as "), vec!["whitelist", "blacklist"]);
    assert_eq!(Commands.get_suggestions("filter reset-as"), vec!["reset-as"]);
    for line in [
        "filter reset-as x",
        "filter reset-as whitelist ",
        "filter reset-as w b",
        "filter res w",
        "filter d x",
        "filter allow Ch",
        "filter enable ",
        "warnings allow 2",
        "warnings on o",
        "mbdl none n",
        "mbdl 1",
    ] {
        assert!(Commands.get_suggestions(line).is_empty(), "{:?}", line);
    }
}

#[test]
fn packet_ids_in_any_hexadecimal_form() {
    for (text, id) in [("2A", 0x2A), ("2a", 0x2A), ("7", 7), ("007", 7), ("+fF", 0xFF)] {
        let mut proxy = Proxy::new();
        assert!(Commands.dispatch(&format!("warnings suppress {}", text), &mut proxy).is_ok());
        assert!(proxy.filter.should_suppress_warning(id));
        assert!(!proxy.filter.should_suppress_warning(id + 1));
        assert!(Commands.dispatch(&format!("warnings allow {}", text), &mut proxy).is_ok());
        assert!(!proxy.filter.should_suppress_warning(id));
    }
}

#[test]
fn limits_in_any_decimal_form() {
    for (text, length) in [
        ("0", 0),
        ("64", 64),
        ("000128", 128),
        (usize::MAX.to_string().as_str(), usize::MAX),
    ] {
        let mut proxy = Proxy::new();
        assert!(Commands.dispatch(&format!("mbdl {}", text), &mut proxy).is_ok());
        assert_eq!(proxy.max_buffer_display_length, length);
    }
    assert_eq!(error("mbdl +5"), "Unexpected argument \"+5\"");
}

#[test]
fn bytes_in_any_form() {
    for line in [
        "85 07 00",
        "85, 07, 00",
        "85, 07 00,",
        "85 7 0",
        "+85 007, 0,",
    ] {
        match Commands.dispatch(&format!("varint {}", line), &mut Proxy::new()) {
            Ok(Reply::DecodeVarint(bytes)) => assert_eq!(bytes, vec![0x85, 0x07, 0x00]),
            _ => panic!("{:?} is no varint", line),
        }
        match Commands.dispatch(&format!("string {}", line), &mut Proxy::new()) {
            Ok(Reply::DecodeText(bytes)) => assert_eq!(bytes, vec![0x85, 0x07, 0x00]),
            _ => panic!("{:?} is no string", line),
        }
    }
}
