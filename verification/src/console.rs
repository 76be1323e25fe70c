//! The console: running command lines and completing them.
use vstd::prelude::*;

use crate::arguments::Arguments;
use crate::command::display_filter;
use crate::command::limit_buffer_display;
use crate::command::parse_bytes;
use crate::command::pause;
use crate::command::remove_buffer_display_limit;
use crate::command::reset_filter;
use crate::command::reset_filter_as;
use crate::command::resume;
use crate::command::set_filter_enabled;
use crate::command::set_warnings_enabled;
use crate::command::update_filter;
use crate::command::update_warnings;
use crate::filter::FilterView;
use crate::grammar::parse_command;
use crate::grammar::Command;
use crate::grammar::CommandView;
use crate::help::show_filter_help;
use crate::help::show_help;
use crate::help::show_warnings_help;
use crate::message::Color;
use crate::message::Message;
use crate::proxy::Proxy;
use crate::proxy::ProxyView;
use crate::text::same_text;
use crate::text::slice_text;
use crate::text::starts_with;
use crate::text::to_chars;

verus! {

/// What is left to do for a command once the settings are changed.
pub enum Reply {
    /// Nothing.
    Nothing,
    /// Show a message.
    Show(Message),
    /// Read a variable-length number from the bytes and answer with it.
    DecodeVarint(Vec<u8>),
    /// Read a text from the bytes and answer with it.
    DecodeText(Vec<u8>),
    /// Answer with the rate at which packets are handled.
    ShowMetrics,
}

/// What a reply holds.
pub enum ReplyView {
    Nothing,
    Show(Seq<(Color, Seq<char>)>),
    DecodeVarint(Seq<u8>),
    DecodeText(Seq<u8>),
    ShowMetrics,
}

impl View for Reply {
    type V = ReplyView;

    open spec fn view(&self) -> ReplyView {
        match self {
            Reply::Nothing => ReplyView::Nothing,
            Reply::Show(message) => ReplyView::Show(message@),
            Reply::DecodeVarint(bytes) => ReplyView::DecodeVarint(bytes@),
            Reply::DecodeText(bytes) => ReplyView::DecodeText(bytes@),
            Reply::ShowMetrics => ReplyView::ShowMetrics,
        }
    }
}

/// What running a command gave, with the texts by their views.
pub open spec fn outcome(result: Result<Reply, String>) -> Result<ReplyView, Seq<char>> {
    match result {
        Ok(reply) => Ok(reply@),
        Err(error) => Err(error@),
    }
}

/// The settings with another filter.
pub open spec fn with_filter(proxy: ProxyView, filter: FilterView) -> ProxyView {
    ProxyView { filter, ..proxy }
}

/// The settings after a command.
pub open spec fn settings_after(proxy: ProxyView, command: CommandView) -> ProxyView {
    match command {
        CommandView::Pause => ProxyView { log_packets: false, ..proxy },
        CommandView::Resume => ProxyView { log_packets: true, ..proxy },
        CommandView::AllowPacket(name) => with_filter(
            proxy,
            proxy.filter.updated(crate::text::lowercase(name), false),
        ),
        CommandView::DenyPacket(name) => with_filter(
            proxy,
            proxy.filter.updated(crate::text::lowercase(name), true),
        ),
        CommandView::ResetAsWhitelist => with_filter(proxy, proxy.filter.as_list(true)),
        CommandView::ResetAsBlacklist => with_filter(proxy, proxy.filter.as_list(false)),
        CommandView::EnableFilter => with_filter(proxy, proxy.filter.switched(false)),
        CommandView::DisableFilter => with_filter(proxy, proxy.filter.switched(true)),
        CommandView::ResetFilter => with_filter(proxy, proxy.filter.cleared()),
        CommandView::AllowWarnings(id) => match crate::command::packet_id(id) {
            Ok(number) => with_filter(proxy, proxy.filter.with_suppression(number as u32, false)),
            Err(_) => proxy,
        },
        CommandView::SuppressWarnings(id) => match crate::command::packet_id(id) {
            Ok(number) => with_filter(proxy, proxy.filter.with_suppression(number as u32, true)),
            Err(_) => proxy,
        },
        CommandView::WarningsOn => ProxyView { log_warnings: true, ..proxy },
        CommandView::WarningsOff => ProxyView { log_warnings: false, ..proxy },
        CommandView::LimitBuffer(length) => ProxyView {
            max_buffer_display_length: length,
            ..proxy
        },
        CommandView::RemoveBufferLimit => ProxyView {
            max_buffer_display_length: usize::MAX,
            ..proxy
        },
        _ => proxy,
    }
}

/// The reply to a command for warnings about a packet ID.
pub open spec fn warnings_reply(
    action: Seq<char>,
    id: Seq<char>,
    changed: bool,
) -> Result<ReplyView, Seq<char>> {
    match crate::command::packet_id(id) {
        Ok(number) => Ok(
            ReplyView::Show(crate::command::update_warnings_answer(action, number, changed)),
        ),
        Err(error) => Err("Failed to parse ID: "@ + error.message()),
    }
}

/// The reply to a command.
pub open spec fn reply_to(proxy: ProxyView, command: CommandView) -> Result<ReplyView, Seq<char>> {
    let filter_changed = settings_after(proxy, command).filter != proxy.filter;
    match command {
        CommandView::Help => Ok(ReplyView::Show(crate::help::help())),
        CommandView::Pause => Ok(ReplyView::Show(crate::command::pause_answer(proxy.log_packets))),
        CommandView::Resume => Ok(
            ReplyView::Show(crate::command::resume_answer(proxy.log_packets)),
        ),
        CommandView::AllowPacket(_) => Ok(
            ReplyView::Show(crate::command::update_filter_answer(filter_changed)),
        ),
        CommandView::DenyPacket(_) => Ok(
            ReplyView::Show(crate::command::update_filter_answer(filter_changed)),
        ),
        CommandView::ResetAsWhitelist => Ok(
            ReplyView::Show(
                crate::command::plain(
                    Color::Green,
                    "Reset filter and set mode to "@ + "whitelist"@,
                ),
            ),
        ),
        CommandView::ResetAsBlacklist => Ok(
            ReplyView::Show(
                crate::command::plain(
                    Color::Green,
                    "Reset filter and set mode to "@ + "blacklist"@,
                ),
            ),
        ),
        CommandView::EnableFilter => Ok(
            ReplyView::Show(crate::command::set_filter_enabled_answer("enable"@, filter_changed)),
        ),
        CommandView::DisableFilter => Ok(
            ReplyView::Show(crate::command::set_filter_enabled_answer("disable"@, filter_changed)),
        ),
        CommandView::ResetFilter => Ok(
            ReplyView::Show(crate::command::plain(Color::Green, "Filter reset."@)),
        ),
        CommandView::DisplayFilter => Ok(
            ReplyView::Show(crate::command::plain(Color::White, proxy.filter.listing())),
        ),
        CommandView::FilterHelp => Ok(ReplyView::Show(crate::help::filter_help())),
        CommandView::Varint(bytes) => match crate::command::byte_list(bytes) {
            Ok(bytes) => Ok(ReplyView::DecodeVarint(bytes)),
            Err(error) => Err("Failed to parse bytes: "@ + error.message()),
        },
        CommandView::Text(bytes) => match crate::command::byte_list(bytes) {
            Ok(bytes) => Ok(ReplyView::DecodeText(bytes)),
            Err(error) => Err("Failed to parse bytes: "@ + error.message()),
        },
        CommandView::AllowWarnings(id) => warnings_reply("allow"@, id, filter_changed),
        CommandView::SuppressWarnings(id) => warnings_reply("suppress"@, id, filter_changed),
        CommandView::WarningsOn => Ok(
            ReplyView::Show(crate::command::set_warnings_enabled_answer(proxy.log_warnings, "on"@)),
        ),
        CommandView::WarningsOff => Ok(
            ReplyView::Show(
                crate::command::set_warnings_enabled_answer(proxy.log_warnings, "off"@),
            ),
        ),
        CommandView::WarningsHelp => Ok(ReplyView::Show(crate::help::warnings_help())),
        CommandView::LimitBuffer(length) => Ok(
            ReplyView::Show(
                crate::command::plain(
                    Color::Green,
                    "Buffer display length limit set to "@ + crate::number::digits(
                        length as nat,
                        10,
                    ) + " bytes"@,
                ),
            ),
        ),
        CommandView::RemoveBufferLimit => Ok(
            ReplyView::Show(
                crate::command::plain(Color::Green, "Removed buffer display length limit."@),
            ),
        ),
        CommandView::Metrics => Ok(ReplyView::ShowMetrics),
    }
}

/// Runs a command.
pub fn execute(proxy: &mut Proxy, command: Command) -> (result: Result<Reply, String>)
    requires
        old(proxy).wf(),
    ensures
        final(proxy).wf(),
        final(proxy)@ == settings_after(old(proxy)@, command@),
        outcome(result) == reply_to(old(proxy)@, command@),
{
    proof {
        reveal_strlit("whitelist");
        reveal_strlit("blacklist");
        reveal_strlit("enable");
        reveal_strlit("disable");
        reveal_strlit("allow");
        reveal_strlit("suppress");
        reveal_strlit("on");
        reveal_strlit("off");
        assert("blacklist"@[0] != "whitelist"@[0]);
        assert("enable"@.len() != "disable"@.len());
        assert("allow"@.len() != "suppress"@.len());
        assert("on"@.len() != "off"@.len());
    }
    match command {
        Command::Help => Ok(Reply::Show(show_help())),
        Command::Pause => Ok(Reply::Show(pause(proxy))),
        Command::Resume => Ok(Reply::Show(resume(proxy))),
        Command::AllowPacket(name) => Ok(Reply::Show(update_filter(proxy, name, false))),
        Command::DenyPacket(name) => Ok(Reply::Show(update_filter(proxy, name, true))),
        Command::ResetAsWhitelist => Ok(Reply::Show(reset_filter_as(proxy, "whitelist"))),
        Command::ResetAsBlacklist => Ok(Reply::Show(reset_filter_as(proxy, "blacklist"))),
        Command::EnableFilter => Ok(Reply::Show(set_filter_enabled(proxy, "enable"))),
        Command::DisableFilter => Ok(Reply::Show(set_filter_enabled(proxy, "disable"))),
        Command::ResetFilter => Ok(Reply::Show(reset_filter(proxy))),
        Command::DisplayFilter => Ok(Reply::Show(display_filter(proxy))),
        Command::FilterHelp => Ok(Reply::Show(show_filter_help())),
        Command::Varint(bytes) => match parse_bytes(bytes.as_str()) {
            Ok(bytes) => Ok(Reply::DecodeVarint(bytes)),
            Err(error) => Err(error),
        },
        Command::Text(bytes) => match parse_bytes(bytes.as_str()) {
            Ok(bytes) => Ok(Reply::DecodeText(bytes)),
            Err(error) => Err(error),
        },
        Command::AllowWarnings(id) => match update_warnings(proxy, "allow", id.as_str()) {
            Ok(message) => Ok(Reply::Show(message)),
            Err(error) => Err(error),
        },
        Command::SuppressWarnings(id) => match update_warnings(proxy, "suppress", id.as_str()) {
            Ok(message) => Ok(Reply::Show(message)),
            Err(error) => Err(error),
        },
        Command::WarningsOn => Ok(Reply::Show(set_warnings_enabled(proxy, "on"))),
        Command::WarningsOff => Ok(Reply::Show(set_warnings_enabled(proxy, "off"))),
        Command::WarningsHelp => Ok(Reply::Show(show_warnings_help())),
        Command::LimitBuffer(length) => Ok(Reply::Show(limit_buffer_display(proxy, length))),
        Command::RemoveBufferLimit => Ok(Reply::Show(remove_buffer_display_limit(proxy))),
        Command::Metrics => Ok(Reply::ShowMetrics),
    }
}

/// The settings after a command line.
pub open spec fn settings_after_line(proxy: ProxyView, line: Seq<char>) -> ProxyView {
    match crate::grammar::command_in(line) {
        Some(Ok(command)) => settings_after(proxy, command),
        _ => proxy,
    }
}

/// The reply to a command line.
pub open spec fn reply_to_line(proxy: ProxyView, line: Seq<char>) -> Result<ReplyView, Seq<char>> {
    match crate::grammar::command_in(line) {
        Some(Ok(command)) => reply_to(proxy, command),
        Some(Err(error)) => Err(error),
        None => Ok(ReplyView::Nothing),
    }
}

/// The commands of the console, in the order in which they are suggested.
pub open spec fn command_names() -> Seq<Seq<char>> {
    seq![
        "help"@,
        "pause"@,
        "resume"@,
        "filter"@,
        "varint"@,
        "string"@,
        "warning"@,
        "mbdl"@,
        "metrics"@,
    ]
}

/// The texts that begin with `prefix`, in their order.
pub open spec fn beginning_with(texts: Seq<Seq<char>>, prefix: Seq<char>) -> Seq<Seq<char>> {
    texts.filter(|text: Seq<char>| prefix.is_prefix_of(text))
}

/// The words that may follow `filter`, in the order in which they are suggested.
pub open spec fn filter_words() -> Seq<Seq<char>> {
    seq![
        "allow"@,
        "deny"@,
        "reset-as"@,
        "enable"@,
        "disable"@,
        "reset"@,
        "display"@,
        "-help"@,
    ]
}

/// The words that may follow `filter reset-as`.
pub open spec fn mode_words() -> Seq<Seq<char>> {
    seq!["whitelist"@, "blacklist"@]
}

/// The words that may follow `warnings`, in the order in which they are suggested.
pub open spec fn warnings_words() -> Seq<Seq<char>> {
    seq!["allow"@, "suppress"@, "on"@, "off"@, "-help"@]
}

/// The words that may follow `mbdl`.
pub open spec fn limit_words() -> Seq<Seq<char>> {
    seq!["none"@]
}

/// The suggestions where one of `words` may follow: those that begin with the one argument that
/// is typed, and none once there are more arguments.
pub open spec fn word_suggestions(words: Seq<Seq<char>>, unread: Seq<char>) -> Seq<Seq<char>> {
    if unread.len() > 0 && crate::grammar::rest(unread).len() == 0 {
        beginning_with(words, crate::grammar::argument(unread))
    } else {
        Seq::empty()
    }
}

/// The suggestions for the arguments of `filter`: those for its words, and behind `reset-as`
/// those for the modes.
pub open spec fn filter_suggestions(unread: Seq<char>) -> Seq<Seq<char>> {
    let next = crate::grammar::rest(unread);
    if unread.len() > 0 && next.len() > 0 && crate::grammar::argument(unread) == "reset-as"@ {
        word_suggestions(mode_words(), next)
    } else {
        word_suggestions(filter_words(), unread)
    }
}

/// Whether a name is that of a command which takes no arguments that could be suggested.
pub open spec fn without_suggestions(name: Seq<char>) -> bool {
    ||| name == "help"@
    ||| name == "pause"@
    ||| name == "resume"@
    ||| name == "varint"@
    ||| name == "string"@
    ||| name == "metrics"@
}

/// The suggestions for the last argument of a line: names of commands until one is complete,
/// then what may follow it.
pub open spec fn suggestions(line: Seq<char>) -> Seq<Seq<char>> {
    let unread = crate::arguments::skip_spaces(line);
    let name = crate::grammar::argument(unread);
    let rest = crate::grammar::rest(unread);
    if unread.len() == 0 {
        beginning_with(command_names(), line)
    } else if without_suggestions(name) {
        Seq::empty()
    } else if name == "filter"@ {
        filter_suggestions(rest)
    } else if name == "warning"@ || name == "warnings"@ {
        word_suggestions(warnings_words(), rest)
    } else if name == "mbdl"@ {
        word_suggestions(limit_words(), rest)
    } else {
        beginning_with(command_names(), line)
    }
}

/// The views of a list of words.
pub open spec fn word_views(words: Seq<&str>) -> Seq<Seq<char>> {
    words.map_values(|word: &str| word@)
}

/// The words that begin with `prefix`.
fn suggest(words: &Vec<&str>, prefix: &str) -> (found: Vec<String>)
    ensures
        crate::text::views(found@) == beginning_with(word_views(words@), prefix@),
{
    let ghost all = word_views(words@);
    let mut found: Vec<String> = Vec::new();
    reveal(Seq::filter);
    assert(crate::text::views(found@) =~= beginning_with(all.take(0), prefix@));
    for i in 0..words.len()
        invariant
            all == word_views(words@),
            crate::text::views(found@) == beginning_with(all.take(i as int), prefix@),
    {
        let word = words[i];
        let ghost before = crate::text::views(found@);
        assert(all.take(i + 1).drop_last() =~= all.take(i as int));
        assert(all.take(i + 1).last() == word@);
        reveal(Seq::filter);
        if starts_with(word, prefix) {
            found.push(word.to_owned());
            assert(crate::text::views(found@) =~= before.push(word@));
        }
    }
    assert(all.take(all.len() as int) =~= all);
    found
}

/// The names of the commands that begin with `prefix`.
fn suggest_commands(prefix: &str) -> (found: Vec<String>)
    ensures
        crate::text::views(found@) == beginning_with(command_names(), prefix@),
{
    let names = vec![
        "help",
        "pause",
        "resume",
        "filter",
        "varint",
        "string",
        "warning",
        "mbdl",
        "metrics",
    ];
    assert(word_views(names@) =~= command_names());
    suggest(&names, prefix)
}

/// Suggests `words` for the next argument, provided that it is the last one.
fn suggest_words(words: &Vec<&str>, arguments: Arguments) -> (found: Vec<String>)
    requires
        arguments.wf(),
    ensures
        crate::text::views(found@) == word_suggestions(word_views(words@), arguments.unread()),
{
    let mut arguments = arguments;
    if let Some(typed) = arguments.next() {
        if arguments.next().is_none() {
            return suggest(words, typed.as_str());
        }
    }
    let found: Vec<String> = Vec::new();
    assert(crate::text::views(found@) =~= Seq::empty());
    found
}

/// Suggests arguments of `filter`.
fn suggest_filter(arguments: Arguments) -> (found: Vec<String>)
    requires
        arguments.wf(),
    ensures
        crate::text::views(found@) == filter_suggestions(arguments.unread()),
{
    let words = vec![
        "allow",
        "deny",
        "reset-as",
        "enable",
        "disable",
        "reset",
        "display",
        "-help",
    ];
    let modes = vec!["whitelist", "blacklist"];
    assert(word_views(words@) =~= filter_words());
    assert(word_views(modes@) =~= mode_words());
    let mut arguments = arguments;
    match arguments.next() {
        None => {
            let found: Vec<String> = Vec::new();
            assert(crate::text::views(found@) =~= Seq::empty());
            found
        },
        Some(typed) => {
            if arguments.is_at_end() {
                suggest(&words, typed.as_str())
            } else if same_text(typed.as_str(), "reset-as") {
                suggest_words(&modes, arguments)
            } else {
                let found: Vec<String> = Vec::new();
                assert(crate::text::views(found@) =~= Seq::empty());
                found
            }
        },
    }
}

/// The commands of the console.
pub struct Commands;

impl Commands {
    /// Runs the command in a line. An empty line does nothing.
    pub fn dispatch(&self, command: &str, proxy: &mut Proxy) -> (result: Result<Reply, String>)
        requires
            old(proxy).wf(),
        ensures
            final(proxy).wf(),
            final(proxy)@ == settings_after_line(old(proxy)@, command@),
            outcome(result) == reply_to_line(old(proxy)@, command@),
    {
        match parse_command(command) {
            None => Ok(Reply::Nothing),
            Some(Err(error)) => Err(error),
            Some(Ok(command)) => execute(proxy, command),
        }
    }

    /// Suggests completions for the last argument of a line.
    pub fn get_suggestions(&self, command: &str) -> (found: Vec<String>)
        ensures
            crate::text::views(found@) == suggestions(command@),
    {
        let mut arguments = Arguments::new(command);
        let name = match arguments.next() {
            Some(name) => name,
            None => {
                return suggest_commands(command);
            },
        };
        let name = name.as_str();
        if same_text(name, "help") || same_text(name, "pause") || same_text(name, "resume")
            || same_text(name, "varint") || same_text(name, "string") || same_text(
            name,
            "metrics",
        ) {
            let found: Vec<String> = Vec::new();
            assert(crate::text::views(found@) =~= Seq::empty());
            found
        } else if same_text(name, "filter") {
            suggest_filter(arguments)
        } else if same_text(name, "warning") || same_text(name, "warnings") {
            let words = vec!["allow", "suppress", "on", "off", "-help"];
            assert(word_views(words@) =~= warnings_words());
            suggest_words(&words, arguments)
        } else if same_text(name, "mbdl") {
            let words = vec!["none"];
            assert(word_views(words@) =~= limit_words());
            suggest_words(&words, arguments)
        } else {
            suggest_commands(command)
        }
    }
}

/// A suggested completion, and the character to put after it.
pub struct Completion {
    pub completion: String,
    pub suffix: Option<char>,
}

impl View for Completion {
    type V = (Seq<char>, Option<char>);

    open spec fn view(&self) -> (Seq<char>, Option<char>) {
        (self.completion@, self.suffix)
    }
}

/// The part of `text` before the byte position `cursor`.
pub open spec fn before_cursor(text: Seq<char>, cursor: int) -> Seq<char> {
    vstd::utf8::decode_utf8(vstd::utf8::encode_utf8(text).take(cursor))
}

/// A simple completer for the console.
pub struct ConsoleCompleter;

impl ConsoleCompleter {
    /// Completes the part of `buffer` before `cursor`, which is a byte position between two
    /// characters. At the end of the buffer a space is to follow the completion.
    pub fn complete(&self, buffer: &str, cursor: usize) -> (completions: Vec<Completion>)
        requires
            vstd::utf8::is_char_boundary(vstd::utf8::encode_utf8(buffer@), cursor as int),
        ensures
            completions@.map_values(|completion: Completion| completion@) == suggestions(
                before_cursor(buffer@, cursor as int),
            ).map_values(
                |text: Seq<char>|
                    (
                        text,
                        if cursor == vstd::utf8::encode_utf8(buffer@).len() {
                            Some(' ')
                        } else {
                            None
                        },
                    ),
            ),
    {
        let (line, _) = buffer.split_at(cursor);
        proof {
            vstd::utf8::encode_utf8_decode_utf8(line@);
            assert(vstd::utf8::encode_utf8(buffer@).take(cursor as int)
                =~= vstd::utf8::encode_utf8(buffer@).subrange(0, cursor as int));
        }
        let found = Commands.get_suggestions(line);
        let suffix: Option<char> = if cursor == buffer.as_bytes().len() {
            Some(' ')
        } else {
            None
        };
        let mut completions: Vec<Completion> = Vec::new();
        for i in 0..found.len()
            invariant
                completions@.len() == i,
                forall|j: int|
                    0 <= j < i ==> (#[trigger] completions@[j])@ == (found@[j]@, suffix),
        {
            completions.push(Completion { completion: found[i].clone(), suffix });
        }
        let ghost expected = suggestions(line@).map_values(|text: Seq<char>| (text, suffix));
        assert(completions@.map_values(|completion: Completion| completion@) =~= expected) by {
            assert forall|j: int| 0 <= j < found@.len() implies (#[trigger] completions@[j])@
                == expected[j] by {
                assert(crate::text::views(found@)[j] == found@[j]@);
            }
        }
        completions
    }
}

/// Whether a character is white space, as Unicode has it.
pub open spec fn is_white_space(ch: char) -> bool {
    ||| '\u{9}' <= ch && ch <= '\u{d}'
    ||| ch == ' '
    ||| ch == '\u{85}'
    ||| ch == '\u{a0}'
    ||| ch == '\u{1680}'
    ||| '\u{2000}' <= ch && ch <= '\u{200a}'
    ||| ch == '\u{2028}'
    ||| ch == '\u{2029}'
    ||| ch == '\u{202f}'
    ||| ch == '\u{205f}'
    ||| ch == '\u{3000}'
}

fn white_space(ch: char) -> (result: bool)
    ensures
        result == is_white_space(ch),
{
    ('\u{9}' <= ch && ch <= '\u{d}') || ch == ' ' || ch == '\u{85}' || ch == '\u{a0}' || ch
        == '\u{1680}' || ('\u{2000}' <= ch && ch <= '\u{200a}') || ch == '\u{2028}' || ch
        == '\u{2029}' || ch == '\u{202f}' || ch == '\u{205f}' || ch == '\u{3000}'
}

/// `text` without the white space at its end.
pub open spec fn trimmed_end(text: Seq<char>) -> Seq<char>
    decreases text.len(),
{
    if text.len() > 0 && is_white_space(text.last()) {
        trimmed_end(text.drop_last())
    } else {
        text
    }
}

/// `text` without the white space at its start.
pub open spec fn trimmed_start(text: Seq<char>) -> Seq<char>
    decreases text.len(),
{
    if text.len() > 0 && is_white_space(text[0]) {
        trimmed_start(text.drop_first())
    } else {
        text
    }
}

/// `text` without the white space at its start and at its end.
pub open spec fn trimmed(text: Seq<char>) -> Seq<char> {
    trimmed_end(trimmed_start(text))
}

/// Removes the white space at the start and at the end of `text`.
pub fn trim(text: &str) -> (result: String)
    ensures
        result@ == trimmed(text@),
{
    let chars = to_chars(text);
    let mut start: usize = 0;
    assert(chars@.skip(0) =~= text@);
    while start < chars.len() && white_space(chars[start])
        invariant
            chars@ == text@,
            start <= chars@.len(),
            trimmed_start(chars@.skip(start as int)) == trimmed_start(text@),
        decreases chars@.len() - start,
    {
        assert(chars@.skip(start as int).drop_first() =~= chars@.skip(start + 1));
        start = start + 1;
    }
    let mut end: usize = chars.len();
    assert(chars@.subrange(start as int, end as int) =~= chars@.skip(start as int));
    while end > start && white_space(chars[end - 1])
        invariant
            start <= end <= chars@.len(),
            trimmed_end(chars@.subrange(start as int, end as int)) == trimmed(text@),
        decreases end,
    {
        assert(chars@.subrange(start as int, end as int).drop_last() =~= chars@.subrange(
            start as int,
            end - 1,
        ));
        end = end - 1;
    }
    slice_text(&chars, start, end)
}

/// What to do about a line entered at the console.
pub enum LineOutcome {
    /// Stop the proxy.
    Stop,
    /// Act on the reply and read the next line.
    Continue(Reply),
}

/// Makes a message of an answer; an error is shown in red.
pub fn answer(result: Result<Message, String>) -> (message: Message)
    ensures
        match result {
            Ok(given) => message == given,
            Err(error) => message@ == crate::command::plain(Color::Red, error@),
        },
{
    match result {
        Ok(message) => message,
        Err(error) => Message::colored(error.as_str(), Color::Red),
    }
}

/// The reply to a line entered at the console; an error is shown in red.
pub open spec fn line_reply(proxy: ProxyView, line: Seq<char>) -> ReplyView {
    match reply_to_line(proxy, trimmed(line)) {
        Ok(reply) => reply,
        Err(error) => ReplyView::Show(crate::command::plain(Color::Red, error)),
    }
}

/// Runs a line entered at the console.
pub fn run_line(proxy: &mut Proxy, line: &str) -> (outcome: LineOutcome)
    requires
        old(proxy).wf(),
    ensures
        final(proxy).wf(),
        line@ == "stop"@ ==> outcome is Stop && final(proxy)@ == old(proxy)@,
        line@ != "stop"@ ==> {
            &&& outcome is Continue
            &&& outcome->Continue_0@ == line_reply(old(proxy)@, line@)
            &&& final(proxy)@ == settings_after_line(old(proxy)@, trimmed(line@))
        },
{
    if same_text(line, "stop") {
        return LineOutcome::Stop;
    }
    match Commands.dispatch(trim(line).as_str(), proxy) {
        Ok(reply) => LineOutcome::Continue(reply),
        Err(error) => LineOutcome::Continue(Reply::Show(answer(Err(error)))),
    }
}

} // verus!
