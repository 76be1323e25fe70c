//! The grammar of the console commands.
use vstd::prelude::*;

use crate::arguments::unquote;
use crate::arguments::Arguments;
use crate::number::parse_number;
use crate::text::same_text;
use crate::text::to_chars;

verus! {

/// A command of the console.
#[derive(Debug)]
pub enum Command {
    Help,
    Pause,
    Resume,
    AllowPacket(String),
    DenyPacket(String),
    ResetAsWhitelist,
    ResetAsBlacklist,
    EnableFilter,
    DisableFilter,
    ResetFilter,
    DisplayFilter,
    FilterHelp,
    Varint(String),
    Text(String),
    AllowWarnings(String),
    SuppressWarnings(String),
    WarningsOn,
    WarningsOff,
    WarningsHelp,
    LimitBuffer(usize),
    RemoveBufferLimit,
    Metrics,
}

/// What a command holds.
pub enum CommandView {
    Help,
    Pause,
    Resume,
    AllowPacket(Seq<char>),
    DenyPacket(Seq<char>),
    ResetAsWhitelist,
    ResetAsBlacklist,
    EnableFilter,
    DisableFilter,
    ResetFilter,
    DisplayFilter,
    FilterHelp,
    Varint(Seq<char>),
    Text(Seq<char>),
    AllowWarnings(Seq<char>),
    SuppressWarnings(Seq<char>),
    WarningsOn,
    WarningsOff,
    WarningsHelp,
    LimitBuffer(usize),
    RemoveBufferLimit,
    Metrics,
}

impl View for Command {
    type V = CommandView;

    open spec fn view(&self) -> CommandView {
        match self {
            Command::Help => CommandView::Help,
            Command::Pause => CommandView::Pause,
            Command::Resume => CommandView::Resume,
            Command::AllowPacket(name) => CommandView::AllowPacket(name@),
            Command::DenyPacket(name) => CommandView::DenyPacket(name@),
            Command::ResetAsWhitelist => CommandView::ResetAsWhitelist,
            Command::ResetAsBlacklist => CommandView::ResetAsBlacklist,
            Command::EnableFilter => CommandView::EnableFilter,
            Command::DisableFilter => CommandView::DisableFilter,
            Command::ResetFilter => CommandView::ResetFilter,
            Command::DisplayFilter => CommandView::DisplayFilter,
            Command::FilterHelp => CommandView::FilterHelp,
            Command::Varint(bytes) => CommandView::Varint(bytes@),
            Command::Text(bytes) => CommandView::Text(bytes@),
            Command::AllowWarnings(id) => CommandView::AllowWarnings(id@),
            Command::SuppressWarnings(id) => CommandView::SuppressWarnings(id@),
            Command::WarningsOn => CommandView::WarningsOn,
            Command::WarningsOff => CommandView::WarningsOff,
            Command::WarningsHelp => CommandView::WarningsHelp,
            Command::LimitBuffer(length) => CommandView::LimitBuffer(*length),
            Command::RemoveBufferLimit => CommandView::RemoveBufferLimit,
            Command::Metrics => CommandView::Metrics,
        }
    }
}

/// What reading a command gave, with the texts by their views.
pub open spec fn reading(result: Result<Command, String>) -> Result<CommandView, Seq<char>> {
    match result {
        Ok(command) => Ok(command@),
        Err(error) => Err(error@),
    }
}

/// The error about an argument that fits nowhere.
pub open spec fn unexpected(argument: Seq<char>) -> Seq<char> {
    "Unexpected argument \""@ + argument + "\""@
}

/// The error about an argument that is missing.
pub open spec fn missing(name: Seq<char>) -> Seq<char> {
    "Expected value for argument \""@ + name + "\""@
}

pub const FILTER_CHOICES: &'static str = "Expected one of \"allow\", \"deny\", \"reset-as\", \"enable\", \"disable\", \"reset\", \"display\", help";

pub const MODE_CHOICES: &'static str = "Expected one of \"whitelist\", \"blacklist\"";

pub const WARNINGS_CHOICES: &'static str = "Expected one of \"allow\", \"suppress\", \"on\", \"off\", help";

pub const LIMIT_CHOICES: &'static str = "Expected one of len, \"none\"";

/// The next argument in what is unread.
pub open spec fn argument(unread: Seq<char>) -> Seq<char> {
    crate::arguments::first_argument(crate::arguments::skip_spaces(unread))
}

/// What is unread after the next argument.
pub open spec fn rest(unread: Seq<char>) -> Seq<char> {
    crate::arguments::after_argument(crate::arguments::skip_spaces(unread))
}

/// `command`, provided that nothing follows it.
pub open spec fn ending(command: CommandView, unread: Seq<char>) -> Result<
    CommandView,
    Seq<char>,
> {
    if unread.len() == 0 {
        Ok(command)
    } else {
        Err(unexpected(argument(unread)))
    }
}

/// Whether an argument asks for help.
pub open spec fn asks_for_help(argument: Seq<char>) -> bool {
    ||| argument == "help"@
    ||| argument == "-help"@
    ||| argument == "--help"@
    ||| argument == "-h"@
    ||| argument == "--h"@
}

/// The arguments of `filter`.
pub open spec fn filter_command(unread: Seq<char>) -> Result<CommandView, Seq<char>> {
    let action = argument(unread);
    let next = rest(unread);
    if unread.len() == 0 {
        Err(FILTER_CHOICES@)
    } else if asks_for_help(action) {
        ending(CommandView::FilterHelp, next)
    } else if action == "allow"@ {
        if next.len() == 0 {
            Err(missing("allow_packet"@))
        } else {
            ending(
                CommandView::AllowPacket(crate::arguments::unquoted(argument(next))),
                rest(next),
            )
        }
    } else if action == "deny"@ {
        if next.len() == 0 {
            Err(missing("deny_packet"@))
        } else {
            ending(
                CommandView::DenyPacket(crate::arguments::unquoted(argument(next))),
                rest(next),
            )
        }
    } else if action == "reset-as"@ {
        if next.len() == 0 {
            Err(MODE_CHOICES@)
        } else if argument(next) == "whitelist"@ {
            ending(CommandView::ResetAsWhitelist, rest(next))
        } else if argument(next) == "blacklist"@ {
            ending(CommandView::ResetAsBlacklist, rest(next))
        } else {
            Err(unexpected(argument(next)))
        }
    } else if action == "enable"@ {
        ending(CommandView::EnableFilter, next)
    } else if action == "disable"@ {
        ending(CommandView::DisableFilter, next)
    } else if action == "reset"@ {
        ending(CommandView::ResetFilter, next)
    } else if action == "display"@ {
        ending(CommandView::DisplayFilter, next)
    } else {
        Err(unexpected(action))
    }
}

/// The arguments of `warnings`.
pub open spec fn warnings_command(unread: Seq<char>) -> Result<CommandView, Seq<char>> {
    let action = argument(unread);
    let next = rest(unread);
    if unread.len() == 0 {
        Err(WARNINGS_CHOICES@)
    } else if asks_for_help(action) {
        ending(CommandView::WarningsHelp, next)
    } else if action == "allow"@ {
        if next.len() == 0 {
            Err(missing("allow_id"@))
        } else {
            ending(
                CommandView::AllowWarnings(crate::arguments::unquoted(argument(next))),
                rest(next),
            )
        }
    } else if action == "suppress"@ {
        if next.len() == 0 {
            Err(missing("suppress_id"@))
        } else {
            ending(
                CommandView::SuppressWarnings(crate::arguments::unquoted(argument(next))),
                rest(next),
            )
        }
    } else if action == "on"@ {
        ending(CommandView::WarningsOn, next)
    } else if action == "off"@ {
        ending(CommandView::WarningsOff, next)
    } else {
        Err(unexpected(action))
    }
}

/// Whether a text is made of decimal digits alone.
pub open spec fn all_digits(text: Seq<char>) -> bool {
    forall|i: int| 0 <= i < text.len() ==> '0' <= #[trigger] text[i] && text[i] <= '9'
}

/// The arguments of `mbdl`.
pub open spec fn limit_command(unread: Seq<char>) -> Result<CommandView, Seq<char>> {
    let action = argument(unread);
    let next = rest(unread);
    if unread.len() == 0 {
        Err(LIMIT_CHOICES@)
    } else if all_digits(action) {
        match crate::number::number(action, 10, usize::MAX as nat) {
            Ok(length) => ending(CommandView::LimitBuffer(length as usize), next),
            Err(error) => Err(error.message()),
        }
    } else if action == "none"@ {
        ending(CommandView::RemoveBufferLimit, next)
    } else {
        Err(unexpected(action))
    }
}

/// The command that `name` and what is unread after it stand for, or the error in it.
pub open spec fn named_command(name: Seq<char>, unread: Seq<char>) -> Result<
    CommandView,
    Seq<char>,
> {
    if name == "help"@ {
        ending(CommandView::Help, unread)
    } else if name == "pause"@ {
        ending(CommandView::Pause, unread)
    } else if name == "resume"@ {
        ending(CommandView::Resume, unread)
    } else if name == "filter"@ {
        filter_command(unread)
    } else if name == "varint"@ {
        if unread.len() == 0 {
            Err(missing("bytes"@))
        } else {
            Ok(CommandView::Varint(crate::arguments::skip_spaces(unread)))
        }
    } else if name == "string"@ {
        if unread.len() == 0 {
            Err(missing("bytes"@))
        } else {
            Ok(CommandView::Text(crate::arguments::skip_spaces(unread)))
        }
    } else if name == "warning"@ || name == "warnings"@ {
        warnings_command(unread)
    } else if name == "mbdl"@ {
        limit_command(unread)
    } else if name == "metrics"@ {
        ending(CommandView::Metrics, unread)
    } else {
        Err("Invalid command \""@ + name + "\""@)
    }
}

/// The command in a line, where there is any: none where the line is empty or but spaces.
pub open spec fn command_in(line: Seq<char>) -> Option<Result<CommandView, Seq<char>>> {
    let unread = crate::arguments::skip_spaces(line);
    if unread.len() == 0 {
        None
    } else {
        Some(named_command(argument(unread), rest(unread)))
    }
}

/// Writes `text` in quotes after `before`.
fn quoting(before: &str, text: &str) -> (quoted: String)
    ensures
        quoted@ == before@ + text@ + "\""@,
{
    let mut quoted = before.to_owned();
    quoted.append(text);
    quoted.append("\"");
    quoted
}

fn unexpected_text(argument: &str) -> (error: String)
    ensures
        error@ == unexpected(argument@),
{
    quoting("Unexpected argument \"", argument)
}

fn missing_text(name: &str) -> (error: String)
    ensures
        error@ == missing(name@),
{
    quoting("Expected value for argument \"", name)
}

/// Accepts `command` where nothing follows it.
fn end(command: Command, arguments: &mut Arguments) -> (result: Result<Command, String>)
    requires
        old(arguments).wf(),
    ensures
        reading(result) == ending(command@, old(arguments).unread()),
{
    match arguments.next() {
        None => Ok(command),
        Some(argument) => Err(unexpected_text(argument.as_str())),
    }
}

fn is_help(argument: &str) -> (result: bool)
    ensures
        result == asks_for_help(argument@),
{
    same_text(argument, "help") || same_text(argument, "-help") || same_text(argument, "--help")
        || same_text(argument, "-h") || same_text(argument, "--h")
}

fn is_all_digits(text: &str) -> (result: bool)
    ensures
        result == all_digits(text@),
{
    let chars = to_chars(text);
    for i in 0..chars.len()
        invariant
            chars@ == text@,
            forall|j: int| 0 <= j < i ==> '0' <= #[trigger] text@[j] && text@[j] <= '9',
    {
        if !('0' <= chars[i] && chars[i] <= '9') {
            assert(!('0' <= text@[i as int] && text@[i as int] <= '9'));
            return false;
        }
    }
    true
}

/// Reads the arguments of `filter`.
fn parse_filter(arguments: &mut Arguments) -> (result: Result<Command, String>)
    requires
        old(arguments).wf(),
    ensures
        reading(result) == filter_command(old(arguments).unread()),
{
    let action = match arguments.next() {
        Some(action) => action,
        None => {
            return Err(FILTER_CHOICES.to_owned());
        },
    };
    let action = action.as_str();
    if is_help(action) {
        end(Command::FilterHelp, arguments)
    } else if same_text(action, "allow") {
        match arguments.next() {
            Some(name) => end(Command::AllowPacket(unquote(name.as_str())), arguments),
            None => Err(missing_text("allow_packet")),
        }
    } else if same_text(action, "deny") {
        match arguments.next() {
            Some(name) => end(Command::DenyPacket(unquote(name.as_str())), arguments),
            None => Err(missing_text("deny_packet")),
        }
    } else if same_text(action, "reset-as") {
        match arguments.next() {
            Some(mode) => {
                if same_text(mode.as_str(), "whitelist") {
                    end(Command::ResetAsWhitelist, arguments)
                } else if same_text(mode.as_str(), "blacklist") {
                    end(Command::ResetAsBlacklist, arguments)
                } else {
                    Err(unexpected_text(mode.as_str()))
                }
            },
            None => Err(MODE_CHOICES.to_owned()),
        }
    } else if same_text(action, "enable") {
        end(Command::EnableFilter, arguments)
    } else if same_text(action, "disable") {
        end(Command::DisableFilter, arguments)
    } else if same_text(action, "reset") {
        end(Command::ResetFilter, arguments)
    } else if same_text(action, "display") {
        end(Command::DisplayFilter, arguments)
    } else {
        Err(unexpected_text(action))
    }
}

/// Reads the arguments of `warnings`.
fn parse_warnings(arguments: &mut Arguments) -> (result: Result<Command, String>)
    requires
        old(arguments).wf(),
    ensures
        reading(result) == warnings_command(old(arguments).unread()),
{
    let action = match arguments.next() {
        Some(action) => action,
        None => {
            return Err(WARNINGS_CHOICES.to_owned());
        },
    };
    let action = action.as_str();
    if is_help(action) {
        end(Command::WarningsHelp, arguments)
    } else if same_text(action, "allow") {
        match arguments.next() {
            Some(id) => end(Command::AllowWarnings(unquote(id.as_str())), arguments),
            None => Err(missing_text("allow_id")),
        }
    } else if same_text(action, "suppress") {
        match arguments.next() {
            Some(id) => end(Command::SuppressWarnings(unquote(id.as_str())), arguments),
            None => Err(missing_text("suppress_id")),
        }
    } else if same_text(action, "on") {
        end(Command::WarningsOn, arguments)
    } else if same_text(action, "off") {
        end(Command::WarningsOff, arguments)
    } else {
        Err(unexpected_text(action))
    }
}

/// Reads the arguments of `mbdl`.
fn parse_limit(arguments: &mut Arguments) -> (result: Result<Command, String>)
    requires
        old(arguments).wf(),
    ensures
        reading(result) == limit_command(old(arguments).unread()),
{
    let action = match arguments.next() {
        Some(action) => action,
        None => {
            return Err(LIMIT_CHOICES.to_owned());
        },
    };
    let action = action.as_str();
    if is_all_digits(action) {
        match parse_number(action, 10, usize::MAX as u64) {
            Ok(length) => end(Command::LimitBuffer(length as usize), arguments),
            Err(error) => Err(error.text().to_owned()),
        }
    } else if same_text(action, "none") {
        end(Command::RemoveBufferLimit, arguments)
    } else {
        Err(unexpected_text(action))
    }
}

/// Reads the rest of the line as the bytes of `varint` or `string`.
fn parse_rest(arguments: &mut Arguments) -> (result: Result<String, String>)
    requires
        old(arguments).wf(),
    ensures
        match result {
            Ok(text) => old(arguments).unread().len() > 0 && text@ == crate::arguments::skip_spaces(
                old(arguments).unread(),
            ),
            Err(error) => old(arguments).unread().len() == 0 && error@ == missing("bytes"@),
        },
{
    match arguments.next() {
        Some(_) => Ok(arguments.gobble_remaining()),
        None => Err(missing_text("bytes")),
    }
}

/// Reads the command in a line, where there is any.
pub fn parse_command(line: &str) -> (result: Option<Result<Command, String>>)
    ensures
        match result {
            Some(result) => command_in(line@) == Some(reading(result)),
            None => command_in(line@) is None,
        },
{
    let mut arguments = Arguments::new(line);
    let name = match arguments.next() {
        Some(name) => name,
        None => {
            return None;
        },
    };
    let name = name.as_str();
    Some(
        if same_text(name, "help") {
            end(Command::Help, &mut arguments)
        } else if same_text(name, "pause") {
            end(Command::Pause, &mut arguments)
        } else if same_text(name, "resume") {
            end(Command::Resume, &mut arguments)
        } else if same_text(name, "filter") {
            parse_filter(&mut arguments)
        } else if same_text(name, "varint") {
            match parse_rest(&mut arguments) {
                Ok(bytes) => Ok(Command::Varint(bytes)),
                Err(error) => Err(error),
            }
        } else if same_text(name, "string") {
            match parse_rest(&mut arguments) {
                Ok(bytes) => Ok(Command::Text(bytes)),
                Err(error) => Err(error),
            }
        } else if same_text(name, "warning") || same_text(name, "warnings") {
            parse_warnings(&mut arguments)
        } else if same_text(name, "mbdl") {
            parse_limit(&mut arguments)
        } else if same_text(name, "metrics") {
            end(Command::Metrics, &mut arguments)
        } else {
            Err(quoting("Invalid command \"", name))
        },
    )
}

} // verus!
