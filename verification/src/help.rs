//! The help texts of the console.
use vstd::prelude::*;

use crate::message::Color;
use crate::message::Message;

verus! {

/// The help on the console as a whole.
pub open spec fn help() -> Seq<(Color, Seq<char>)> {
    seq![
        (Color::Gold, "stop: "@),
        (Color::White, STOP_HELP@),
        (Color::Gold, "pause: "@),
        (Color::White, PAUSE_HELP@),
        (Color::Gold, "resume: "@),
        (Color::White, "Resumes all logging of packets and warnings.\n"@),
        (Color::Gold, "filter <"@),
        (Color::White, "action"@),
        (Color::Gold, "> ["@),
        (Color::White, "params..."@),
        (Color::Gold, "]: "@),
        (Color::White, FILTER_HELP@),
        (Color::Aqua, "filter -help"@),
        (Color::White, " for more information.\n"@),
        (Color::Gold, "varint <"@),
        (Color::White, "bytes..."@),
        (Color::Gold, ">: "@),
        (Color::White, "Parses the given list of bytes as a varint, for example "@),
        (Color::Aqua, "varint 85 07 00"@),
        (Color::White, " yields the output "@),
        (Color::Aqua, "varint([85, 07]) = 901"@),
        (Color::White, ". Trailing commas on the bytes will be ignored.\n"@),
        (Color::Gold, "string <"@),
        (Color::White, "bytes..."@),
        (Color::Gold, ">: "@),
        (Color::White, "Parses the given list of bytes as a string, for example "@),
        (Color::Aqua, "string 05 68 65 6C 6C 6F FF FF"@),
        (Color::White, " yields the output "@),
        (Color::Aqua, STRING_EXAMPLE@),
        (Color::White, ". Trailing commas on the bytes will be ignored.\n"@),
        (Color::Gold, "warnings <"@),
        (Color::White, "action"@),
        (Color::Gold, "> ["@),
        (Color::White, "params..."@),
        (Color::Gold, "]: "@),
        (Color::White, WARNINGS_HELP@),
        (Color::Aqua, "warnings -help"@),
        (Color::White, " for more information.\n"@),
        (Color::Gold, "mbdl <"@),
        (Color::White, "length"@),
        (Color::Gold, ">: "@),
        (Color::White, LIMIT_HELP@),
        (Color::Aqua, "mbdl none"@),
        (Color::White, " will remove the display length limit."@),
    ]
}

pub const STOP_HELP: &'static str = "Stops the proxy and exits the program. It may take a few moments for the program to halt if there are still active connections.\n";

pub const PAUSE_HELP: &'static str = "Pauses all logging of packets and warnings. Errors and general info messages will still be logged.\n";

pub const FILTER_HELP: &'static str = "Updates the packet filter based on the given action and parameters. Type ";

pub const STRING_EXAMPLE: &'static str = "string([05, 68, 65, 6C, 6C, 6F]) = \"hello\" (length 5)";

pub const WARNINGS_HELP: &'static str = "Updates the warnings filter based on the given action and parameters. Type ";

pub const LIMIT_HELP: &'static str = "Sets the maximum display length when displaying packet buffers to the console. Entering ";

/// Writes the help on the console as a whole.
pub fn show_help() -> (message: Message)
    ensures
        message@ == help(),
{
    Message::empty()
        .add_text(Color::Gold, "stop: ")
        .add_text(Color::White, STOP_HELP)
        .add_text(Color::Gold, "pause: ")
        .add_text(Color::White, PAUSE_HELP)
        .add_text(Color::Gold, "resume: ")
        .add_text(Color::White, "Resumes all logging of packets and warnings.\n")
        .add_text(Color::Gold, "filter <")
        .add_text(Color::White, "action")
        .add_text(Color::Gold, "> [")
        .add_text(Color::White, "params...")
        .add_text(Color::Gold, "]: ")
        .add_text(Color::White, FILTER_HELP)
        .add_text(Color::Aqua, "filter -help")
        .add_text(Color::White, " for more information.\n")
        .add_text(Color::Gold, "varint <")
        .add_text(Color::White, "bytes...")
        .add_text(Color::Gold, ">: ")
        .add_text(Color::White, "Parses the given list of bytes as a varint, for example ")
        .add_text(Color::Aqua, "varint 85 07 00")
        .add_text(Color::White, " yields the output ")
        .add_text(Color::Aqua, "varint([85, 07]) = 901")
        .add_text(Color::White, ". Trailing commas on the bytes will be ignored.\n")
        .add_text(Color::Gold, "string <")
        .add_text(Color::White, "bytes...")
        .add_text(Color::Gold, ">: ")
        .add_text(Color::White, "Parses the given list of bytes as a string, for example ")
        .add_text(Color::Aqua, "string 05 68 65 6C 6C 6F FF FF")
        .add_text(Color::White, " yields the output ")
        .add_text(Color::Aqua, STRING_EXAMPLE)
        .add_text(Color::White, ". Trailing commas on the bytes will be ignored.\n")
        .add_text(Color::Gold, "warnings <")
        .add_text(Color::White, "action")
        .add_text(Color::Gold, "> [")
        .add_text(Color::White, "params...")
        .add_text(Color::Gold, "]: ")
        .add_text(Color::White, WARNINGS_HELP)
        .add_text(Color::Aqua, "warnings -help")
        .add_text(Color::White, " for more information.\n")
        .add_text(Color::Gold, "mbdl <")
        .add_text(Color::White, "length")
        .add_text(Color::Gold, ">: ")
        .add_text(Color::White, LIMIT_HELP)
        .add_text(Color::Aqua, "mbdl none")
        .add_text(Color::White, " will remove the display length limit.")
}

/// The help on the packet filter.
pub open spec fn filter_help() -> Seq<(Color, Seq<char>)> {
    seq![
        (Color::Gold, "filter <"@),
        (Color::White, "allow"@),
        (Color::Gold, "|"@),
        (Color::White, "deny"@),
        (Color::Gold, "> <"@),
        (Color::White, "packet-name"@),
        (Color::Gold, ">: "@),
        (Color::White, FILTER_UPDATE_HELP@),
        (Color::Gold, "filter <"@),
        (Color::White, "enable"@),
        (Color::Gold, "|"@),
        (Color::White, "disable"@),
        (Color::Gold, ">: "@),
        (Color::White, "Enables or disables the filter.\n"@),
        (Color::Gold, "filter reset: "@),
        (Color::White, "Resets the filter, clearing any entries.\n"@),
        (Color::Gold, "filter reset-as <"@),
        (Color::White, "whitelist"@),
        (Color::Gold, "|"@),
        (Color::White, "blacklist"@),
        (Color::Gold, ">: "@),
        (Color::White, FILTER_RESET_HELP@),
        (Color::Gold, "filter display: "@),
        (Color::White, "Displays the contents and mode of the packet filter."@),
    ]
}

pub const FILTER_UPDATE_HELP: &'static str = "Allows or denies logging of the packet with the given name. This name is case insensitive, but should match the variant name of the packet in its corresponding enum.\n";

pub const FILTER_RESET_HELP: &'static str = "Resets the filter and changes its mode to the given mode. Whitelist filters allow logging of packets in the filter, whereas blacklist filters only allow logging of packets not in the filter.\n";

/// Writes the help on the packet filter.
pub fn show_filter_help() -> (message: Message)
    ensures
        message@ == filter_help(),
{
    Message::empty()
        .add_text(Color::Gold, "filter <")
        .add_text(Color::White, "allow")
        .add_text(Color::Gold, "|")
        .add_text(Color::White, "deny")
        .add_text(Color::Gold, "> <")
        .add_text(Color::White, "packet-name")
        .add_text(Color::Gold, ">: ")
        .add_text(Color::White, FILTER_UPDATE_HELP)
        .add_text(Color::Gold, "filter <")
        .add_text(Color::White, "enable")
        .add_text(Color::Gold, "|")
        .add_text(Color::White, "disable")
        .add_text(Color::Gold, ">: ")
        .add_text(Color::White, "Enables or disables the filter.\n")
        .add_text(Color::Gold, "filter reset: ")
        .add_text(Color::White, "Resets the filter, clearing any entries.\n")
        .add_text(Color::Gold, "filter reset-as <")
        .add_text(Color::White, "whitelist")
        .add_text(Color::Gold, "|")
        .add_text(Color::White, "blacklist")
        .add_text(Color::Gold, ">: ")
        .add_text(Color::White, FILTER_RESET_HELP)
        .add_text(Color::Gold, "filter display: ")
        .add_text(Color::White, "Displays the contents and mode of the packet filter.")
}

/// The help on warnings.
pub open spec fn warnings_help() -> Seq<(Color, Seq<char>)> {
    seq![
        (Color::Gold, "warnings <"@),
        (Color::White, "allow"@),
        (Color::Gold, "|"@),
        (Color::White, "suppress"@),
        (Color::Gold, "> <"@),
        (Color::White, "packet-id"@),
        (Color::Gold, ">: "@),
        (Color::White, WARNINGS_UPDATE_HELP@),
        (Color::Gold, "warnings <"@),
        (Color::White, "on"@),
        (Color::Gold, "|"@),
        (Color::White, "off"@),
        (Color::Gold, ">: "@),
        (Color::White, WARNINGS_SWITCH_HELP@),
        (Color::Gold, "metrics: "@),
        (Color::White, METRICS_HELP@),
    ]
}

pub const WARNINGS_UPDATE_HELP: &'static str = "Allows or denies warnings associated with the given packet ID. The ID should be in hexadecimal form without any prefix, such as \"2A\" for example.\n";

pub const WARNINGS_SWITCH_HELP: &'static str = "Enables or disables the logging of warnings associated with packet parsing. Other warnings will still be logged.\n";

pub const METRICS_HELP: &'static str = "Displays the proxy metrics. Currently this just displays the approximate rate of packet processing in megabits per second.";

/// Writes the help on warnings.
pub fn show_warnings_help() -> (message: Message)
    ensures
        message@ == warnings_help(),
{
    Message::empty()
        .add_text(Color::Gold, "warnings <")
        .add_text(Color::White, "allow")
        .add_text(Color::Gold, "|")
        .add_text(Color::White, "suppress")
        .add_text(Color::Gold, "> <")
        .add_text(Color::White, "packet-id")
        .add_text(Color::Gold, ">: ")
        .add_text(Color::White, WARNINGS_UPDATE_HELP)
        .add_text(Color::Gold, "warnings <")
        .add_text(Color::White, "on")
        .add_text(Color::Gold, "|")
        .add_text(Color::White, "off")
        .add_text(Color::Gold, ">: ")
        .add_text(Color::White, WARNINGS_SWITCH_HELP)
        .add_text(Color::Gold, "metrics: ")
        .add_text(Color::White, METRICS_HELP)
}

} // verus!
