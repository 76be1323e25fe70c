//! What the console answers.
use vstd::prelude::*;

use crate::console::ReplyView;
use crate::filter::PacketFilter;
use crate::grammar::CommandView;
use crate::message::Color;
use crate::number::NumberError;
use crate::proxy::ProxyView;

verus! {

/// A message in one colour, as a reply.
pub open spec fn shows(reply: Result<ReplyView, Seq<char>>, color: Color, text: Seq<char>) -> bool {
    reply == Ok::<ReplyView, Seq<char>>(ReplyView::Show(seq![(color, text)]))
}

/// Whether a command sets something that it can find set already.
pub open spec fn may_be_set_already(command: CommandView) -> bool {
    ||| command is Pause
    ||| command is Resume
    ||| command is AllowPacket
    ||| command is DenyPacket
    ||| command is EnableFilter
    ||| command is DisableFilter
    ||| command is WarningsOn
    ||| command is WarningsOff
    ||| command is AllowWarnings
    ||| command is SuppressWarnings
}

/// Commands that set something are answered in green where that changed a setting, and in yellow
/// where it was set already.
pub proof fn law_green_where_changed(proxy: ProxyView, command: CommandView)
    requires
        may_be_set_already(command),
        crate::console::reply_to(proxy, command) is Ok,
    ensures
        crate::console::reply_to(proxy, command)->Ok_0 matches ReplyView::Show(message)
            && message.len() > 0 && (message[0].0 == Color::Green <==>
        crate::console::settings_after(proxy, command) != proxy) && (message[0].0 == Color::Yellow
            <==> crate::console::settings_after(proxy, command) == proxy),
{
    reveal_strlit("on");
    reveal_strlit("off");
    assert("on"@.len() != "off"@.len());
}

/// What pausing and resuming answer.
pub proof fn law_logging_answers(proxy: ProxyView)
    ensures
        proxy.log_packets ==> shows(
            crate::console::reply_to(proxy, CommandView::Pause),
            Color::Green,
            "Logging paused"@,
        ),
        !proxy.log_packets ==> crate::console::reply_to(proxy, CommandView::Pause) == Ok::<
            ReplyView,
            Seq<char>,
        >(
            ReplyView::Show(
                seq![
                    (Color::Yellow, "Logging is already paused. Use command "@),
                    (Color::Aqua, "resume"@),
                    (Color::Yellow, " to resume logging."@),
                ],
            ),
        ),
        !proxy.log_packets ==> shows(
            crate::console::reply_to(proxy, CommandView::Resume),
            Color::Green,
            "Logging resumed"@,
        ),
        proxy.log_packets ==> crate::console::reply_to(proxy, CommandView::Resume) == Ok::<
            ReplyView,
            Seq<char>,
        >(
            ReplyView::Show(
                seq![
                    (Color::Yellow, "The proxy is currently logging packets. Use command "@),
                    (Color::Aqua, "pause"@),
                    (Color::Yellow, " to pause logging."@),
                ],
            ),
        ),
{
}

/// What allowing and denying a packet answers: whether packets of that name were treated
/// otherwise before.
pub proof fn law_filter_update_answers(proxy: ProxyView, name: Seq<char>)
    ensures
        ({
            let listed = proxy.filter.packets.contains(crate::text::lowercase(name));
            let allowed = listed == proxy.filter.is_whitelist;
            let updated = "Filter successfully updated"@;
            let handled = "This packet is already handled by the filter."@;
            let allow = crate::console::reply_to(proxy, CommandView::AllowPacket(name));
            let deny = crate::console::reply_to(proxy, CommandView::DenyPacket(name));
            &&& allowed ==> shows(allow, Color::Yellow, handled) && shows(
                deny,
                Color::Green,
                updated,
            )
            &&& !allowed ==> shows(allow, Color::Green, updated) && shows(
                deny,
                Color::Yellow,
                handled,
            )
        }),
{
    let name = crate::text::lowercase(name);
    let allow = proxy.filter.updated(name, false);
    let deny = proxy.filter.updated(name, true);
    let listed = proxy.filter.packets.contains(name);
    assert(allow.packets.contains(name) == proxy.filter.is_whitelist);
    assert(deny.packets.contains(name) != proxy.filter.is_whitelist);
    if listed == proxy.filter.is_whitelist {
        assert(allow.packets =~= proxy.filter.packets);
        assert(allow == proxy.filter);
    } else {
        assert(deny.packets =~= proxy.filter.packets);
        assert(deny == proxy.filter);
    }
}

/// What resetting and switching the filter answers.
pub proof fn law_filter_answers(proxy: ProxyView)
    ensures
        shows(
            crate::console::reply_to(proxy, CommandView::ResetFilter),
            Color::Green,
            "Filter reset."@,
        ),
        shows(
            crate::console::reply_to(proxy, CommandView::ResetAsWhitelist),
            Color::Green,
            "Reset filter and set mode to "@ + "whitelist"@,
        ),
        shows(
            crate::console::reply_to(proxy, CommandView::ResetAsBlacklist),
            Color::Green,
            "Reset filter and set mode to "@ + "blacklist"@,
        ),
        proxy.filter.disabled ==> {
            &&& shows(
                crate::console::reply_to(proxy, CommandView::EnableFilter),
                Color::Green,
                "Packet filter "@ + "enable"@ + "d"@,
            )
            &&& shows(
                crate::console::reply_to(proxy, CommandView::DisableFilter),
                Color::Yellow,
                "The filter is already "@ + "disable"@ + "d"@,
            )
        },
        !proxy.filter.disabled ==> {
            &&& shows(
                crate::console::reply_to(proxy, CommandView::EnableFilter),
                Color::Yellow,
                "The filter is already "@ + "enable"@ + "d"@,
            )
            &&& shows(
                crate::console::reply_to(proxy, CommandView::DisableFilter),
                Color::Green,
                "Packet filter "@ + "disable"@ + "d"@,
            )
        },
{
}

/// What displaying the filter answers: its mode and the names that it lists, each once and in
/// ascending order, or that there are none.
pub proof fn law_filter_listing(proxy: ProxyView, filter: &PacketFilter)
    requires
        filter.wf(),
        proxy.filter == filter@,
    ensures
        ({
            let mode = if filter.is_whitelist {
                "whitelist"@
            } else {
                "blacklist"@
            };
            let names = crate::text::views(filter.filter@);
            let reply = crate::console::reply_to(proxy, CommandView::DisplayFilter);
            &&& names.len() == 0 ==> shows(
                reply,
                Color::White,
                "["@ + mode + "] "@ + "<empty>"@,
            )
            &&& names.len() > 0 ==> shows(
                reply,
                Color::White,
                "["@ + mode + "] "@ + crate::text::join(names, ", "@),
            )
            &&& forall|i: int, j: int|
                0 <= i < j < names.len() ==> crate::order::precedes(
                    #[trigger] names[i],
                    #[trigger] names[j],
                )
        }),
{
    crate::filter::law_listing_ascends(filter);
    let names = filter.names();
    if names.len() == 0 {
        assert(filter@.packets =~= Set::empty());
    } else {
        assert(names.contains(names[0]));
        assert(filter@.packets.contains(names[0]));
    }
}

/// What allowing and suppressing warnings answers: the ID in hexadecimal and what was done, or
/// that it was so already.
pub proof fn law_warnings_answers(proxy: ProxyView, text: Seq<char>, id: u32)
    requires
        crate::number::number(text, 16, u32::MAX as nat) == Ok::<nat, NumberError>(id as nat),
    ensures
        ({
            let listed = proxy.filter.suppressed.contains(id);
            let about = "Warnings for packet ID "@ + crate::number::padded_hex(id as nat);
            let handled = "This packet ID is already handled by the warning filter."@;
            let allow = crate::console::reply_to(proxy, CommandView::AllowWarnings(text));
            let suppress = crate::console::reply_to(proxy, CommandView::SuppressWarnings(text));
            &&& listed ==> shows(allow, Color::Green, about + " "@ + "allow"@ + "ed"@) && shows(
                suppress,
                Color::Yellow,
                handled,
            )
            &&& !listed ==> shows(allow, Color::Yellow, handled) && shows(
                suppress,
                Color::Green,
                about + " "@ + "suppress"@ + "ed"@,
            )
        }),
{
    let allow = proxy.filter.with_suppression(id, false);
    let suppress = proxy.filter.with_suppression(id, true);
    assert(!allow.suppressed.contains(id));
    assert(suppress.suppressed.contains(id));
    if proxy.filter.suppressed.contains(id) {
        assert(suppress.suppressed =~= proxy.filter.suppressed);
        assert(suppress == proxy.filter);
    } else {
        assert(allow.suppressed =~= proxy.filter.suppressed);
        assert(allow == proxy.filter);
    }
}

/// What turning warnings on and off answers.
pub proof fn law_warnings_switch_answers(proxy: ProxyView)
    ensures
        proxy.log_warnings ==> {
            &&& shows(
                crate::console::reply_to(proxy, CommandView::WarningsOn),
                Color::Yellow,
                "Warnings are already "@ + "on"@,
            )
            &&& shows(
                crate::console::reply_to(proxy, CommandView::WarningsOff),
                Color::Green,
                "Warnings turned "@ + "off"@,
            )
        },
        !proxy.log_warnings ==> {
            &&& shows(
                crate::console::reply_to(proxy, CommandView::WarningsOn),
                Color::Green,
                "Warnings turned "@ + "on"@,
            )
            &&& shows(
                crate::console::reply_to(proxy, CommandView::WarningsOff),
                Color::Yellow,
                "Warnings are already "@ + "off"@,
            )
        },
        crate::command::warnings_after(proxy.log_warnings, "on"@),
        !crate::command::warnings_after(proxy.log_warnings, "off"@),
{
    reveal_strlit("on");
    reveal_strlit("off");
    assert("on"@.len() != "off"@.len());
}

/// What `mbdl` answers: the limit in decimal, which reads back as the limit, or that there is none
/// any more.
pub proof fn law_limit_answers(proxy: ProxyView, length: usize)
    ensures
        ({
            let reply = crate::console::reply_to(proxy, CommandView::LimitBuffer(length));
            let shown = crate::number::digits(length as nat, 10);
            &&& shows(
                reply,
                Color::Green,
                "Buffer display length limit set to "@ + shown + " bytes"@,
            )
            &&& crate::number::number(shown, 10, usize::MAX as nat) == Ok::<nat, NumberError>(
                length as nat,
            )
        }),
        shows(
            crate::console::reply_to(proxy, CommandView::RemoveBufferLimit),
            Color::Green,
            "Removed buffer display length limit."@,
        ),
{
    crate::number::law_number_reads_back(length as nat, 10, usize::MAX as nat);
}

/// What is left to be decoded, measured or explained.
pub proof fn law_other_answers(proxy: ProxyView, text: Seq<char>)
    ensures
        match crate::command::byte_values(crate::text::split(text, ' ')) {
            Ok(bytes) => {
                &&& crate::console::reply_to(proxy, CommandView::Varint(text)) == Ok::<
                    ReplyView,
                    Seq<char>,
                >(ReplyView::DecodeVarint(bytes))
                &&& crate::console::reply_to(proxy, CommandView::Text(text)) == Ok::<
                    ReplyView,
                    Seq<char>,
                >(ReplyView::DecodeText(bytes))
            },
            Err(error) => {
                &&& crate::console::reply_to(proxy, CommandView::Varint(text)) == Err::<
                    ReplyView,
                    Seq<char>,
                >("Failed to parse bytes: "@ + error.message())
                &&& crate::console::reply_to(proxy, CommandView::Text(text)) == Err::<
                    ReplyView,
                    Seq<char>,
                >("Failed to parse bytes: "@ + error.message())
            },
        },
        crate::console::reply_to(proxy, CommandView::Metrics) == Ok::<ReplyView, Seq<char>>(
            ReplyView::ShowMetrics,
        ),
        crate::console::reply_to(proxy, CommandView::Help) == Ok::<ReplyView, Seq<char>>(
            ReplyView::Show(crate::help::help()),
        ),
        crate::console::reply_to(proxy, CommandView::FilterHelp) == Ok::<ReplyView, Seq<char>>(
            ReplyView::Show(crate::help::filter_help()),
        ),
        crate::console::reply_to(proxy, CommandView::WarningsHelp) == Ok::<ReplyView, Seq<char>>(
            ReplyView::Show(crate::help::warnings_help()),
        ),
{
}

/// What `varint` answers: the bytes that the number took, and the number in decimal, which reads
/// back as the number that was decoded, with a minus before it where it is negative.
pub proof fn law_varint_answer(bytes: Seq<u8>, value: i64, length: int)
    requires
        0 <= length <= bytes.len(),
    ensures
        ({
            let answer = crate::command::varint_answer(bytes, value as int, length);
            let start = "varint(["@ + crate::util::hex_list(bytes.take(length)) + "]) = "@;
            let shown = answer[0].1.skip(start.len() as int);
            &&& answer.len() == 1
            &&& answer[0].0 == Color::White
            &&& answer[0].1 == start + shown
            &&& value >= 0 ==> crate::number::number(shown, 10, i64::MAX as nat) == Ok::<
                nat,
                NumberError,
            >(value as nat)
            &&& value < 0 ==> shown.len() > 1 && shown[0] == '-' && crate::number::number(
                shown.drop_first(),
                10,
                (i64::MAX + 1) as nat,
            ) == Ok::<nat, NumberError>((-value) as nat)
        }),
{
    let start = "varint(["@ + crate::util::hex_list(bytes.take(length)) + "]) = "@;
    let answer = crate::command::varint_answer(bytes, value as int, length);
    let number = crate::number::decimal(value as int);
    assert(answer[0].1 =~= start + number);
    assert((start + number).skip(start.len() as int) =~= number);
    crate::number_laws::law_decimals(value as int, 0, (i64::MAX + 1) as nat);
    if value >= 0 {
        crate::number_laws::law_decimals(value as int, 0, i64::MAX as nat);
    }
}

/// Different numbers that were decoded are answered differently.
pub proof fn law_varint_answers_differ(bytes: Seq<u8>, value: i64, other: i64, length: int)
    requires
        0 <= length <= bytes.len(),
        value != other,
    ensures
        crate::command::varint_answer(bytes, value as int, length) != crate::command::varint_answer(
            bytes,
            other as int,
            length,
        ),
{
    let start = "varint(["@ + crate::util::hex_list(bytes.take(length)) + "]) = "@;
    let left = crate::number::decimal(value as int);
    let right = crate::number::decimal(other as int);
    crate::number_laws::law_decimals(value as int, other as int, (i64::MAX + 1) as nat);
    assert((start + left).skip(start.len() as int) =~= left);
    assert((start + right).skip(start.len() as int) =~= right);
    let answer = crate::command::varint_answer(bytes, value as int, length);
    let other_answer = crate::command::varint_answer(bytes, other as int, length);
    assert(answer[0].1 =~= start + left);
    assert(other_answer[0].1 =~= start + right);
}

/// What `string` answers: the bytes that the text took, whole where they are twelve at most, the
/// text itself, and how many bytes of UTF-8 it has, in decimal that reads back as that many.
pub proof fn law_string_answer(bytes: Seq<u8>, value: Seq<char>, length: int)
    requires
        0 <= length <= bytes.len(),
    ensures
        ({
            let answer = crate::command::string_answer(bytes, value, length);
            let read = bytes.take(length);
            let list = if length <= 12 {
                "["@ + crate::util::hex_list(read) + "]"@
            } else {
                "["@ + crate::util::hex_list(read.take(4)) + " ... "@ + crate::util::hex_list(
                    read.skip(length - 4),
                ) + "]"@
            };
            let size = vstd::utf8::encode_utf8(value).len();
            let shown = crate::number::digits(size, 10);
            &&& answer.len() == 1
            &&& answer[0].0 == Color::White
            &&& answer[0].1 == "string("@ + list + ") = \""@ + value + "\" (length "@ + shown
                + ")"@
            &&& crate::number::number(shown, 10, size) == Ok::<nat, NumberError>(size)
        }),
{
    let size = vstd::utf8::encode_utf8(value).len();
    crate::number::law_number_reads_back(size, 10, size);
}

/// The answers that the commands give by themselves are those that they give as replies.
pub proof fn law_answers_agree(proxy: ProxyView, command: CommandView)
    ensures
        ({
            let changed = crate::console::settings_after(proxy, command).filter != proxy.filter;
            let reply = crate::console::reply_to(proxy, command);
            match command {
                CommandView::Pause => reply == Ok::<ReplyView, Seq<char>>(
                    ReplyView::Show(crate::command::pause_answer(proxy.log_packets)),
                ),
                CommandView::Resume => reply == Ok::<ReplyView, Seq<char>>(
                    ReplyView::Show(crate::command::resume_answer(proxy.log_packets)),
                ),
                CommandView::AllowPacket(_) => reply == Ok::<ReplyView, Seq<char>>(
                    ReplyView::Show(crate::command::update_filter_answer(changed)),
                ),
                CommandView::DenyPacket(_) => reply == Ok::<ReplyView, Seq<char>>(
                    ReplyView::Show(crate::command::update_filter_answer(changed)),
                ),
                CommandView::EnableFilter => reply == Ok::<ReplyView, Seq<char>>(
                    ReplyView::Show(
                        crate::command::set_filter_enabled_answer("enable"@, changed),
                    ),
                ),
                CommandView::DisableFilter => reply == Ok::<ReplyView, Seq<char>>(
                    ReplyView::Show(
                        crate::command::set_filter_enabled_answer("disable"@, changed),
                    ),
                ),
                CommandView::WarningsOn => reply == Ok::<ReplyView, Seq<char>>(
                    ReplyView::Show(
                        crate::command::set_warnings_enabled_answer(proxy.log_warnings, "on"@),
                    ),
                ),
                CommandView::WarningsOff => reply == Ok::<ReplyView, Seq<char>>(
                    ReplyView::Show(
                        crate::command::set_warnings_enabled_answer(proxy.log_warnings, "off"@),
                    ),
                ),
                _ => true,
            }
        }),
{
}

/// What the answers say is made of the words that they are given, and is green where something
/// changed and yellow where it did not. A mode that is neither on nor off leaves warnings as they
/// are.
pub proof fn law_answer_texts(
    color: Color,
    text: Seq<char>,
    action: Seq<char>,
    id: nat,
    logging: bool,
)
    ensures
        crate::command::plain(color, text) == seq![(color, text)],
        crate::command::update_filter_answer(true) == seq![
            (Color::Green, "Filter successfully updated"@),
        ],
        crate::command::update_filter_answer(false) == seq![
            (Color::Yellow, "This packet is already handled by the filter."@),
        ],
        crate::command::set_filter_enabled_answer(action, true) == seq![
            (Color::Green, "Packet filter "@ + action + "d"@),
        ],
        crate::command::set_filter_enabled_answer(action, false) == seq![
            (Color::Yellow, "The filter is already "@ + action + "d"@),
        ],
        crate::command::update_warnings_answer(action, id, true) == seq![
            (
                Color::Green,
                "Warnings for packet ID "@ + crate::number::padded_hex(id) + " "@ + action + "ed"@,
            ),
        ],
        crate::command::update_warnings_answer(action, id, false) == seq![
            (Color::Yellow, "This packet ID is already handled by the warning filter."@),
        ],
        logging == (action == "off"@) ==> crate::command::set_warnings_enabled_answer(
            logging,
            action,
        ) == seq![(Color::Green, "Warnings turned "@ + action)],
        logging != (action == "off"@) ==> crate::command::set_warnings_enabled_answer(
            logging,
            action,
        ) == seq![(Color::Yellow, "Warnings are already "@ + action)],
        action != "on"@ && action != "off"@ ==> crate::command::warnings_after(logging, action)
            == logging,
{
}

/// Texts in turn in a colour and in white.
pub open spec fn in_turn(color: Color, texts: Seq<Seq<char>>) -> Seq<(Color, Seq<char>)> {
    Seq::new(
        texts.len(),
        |i: int|
            (
                if i % 2 == 0 {
                    color
                } else {
                    Color::White
                },
                texts[i],
            ),
    )
}

/// The help has an entry for each command that it explains, with the fixed words of the command in
/// gold and what to put in for the others in white, and with examples in aqua.
pub proof fn law_help()
    ensures
        crate::help::help() == in_turn(
            Color::Gold,
            seq![
                "stop: "@,
                "Stops the proxy and exits the program. It may take a few moments for the program to halt if there are still active connections.\n"@,
                "pause: "@,
                "Pauses all logging of packets and warnings. Errors and general info messages will still be logged.\n"@,
                "resume: "@,
                "Resumes all logging of packets and warnings.\n"@,
            ],
        ) + in_turn(
            Color::Gold,
            seq![
                "filter <"@,
                "action"@,
                "> ["@,
                "params..."@,
                "]: "@,
                "Updates the packet filter based on the given action and parameters. Type "@,
            ],
        ) + in_turn(Color::Aqua, seq!["filter -help"@, " for more information.\n"@]) + in_turn(
            Color::Gold,
            seq![
                "varint <"@,
                "bytes..."@,
                ">: "@,
                "Parses the given list of bytes as a varint, for example "@,
            ],
        ) + in_turn(
            Color::Aqua,
            seq![
                "varint 85 07 00"@,
                " yields the output "@,
                "varint([85, 07]) = 901"@,
                ". Trailing commas on the bytes will be ignored.\n"@,
            ],
        ) + in_turn(
            Color::Gold,
            seq![
                "string <"@,
                "bytes..."@,
                ">: "@,
                "Parses the given list of bytes as a string, for example "@,
            ],
        ) + in_turn(
            Color::Aqua,
            seq![
                "string 05 68 65 6C 6C 6F FF FF"@,
                " yields the output "@,
                "string([05, 68, 65, 6C, 6C, 6F]) = \"hello\" (length 5)"@,
                ". Trailing commas on the bytes will be ignored.\n"@,
            ],
        ) + in_turn(
            Color::Gold,
            seq![
                "warnings <"@,
                "action"@,
                "> ["@,
                "params..."@,
                "]: "@,
                "Updates the warnings filter based on the given action and parameters. Type "@,
            ],
        ) + in_turn(Color::Aqua, seq!["warnings -help"@, " for more information.\n"@]) + in_turn(
            Color::Gold,
            seq![
                "mbdl <"@,
                "length"@,
                ">: "@,
                "Sets the maximum display length when displaying packet buffers to the console. Entering "@,
            ],
        ) + in_turn(Color::Aqua, seq!["mbdl none"@, " will remove the display length limit."@]),
{
}

/// The help on the filter has an entry for each of its actions, with the fixed words in gold and
/// the others in white.
pub proof fn law_filter_help()
    ensures
        crate::help::filter_help() == in_turn(
            Color::Gold,
            seq![
                "filter <"@,
                "allow"@,
                "|"@,
                "deny"@,
                "> <"@,
                "packet-name"@,
                ">: "@,
                "Allows or denies logging of the packet with the given name. This name is case insensitive, but should match the variant name of the packet in its corresponding enum.\n"@,
            ],
        ) + in_turn(
            Color::Gold,
            seq![
                "filter <"@,
                "enable"@,
                "|"@,
                "disable"@,
                ">: "@,
                "Enables or disables the filter.\n"@,
                "filter reset: "@,
                "Resets the filter, clearing any entries.\n"@,
            ],
        ) + in_turn(
            Color::Gold,
            seq![
                "filter reset-as <"@,
                "whitelist"@,
                "|"@,
                "blacklist"@,
                ">: "@,
                "Resets the filter and changes its mode to the given mode. Whitelist filters allow logging of packets in the filter, whereas blacklist filters only allow logging of packets not in the filter.\n"@,
                "filter display: "@,
                "Displays the contents and mode of the packet filter."@,
            ],
        ),
{
}

/// The help on warnings has an entry for each of their actions and one for the metrics, with the
/// fixed words in gold and the others in white.
pub proof fn law_warnings_help()
    ensures
        crate::help::warnings_help() == in_turn(
            Color::Gold,
            seq![
                "warnings <"@,
                "allow"@,
                "|"@,
                "suppress"@,
                "> <"@,
                "packet-id"@,
                ">: "@,
                "Allows or denies warnings associated with the given packet ID. The ID should be in hexadecimal form without any prefix, such as \"2A\" for example.\n"@,
            ],
        ) + in_turn(
            Color::Gold,
            seq![
                "warnings <"@,
                "on"@,
                "|"@,
                "off"@,
                ">: "@,
                "Enables or disables the logging of warnings associated with packet parsing. Other warnings will still be logged.\n"@,
                "metrics: "@,
                "Displays the proxy metrics. Currently this just displays the approximate rate of packet processing in megabits per second."@,
            ],
        ),
{
}

} // verus!
