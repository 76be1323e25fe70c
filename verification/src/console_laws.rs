//! What holds of every command line, and of what the console shows.
use vstd::prelude::*;

use crate::console::ReplyView;
use crate::grammar::CommandView;
use crate::number::NumberError;
use crate::proxy::ProxyView;

verus! {

/// A command given twice sets what it sets once.
pub proof fn law_commands_repeat(proxy: ProxyView, command: CommandView)
    ensures
        crate::console::settings_after(crate::console::settings_after(proxy, command), command)
            == crate::console::settings_after(proxy, command),
{
    let once = crate::console::settings_after(proxy, command);
    let twice = crate::console::settings_after(once, command);
    assert(twice.filter.packets =~= once.filter.packets);
    assert(twice.filter.suppressed =~= once.filter.suppressed);
}

/// A line that is answered with an error changes no setting.
pub proof fn law_errors_change_nothing(proxy: ProxyView, line: Seq<char>)
    requires
        crate::console::reply_to_line(proxy, line) is Err,
    ensures
        crate::console::settings_after_line(proxy, line) == proxy,
{
}

/// To resume logging takes back what to pause it has done, and nothing else.
pub proof fn law_resume_after_pause(proxy: ProxyView)
    ensures
        !crate::console::settings_after(proxy, CommandView::Pause).log_packets,
        crate::console::settings_after(
            crate::console::settings_after(proxy, CommandView::Pause),
            CommandView::Resume,
        ) == (ProxyView { log_packets: true, ..proxy }),
{
}

/// Turning warnings on takes back what turning them off has done, and nothing else.
pub proof fn law_warnings_on_after_off(proxy: ProxyView)
    ensures
        !crate::console::settings_after(proxy, CommandView::WarningsOff).log_warnings,
        crate::console::settings_after(
            crate::console::settings_after(proxy, CommandView::WarningsOff),
            CommandView::WarningsOn,
        ) == (ProxyView { log_warnings: true, ..proxy }),
{
}

/// Commands that ask for something to be shown change no setting.
pub proof fn law_questions_change_nothing(proxy: ProxyView, command: CommandView)
    requires
        command is Help || command is FilterHelp || command is WarningsHelp
            || command is DisplayFilter || command is Varint || command is Text
            || command is Metrics,
    ensures
        crate::console::settings_after(proxy, command) == proxy,
{
}

/// A buffer that is no longer than the limit is shown whole.
pub proof fn law_short_buffers_are_whole(bytes: Seq<u8>, limit: nat)
    requires
        bytes.len() <= limit,
    ensures
        crate::util::rendering(bytes, limit) == "["@ + crate::util::hex_list(bytes) + "]"@,
{
}

/// Once the limit is removed, every buffer is shown whole.
pub proof fn law_without_limit_all_is_shown(proxy: ProxyView, bytes: Seq<u8>)
    requires
        bytes.len() <= usize::MAX,
    ensures
        crate::util::rendering(
            bytes,
            crate::console::settings_after(
                proxy,
                CommandView::RemoveBufferLimit,
            ).max_buffer_display_length as nat,
        ) == "["@ + crate::util::hex_list(bytes) + "]"@,
{
}

/// Of a buffer that is longer than the limit, as many bytes are shown from its start as from its
/// end. No byte is shown twice, no more are shown than the limit says, and from a limit of ten on
/// three at least are shown at either end.
pub proof fn law_long_buffers_are_cut(bytes: Seq<u8>, limit: nat)
    requires
        bytes.len() > limit,
    ensures
        ({
            let shown = (limit / 3) as int;
            let head = bytes.take(shown);
            let tail = bytes.skip(bytes.len() - shown);
            &&& crate::util::rendering(bytes, limit) == "["@ + crate::util::hex_list(head)
                + " ... "@ + crate::util::hex_list(tail) + "]"@
            &&& head.len() == shown
            &&& tail.len() == shown
            &&& head.len() + tail.len() <= limit
            &&& head.len() <= bytes.len() - tail.len()
            &&& limit >= 10 ==> shown >= 3
        }),
{
}

/// `parts` with a comma after those that `commas` says.
pub open spec fn with_commas(parts: Seq<Seq<char>>, commas: Seq<bool>) -> Seq<Seq<char>> {
    Seq::new(
        parts.len(),
        |i: int|
            if commas[i] {
                parts[i].push(',')
            } else {
                parts[i]
            },
    )
}

/// Trailing commas on the bytes are ignored, wherever they stand.
pub proof fn law_trailing_commas_are_ignored(parts: Seq<Seq<char>>, commas: Seq<bool>)
    requires
        commas.len() == parts.len(),
        forall|i: int|
            0 <= i < parts.len() && (#[trigger] parts[i]).len() > 0 ==> parts[i].last() != ',',
    ensures
        crate::command::byte_values(with_commas(parts, commas)) == crate::command::byte_values(
            parts,
        ),
    decreases parts.len(),
{
    let marked = with_commas(parts, commas);
    if parts.len() > 0 {
        let rest = parts.drop_first();
        assert(marked.drop_first() =~= with_commas(rest, commas.drop_first()));
        assert forall|i: int| 0 <= i < rest.len() && (#[trigger] rest[i]).len() > 0 implies
            rest[i].last() != ',' by {
            assert(rest[i] == parts[i + 1]);
        }
        law_trailing_commas_are_ignored(rest, commas.drop_first());
        assert(parts[0].push(',').drop_last() =~= parts[0]);
        assert(crate::command::without_comma(marked[0]) == crate::command::without_comma(
            parts[0],
        ));
    } else {
        assert(marked =~= parts);
    }
}

/// Bytes as numbers with two hexadecimal digits each.
pub open spec fn hex_parts(bytes: Seq<u8>) -> Seq<Seq<char>> {
    bytes.map_values(|byte: u8| crate::number::padded_hex(byte as nat))
}

/// The numbers of bytes are read as the bytes.
proof fn lemma_hex_parts(bytes: Seq<u8>)
    ensures
        crate::command::byte_values(hex_parts(bytes)) == Ok::<Seq<u8>, NumberError>(bytes),
        forall|i: int|
            0 <= i < bytes.len() ==> {
                &&& (#[trigger] hex_parts(bytes)[i]).len() > 0
                &&& hex_parts(bytes)[i].last() != ','
            },
    decreases bytes.len(),
{
    let parts = hex_parts(bytes);
    if bytes.len() > 0 {
        let rest = bytes.drop_first();
        lemma_hex_parts(rest);
        assert(parts.drop_first() =~= hex_parts(rest));
        crate::number::lemma_digits(bytes[0] as nat, 16);
        crate::number::law_padded_hex_reads_back(bytes[0] as nat, 255);
        assert(parts[0] == crate::number::padded_hex(bytes[0] as nat));
        assert(parts[0].last() != ',');
        assert(seq![bytes[0]] + rest =~= bytes);
        assert forall|i: int| 0 <= i < bytes.len() implies {
            &&& (#[trigger] parts[i]).len() > 0
            &&& parts[i].last() != ','
        } by {
            if i > 0 {
                assert(parts[i] == hex_parts(rest)[i - 1]);
            }
        }
    } else {
        assert(bytes =~= Seq::empty());
    }
}

/// Texts that are read as bytes are not empty and hold no space.
proof fn lemma_byte_parts(parts: Seq<Seq<char>>)
    requires
        crate::command::byte_values(parts) is Ok,
    ensures
        forall|i: int|
            0 <= i < parts.len() ==> (#[trigger] parts[i]).len() > 0 && !parts[i].contains(' '),
    decreases parts.len(),
{
    if parts.len() > 0 {
        let rest = parts.drop_first();
        lemma_byte_parts(rest);
        let number = crate::command::without_comma(parts[0]);
        crate::number::lemma_number_characters(number, 16, 255);
        assert forall|k: int| 0 <= k < parts[0].len() implies parts[0][k] != ' ' by {
            if k < number.len() {
                assert(parts[0][k] == number[k]);
            }
        }
        assert forall|i: int| 0 <= i < parts.len() implies (#[trigger] parts[i]).len() > 0
            && !parts[i].contains(' ') by {
            if i > 0 {
                assert(parts[i] == rest[i - 1]);
            }
        }
    }
}

proof fn lemma_join_push(parts: Seq<Seq<char>>, ch: char, separator: Seq<char>)
    requires
        parts.len() > 0,
    ensures
        crate::text::join(parts.drop_last().push(parts.last().push(ch)), separator)
            == crate::text::join(parts, separator).push(ch),
{
    let longer = parts.drop_last().push(parts.last().push(ch));
    assert(longer.drop_last() =~= parts.drop_last());
    assert(crate::text::join(longer, separator) =~= crate::text::join(parts, separator).push(ch));
}

/// Commas on all of `count` texts but the last.
pub open spec fn inner_commas(count: nat) -> Seq<bool> {
    Seq::new(count, |i: int| i < count - 1)
}

/// Texts with a comma and a space between them are texts with commas and a space between them.
proof fn lemma_join_commas(parts: Seq<Seq<char>>)
    requires
        parts.len() > 0,
    ensures
        crate::text::join(parts, ", "@) == crate::text::join(
            with_commas(parts, inner_commas(parts.len())),
            seq![' '],
        ),
    decreases parts.len(),
{
    reveal_strlit(", ");
    let marked = with_commas(parts, inner_commas(parts.len()));
    if parts.len() > 1 {
        let front = parts.drop_last();
        let marked_front = with_commas(front, inner_commas(front.len()));
        lemma_join_commas(front);
        lemma_join_push(marked_front, ',', seq![' ']);
        assert(marked.drop_last() =~= marked_front.drop_last().push(
            marked_front.last().push(','),
        ));
        assert(crate::text::join(parts, ", "@) =~= crate::text::join(marked, seq![' ']));
    }
}

/// Bytes that the proxy shows can be given to `varint` and `string` as they are shown.
pub proof fn law_shown_bytes_read_back(bytes: Seq<u8>)
    requires
        bytes.len() > 0,
    ensures
        crate::command::byte_list(crate::util::hex_list(bytes)) == Ok::<Seq<u8>, NumberError>(
            bytes,
        ),
{
    let parts = hex_parts(bytes);
    let marked = with_commas(parts, inner_commas(parts.len()));
    lemma_hex_parts(bytes);
    lemma_join_commas(parts);
    law_trailing_commas_are_ignored(parts, inner_commas(parts.len()));
    lemma_byte_parts(marked);
    crate::text::lemma_split_join(marked, ' ');
}

/// A word, a space and more of a line: the word is the first argument, and then the rest is
/// unread.
proof fn lemma_word_and_more(word: Seq<char>, more: Seq<char>)
    requires
        crate::arguments::is_word(word),
        more.len() > 0,
        more[0] != ' ',
    ensures
        crate::arguments::skip_spaces(word.push(' ') + more) == word.push(' ') + more,
        crate::grammar::argument(word.push(' ') + more) == word,
        crate::grammar::rest(word.push(' ') + more) == seq![' '] + more,
        crate::arguments::skip_spaces(seq![' '] + more) == more,
        crate::grammar::command_in(word.push(' ') + more) == Some(
            crate::grammar::named_command(word, seq![' '] + more),
        ),
{
    assert(word.push(' ') + more =~= word + (seq![' '] + more));
    crate::arguments::law_word_is_argument(word, seq![' '] + more);
    assert((seq![' '] + more).drop_first() =~= more);
    reveal_with_fuel(crate::arguments::skip_spaces, 2);
}

/// A space and a last word: the word is the next argument, and then nothing is unread.
proof fn lemma_last_word(word: Seq<char>)
    requires
        crate::arguments::is_word(word),
    ensures
        crate::grammar::argument(seq![' '] + word) == word,
        crate::grammar::rest(seq![' '] + word).len() == 0,
        crate::arguments::unquoted(word) == word,
{
    assert(word + Seq::empty() =~= word);
    crate::arguments::law_word_is_argument(word, Seq::empty());
    assert((seq![' '] + word).drop_first() =~= word);
    reveal_with_fuel(crate::arguments::skip_spaces, 2);
}

/// A space and two words: they are the next arguments, and then nothing is unread.
proof fn lemma_two_words(first: Seq<char>, second: Seq<char>)
    requires
        crate::arguments::is_word(first),
        crate::arguments::is_word(second),
    ensures
        crate::grammar::argument(seq![' '] + (first.push(' ') + second)) == first,
        crate::grammar::rest(seq![' '] + (first.push(' ') + second)) == seq![' '] + second,
        crate::grammar::argument(seq![' '] + second) == second,
        crate::grammar::rest(seq![' '] + second).len() == 0,
        crate::arguments::unquoted(second) == second,
{
    let words = first.push(' ') + second;
    lemma_word_and_more(first, second);
    lemma_last_word(second);
    assert((seq![' '] + words).drop_first() =~= words);
    reveal_with_fuel(crate::arguments::skip_spaces, 2);
}

/// The names of commands that take arguments are words, and each is the name of one command.
proof fn lemma_command_names(unread: Seq<char>)
    ensures
        crate::arguments::is_word("filter"@),
        crate::arguments::is_word("varint"@),
        crate::arguments::is_word("string"@),
        crate::arguments::is_word("warnings"@),
        crate::arguments::is_word("mbdl"@),
        crate::grammar::named_command("filter"@, unread) == crate::grammar::filter_command(unread),
        unread.len() > 0 ==> crate::grammar::named_command("varint"@, unread) == Ok::<
            CommandView,
            Seq<char>,
        >(CommandView::Varint(crate::arguments::skip_spaces(unread))),
        unread.len() > 0 ==> crate::grammar::named_command("string"@, unread) == Ok::<
            CommandView,
            Seq<char>,
        >(CommandView::Text(crate::arguments::skip_spaces(unread))),
        crate::grammar::named_command("warnings"@, unread) == crate::grammar::warnings_command(
            unread,
        ),
        crate::grammar::named_command("mbdl"@, unread) == crate::grammar::limit_command(unread),
{
    reveal_strlit("help");
    reveal_strlit("pause");
    reveal_strlit("resume");
    reveal_strlit("filter");
    reveal_strlit("varint");
    reveal_strlit("string");
    reveal_strlit("warning");
    reveal_strlit("warnings");
    reveal_strlit("mbdl");
    assert("help"@[0] == 'h' && "pause"@[0] == 'p' && "resume"@[0] == 'r' && "filter"@[0] == 'f'
        && "varint"@[0] == 'v' && "string"@[0] == 's' && "warning"@[0] == 'w' && "warnings"@[0]
        == 'w' && "mbdl"@[0] == 'm');
}

/// The actions that take an argument are words, do not ask for help and differ.
proof fn lemma_actions()
    ensures
        crate::arguments::is_word("allow"@),
        crate::arguments::is_word("deny"@),
        crate::arguments::is_word("suppress"@),
        !crate::grammar::asks_for_help("allow"@),
        !crate::grammar::asks_for_help("deny"@),
        !crate::grammar::asks_for_help("suppress"@),
        "allow"@ != "deny"@,
        "allow"@ != "suppress"@,
{
    reveal_strlit("allow");
    reveal_strlit("deny");
    reveal_strlit("suppress");
    reveal_strlit("help");
    reveal_strlit("-help");
    reveal_strlit("--help");
    reveal_strlit("-h");
    reveal_strlit("--h");
    assert("allow"@[0] == 'a' && "deny"@[0] == 'd' && "suppress"@[0] == 's' && "help"@[0] == 'h'
        && "-help"@[0] == '-' && "--help"@[0] == '-' && "-h"@[0] == '-' && "--h"@[0] == '-');
}

/// The line `filter allow` or `filter deny` with a packet name.
pub open spec fn filter_line(name: Seq<char>, deny: bool) -> Seq<char> {
    (if deny {
        "filter deny "@
    } else {
        "filter allow "@
    }) + name
}

proof fn lemma_filter_line(name: Seq<char>, deny: bool)
    requires
        crate::arguments::is_word(name),
    ensures
        crate::grammar::command_in(filter_line(name, deny)) == Some(
            Ok::<CommandView, Seq<char>>(
                if deny {
                    CommandView::DenyPacket(name)
                } else {
                    CommandView::AllowPacket(name)
                },
            ),
        ),
{
    let action = if deny {
        "deny"@
    } else {
        "allow"@
    };
    let arguments = action.push(' ') + name;
    assert(filter_line(name, deny) =~= "filter"@.push(' ') + arguments) by {
        reveal_strlit("filter deny ");
        reveal_strlit("filter allow ");
        reveal_strlit("filter");
        reveal_strlit("allow");
        reveal_strlit("deny");
    }
    lemma_actions();
    lemma_command_names(seq![' '] + arguments);
    assert(arguments[0] == action[0]);
    lemma_word_and_more("filter"@, arguments);
    lemma_two_words(action, name);
}

/// `filter allow` has the packets of a name logged, `filter deny` has them left out, and other
/// packets are treated as before, as long as the filter is on.
pub proof fn law_filter_line(proxy: ProxyView, name: Seq<char>, deny: bool, packet: Seq<char>)
    requires
        crate::arguments::is_word(name),
        !proxy.filter.disabled,
    ensures
        crate::grammar::command_in(filter_line(name, deny)) == Some(
            Ok::<CommandView, Seq<char>>(
                if deny {
                    CommandView::DenyPacket(name)
                } else {
                    CommandView::AllowPacket(name)
                },
            ),
        ),
        ({
            let after = crate::console::settings_after_line(proxy, filter_line(name, deny));
            &&& crate::filter_laws::is_named(packet, name) ==> after.filter.logs(packet) == !deny
            &&& !crate::filter_laws::is_named(packet, name) ==> after.filter.logs(packet)
                == proxy.filter.logs(packet)
            &&& after == (ProxyView { filter: after.filter, ..proxy })
        }),
{
    lemma_filter_line(name, deny);
    crate::filter_laws::law_update_decides(proxy.filter, name, deny, packet);
}

/// The line `warnings allow` or `warnings suppress` with a packet ID.
pub open spec fn warnings_line(id: Seq<char>, suppress: bool) -> Seq<char> {
    (if suppress {
        "warnings suppress "@
    } else {
        "warnings allow "@
    }) + id
}

proof fn lemma_warnings_line(id: Seq<char>, suppress: bool)
    requires
        crate::command::packet_id(id) is Ok,
    ensures
        crate::grammar::command_in(warnings_line(id, suppress)) == Some(
            Ok::<CommandView, Seq<char>>(
                if suppress {
                    CommandView::SuppressWarnings(id)
                } else {
                    CommandView::AllowWarnings(id)
                },
            ),
        ),
{
    let action = if suppress {
        "suppress"@
    } else {
        "allow"@
    };
    let arguments = action.push(' ') + id;
    assert(warnings_line(id, suppress) =~= "warnings"@.push(' ') + arguments) by {
        reveal_strlit("warnings suppress ");
        reveal_strlit("warnings allow ");
        reveal_strlit("warnings");
        reveal_strlit("suppress");
        reveal_strlit("allow");
    }
    crate::number::lemma_number_characters(id, 16, u32::MAX as nat);
    assert(crate::arguments::is_word(id));
    lemma_actions();
    lemma_command_names(seq![' '] + arguments);
    assert(arguments[0] == action[0]);
    lemma_word_and_more("warnings"@, arguments);
    lemma_two_words(action, id);
}

/// `warnings suppress` has the warnings about a packet ID held back, `warnings allow` has them
/// logged, and other IDs are treated as before, as long as the filter is on. That is so however
/// the ID is written in hexadecimal: in capitals or small letters, and with zeros before it or
/// not.
pub proof fn law_warnings_line(
    proxy: ProxyView,
    text: Seq<char>,
    id: u32,
    suppress: bool,
    other: u32,
)
    requires
        crate::command::packet_id(text) == Ok::<nat, NumberError>(id as nat),
        !proxy.filter.disabled,
    ensures
        ({
            let after = crate::console::settings_after_line(proxy, warnings_line(text, suppress));
            &&& after.filter.suppresses(id) == suppress
            &&& other != id ==> after.filter.suppresses(other) == proxy.filter.suppresses(other)
            &&& after == (ProxyView { filter: after.filter, ..proxy })
            &&& crate::console::reply_to_line(proxy, warnings_line(text, suppress)) is Ok
        }),
{
    lemma_warnings_line(text, suppress);
}

/// `mbdl` with a number sets the limit to that number, and nothing else, whatever zeros stand
/// before the number.
pub proof fn law_limit_line(proxy: ProxyView, text: Seq<char>, length: usize)
    requires
        crate::grammar::all_digits(text),
        crate::number::number(text, 10, usize::MAX as nat) == Ok::<nat, NumberError>(
            length as nat,
        ),
    ensures
        crate::console::settings_after_line(proxy, "mbdl "@ + text) == (ProxyView {
            max_buffer_display_length: length,
            ..proxy
        }),
{
    assert(crate::arguments::is_word(text));
    assert("mbdl "@ + text =~= "mbdl"@.push(' ') + text) by {
        reveal_strlit("mbdl ");
        reveal_strlit("mbdl");
    }
    lemma_command_names(seq![' '] + text);
    lemma_word_and_more("mbdl"@, text);
    lemma_last_word(text);
}

/// `mbdl` sets every limit there is, by the decimal digits of it.
pub proof fn law_every_limit_can_be_set(proxy: ProxyView, length: usize)
    ensures
        crate::console::settings_after_line(
            proxy,
            "mbdl "@ + crate::number::digits(length as nat, 10),
        ) == (ProxyView { max_buffer_display_length: length, ..proxy }),
{
    let text = crate::number::digits(length as nat, 10);
    crate::number::lemma_digits(length as nat, 10);
    crate::number::law_number_reads_back(length as nat, 10, usize::MAX as nat);
    law_limit_line(proxy, text, length);
}

/// What is to be decoded where `parts` are given as bytes, or the error in them.
pub open spec fn decoding(
    parts: Seq<Seq<char>>,
    reply: spec_fn(Seq<u8>) -> ReplyView,
) -> Result<ReplyView, Seq<char>> {
    match crate::command::byte_values(parts) {
        Ok(bytes) => Ok(reply(bytes)),
        Err(error) => Err("Failed to parse bytes: "@ + error.message()),
    }
}

proof fn lemma_join_start(parts: Seq<Seq<char>>, separator: Seq<char>)
    requires
        parts.len() > 0,
        parts[0].len() > 0,
    ensures
        crate::text::join(parts, separator).len() > 0,
        crate::text::join(parts, separator)[0] == parts[0][0],
    decreases parts.len(),
{
    if parts.len() > 1 {
        lemma_join_start(parts.drop_last(), separator);
    }
}

/// What `varint` and `string` are to decode are the bytes that the texts behind them stand for,
/// with single spaces between the texts, and with commas behind some of them or not. Where a text
/// stands for no byte, the first error is answered.
pub proof fn law_decoding_lines(proxy: ProxyView, parts: Seq<Seq<char>>)
    requires
        parts.len() > 0,
        parts[0].len() > 0,
        forall|i: int| 0 <= i < parts.len() ==> !(#[trigger] parts[i]).contains(' '),
    ensures
        crate::console::reply_to_line(proxy, "varint "@ + crate::text::join(parts, " "@))
            == decoding(parts, |bytes: Seq<u8>| ReplyView::DecodeVarint(bytes)),
        crate::console::reply_to_line(proxy, "string "@ + crate::text::join(parts, " "@))
            == decoding(parts, |bytes: Seq<u8>| ReplyView::DecodeText(bytes)),
{
    let list = crate::text::join(parts, " "@);
    assert(" "@ =~= seq![' ']) by {
        reveal_strlit(" ");
    }
    crate::text::lemma_split_join(parts, ' ');
    lemma_join_start(parts, " "@);
    assert(!parts[0].contains(' '));
    assert(list[0] != ' ');
    assert("varint "@ + list =~= "varint"@.push(' ') + list && "string "@ + list
        =~= "string"@.push(' ') + list) by {
        reveal_strlit("varint ");
        reveal_strlit("string ");
        reveal_strlit("varint");
        reveal_strlit("string");
    }
    lemma_command_names(seq![' '] + list);
    lemma_word_and_more("varint"@, list);
    lemma_word_and_more("string"@, list);
}

/// Whatever bytes are given to `varint` and `string` as hexadecimal numbers, with single spaces
/// between them, and with commas behind some of them or not, are what is to be decoded.
pub proof fn law_given_bytes_are_decoded(proxy: ProxyView, bytes: Seq<u8>, commas: Seq<bool>)
    requires
        bytes.len() > 0,
        commas.len() == bytes.len(),
    ensures
        ({
            let list = crate::text::join(with_commas(hex_parts(bytes), commas), " "@);
            &&& crate::console::reply_to_line(proxy, "varint "@ + list) == Ok::<
                ReplyView,
                Seq<char>,
            >(ReplyView::DecodeVarint(bytes))
            &&& crate::console::reply_to_line(proxy, "string "@ + list) == Ok::<
                ReplyView,
                Seq<char>,
            >(ReplyView::DecodeText(bytes))
        }),
{
    let parts = hex_parts(bytes);
    let marked = with_commas(parts, commas);
    lemma_hex_parts(bytes);
    law_trailing_commas_are_ignored(parts, commas);
    lemma_byte_parts(marked);
    assert(marked[0].len() > 0);
    law_decoding_lines(proxy, marked);
}

/// Whether a text is but white space.
pub open spec fn is_blank(text: Seq<char>) -> bool {
    forall|i: int| 0 <= i < text.len() ==> crate::console::is_white_space(#[trigger] text[i])
}

proof fn lemma_blank_before(before: Seq<char>, text: Seq<char>)
    requires
        is_blank(before),
    ensures
        crate::console::trimmed_start(before + text) == crate::console::trimmed_start(text),
    decreases before.len(),
{
    if before.len() == 0 {
        assert(before + text =~= text);
    } else {
        let rest = before.drop_first();
        assert forall|i: int| 0 <= i < rest.len() implies crate::console::is_white_space(
            #[trigger] rest[i],
        ) by {
            assert(rest[i] == before[i + 1]);
        }
        assert((before + text).drop_first() =~= rest + text);
        assert((before + text)[0] == before[0]);
        lemma_blank_before(rest, text);
    }
}

proof fn lemma_start_of_push(text: Seq<char>, ch: char)
    requires
        crate::console::is_white_space(ch),
    ensures
        crate::console::trimmed_start(text.push(ch)) == if crate::console::trimmed_start(
            text,
        ).len() == 0 {
            Seq::empty()
        } else {
            crate::console::trimmed_start(text).push(ch)
        },
    decreases text.len(),
{
    if text.len() == 0 {
        assert(text.push(ch).drop_first() =~= Seq::empty());
        reveal_with_fuel(crate::console::trimmed_start, 2);
    } else {
        assert(text.push(ch)[0] == text[0]);
        assert(text.push(ch).drop_first() =~= text.drop_first().push(ch));
        if crate::console::is_white_space(text[0]) {
            lemma_start_of_push(text.drop_first(), ch);
        }
    }
}

proof fn lemma_blank_after(text: Seq<char>, after: Seq<char>)
    requires
        is_blank(after),
    ensures
        crate::console::trimmed(text + after) == crate::console::trimmed(text),
    decreases after.len(),
{
    if after.len() == 0 {
        assert(text + after =~= text);
    } else {
        let shorter = text + after.drop_last();
        assert forall|i: int| 0 <= i < after.drop_last().len() implies
            crate::console::is_white_space(#[trigger] after.drop_last()[i]) by {
            assert(after.drop_last()[i] == after[i]);
        }
        lemma_blank_after(text, after.drop_last());
        assert(text + after =~= shorter.push(after.last()));
        assert(crate::console::is_white_space(after[after.len() - 1]));
        lemma_start_of_push(shorter, after.last());
        let start = crate::console::trimmed_start(shorter);
        assert(start.push(after.last()).drop_last() =~= start);
    }
}

/// White space around a line makes no difference to how the line is answered and to what it
/// sets. Only `stop` has to stand by itself.
pub proof fn law_white_space_around_a_line(
    proxy: ProxyView,
    before: Seq<char>,
    line: Seq<char>,
    after: Seq<char>,
)
    requires
        is_blank(before),
        is_blank(after),
    ensures
        crate::console::trimmed(before + line + after) == crate::console::trimmed(line),
        crate::console::line_reply(proxy, before + line + after) == crate::console::line_reply(
            proxy,
            line,
        ),
        crate::console::settings_after_line(proxy, crate::console::trimmed(before + line + after))
            == crate::console::settings_after_line(proxy, crate::console::trimmed(line)),
{
    lemma_blank_after(before + line, after);
    lemma_blank_before(before, line);
}

/// A line that is but white space does nothing.
pub proof fn law_blank_lines_do_nothing(proxy: ProxyView, line: Seq<char>)
    requires
        is_blank(line),
    ensures
        crate::console::line_reply(proxy, line) == ReplyView::Nothing,
        crate::console::settings_after_line(proxy, crate::console::trimmed(line)) == proxy,
{
    lemma_blank_before(line, Seq::empty());
    assert(line + Seq::empty() =~= line);
}

/// Until a command is complete, what is suggested are the commands that begin with the line, and
/// no others.
pub proof fn law_suggests_commands(line: Seq<char>, suggested: Seq<char>)
    requires
        crate::arguments::is_word(line),
        !crate::console::command_names().contains(line),
        line != "warnings"@,
    ensures
        crate::console::suggestions(line).contains(suggested) <==> (
        crate::console::command_names().contains(suggested) && line.is_prefix_of(suggested)),
{
    assert(line + Seq::empty() =~= line);
    crate::arguments::law_word_is_argument(line, Seq::empty());
    let names = crate::console::command_names();
    assert(names[0] == "help"@ && names[1] == "pause"@ && names[2] == "resume"@ && names[3]
        == "filter"@ && names[4] == "varint"@ && names[5] == "string"@ && names[6] == "warning"@
        && names[7] == "mbdl"@ && names[8] == "metrics"@);
    let begins = |text: Seq<char>| line.is_prefix_of(text);
    assert(crate::console::suggestions(line) == names.filter(begins));
    lemma_filter_contains(names, begins, suggested);
}

proof fn lemma_filter_contains(
    texts: Seq<Seq<char>>,
    wanted: spec_fn(Seq<char>) -> bool,
    text: Seq<char>,
)
    ensures
        texts.filter(wanted).contains(text) <==> (texts.contains(text) && wanted(text)),
    decreases texts.len(),
{
    reveal(Seq::filter);
    if texts.len() > 0 {
        let front = texts.drop_last();
        lemma_filter_contains(front, wanted, text);
        assert(texts =~= front.push(texts.last()));
        if texts.contains(text) && text != texts.last() {
            let i = choose|i: int| 0 <= i < texts.len() && texts[i] == text;
            assert(front[i] == text);
        }
        if front.contains(text) {
            let i = choose|i: int| 0 <= i < front.len() && front[i] == text;
            assert(texts[i] == text);
        }
        let kept = front.filter(wanted);
        if wanted(texts.last()) {
            assert(texts.filter(wanted) == kept.push(texts.last()));
            if kept.contains(text) {
                let i = choose|i: int| 0 <= i < kept.len() && kept[i] == text;
                assert(kept.push(texts.last())[i] == text);
            }
            assert(kept.push(texts.last())[kept.len() as int] == texts.last());
            if kept.push(texts.last()).contains(text) && text != texts.last() {
                let i = choose|i: int|
                    0 <= i < kept.push(texts.last()).len() && kept.push(texts.last())[i] == text;
                assert(kept[i] == text);
            }
            assert(texts[texts.len() - 1] == texts.last());
        }
    }
}

/// The last argument in what is unread.
pub open spec fn last_argument(unread: Seq<char>) -> Seq<char>
    decreases unread.len(),
{
    if crate::grammar::rest(unread).len() == 0 {
        crate::grammar::argument(unread)
    } else {
        proof {
            lemma_rest_is_shorter(unread);
        }
        last_argument(crate::grammar::rest(unread))
    }
}

/// Taking an argument leaves less unread.
pub proof fn lemma_rest_is_shorter(unread: Seq<char>)
    ensures
        crate::grammar::rest(unread).len() == 0 || crate::grammar::rest(unread).len()
            < unread.len(),
    decreases unread.len(),
{
    if unread.len() > 0 && unread[0] == ' ' {
        lemma_rest_is_shorter(unread.drop_first());
    } else {
        crate::arguments::lemma_argument_len(unread, 0, None, false);
    }
}

/// What is suggested behind a command completes the last argument of the line.
pub proof fn law_suggestions_complete_the_last_argument(
    words: Seq<Seq<char>>,
    unread: Seq<char>,
    suggested: Seq<char>,
)
    ensures
        crate::console::word_suggestions(words, unread).contains(suggested) ==> words.contains(
            suggested,
        ) && last_argument(unread).is_prefix_of(suggested),
        crate::console::filter_suggestions(unread).contains(suggested) ==> (
        crate::console::filter_words().contains(suggested) || crate::console::mode_words().contains(
            suggested,
        )) && last_argument(unread).is_prefix_of(suggested),
{
    let next = crate::grammar::rest(unread);
    let typed = |text: Seq<char>| crate::grammar::argument(unread).is_prefix_of(text);
    let typed_next = |text: Seq<char>| crate::grammar::argument(next).is_prefix_of(text);
    lemma_filter_contains(words, typed, suggested);
    lemma_filter_contains(crate::console::filter_words(), typed, suggested);
    lemma_filter_contains(crate::console::mode_words(), typed_next, suggested);
    reveal_with_fuel(last_argument, 2);
}

} // verus!
