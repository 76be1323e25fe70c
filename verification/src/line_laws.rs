//! What each command line means, however it is spaced.
use vstd::prelude::*;

use crate::console::ReplyView;
use crate::grammar::CommandView;
use crate::number::NumberError;
use crate::proxy::ProxyView;

verus! {

/// Whether a text is some spaces, one at least.
pub open spec fn is_gap(text: Seq<char>) -> bool {
    text.len() > 0 && forall|i: int| 0 <= i < text.len() ==> #[trigger] text[i] == ' '
}

proof fn lemma_gap(gap: Seq<char>, more: Seq<char>)
    requires
        forall|i: int| 0 <= i < gap.len() ==> #[trigger] gap[i] == ' ',
    ensures
        crate::arguments::skip_spaces(gap + more) == crate::arguments::skip_spaces(more),
    decreases gap.len(),
{
    if gap.len() == 0 {
        assert(gap + more =~= more);
    } else {
        let rest = gap.drop_first();
        assert((gap + more)[0] == gap[0]);
        assert((gap + more).drop_first() =~= rest + more);
        assert forall|i: int| 0 <= i < rest.len() implies #[trigger] rest[i] == ' ' by {
            assert(rest[i] == gap[i + 1]);
        }
        lemma_gap(rest, more);
    }
}

/// Spaces before an argument are passed over, and the argument is the word up to the next space.
proof fn lemma_next(gap: Seq<char>, word: Seq<char>, after: Seq<char>)
    requires
        is_gap(gap),
        crate::arguments::is_word(word),
        after.len() == 0 || after[0] == ' ',
    ensures
        (gap + (word + after)).len() > 0,
        crate::grammar::argument(gap + (word + after)) == word,
        crate::grammar::rest(gap + (word + after)) == after,
        crate::arguments::unquoted(word) == word,
{
    lemma_gap(gap, word + after);
    crate::arguments::law_word_is_argument(word, after);
}

/// The word that a line begins with names the command.
proof fn lemma_name(name: Seq<char>, after: Seq<char>)
    requires
        crate::arguments::is_word(name),
        after.len() == 0 || after[0] == ' ',
    ensures
        crate::grammar::command_in(name + after) == Some(
            crate::grammar::named_command(name, after),
        ),
{
    crate::arguments::law_word_is_argument(name, after);
}

/// The names of the commands are words and differ.
proof fn lemma_names()
    ensures
        crate::arguments::is_word("help"@) && "help"@[0] == 'h',
        crate::arguments::is_word("pause"@) && "pause"@[0] == 'p',
        crate::arguments::is_word("resume"@) && "resume"@[0] == 'r',
        crate::arguments::is_word("filter"@) && "filter"@[0] == 'f',
        crate::arguments::is_word("varint"@) && "varint"@[0] == 'v',
        crate::arguments::is_word("string"@) && "string"@[0] == 's',
        crate::arguments::is_word("warning"@) && "warning"@[0] == 'w' && "warning"@.len() == 7,
        crate::arguments::is_word("warnings"@) && "warnings"@[0] == 'w' && "warnings"@.len() == 8,
        crate::arguments::is_word("mbdl"@) && "mbdl"@[0] == 'm' && "mbdl"@.len() == 4,
        crate::arguments::is_word("metrics"@) && "metrics"@[0] == 'm' && "metrics"@.len() == 7,
{
    reveal_strlit("help");
    reveal_strlit("pause");
    reveal_strlit("resume");
    reveal_strlit("filter");
    reveal_strlit("varint");
    reveal_strlit("string");
    reveal_strlit("warning");
    reveal_strlit("warnings");
    reveal_strlit("mbdl");
    reveal_strlit("metrics");
}

/// The spellings of help are words, none of which is an action.
proof fn lemma_help_words()
    ensures
        crate::arguments::is_word("help"@) && "help"@[0] == 'h',
        crate::arguments::is_word("-help"@) && "-help"@[0] == '-',
        crate::arguments::is_word("--help"@) && "--help"@[0] == '-',
        crate::arguments::is_word("-h"@) && "-h"@[0] == '-',
        crate::arguments::is_word("--h"@) && "--h"@[0] == '-',
{
    reveal_strlit("help");
    reveal_strlit("-help");
    reveal_strlit("--help");
    reveal_strlit("-h");
    reveal_strlit("--h");
}

/// The actions of `filter` are words and differ.
proof fn lemma_filter_words()
    ensures
        crate::arguments::is_word("allow"@) && "allow"@[0] == 'a',
        crate::arguments::is_word("deny"@) && "deny"@[0] == 'd' && "deny"@.len() == 4,
        crate::arguments::is_word("reset-as"@) && "reset-as"@[0] == 'r' && "reset-as"@.len() == 8,
        crate::arguments::is_word("enable"@) && "enable"@[0] == 'e',
        crate::arguments::is_word("disable"@) && "disable"@[0] == 'd' && "disable"@.len() == 7
            && "disable"@[3] == 'a',
        crate::arguments::is_word("reset"@) && "reset"@[0] == 'r' && "reset"@.len() == 5,
        crate::arguments::is_word("display"@) && "display"@[0] == 'd' && "display"@.len() == 7
            && "display"@[3] == 'p',
        crate::arguments::is_word("whitelist"@) && "whitelist"@[0] == 'w',
        crate::arguments::is_word("blacklist"@) && "blacklist"@[0] == 'b',
{
    reveal_strlit("allow");
    reveal_strlit("deny");
    reveal_strlit("reset-as");
    reveal_strlit("enable");
    reveal_strlit("disable");
    reveal_strlit("reset");
    reveal_strlit("display");
    reveal_strlit("whitelist");
    reveal_strlit("blacklist");
}

/// The actions of `warnings` are words and differ.
proof fn lemma_warnings_words()
    ensures
        crate::arguments::is_word("allow"@) && "allow"@[0] == 'a',
        crate::arguments::is_word("suppress"@) && "suppress"@[0] == 's',
        crate::arguments::is_word("on"@) && "on"@[0] == 'o' && "on"@.len() == 2,
        crate::arguments::is_word("off"@) && "off"@[0] == 'o' && "off"@.len() == 3,
{
    reveal_strlit("allow");
    reveal_strlit("suppress");
    reveal_strlit("on");
    reveal_strlit("off");
}

/// What `command_in` gives for a line that is a command.
pub open spec fn means(line: Seq<char>, command: CommandView) -> bool {
    crate::grammar::command_in(line) == Some(Ok::<CommandView, Seq<char>>(command))
}

/// What `command_in` gives for a line that is an error.
pub open spec fn fails(line: Seq<char>, error: Seq<char>) -> bool {
    crate::grammar::command_in(line) == Some(Err::<CommandView, Seq<char>>(error))
}

/// The error about an argument that fits nowhere.
pub open spec fn out_of_place(word: Seq<char>) -> Seq<char> {
    "Unexpected argument \""@ + word + "\""@
}

/// Spaces before a line make no difference.
pub proof fn law_spaces_before_a_line(gap: Seq<char>, line: Seq<char>)
    requires
        is_gap(gap),
    ensures
        crate::grammar::command_in(gap + line) == crate::grammar::command_in(line),
{
    lemma_gap(gap, line);
}

/// The commands without arguments stand by themselves, and with anything behind them they are
/// errors.
pub proof fn law_commands_without_arguments(gap: Seq<char>, word: Seq<char>, after: Seq<char>)
    requires
        is_gap(gap),
        crate::arguments::is_word(word),
        after.len() == 0 || after[0] == ' ',
    ensures
        means("help"@, CommandView::Help),
        means("pause"@, CommandView::Pause),
        means("resume"@, CommandView::Resume),
        means("metrics"@, CommandView::Metrics),
        fails("help"@ + (gap + (word + after)), out_of_place(word)),
        fails("pause"@ + (gap + (word + after)), out_of_place(word)),
        fails("resume"@ + (gap + (word + after)), out_of_place(word)),
        fails("metrics"@ + (gap + (word + after)), out_of_place(word)),
{
    lemma_names();
    lemma_next(gap, word, after);
    let none = Seq::<char>::empty();
    let more = gap + (word + after);
    assert(more[0] == ' ');
    assert("help"@ + none =~= "help"@ && "pause"@ + none =~= "pause"@ && "resume"@ + none
        =~= "resume"@ && "metrics"@ + none =~= "metrics"@);
    lemma_name("help"@, none);
    lemma_name("pause"@, none);
    lemma_name("resume"@, none);
    lemma_name("metrics"@, none);
    lemma_name("help"@, more);
    lemma_name("pause"@, more);
    lemma_name("resume"@, more);
    lemma_name("metrics"@, more);
}

/// Whether a word names a command.
pub open spec fn names_command(word: Seq<char>) -> bool {
    word == "help"@ || word == "pause"@ || word == "resume"@ || word == "filter"@ || word
        == "varint"@ || word == "string"@ || word == "warning"@ || word == "warnings"@ || word
        == "mbdl"@ || word == "metrics"@
}

/// A word that names no command is an error that shows the word.
pub proof fn law_unknown_commands(word: Seq<char>, after: Seq<char>)
    requires
        crate::arguments::is_word(word),
        !names_command(word),
        after.len() == 0 || after[0] == ' ',
    ensures
        fails(word + after, "Invalid command \""@ + word + "\""@),
{
    lemma_name(word, after);
}

/// A line of a command and one more word: what is behind the name is one argument.
proof fn lemma_one_argument(name: Seq<char>, gap: Seq<char>, word: Seq<char>)
    requires
        crate::arguments::is_word(name),
        is_gap(gap),
        crate::arguments::is_word(word),
    ensures
        crate::grammar::command_in(name + gap + word) == Some(
            crate::grammar::named_command(name, gap + word),
        ),
        (gap + word).len() > 0,
        crate::grammar::argument(gap + word) == word,
        crate::grammar::rest(gap + word).len() == 0,
{
    let none = Seq::<char>::empty();
    assert(word + none =~= word);
    lemma_next(gap, word, none);
    assert((gap + word)[0] == ' ');
    lemma_name(name, gap + word);
    assert(name + (gap + word) =~= name + gap + word);
}

/// A line of a command and two more words: what is behind the name are two arguments.
proof fn lemma_two_arguments(
    name: Seq<char>,
    gap: Seq<char>,
    word: Seq<char>,
    second_gap: Seq<char>,
    second: Seq<char>,
)
    requires
        crate::arguments::is_word(name),
        is_gap(gap),
        crate::arguments::is_word(word),
        is_gap(second_gap),
        crate::arguments::is_word(second),
    ensures
        crate::grammar::command_in(name + gap + word + second_gap + second) == Some(
            crate::grammar::named_command(name, gap + (word + (second_gap + second))),
        ),
        (gap + (word + (second_gap + second))).len() > 0,
        crate::grammar::argument(gap + (word + (second_gap + second))) == word,
        crate::grammar::rest(gap + (word + (second_gap + second))) == second_gap + second,
        (second_gap + second).len() > 0,
        crate::grammar::argument(second_gap + second) == second,
        crate::grammar::rest(second_gap + second).len() == 0,
        crate::arguments::unquoted(second) == second,
{
    let none = Seq::<char>::empty();
    assert(second + none =~= second);
    lemma_next(second_gap, second, none);
    assert((second_gap + second)[0] == ' ');
    lemma_next(gap, word, second_gap + second);
    let arguments = gap + (word + (second_gap + second));
    assert(arguments[0] == ' ');
    lemma_name(name, arguments);
    assert(name + arguments =~= name + gap + word + second_gap + second);
}

/// The actions of `filter` without arguments.
pub proof fn law_filter_actions(gap: Seq<char>)
    requires
        is_gap(gap),
    ensures
        means("filter"@ + gap + "enable"@, CommandView::EnableFilter),
        means("filter"@ + gap + "disable"@, CommandView::DisableFilter),
        means("filter"@ + gap + "reset"@, CommandView::ResetFilter),
        means("filter"@ + gap + "display"@, CommandView::DisplayFilter),
        means("filter"@ + gap + "help"@, CommandView::FilterHelp),
        means("filter"@ + gap + "-help"@, CommandView::FilterHelp),
        means("filter"@ + gap + "--help"@, CommandView::FilterHelp),
        means("filter"@ + gap + "-h"@, CommandView::FilterHelp),
        means("filter"@ + gap + "--h"@, CommandView::FilterHelp),
{
    lemma_names();
    lemma_filter_words();
    lemma_help_words();
    lemma_one_argument("filter"@, gap, "enable"@);
    lemma_one_argument("filter"@, gap, "disable"@);
    lemma_one_argument("filter"@, gap, "reset"@);
    lemma_one_argument("filter"@, gap, "display"@);
    lemma_one_argument("filter"@, gap, "help"@);
    lemma_one_argument("filter"@, gap, "-help"@);
    lemma_one_argument("filter"@, gap, "--help"@);
    lemma_one_argument("filter"@, gap, "-h"@);
    lemma_one_argument("filter"@, gap, "--h"@);
}

/// The actions of `filter` with an argument: a packet name, or a mode.
pub proof fn law_filter_actions_on(gap: Seq<char>, second_gap: Seq<char>, name: Seq<char>)
    requires
        is_gap(gap),
        is_gap(second_gap),
        crate::arguments::is_word(name),
    ensures
        means("filter"@ + gap + "allow"@ + second_gap + name, CommandView::AllowPacket(name)),
        means("filter"@ + gap + "deny"@ + second_gap + name, CommandView::DenyPacket(name)),
        means(
            "filter"@ + gap + "reset-as"@ + second_gap + "whitelist"@,
            CommandView::ResetAsWhitelist,
        ),
        means(
            "filter"@ + gap + "reset-as"@ + second_gap + "blacklist"@,
            CommandView::ResetAsBlacklist,
        ),
        name != "whitelist"@ && name != "blacklist"@ ==> fails(
            "filter"@ + gap + "reset-as"@ + second_gap + name,
            out_of_place(name),
        ),
{
    lemma_names();
    lemma_filter_words();
    lemma_help_words();
    lemma_two_arguments("filter"@, gap, "allow"@, second_gap, name);
    lemma_two_arguments("filter"@, gap, "deny"@, second_gap, name);
    lemma_two_arguments("filter"@, gap, "reset-as"@, second_gap, "whitelist"@);
    lemma_two_arguments("filter"@, gap, "reset-as"@, second_gap, "blacklist"@);
    lemma_two_arguments("filter"@, gap, "reset-as"@, second_gap, name);
}

/// Actions of `filter` that there are not, and words behind the actions without arguments, are
/// errors.
pub proof fn law_filter_errors(
    gap: Seq<char>,
    word: Seq<char>,
    second_gap: Seq<char>,
    second: Seq<char>,
)
    requires
        is_gap(gap),
        is_gap(second_gap),
        crate::arguments::is_word(word),
        crate::arguments::is_word(second),
    ensures
        !crate::console::filter_words().contains(word) && word != "help"@ && word != "--help"@
            && word != "-h"@ && word != "--h"@ ==> fails(
            "filter"@ + gap + word,
            out_of_place(word),
        ),
        word == "enable"@ || word == "disable"@ || word == "reset"@ || word == "display"@ || word
            == "help"@ || word == "-help"@ || word == "--help"@ || word == "-h"@ || word == "--h"@
            ==> fails("filter"@ + gap + word + second_gap + second, out_of_place(second)),
{
    lemma_names();
    lemma_filter_words();
    lemma_help_words();
    lemma_one_argument("filter"@, gap, word);
    lemma_two_arguments("filter"@, gap, word, second_gap, second);
    let words = crate::console::filter_words();
    assert(words[0] == "allow"@ && words[1] == "deny"@ && words[2] == "reset-as"@ && words[3]
        == "enable"@ && words[4] == "disable"@ && words[5] == "reset"@ && words[6] == "display"@
        && words[7] == "-help"@);
}

/// The actions of `warnings`, which may be called `warning` too.
pub proof fn law_warnings_actions(
    name: Seq<char>,
    gap: Seq<char>,
    second_gap: Seq<char>,
    id: Seq<char>,
)
    requires
        name == "warnings"@ || name == "warning"@,
        is_gap(gap),
        is_gap(second_gap),
        crate::arguments::is_word(id),
    ensures
        means(name + gap + "on"@, CommandView::WarningsOn),
        means(name + gap + "off"@, CommandView::WarningsOff),
        means(name + gap + "help"@, CommandView::WarningsHelp),
        means(name + gap + "-help"@, CommandView::WarningsHelp),
        means(name + gap + "--help"@, CommandView::WarningsHelp),
        means(name + gap + "-h"@, CommandView::WarningsHelp),
        means(name + gap + "--h"@, CommandView::WarningsHelp),
        means(name + gap + "allow"@ + second_gap + id, CommandView::AllowWarnings(id)),
        means(name + gap + "suppress"@ + second_gap + id, CommandView::SuppressWarnings(id)),
        fails(name + gap + "on"@ + second_gap + id, out_of_place(id)),
        fails(name + gap + "off"@ + second_gap + id, out_of_place(id)),
{
    lemma_names();
    lemma_warnings_words();
    lemma_help_words();
    lemma_one_argument(name, gap, "on"@);
    lemma_one_argument(name, gap, "off"@);
    lemma_one_argument(name, gap, "help"@);
    lemma_one_argument(name, gap, "-help"@);
    lemma_one_argument(name, gap, "--help"@);
    lemma_one_argument(name, gap, "-h"@);
    lemma_one_argument(name, gap, "--h"@);
    lemma_two_arguments(name, gap, "allow"@, second_gap, id);
    lemma_two_arguments(name, gap, "suppress"@, second_gap, id);
    lemma_two_arguments(name, gap, "on"@, second_gap, id);
    lemma_two_arguments(name, gap, "off"@, second_gap, id);
}

/// Actions of `warnings` that there are not are errors.
pub proof fn law_warnings_errors(name: Seq<char>, gap: Seq<char>, word: Seq<char>)
    requires
        name == "warnings"@ || name == "warning"@,
        is_gap(gap),
        crate::arguments::is_word(word),
        !crate::console::warnings_words().contains(word),
        word != "help"@,
        word != "--help"@,
        word != "-h"@,
        word != "--h"@,
    ensures
        fails(name + gap + word, out_of_place(word)),
{
    lemma_names();
    lemma_one_argument(name, gap, word);
    let words = crate::console::warnings_words();
    assert(words[0] == "allow"@ && words[1] == "suppress"@ && words[2] == "on"@ && words[3]
        == "off"@ && words[4] == "-help"@);
}

/// What `mbdl` takes: a number that fits, or `none`. Digits that do not fit and any other word are
/// errors, and so is anything behind it.
pub proof fn law_limit_actions(gap: Seq<char>, word: Seq<char>, second_gap: Seq<char>, second: Seq<
    char,
>)
    requires
        is_gap(gap),
        is_gap(second_gap),
        crate::arguments::is_word(word),
        crate::arguments::is_word(second),
    ensures
        means("mbdl"@ + gap + "none"@, CommandView::RemoveBufferLimit),
        fails("mbdl"@ + gap + "none"@ + second_gap + second, out_of_place(second)),
        crate::grammar::all_digits(word) ==> match crate::number::number(
            word,
            10,
            usize::MAX as nat,
        ) {
            Ok(length) => {
                &&& means("mbdl"@ + gap + word, CommandView::LimitBuffer(length as usize))
                &&& fails("mbdl"@ + gap + word + second_gap + second, out_of_place(second))
            },
            Err(error) => fails("mbdl"@ + gap + word, error.message()),
        },
        !crate::grammar::all_digits(word) && word != "none"@ ==> fails(
            "mbdl"@ + gap + word,
            out_of_place(word),
        ),
{
    lemma_names();
    reveal_strlit("none");
    assert("none"@[0] == 'n');
    lemma_one_argument("mbdl"@, gap, "none"@);
    lemma_one_argument("mbdl"@, gap, word);
    lemma_two_arguments("mbdl"@, gap, "none"@, second_gap, second);
    lemma_two_arguments("mbdl"@, gap, word, second_gap, second);
}

/// Digits are characters from 0 to 9.
pub proof fn law_digits_of_a_limit(text: Seq<char>)
    ensures
        crate::grammar::all_digits(text) <==> forall|i: int|
            0 <= i < text.len() ==> '0' <= #[trigger] text[i] <= '9',
{
}

/// `mbdl none` removes the limit, and sets nothing else.
pub proof fn law_no_limit_line(proxy: ProxyView)
    ensures
        crate::console::settings_after_line(proxy, "mbdl none"@) == (ProxyView {
            max_buffer_display_length: usize::MAX,
            ..proxy
        }),
{
    reveal_strlit("mbdl none");
    reveal_strlit("mbdl");
    reveal_strlit("none");
    assert("mbdl none"@ =~= "mbdl"@ + seq![' '] + "none"@);
    law_limit_actions(seq![' '], "none"@, seq![' '], "none"@);
}

/// `varint` and `string` take the rest of the line as it stands, spaces at its end included.
pub proof fn law_decoding_takes_the_rest(gap: Seq<char>, bytes: Seq<char>)
    requires
        is_gap(gap),
        bytes.len() > 0,
        bytes[0] != ' ',
    ensures
        means("varint"@ + (gap + bytes), CommandView::Varint(bytes)),
        means("string"@ + (gap + bytes), CommandView::Text(bytes)),
{
    lemma_names();
    lemma_gap(gap, bytes);
    assert((gap + bytes)[0] == ' ');
    lemma_name("varint"@, gap + bytes);
    lemma_name("string"@, gap + bytes);
}

/// Commands that need an argument are errors without one, which say what is missing.
pub proof fn law_missing_arguments(gap: Seq<char>)
    requires
        is_gap(gap),
    ensures
        fails("varint"@, "Expected value for argument \""@ + "bytes"@ + "\""@),
        fails("string"@, "Expected value for argument \""@ + "bytes"@ + "\""@),
        fails("filter"@, crate::grammar::FILTER_CHOICES@),
        fails("warning"@, crate::grammar::WARNINGS_CHOICES@),
        fails("warnings"@, crate::grammar::WARNINGS_CHOICES@),
        fails("mbdl"@, crate::grammar::LIMIT_CHOICES@),
        fails(
            "filter"@ + gap + "allow"@,
            "Expected value for argument \""@ + "allow_packet"@ + "\""@,
        ),
        fails(
            "filter"@ + gap + "deny"@,
            "Expected value for argument \""@ + "deny_packet"@ + "\""@,
        ),
        fails("filter"@ + gap + "reset-as"@, crate::grammar::MODE_CHOICES@),
        fails(
            "warnings"@ + gap + "allow"@,
            "Expected value for argument \""@ + "allow_id"@ + "\""@,
        ),
        fails(
            "warnings"@ + gap + "suppress"@,
            "Expected value for argument \""@ + "suppress_id"@ + "\""@,
        ),
{
    lemma_names();
    lemma_filter_words();
    lemma_warnings_words();
    lemma_help_words();
    let none = Seq::<char>::empty();
    assert("varint"@ + none =~= "varint"@ && "string"@ + none =~= "string"@ && "filter"@ + none
        =~= "filter"@ && "warning"@ + none =~= "warning"@ && "warnings"@ + none =~= "warnings"@
        && "mbdl"@ + none =~= "mbdl"@);
    lemma_name("varint"@, none);
    lemma_name("string"@, none);
    lemma_name("filter"@, none);
    lemma_name("warning"@, none);
    lemma_name("warnings"@, none);
    lemma_name("mbdl"@, none);
    lemma_one_argument("filter"@, gap, "allow"@);
    lemma_one_argument("filter"@, gap, "deny"@);
    lemma_one_argument("filter"@, gap, "reset-as"@);
    lemma_one_argument("warnings"@, gap, "allow"@);
    lemma_one_argument("warnings"@, gap, "suppress"@);
}

/// What a line does is what the command in it does, and what an error in it says is the answer. A
/// line without a command does nothing.
pub proof fn law_lines_do_what_they_mean(proxy: ProxyView, line: Seq<char>)
    ensures
        match crate::grammar::command_in(line) {
            Some(Ok(command)) => {
                &&& crate::console::settings_after_line(proxy, line)
                    == crate::console::settings_after(proxy, command)
                &&& crate::console::reply_to_line(proxy, line) == crate::console::reply_to(
                    proxy,
                    command,
                )
            },
            Some(Err(error)) => {
                &&& crate::console::settings_after_line(proxy, line) == proxy
                &&& crate::console::reply_to_line(proxy, line) == Err::<ReplyView, Seq<char>>(error)
            },
            None => {
                &&& crate::console::settings_after_line(proxy, line) == proxy
                &&& crate::console::reply_to_line(proxy, line) == Ok::<ReplyView, Seq<char>>(
                    ReplyView::Nothing,
                )
            },
        },
{
}

/// A line at the console is answered as the line without the white space around it is, with
/// errors in red.
pub proof fn law_console_answers(proxy: ProxyView, line: Seq<char>)
    ensures
        match crate::console::reply_to_line(proxy, crate::console::trimmed(line)) {
            Ok(reply) => crate::console::line_reply(proxy, line) == reply,
            Err(error) => crate::console::line_reply(proxy, line) == ReplyView::Show(
                seq![(crate::message::Color::Red, error)],
            ),
        },
{
}

/// A text between quotes is one argument, whatever spaces it holds, and stands for itself without
/// the quotes. The text holds no such quote and no backslash.
pub proof fn law_quotes_keep_spaces(quote: char, text: Seq<char>, after: Seq<char>)
    requires
        quote == '"' || quote == '\'',
        forall|i: int| 0 <= i < text.len() ==> #[trigger] text[i] != quote && text[i] != '\\',
        after.len() == 0 || after[0] == ' ',
    ensures
        crate::arguments::first_argument(seq![quote] + text + seq![quote] + after) == seq![quote]
            + text + seq![quote],
        crate::arguments::after_argument(seq![quote] + text + seq![quote] + after) == after,
        crate::arguments::unquoted(seq![quote] + text + seq![quote]) == text,
{
    let argument = seq![quote] + text + seq![quote];
    let line = argument + after;
    lemma_quoted_len(quote, text, after, 0);
    assert(line[0] == quote);
    assert(crate::arguments::argument_len_from(line, 0, None, false) == argument.len());
    assert(line.take(argument.len() as int) =~= argument);
    assert(line.skip(argument.len() as int) =~= after);
    assert(argument.subrange(1, argument.len() - 1) =~= text);
}

proof fn lemma_quoted_len(quote: char, text: Seq<char>, after: Seq<char>, start: int)
    requires
        quote == '"' || quote == '\'',
        forall|i: int| 0 <= i < text.len() ==> #[trigger] text[i] != quote && text[i] != '\\',
        after.len() == 0 || after[0] == ' ',
        0 <= start <= text.len(),
    ensures
        crate::arguments::argument_len_from(
            seq![quote] + text + seq![quote] + after,
            start + 1,
            Some(quote),
            false,
        ) == text.len() - start + 1,
    decreases text.len() - start,
{
    let line = seq![quote] + text + seq![quote] + after;
    if start < text.len() {
        assert(line[start + 1] == text[start]);
        lemma_quoted_len(quote, text, after, start + 1);
    } else {
        assert(line[start + 1] == quote);
        assert(after.len() > 0 ==> line[start + 2] == after[0]);
        assert(crate::arguments::argument_len_from(line, start + 2, None, false) == 0);
    }
}

/// A name in quotes can be allowed and denied with the spaces in it.
pub proof fn law_quoted_names(gap: Seq<char>, second_gap: Seq<char>, quote: char, name: Seq<char>)
    requires
        is_gap(gap),
        is_gap(second_gap),
        quote == '"' || quote == '\'',
        forall|i: int| 0 <= i < name.len() ==> #[trigger] name[i] != quote && name[i] != '\\',
    ensures
        means(
            "filter"@ + (gap + ("allow"@ + (second_gap + (seq![quote] + name + seq![quote])))),
            CommandView::AllowPacket(name),
        ),
        means(
            "filter"@ + (gap + ("deny"@ + (second_gap + (seq![quote] + name + seq![quote])))),
            CommandView::DenyPacket(name),
        ),
{
    lemma_names();
    lemma_filter_words();
    lemma_help_words();
    let argument = seq![quote] + name + seq![quote];
    let none = Seq::<char>::empty();
    assert(argument + none =~= argument);
    law_quotes_keep_spaces(quote, name, none);
    lemma_gap(second_gap, argument);
    assert(argument[0] == quote);
    assert((second_gap + argument)[0] == ' ');
    lemma_next(gap, "allow"@, second_gap + argument);
    lemma_next(gap, "deny"@, second_gap + argument);
    assert((gap + ("allow"@ + (second_gap + argument)))[0] == ' ');
    assert((gap + ("deny"@ + (second_gap + argument)))[0] == ' ');
    lemma_name("filter"@, gap + ("allow"@ + (second_gap + argument)));
    lemma_name("filter"@, gap + ("deny"@ + (second_gap + argument)));
}

/// A packet ID that is no number is an error that says why, and changes nothing.
pub proof fn law_wrong_ids(proxy: ProxyView, id: Seq<char>, error: NumberError)
    requires
        crate::number::number(id, 16, u32::MAX as nat) == Err::<nat, NumberError>(error),
    ensures
        crate::console::reply_to(proxy, CommandView::AllowWarnings(id)) == Err::<
            ReplyView,
            Seq<char>,
        >("Failed to parse ID: "@ + error.message()),
        crate::console::reply_to(proxy, CommandView::SuppressWarnings(id)) == Err::<
            ReplyView,
            Seq<char>,
        >("Failed to parse ID: "@ + error.message()),
        crate::console::settings_after(proxy, CommandView::AllowWarnings(id)) == proxy,
        crate::console::settings_after(proxy, CommandView::SuppressWarnings(id)) == proxy,
{
}

/// A line that begins with anything but a space holds a command or an error.
pub proof fn law_lines_that_begin_hold_a_command(line: Seq<char>)
    requires
        line.len() > 0,
        line[0] != ' ',
    ensures
        crate::grammar::command_in(line) is Some,
{
}

/// Spaces behind a command without arguments are an argument too many, an empty one.
pub proof fn law_spaces_behind_a_command(gap: Seq<char>)
    requires
        is_gap(gap),
    ensures
        fails("help"@ + gap, out_of_place(Seq::empty())),
        fails("pause"@ + gap, out_of_place(Seq::empty())),
        fails("resume"@ + gap, out_of_place(Seq::empty())),
        fails("metrics"@ + gap, out_of_place(Seq::empty())),
{
    lemma_names();
    crate::suggestion_laws::lemma_all_spaces(gap);
    assert(crate::grammar::argument(gap) =~= Seq::empty());
    lemma_name("help"@, gap);
    lemma_name("pause"@, gap);
    lemma_name("resume"@, gap);
    lemma_name("metrics"@, gap);
}

/// Quotes come off an argument where the same quote stands at both of its ends, and nothing else
/// comes off.
pub proof fn law_unquoting(quote: char, text: Seq<char>, argument: Seq<char>)
    requires
        quote == '"' || quote == '\'',
    ensures
        crate::arguments::unquoted(seq![quote] + text + seq![quote]) == text,
        argument.len() < 2 || argument[0] != argument.last() || (argument[0] != '"' && argument[0]
            != '\'') ==> crate::arguments::unquoted(argument) == argument,
{
    let quoted = seq![quote] + text + seq![quote];
    assert(quoted.subrange(1, quoted.len() - 1) =~= text);
}

/// Characters of a word count one by one.
proof fn lemma_word_part(line: Seq<char>, start: int, count: int)
    requires
        0 <= start,
        0 <= count,
        start + count <= line.len(),
        forall|i: int|
            start <= i < start + count ==> #[trigger] line[i] != ' ' && line[i] != '"' && line[i]
                != '\'' && line[i] != '\\',
    ensures
        crate::arguments::argument_len_from(line, start, None, false) == count
            + crate::arguments::argument_len_from(line, start + count, None, false),
    decreases count,
{
    if count > 0 {
        lemma_word_part(line, start + 1, count - 1);
    }
}

/// A quote behind a backslash neither opens nor closes: it is one more character of the argument.
pub proof fn law_escaped_quotes(
    word: Seq<char>,
    quote: char,
    second: Seq<char>,
    after: Seq<char>,
)
    requires
        crate::arguments::is_word(word),
        quote == '"' || quote == '\'',
        crate::arguments::is_word(second),
        after.len() == 0 || after[0] == ' ',
    ensures
        ({
            let argument = word + seq!['\\', quote] + second;
            &&& crate::arguments::first_argument(argument + after) == argument
            &&& crate::arguments::after_argument(argument + after) == after
        }),
{
    let argument = word + seq!['\\', quote] + second;
    let line = argument + after;
    let middle = word.len() as int;
    let behind = middle + 2;
    assert forall|i: int| 0 <= i < middle implies #[trigger] line[i] != ' ' && line[i] != '"'
        && line[i] != '\'' && line[i] != '\\' by {
        assert(line[i] == word[i]);
    }
    lemma_word_part(line, 0, middle);
    assert(line[middle] == '\\');
    assert(line[middle + 1] == quote);
    assert forall|i: int| behind <= i < behind + second.len() implies #[trigger] line[i] != ' '
        && line[i] != '"' && line[i] != '\'' && line[i] != '\\' by {
        assert(line[i] == second[i - behind]);
    }
    lemma_word_part(line, behind, second.len() as int);
    assert(after.len() > 0 ==> line[argument.len() as int] == after[0]);
    assert(crate::arguments::argument_len_from(line, argument.len() as int, None, false) == 0);
    reveal_with_fuel(crate::arguments::argument_len_from, 3);
    assert(crate::arguments::argument_len_from(line, middle, None, false) == 2
        + crate::arguments::argument_len_from(line, behind, None, false));
    assert(line.take(argument.len() as int) =~= argument);
    assert(line.skip(argument.len() as int) =~= after);
}

} // verus!
