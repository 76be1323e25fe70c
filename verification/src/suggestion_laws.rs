//! What is suggested for a line, and what of a line counts.
use vstd::prelude::*;

use crate::console::Completion;

verus! {

/// Suggestions are picked one by one, in their order: those that begin with what is typed.
pub proof fn law_picking(texts: Seq<Seq<char>>, text: Seq<char>, typed: Seq<char>)
    ensures
        crate::console::beginning_with(Seq::empty(), typed) == Seq::<Seq<char>>::empty(),
        crate::console::beginning_with(texts.push(text), typed) == if typed.is_prefix_of(text) {
            crate::console::beginning_with(texts, typed).push(text)
        } else {
            crate::console::beginning_with(texts, typed)
        },
{
    reveal(Seq::filter);
    assert(texts.push(text).drop_last() =~= texts);
}

/// Whether a text is a word or nothing, as it stands at the end of a line that is being typed.
pub open spec fn is_typed(text: Seq<char>) -> bool {
    text.len() == 0 || crate::arguments::is_word(text)
}

/// Nothing is left of spaces once they are skipped.
pub proof fn lemma_all_spaces(gap: Seq<char>)
    requires
        crate::line_laws::is_gap(gap),
    ensures
        crate::arguments::skip_spaces(gap).len() == 0,
    decreases gap.len(),
{
    let rest = gap.drop_first();
    if rest.len() > 0 {
        assert forall|i: int| 0 <= i < rest.len() implies #[trigger] rest[i] == ' ' by {
            assert(rest[i] == gap[i + 1]);
        }
        lemma_all_spaces(rest);
    } else {
        reveal_with_fuel(crate::arguments::skip_spaces, 2);
    }
}

proof fn lemma_skip_gap(gap: Seq<char>, word: Seq<char>)
    requires
        crate::line_laws::is_gap(gap),
        word.len() > 0,
        word[0] != ' ',
    ensures
        crate::arguments::skip_spaces(gap + word) == word,
    decreases gap.len(),
{
    let rest = gap.drop_first();
    assert((gap + word)[0] == ' ');
    assert((gap + word).drop_first() =~= rest + word);
    if rest.len() > 0 {
        assert forall|i: int| 0 <= i < rest.len() implies #[trigger] rest[i] == ' ' by {
            assert(rest[i] == gap[i + 1]);
        }
        lemma_skip_gap(rest, word);
    } else {
        assert(rest + word =~= word);
        reveal_with_fuel(crate::arguments::skip_spaces, 2);
    }
}

/// What is typed last is the last argument, also where it is nothing yet.
proof fn lemma_typed(gap: Seq<char>, typed: Seq<char>)
    requires
        crate::line_laws::is_gap(gap),
        is_typed(typed),
    ensures
        (gap + typed).len() > 0,
        (gap + typed)[0] == ' ',
        crate::grammar::argument(gap + typed) == typed,
        crate::grammar::rest(gap + typed).len() == 0,
{
    if typed.len() == 0 {
        assert(gap + typed =~= gap);
        lemma_all_spaces(gap);
        assert(crate::grammar::argument(gap) =~= typed);
    } else {
        lemma_skip_gap(gap, typed);
        assert(typed + Seq::empty() =~= typed);
        crate::arguments::law_word_is_argument(typed, Seq::empty());
    }
}

/// A word and what is typed behind it are two arguments.
proof fn lemma_word_and_typed(
    gap: Seq<char>,
    word: Seq<char>,
    second_gap: Seq<char>,
    typed: Seq<char>,
)
    requires
        crate::line_laws::is_gap(gap),
        crate::arguments::is_word(word),
        crate::line_laws::is_gap(second_gap),
        is_typed(typed),
    ensures
        (gap + (word + (second_gap + typed))).len() > 0,
        (gap + (word + (second_gap + typed)))[0] == ' ',
        crate::grammar::argument(gap + (word + (second_gap + typed))) == word,
        crate::grammar::rest(gap + (word + (second_gap + typed))) == second_gap + typed,
{
    lemma_typed(second_gap, typed);
    let more = word + (second_gap + typed);
    assert(more[0] == word[0]);
    lemma_skip_gap(gap, more);
    crate::arguments::law_word_is_argument(word, second_gap + typed);
}

/// Suggestions for a line that begins with a command are those for what is behind it.
proof fn lemma_command(name: Seq<char>, after: Seq<char>)
    requires
        crate::arguments::is_word(name),
        after.len() == 0 || after[0] == ' ',
    ensures
        crate::arguments::skip_spaces(name + after) == name + after,
        (name + after).len() > 0,
        crate::grammar::argument(name + after) == name,
        crate::grammar::rest(name + after) == after,
{
    crate::arguments::law_word_is_argument(name, after);
}

proof fn lemma_names_with_words()
    ensures
        crate::arguments::is_word("filter"@),
        crate::arguments::is_word("warning"@),
        crate::arguments::is_word("warnings"@),
        crate::arguments::is_word("mbdl"@),
        !crate::console::without_suggestions("filter"@),
        !crate::console::without_suggestions("warning"@),
        !crate::console::without_suggestions("warnings"@),
        !crate::console::without_suggestions("mbdl"@),
        "filter"@ != "warning"@,
        "filter"@ != "warnings"@,
        "filter"@ != "mbdl"@,
        "mbdl"@ != "warning"@,
        "mbdl"@ != "warnings"@,
{
    reveal_strlit("filter");
    reveal_strlit("warning");
    reveal_strlit("warnings");
    reveal_strlit("mbdl");
    reveal_strlit("help");
    reveal_strlit("pause");
    reveal_strlit("resume");
    reveal_strlit("varint");
    reveal_strlit("string");
    reveal_strlit("metrics");
    assert("filter"@[0] == 'f' && "warning"@[0] == 'w' && "warnings"@[0] == 'w' && "mbdl"@[0] == 'm'
        && "help"@[0] == 'h' && "pause"@[0] == 'p' && "resume"@[0] == 'r' && "varint"@[0] == 'v'
        && "string"@[0] == 's' && "metrics"@[0] == 'm');
}

/// Before anything is typed every command is suggested, and so, of the commands, are those that
/// begin with the line while its first word is no command.
pub proof fn law_command_suggestions(word: Seq<char>, after: Seq<char>)
    requires
        crate::arguments::is_word(word),
        !crate::line_laws::names_command(word),
        after.len() == 0 || after[0] == ' ',
    ensures
        crate::console::suggestions(Seq::empty()) == seq![
            "help"@,
            "pause"@,
            "resume"@,
            "filter"@,
            "varint"@,
            "string"@,
            "warning"@,
            "mbdl"@,
            "metrics"@,
        ],
        crate::console::suggestions(word + after) == crate::console::beginning_with(
            seq![
                "help"@,
                "pause"@,
                "resume"@,
                "filter"@,
                "varint"@,
                "string"@,
                "warning"@,
                "mbdl"@,
                "metrics"@,
            ],
            word + after,
        ),
{
    lemma_command(word, after);
    lemma_nothing_typed(crate::console::command_names());
}

proof fn lemma_nothing_typed(texts: Seq<Seq<char>>)
    ensures
        crate::console::beginning_with(texts, Seq::empty()) == texts,
    decreases texts.len(),
{
    if texts.len() == 0 {
        law_picking(texts, Seq::empty(), Seq::empty());
        assert(texts =~= Seq::empty());
    } else {
        lemma_nothing_typed(texts.drop_last());
        law_picking(texts.drop_last(), texts.last(), Seq::empty());
        assert(texts.drop_last().push(texts.last()) =~= texts);
        assert(Seq::<char>::empty() =~= texts.last().subrange(0, 0));
    }
}

/// Behind `filter` its actions are suggested that begin with what is typed, and behind
/// `filter reset-as` the modes are. Behind other words nothing is.
pub proof fn law_filter_suggestions(
    gap: Seq<char>,
    typed: Seq<char>,
    word: Seq<char>,
    second_gap: Seq<char>,
    second: Seq<char>,
)
    requires
        crate::line_laws::is_gap(gap),
        is_typed(typed),
        crate::arguments::is_word(word),
        crate::line_laws::is_gap(second_gap),
        is_typed(second),
    ensures
        crate::console::suggestions("filter"@) == Seq::<Seq<char>>::empty(),
        crate::console::suggestions("filter"@ + (gap + typed)) == crate::console::beginning_with(
            seq![
                "allow"@,
                "deny"@,
                "reset-as"@,
                "enable"@,
                "disable"@,
                "reset"@,
                "display"@,
                "-help"@,
            ],
            typed,
        ),
        crate::console::suggestions("filter"@ + (gap + ("reset-as"@ + (second_gap + second))))
            == crate::console::beginning_with(seq!["whitelist"@, "blacklist"@], second),
        word != "reset-as"@ ==> crate::console::suggestions(
            "filter"@ + (gap + (word + (second_gap + second))),
        ) == Seq::<Seq<char>>::empty(),
{
    lemma_names_with_words();
    reveal_strlit("reset-as");
    assert("filter"@ + Seq::empty() =~= "filter"@);
    lemma_command("filter"@, Seq::empty());
    lemma_typed(gap, typed);
    lemma_command("filter"@, gap + typed);
    lemma_typed(second_gap, second);
    lemma_word_and_typed(gap, "reset-as"@, second_gap, second);
    lemma_command("filter"@, gap + ("reset-as"@ + (second_gap + second)));
    lemma_word_and_typed(gap, word, second_gap, second);
    lemma_command("filter"@, gap + (word + (second_gap + second)));
}

/// Behind `warnings`, or `warning`, the actions are suggested that begin with what is typed, and
/// behind `mbdl` is `none`. Behind a further word nothing is.
pub proof fn law_word_suggestions(
    name: Seq<char>,
    gap: Seq<char>,
    typed: Seq<char>,
    word: Seq<char>,
    second_gap: Seq<char>,
    second: Seq<char>,
)
    requires
        name == "warnings"@ || name == "warning"@ || name == "mbdl"@,
        crate::line_laws::is_gap(gap),
        is_typed(typed),
        crate::arguments::is_word(word),
        crate::line_laws::is_gap(second_gap),
        is_typed(second),
    ensures
        crate::console::suggestions(name) == Seq::<Seq<char>>::empty(),
        crate::console::suggestions(name + (gap + typed)) == crate::console::beginning_with(
            if name == "mbdl"@ {
                seq!["none"@]
            } else {
                seq!["allow"@, "suppress"@, "on"@, "off"@, "-help"@]
            },
            typed,
        ),
        crate::console::suggestions(name + (gap + (word + (second_gap + second))))
            == Seq::<Seq<char>>::empty(),
{
    lemma_names_with_words();
    assert(name + Seq::empty() =~= name);
    lemma_command(name, Seq::empty());
    lemma_typed(gap, typed);
    lemma_command(name, gap + typed);
    lemma_typed(second_gap, second);
    lemma_word_and_typed(gap, word, second_gap, second);
    lemma_command(name, gap + (word + (second_gap + second)));
}

/// Nothing is suggested behind the other commands.
pub proof fn law_no_suggestions(name: Seq<char>, after: Seq<char>)
    requires
        name == "help"@ || name == "pause"@ || name == "resume"@ || name == "varint"@ || name
            == "string"@ || name == "metrics"@,
        after.len() == 0 || after[0] == ' ',
    ensures
        crate::console::suggestions(name + after) == Seq::<Seq<char>>::empty(),
{
    reveal_strlit("help");
    reveal_strlit("pause");
    reveal_strlit("resume");
    reveal_strlit("varint");
    reveal_strlit("string");
    reveal_strlit("metrics");
    lemma_command(name, after);
}

proof fn lemma_encode_concat(left: Seq<char>, right: Seq<char>)
    ensures
        vstd::utf8::encode_utf8(left + right) == vstd::utf8::encode_utf8(left)
            + vstd::utf8::encode_utf8(right),
    decreases left.len(),
{
    if left.len() == 0 {
        assert(left + right =~= right);
        assert(vstd::utf8::encode_utf8(left) =~= Seq::empty());
        assert(Seq::<u8>::empty() + vstd::utf8::encode_utf8(right) =~= vstd::utf8::encode_utf8(
            right,
        ));
    } else {
        assert((left + right).drop_first() =~= left.drop_first() + right);
        assert((left + right)[0] == left[0]);
        lemma_encode_concat(left.drop_first(), right);
        assert(vstd::utf8::encode_utf8(left + right) =~= vstd::utf8::encode_utf8(left)
            + vstd::utf8::encode_utf8(right));
    }
}

/// What is completed is what stands before the cursor, whatever stands behind it.
pub proof fn law_before_the_cursor(before: Seq<char>, behind: Seq<char>)
    ensures
        crate::console::before_cursor(
            before + behind,
            vstd::utf8::encode_utf8(before).len() as int,
        ) == before,
{
    lemma_encode_concat(before, behind);
    let bytes = vstd::utf8::encode_utf8(before);
    assert((bytes + vstd::utf8::encode_utf8(behind)).take(bytes.len() as int) =~= bytes);
    vstd::utf8::encode_utf8_decode_utf8(before);
}

/// What is seen of a completion is its text and what is to follow it.
pub proof fn law_completions_are_seen_whole(completion: Completion)
    ensures
        completion@ == (completion.completion@, completion.suffix),
{
}

/// White space is what Unicode calls so, and nothing beyond it.
pub proof fn law_white_space(ch: char)
    ensures
        crate::console::is_white_space(ch) <==> {
            let code = ch as int;
            ||| 9 <= code <= 13
            ||| code == 32
            ||| code == 0x85
            ||| code == 0xa0
            ||| code == 0x1680
            ||| 0x2000 <= code <= 0x200a
            ||| code == 0x2028
            ||| code == 0x2029
            ||| code == 0x202f
            ||| code == 0x205f
            ||| code == 0x3000
        },
{
}

/// A text that neither begins nor ends with white space stays as it is.
pub proof fn law_trimming_keeps_the_rest(text: Seq<char>)
    requires
        text.len() > 0 ==> !crate::console::is_white_space(text[0])
            && !crate::console::is_white_space(text.last()),
    ensures
        crate::console::trimmed(text) == text,
{
}

} // verus!
