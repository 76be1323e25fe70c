//! Text primitives: character access, comparison, case folding, joining and splitting.
//!
//! Text is modelled as the sequence of its characters, `Seq<char>`, which is the view that `str`
//! and `String` have.
use vstd::prelude::*;

verus! {

/// `String::push` appends one character to the end of the string.
pub assume_specification[ String::push ](text: &mut String, ch: char)
    ensures
        final(text)@ == old(text)@.push(ch),
;

/// The characters of `text`.
pub fn to_chars(text: &str) -> (chars: Vec<char>)
    ensures
        chars@ == text@,
{
    let mut chars: Vec<char> = Vec::new();
    for ch in it: text.chars()
        invariant
            it.seq() == text@,
            chars@ == it.seq().take(it.index() as int),
    {
        chars.push(ch);
    }
    chars
}

/// The characters of `chars` from `start` to `end`, as text.
pub fn slice_text(chars: &Vec<char>, start: usize, end: usize) -> (text: String)
    requires
        start <= end <= chars@.len(),
    ensures
        text@ == chars@.subrange(start as int, end as int),
{
    let mut text = String::new();
    for i in start..end
        invariant
            end <= chars@.len(),
            start <= i,
            text@ == chars@.subrange(start as int, i as int),
    {
        text.push(chars[i]);
    }
    text
}

/// Whether two texts are equal.
pub fn same_text(left: &str, right: &str) -> (same: bool)
    ensures
        same == (left@ == right@),
{
    left.to_owned() == right.to_owned()
}

/// Whether `text` begins with `prefix`.
pub fn starts_with(text: &str, prefix: &str) -> (result: bool)
    ensures
        result == prefix@.is_prefix_of(text@),
{
    let text_chars = to_chars(text);
    let prefix_chars = to_chars(prefix);
    if prefix_chars.len() > text_chars.len() {
        return false;
    }
    for i in 0..prefix_chars.len()
        invariant
            text_chars@ == text@,
            prefix_chars@ == prefix@,
            prefix_chars@.len() <= text_chars@.len(),
            forall|j: int| 0 <= j < i ==> prefix_chars@[j] == text_chars@[j],
    {
        if prefix_chars[i] != text_chars[i] {
            assert(prefix@[i as int] != text@.subrange(0, prefix@.len() as int)[i as int]);
            return false;
        }
    }
    assert(prefix@ =~= text@.subrange(0, prefix@.len() as int));
    true
}

/// The small letter of an ASCII capital, and any other character as it is.
pub open spec fn lower_char(ch: char) -> char {
    if 'A' <= ch && ch <= 'Z' {
        (ch as u8 + 32) as u8 as char
    } else {
        ch
    }
}

/// `text` with its ASCII capitals replaced by small letters.
pub open spec fn lowercase(text: Seq<char>) -> Seq<char> {
    text.map_values(|ch: char| lower_char(ch))
}

/// Replaces the ASCII capitals of `text` by small letters.
pub fn to_lowercase(text: &str) -> (lower: String)
    ensures
        lower@ == lowercase(text@),
{
    let mut lower = String::new();
    for ch in it: text.chars()
        invariant
            it.seq() == text@,
            lower@ == lowercase(it.seq().take(it.index() as int)),
    {
        let ghost before = lower@;
        if 'A' <= ch && ch <= 'Z' {
            lower.push((ch as u8 + 32) as char);
        } else {
            lower.push(ch);
        }
        assert(lower@ =~= lowercase(it.seq().take(it.index() + 1)));
    }
    assert(text@.take(text@.len() as int) =~= text@);
    lower
}

/// The texts of `parts` with `separator` between each two.
pub open spec fn join(parts: Seq<Seq<char>>, separator: Seq<char>) -> Seq<char>
    decreases parts.len(),
{
    if parts.len() == 0 {
        Seq::empty()
    } else if parts.len() == 1 {
        parts[0]
    } else {
        join(parts.drop_last(), separator) + separator + parts.last()
    }
}

/// The views of a list of strings.
pub open spec fn views(parts: Seq<String>) -> Seq<Seq<char>> {
    parts.map_values(|part: String| part@)
}

/// Joins the texts of `parts`, with `separator` between each two.
pub fn join_text(parts: &Vec<String>, separator: &str) -> (joined: String)
    ensures
        joined@ == join(views(parts@), separator@),
{
    let mut joined = String::new();
    for i in 0..parts.len()
        invariant
            joined@ == join(views(parts@).take(i as int), separator@),
    {
        let ghost done = views(parts@).take(i + 1);
        assert(done.drop_last() =~= views(parts@).take(i as int));
        if i > 0 {
            joined.append(separator);
        }
        joined.append(parts[i].as_str());
        assert(joined@ =~= join(done, separator@));
    }
    assert(views(parts@).take(parts@.len() as int) =~= views(parts@));
    joined
}

/// The texts between the occurrences of `separator` in `text`: one more than there are
/// separators.
pub open spec fn split(text: Seq<char>, separator: char) -> Seq<Seq<char>>
    decreases text.len(),
{
    let head = run_length(text, separator) as int;
    if head < text.len() {
        seq![text.take(head)] + split(text.skip(head + 1), separator)
    } else {
        seq![text]
    }
}

/// How many characters stand before the first `stop` in `text`, or in all of it where there is
/// none.
pub open spec fn run_length(text: Seq<char>, stop: char) -> nat
    decreases text.len(),
{
    if text.len() == 0 || text[0] == stop {
        0
    } else {
        1 + run_length(text.drop_first(), stop)
    }
}

/// `run_length` is the first position of `stop`, or the length where `stop` does not occur.
pub proof fn lemma_run_length(text: Seq<char>, stop: char)
    ensures
        run_length(text, stop) <= text.len(),
        run_length(text, stop) < text.len() ==> text[run_length(text, stop) as int] == stop,
        forall|i: int| 0 <= i < run_length(text, stop) ==> text[i] != stop,
    decreases text.len(),
{
    if text.len() > 0 && text[0] != stop {
        lemma_run_length(text.drop_first(), stop);
        assert forall|i: int| 0 <= i < run_length(text, stop) implies text[i] != stop by {
            if i > 0 {
                assert(text[i] == text.drop_first()[i - 1]);
            }
        }
    }
}

/// A position before which `stop` does not occur, and at which it does or the text ends, is the
/// `run_length`.
pub proof fn lemma_run_length_unique(text: Seq<char>, stop: char, n: int)
    requires
        0 <= n <= text.len(),
        n < text.len() ==> text[n] == stop,
        forall|i: int| 0 <= i < n ==> text[i] != stop,
    ensures
        run_length(text, stop) == n,
{
    lemma_run_length(text, stop);
    let found = run_length(text, stop) as int;
    if found < n {
        assert(text[found] != stop);
    } else if n < found {
        assert(text[n] != stop);
    }
}

/// The first position at or after `start` that holds `stop`, or the end.
pub fn find_char(chars: &Vec<char>, start: usize, stop: char) -> (end: usize)
    requires
        start <= chars@.len(),
    ensures
        end == start + run_length(chars@.skip(start as int), stop),
        start <= end <= chars@.len(),
{
    let ghost rest = chars@.skip(start as int);
    let mut end: usize = start;
    while end < chars.len() && chars[end] != stop
        invariant
            start <= end <= chars@.len(),
            rest == chars@.skip(start as int),
            forall|i: int| 0 <= i < end - start ==> rest[i] != stop,
        decreases chars@.len() - end,
    {
        end = end + 1;
    }
    proof {
        lemma_run_length_unique(rest, stop, end - start);
    }
    end
}

/// Splits `text` at each occurrence of `separator`.
pub fn split_text(text: &str, separator: char) -> (parts: Vec<String>)
    ensures
        views(parts@) == split(text@, separator),
{
    let chars = to_chars(text);
    let mut parts: Vec<String> = Vec::new();
    let mut start: usize = 0;
    assert(chars@.skip(0) =~= text@);
    loop
        invariant
            start <= chars@.len(),
            chars@ == text@,
            views(parts@) + split(chars@.skip(start as int), separator) == split(text@, separator),
        decreases chars@.len() - start,
    {
        let end = find_char(&chars, start, separator);
        let ghost rest = chars@.skip(start as int);
        let ghost before = views(parts@);
        let part = slice_text(&chars, start, end);
        let ghost piece = part@;
        assert(piece =~= rest.take(end - start));
        parts.push(part);
        assert(views(parts@) =~= before.push(piece));
        if end >= chars.len() {
            assert(piece =~= rest);
            assert(views(parts@) =~= before + seq![rest]);
            return parts;
        }
        assert(rest.skip(end - start + 1) =~= chars@.skip(end + 1));
        assert(views(parts@) + split(chars@.skip(end + 1), separator) =~= before + (seq![piece]
            + split(chars@.skip(end + 1), separator)));
        start = end + 1;
    }
}

/// Splitting two texts with the separator between them gives the parts of the one and then those
/// of the other.
pub proof fn lemma_split_concat(left: Seq<char>, right: Seq<char>, separator: char)
    ensures
        split(left.push(separator) + right, separator) == split(left, separator) + split(
            right,
            separator,
        ),
    decreases left.len(),
{
    let whole = left.push(separator) + right;
    let head = run_length(left, separator) as int;
    lemma_run_length(left, separator);
    lemma_run_length_unique(whole, separator, head);
    assert(whole.take(head) =~= left.take(head));
    if head < left.len() {
        assert(whole.skip(head + 1) =~= left.skip(head + 1).push(separator) + right);
        lemma_split_concat(left.skip(head + 1), right, separator);
        assert(split(whole, separator) =~= split(left, separator) + split(right, separator));
    } else {
        assert(left.take(head) =~= left);
        assert(whole.skip(head + 1) =~= right);
    }
}

/// Texts without the separator, joined with it, fall into the same texts again.
pub proof fn lemma_split_join(parts: Seq<Seq<char>>, separator: char)
    requires
        parts.len() > 0,
        forall|i: int| 0 <= i < parts.len() ==> !(#[trigger] parts[i]).contains(separator),
    ensures
        split(join(parts, seq![separator]), separator) == parts,
    decreases parts.len(),
{
    let last = parts.last();
    assert(!parts[parts.len() - 1].contains(separator));
    lemma_run_length(last, separator);
    assert(split(last, separator) =~= seq![last]);
    if parts.len() == 1 {
        assert(parts =~= seq![last]);
    } else {
        let front = parts.drop_last();
        assert forall|i: int| 0 <= i < front.len() implies !(#[trigger] front[i]).contains(
            separator,
        ) by {
            assert(front[i] == parts[i]);
        }
        lemma_split_join(front, separator);
        let before = join(front, seq![separator]);
        assert(join(parts, seq![separator]) =~= before.push(separator) + last);
        lemma_split_concat(before, last, separator);
        assert(front + seq![last] =~= parts);
    }
}

} // verus!
