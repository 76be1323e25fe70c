//! Taking a command line apart into its arguments.
//!
//! Arguments are separated by spaces. A space between quotes, single or double, does not
//! separate, and a quote after a backslash neither opens nor closes.
use vstd::prelude::*;

use crate::text::slice_text;
use crate::text::to_chars;

verus! {

/// `text` without the spaces that it begins with.
pub open spec fn skip_spaces(text: Seq<char>) -> Seq<char>
    decreases text.len(),
{
    if text.len() > 0 && text[0] == ' ' {
        skip_spaces(text.drop_first())
    } else {
        text
    }
}

/// The quote that is open after `ch`, where `quote` was open before it.
pub open spec fn quote_after(quote: Option<char>, escaped: bool, ch: char) -> Option<char> {
    if escaped || (ch != '\'' && ch != '"') {
        quote
    } else if quote is None {
        Some(ch)
    } else if quote == Some(ch) {
        None
    } else {
        quote
    }
}

/// How many characters of `text` from `start` on belong to the argument that goes on there, in
/// an open quote or not, and after a backslash or not.
pub open spec fn argument_len_from(
    text: Seq<char>,
    start: int,
    quote: Option<char>,
    escaped: bool,
) -> nat
    decreases text.len() - start,
{
    if start >= text.len() || (quote is None && text[start] == ' ') {
        0
    } else {
        1 + argument_len_from(
            text,
            start + 1,
            quote_after(quote, escaped, text[start]),
            text[start] == '\\',
        )
    }
}

/// The argument that `text` begins with.
pub open spec fn first_argument(text: Seq<char>) -> Seq<char> {
    text.take(argument_len_from(text, 0, None, false) as int)
}

/// What is left of `text` after the argument that it begins with.
pub open spec fn after_argument(text: Seq<char>) -> Seq<char> {
    text.skip(argument_len_from(text, 0, None, false) as int)
}

/// The argument is a part of the text.
pub proof fn lemma_argument_len(text: Seq<char>, start: int, quote: Option<char>, escaped: bool)
    requires
        0 <= start <= text.len(),
    ensures
        start + argument_len_from(text, start, quote, escaped) <= text.len(),
    decreases text.len() - start,
{
    if start < text.len() && !(quote is None && text[start] == ' ') {
        lemma_argument_len(
            text,
            start + 1,
            quote_after(quote, escaped, text[start]),
            text[start] == '\\',
        );
    }
}

/// A cursor over the arguments of a command line.
pub struct Arguments {
    chars: Vec<char>,
    /// Where the last argument began.
    anchor: usize,
    /// Where the last argument ended.
    index: usize,
}

impl Arguments {
    /// The cursor is within the line.
    pub closed spec fn wf(&self) -> bool {
        self.anchor <= self.index <= self.chars@.len()
    }

    /// The line from the last argument on.
    pub closed spec fn current(&self) -> Seq<char> {
        self.chars@.skip(self.anchor as int)
    }

    /// What has not been read yet.
    pub closed spec fn unread(&self) -> Seq<char> {
        self.chars@.skip(self.index as int)
    }

    /// A cursor at the first argument of `command`.
    pub fn new(command: &str) -> (arguments: Arguments)
        ensures
            arguments.wf(),
            arguments.current() == command@,
            arguments.unread() == skip_spaces(command@),
    {
        let chars = to_chars(command);
        let mut arguments = Arguments { chars, anchor: 0, index: 0 };
        assert(arguments.chars@.skip(0) =~= command@);
        arguments.skip_leading_spaces();
        arguments
    }

    fn skip_leading_spaces(&mut self)
        requires
            old(self).wf(),
        ensures
            final(self).wf(),
            final(self).chars == old(self).chars,
            final(self).anchor == old(self).anchor,
            final(self).current() == old(self).current(),
            final(self).unread() == skip_spaces(old(self).unread()),
    {
        let ghost before = self.unread();
        while self.index < self.chars.len() && self.chars[self.index] == ' '
            invariant
                self.wf(),
                self.chars == old(self).chars,
                self.anchor == old(self).anchor,
                skip_spaces(self.unread()) == skip_spaces(before),
            decreases self.chars@.len() - self.index,
        {
            assert(self.chars@.skip(self.index as int).drop_first() =~= self.chars@.skip(
                self.index + 1,
            ));
            self.index = self.index + 1;
        }
    }

    /// The next argument, with its quotes and backslashes; where the rest is but spaces, an
    /// empty one; at the end of the line none.
    pub fn next(&mut self) -> (argument: Option<String>)
        requires
            old(self).wf(),
        ensures
            final(self).wf(),
            match argument {
                Some(argument) => {
                    &&& old(self).unread().len() > 0
                    &&& argument@ == first_argument(skip_spaces(old(self).unread()))
                    &&& final(self).current() == skip_spaces(old(self).unread())
                    &&& final(self).unread() == after_argument(skip_spaces(old(self).unread()))
                },
                None => {
                    &&& old(self).unread().len() == 0
                    &&& *final(self) == *old(self)
                },
            },
    {
        if self.index >= self.chars.len() {
            return None;
        }
        self.skip_leading_spaces();
        self.anchor = self.index;
        let ghost rest = self.unread();
        let ghost total = argument_len_from(rest, 0, None, false);
        let mut quote: Option<char> = None;
        let mut escaped = false;
        while self.index < self.chars.len() && (quote.is_some() || self.chars[self.index] != ' ')
            invariant
                self.wf(),
                self.chars == old(self).chars,
                rest == self.chars@.skip(self.anchor as int),
                total == (self.index - self.anchor) + argument_len_from(
                    rest,
                    self.index - self.anchor,
                    quote,
                    escaped,
                ),
            decreases self.chars@.len() - self.index,
        {
            let ch = self.chars[self.index];
            assert(ch == rest[self.index - self.anchor]);
            if !escaped && (ch == '\'' || ch == '"') {
                match quote {
                    None => {
                        quote = Some(ch);
                    },
                    Some(open) => {
                        if open == ch {
                            quote = None;
                        }
                    },
                }
            }
            escaped = ch == '\\';
            self.index = self.index + 1;
        }
        assert(total == self.index - self.anchor);
        let argument = slice_text(&self.chars, self.anchor, self.index);
        assert(argument@ =~= first_argument(rest));
        assert(self.unread() =~= after_argument(rest));
        Some(argument)
    }

    /// Tells whether the whole line has been read.
    pub fn is_at_end(&self) -> (at_end: bool)
        requires
            self.wf(),
        ensures
            at_end == (self.unread().len() == 0),
    {
        self.index >= self.chars.len()
    }

    /// The line from the last argument on, which leaves nothing unread.
    pub fn gobble_remaining(&mut self) -> (text: String)
        requires
            old(self).wf(),
        ensures
            final(self).wf(),
            text@ == old(self).current(),
            final(self).current() == old(self).current(),
            final(self).unread().len() == 0,
    {
        self.index = self.chars.len();
        let text = slice_text(&self.chars, self.anchor, self.chars.len());
        assert(text@ =~= self.current());
        text
    }
}

/// An argument without the quotes around it. A lone quote stays.
pub open spec fn unquoted(argument: Seq<char>) -> Seq<char> {
    if argument.len() >= 2 && argument[0] == argument.last() && (argument[0] == '"' || argument[0]
        == '\'') {
        argument.subrange(1, argument.len() - 1)
    } else {
        argument
    }
}

/// Removes the quotes around an argument.
pub fn unquote(argument: &str) -> (text: String)
    ensures
        text@ == unquoted(argument@),
{
    let chars = to_chars(argument);
    let len = chars.len();
    if len >= 2 && chars[0] == chars[len - 1] && (chars[0] == '"' || chars[0] == '\'') {
        slice_text(&chars, 1, len - 1)
    } else {
        argument.to_owned()
    }
}

/// Whether `text` is a word: not empty, and without spaces, quotes and backslashes.
pub open spec fn is_word(text: Seq<char>) -> bool {
    &&& text.len() > 0
    &&& forall|i: int|
        0 <= i < text.len() ==> {
            &&& #[trigger] text[i] != ' '
            &&& text[i] != '\''
            &&& text[i] != '"'
            &&& text[i] != '\\'
        }
}

proof fn lemma_word_len(word: Seq<char>, rest: Seq<char>, start: int)
    requires
        is_word(word),
        rest.len() == 0 || rest[0] == ' ',
        0 <= start <= word.len(),
    ensures
        argument_len_from(word + rest, start, None, false) == word.len() - start,
    decreases word.len() - start,
{
    if start < word.len() {
        assert((word + rest)[start] == word[start]);
        lemma_word_len(word, rest, start + 1);
    }
}

/// A word is an argument as it stands, and goes up to the next space.
pub proof fn law_word_is_argument(word: Seq<char>, rest: Seq<char>)
    requires
        is_word(word),
        rest.len() == 0 || rest[0] == ' ',
    ensures
        skip_spaces(word + rest) == word + rest,
        first_argument(word + rest) == word,
        after_argument(word + rest) == rest,
        unquoted(word) == word,
{
    lemma_word_len(word, rest, 0);
    assert((word + rest)[0] == word[0]);
    assert(first_argument(word + rest) =~= word);
    assert(after_argument(word + rest) =~= rest);
}

} // verus!
