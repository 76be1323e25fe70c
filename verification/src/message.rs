//! Coloured console messages and log lines.
use vstd::prelude::*;

verus! {

/// The colours that console messages are written in.
#[derive(Debug, Clone, Copy, PartialEq, Eq, Structural)]
pub enum Color {
    Aqua,
    Gold,
    Green,
    Red,
    White,
    Yellow,
}

/// A stretch of text in one colour.
#[derive(Debug)]
pub struct Span {
    pub color: Color,
    pub text: String,
}

impl View for Span {
    type V = (Color, Seq<char>);

    open spec fn view(&self) -> (Color, Seq<char>) {
        (self.color, self.text@)
    }
}

/// A console message: stretches of coloured text, one after the other.
#[derive(Debug)]
pub struct Message {
    pub spans: Vec<Span>,
}

impl View for Message {
    type V = Seq<(Color, Seq<char>)>;

    open spec fn view(&self) -> Seq<(Color, Seq<char>)> {
        self.spans@.map_values(|span: Span| span@)
    }
}

impl Message {
    /// A message without text.
    pub fn empty() -> (message: Message)
        ensures
            message@ == Seq::<(Color, Seq<char>)>::empty(),
    {
        let message = Message { spans: Vec::new() };
        assert(message@ =~= Seq::<(Color, Seq<char>)>::empty());
        message
    }

    /// The message with `text` in `color` at its end.
    pub fn add_text(self, color: Color, text: &str) -> (message: Message)
        ensures
            message@ == self@.push((color, text@)),
    {
        let ghost before = self@;
        let mut spans = self.spans;
        spans.push(Span { color, text: text.to_owned() });
        let message = Message { spans };
        assert(message@ =~= before.push((color, text@)));
        message
    }

    /// A message in one colour.
    pub fn colored(text: &str, color: Color) -> (message: Message)
        ensures
            message@ == seq![(color, text@)],
    {
        Message::empty().add_text(color, text)
    }
}

/// How much a log line matters.
#[derive(Debug, Clone, Copy, PartialEq, Eq, Structural)]
pub enum Level {
    Info,
    Warn,
    Error,
}

/// A line for the log.
#[derive(Debug)]
pub struct LogLine {
    pub level: Level,
    pub text: String,
}

impl View for LogLine {
    type V = (Level, Seq<char>);

    open spec fn view(&self) -> (Level, Seq<char>) {
        (self.level, self.text@)
    }
}

} // verus!
