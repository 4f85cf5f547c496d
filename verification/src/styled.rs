//! Styled text: spans, lines and blocks.

use vstd::prelude::*;
use crate::frame::Color;

verus! {

/// The colours that a stretch of text is drawn in; `None` leaves a colour
/// as it is on the screen.
#[derive(Clone, Copy, Debug, PartialEq, Eq, Structural)]
pub struct Style {
    pub fg: Option<Color>,
    pub bg: Option<Color>,
}

impl Style {
    /// The style that changes nothing.
    pub open spec fn plain() -> Style {
        Style { fg: None, bg: None }
    }

    /// The style that changes nothing.
    pub fn unstyled() -> (style: Style)
        ensures
            style == Style::plain(),
    {
        Style { fg: None, bg: None }
    }
}

/// A stretch of text in one style.
#[derive(Debug, PartialEq, Eq)]
pub struct Span {
    pub content: String,
    pub style: Style,
}

/// The mathematical content of a [`Span`].
pub struct SpanView {
    pub content: Seq<char>,
    pub style: Style,
}

impl View for Span {
    type V = SpanView;

    open spec fn view(&self) -> SpanView {
        SpanView { content: self.content@, style: self.style }
    }
}

impl DeepView for Span {
    type V = SpanView;

    open spec fn deep_view(&self) -> SpanView {
        self@
    }
}

/// One line of styled text.
#[derive(Debug, PartialEq, Eq)]
pub struct Line {
    pub spans: Vec<Span>,
}

impl View for Line {
    type V = Seq<SpanView>;

    open spec fn view(&self) -> Seq<SpanView> {
        self.spans.deep_view()
    }
}

impl DeepView for Line {
    type V = Seq<SpanView>;

    open spec fn deep_view(&self) -> Seq<SpanView> {
        self@
    }
}

/// A block of styled text, line by line.
#[derive(Debug, PartialEq, Eq)]
pub struct Text {
    pub lines: Vec<Line>,
}

impl View for Text {
    type V = Seq<Seq<SpanView>>;

    open spec fn view(&self) -> Seq<Seq<SpanView>> {
        self.lines.deep_view()
    }
}

/// The characters that a line shows: its spans' contents, one after another.
pub open spec fn line_content(line: Seq<SpanView>) -> Seq<char>
    decreases line.len(),
{
    if line.len() == 0 {
        Seq::empty()
    } else {
        line_content(line.drop_last()) + line.last().content
    }
}

/// The line that shows `content` in no style of its own.
pub open spec fn plain_line(content: Seq<char>) -> Seq<SpanView> {
    seq![SpanView { content, style: Style::plain() }]
}

/// The block of one line that shows `content` in no style of its own.
pub open spec fn message(content: Seq<char>) -> Seq<Seq<SpanView>> {
    seq![plain_line(content)]
}

impl Line {
    /// The line that shows `content` in no style of its own.
    pub fn raw(content: String) -> (line: Line)
        ensures
            line@ == plain_line(content@),
    {
        let mut spans: Vec<Span> = Vec::new();
        spans.push(Span { content, style: Style::unstyled() });
        assert(spans.deep_view() =~= plain_line(content@));
        Line { spans }
    }
}

impl Text {
    /// The block of one line that shows `content` in no style of its own.
    pub fn raw(content: &str) -> (text: Text)
        ensures
            text@ == message(content@),
    {
        let mut lines: Vec<Line> = Vec::new();
        lines.push(Line::raw(content.to_owned()));
        assert(lines.deep_view() =~= message(content@));
        Text { lines }
    }
}

} // verus!
