//! Styled output: what is shown is a list of lines, a line is a list of spans,
//! and a span is a piece of text with the role it plays on the screen. The
//! views and the plain text are exact; the terminal rendering is done by the
//! `colored` crate.

use colored::ColoredString;
use colored::Colorize;
use vstd::prelude::*;
use vstd::string::*;

verus! {

/// `colored::ColoredString`: a text together with the colour and the styles
/// that it is printed with. Its contents are not visible to the proofs.
#[verifier::external_type_specification]
#[verifier::external_body]
pub struct ExColoredString(ColoredString);

/// The colours in use.
#[derive(Clone, Copy, Debug, PartialEq, Eq, Structural)]
pub enum Hue {
    Red,
    Green,
    Yellow,
    Blue,
    Magenta,
    Cyan,
}

/// How a span looks on a terminal.
#[derive(Clone, Copy, Debug, PartialEq, Eq, Structural)]
pub struct Look {
    pub hue: Option<Hue>,
    pub bold: bool,
    pub dimmed: bool,
}

/// The role of a span.
#[derive(Clone, Copy, Debug, PartialEq, Eq, Structural)]
pub enum Style {
    /// Ordinary text.
    Plain,
    /// Secondary text: notices, separators, ages, counts.
    Muted,
    /// Emphasised text: a thread's title, the participants.
    Strong,
    /// The heading of a view.
    Header,
    /// The text of a failure.
    Error,
    /// The mark in front of a failure.
    ErrorMark,
    /// The text of a warning.
    Warning,
    /// The mark in front of a warning.
    WarningMark,
    /// The text of a success.
    Success,
    /// The mark in front of a success.
    SuccessMark,
    /// A remark beside a heading, and the unread mark.
    Info,
    /// A user's handle.
    Handle,
    /// The sender above a message.
    Sender,
    /// A highlighted figure.
    Accent,
}

impl Look {
    /// Whether the look asks for no colour and no style.
    pub open spec fn is_plain(self) -> bool {
        self.hue is None && !self.bold && !self.dimmed
    }
}

impl Style {
    /// The look of each role.
    pub open spec fn look(self) -> Look {
        match self {
            Style::Plain => Look { hue: None, bold: false, dimmed: false },
            Style::Muted => Look { hue: None, bold: false, dimmed: true },
            Style::Strong => Look { hue: None, bold: true, dimmed: false },
            Style::Header => Look { hue: Some(Hue::Cyan), bold: true, dimmed: false },
            Style::Error => Look { hue: Some(Hue::Red), bold: false, dimmed: false },
            Style::ErrorMark => Look { hue: Some(Hue::Red), bold: true, dimmed: false },
            Style::Warning => Look { hue: Some(Hue::Yellow), bold: false, dimmed: false },
            Style::WarningMark => Look { hue: Some(Hue::Yellow), bold: true, dimmed: false },
            Style::Success => Look { hue: Some(Hue::Green), bold: false, dimmed: false },
            Style::SuccessMark => Look { hue: Some(Hue::Green), bold: true, dimmed: false },
            Style::Info => Look { hue: Some(Hue::Blue), bold: false, dimmed: false },
            Style::Handle => Look { hue: Some(Hue::Cyan), bold: false, dimmed: false },
            Style::Sender => Look { hue: Some(Hue::Blue), bold: true, dimmed: false },
            Style::Accent => Look { hue: Some(Hue::Magenta), bold: false, dimmed: false },
        }
    }

    /// The look of this role.
    pub fn to_look(self) -> (look: Look)
        ensures
            look == self.look(),
    {
        match self {
            Style::Plain => Look { hue: None, bold: false, dimmed: false },
            Style::Muted => Look { hue: None, bold: false, dimmed: true },
            Style::Strong => Look { hue: None, bold: true, dimmed: false },
            Style::Header => Look { hue: Some(Hue::Cyan), bold: true, dimmed: false },
            Style::Error => Look { hue: Some(Hue::Red), bold: false, dimmed: false },
            Style::ErrorMark => Look { hue: Some(Hue::Red), bold: true, dimmed: false },
            Style::Warning => Look { hue: Some(Hue::Yellow), bold: false, dimmed: false },
            Style::WarningMark => Look { hue: Some(Hue::Yellow), bold: true, dimmed: false },
            Style::Success => Look { hue: Some(Hue::Green), bold: false, dimmed: false },
            Style::SuccessMark => Look { hue: Some(Hue::Green), bold: true, dimmed: false },
            Style::Info => Look { hue: Some(Hue::Blue), bold: false, dimmed: false },
            Style::Handle => Look { hue: Some(Hue::Cyan), bold: false, dimmed: false },
            Style::Sender => Look { hue: Some(Hue::Blue), bold: true, dimmed: false },
            Style::Accent => Look { hue: Some(Hue::Magenta), bold: false, dimmed: false },
        }
    }
}

/// A piece of text and its role.
#[derive(Clone, Debug, PartialEq, Eq)]
pub struct Span {
    pub style: Style,
    pub text: String,
}

/// What a span stands for.
pub struct SpanView {
    pub style: Style,
    pub text: Seq<char>,
}

impl View for Span {
    type V = SpanView;

    open spec fn view(&self) -> SpanView {
        SpanView { style: self.style, text: self.text@ }
    }
}

/// The span of `text` in the role `style`.
pub open spec fn styled(style: Style, text: Seq<char>) -> SpanView {
    SpanView { style, text }
}

/// One line of output.
#[derive(Clone, Debug, PartialEq, Eq)]
pub struct Line {
    pub spans: Vec<Span>,
}

impl View for Line {
    type V = Seq<SpanView>;

    open spec fn view(&self) -> Seq<SpanView> {
        self.spans@.map_values(|s: Span| s@)
    }
}

/// What a list of lines stands for.
pub open spec fn screen(lines: Seq<Line>) -> Seq<Seq<SpanView>> {
    lines.map_values(|l: Line| l@)
}

/// The characters of a line, styles left aside.
pub open spec fn text_of(spans: Seq<SpanView>) -> Seq<char>
    decreases spans.len(),
{
    if spans.len() == 0 {
        Seq::empty()
    } else {
        text_of(spans.drop_last()) + spans.last().text
    }
}

/// Whether every span of the line is shown without colour or style.
pub open spec fn all_plain(spans: Seq<SpanView>) -> bool {
    forall|i: int| 0 <= i < spans.len() ==> (#[trigger] spans[i]).style.look().is_plain()
}

/// Whether `piece` can be what is written for `span`: for a plain span it is
/// the span's text; for any other look it is left open.
pub open spec fn written_as(span: SpanView, piece: Seq<char>) -> bool {
    span.style.look().is_plain() ==> piece == span.text
}

/// Whether `out` can be what is written for a line: one piece for each span,
/// in the order of the spans, with nothing between them.
pub open spec fn rendered_as(spans: Seq<SpanView>, out: Seq<char>) -> bool
    decreases spans.len(),
{
    if spans.len() == 0 {
        out.len() == 0
    } else {
        exists|cut: int|
            0 <= cut <= out.len() && rendered_as(spans.drop_last(), #[trigger] out.take(cut))
                && written_as(spans.last(), out.skip(cut))
    }
}

/// A line of plain spans can only be written as its text.
pub proof fn lemma_plain_line_is_its_text(spans: Seq<SpanView>, out: Seq<char>)
    requires
        all_plain(spans),
        rendered_as(spans, out),
    ensures
        out == text_of(spans),
    decreases spans.len(),
{
    if spans.len() == 0 {
        assert(out =~= text_of(spans));
    } else {
        let cut = choose|cut: int|
            0 <= cut <= out.len() && rendered_as(spans.drop_last(), #[trigger] out.take(cut))
                && written_as(spans.last(), out.skip(cut));
        let front = spans.drop_last();
        assert forall|i: int| 0 <= i < front.len() implies (#[trigger] front[i]).style.look().is_plain() by {
            assert(front[i] == spans[i]);
        }
        lemma_plain_line_is_its_text(front, out.take(cut));
        assert(spans.last() == spans[spans.len() - 1]);
        assert(out =~= out.take(cut) + out.skip(cut));
    }
}

impl Span {
    /// The span of `text` in the role `style`.
    pub fn new(style: Style, text: &str) -> (span: Span)
        ensures
            span@ == styled(style, text@),
    {
        Span { style, text: String::from_str(text) }
    }

    /// The span as it is written to a terminal: the text itself for a plain
    /// look, else what `colored` makes of it, which depends on whether colours
    /// are switched on where the program runs.
    pub fn render(&self) -> (out: String)
        ensures
            written_as(self@, out@),
    {
        let look = self.style.to_look();
        if look.hue.is_none() && !look.bold && !look.dimmed {
            return self.text.clone();
        }
        let mut painted = uncoloured(self.text.as_str());
        match look.hue {
            Some(Hue::Red) => {
                painted = in_red(painted);
            },
            Some(Hue::Green) => {
                painted = in_green(painted);
            },
            Some(Hue::Yellow) => {
                painted = in_yellow(painted);
            },
            Some(Hue::Blue) => {
                painted = in_blue(painted);
            },
            Some(Hue::Magenta) => {
                painted = in_magenta(painted);
            },
            Some(Hue::Cyan) => {
                painted = in_cyan(painted);
            },
            None => {},
        }
        if look.bold {
            painted = in_bold(painted);
        }
        if look.dimmed {
            painted = in_dimmed(painted);
        }
        terminal_text(&painted)
    }
}

impl Line {
    /// The empty line.
    pub fn new() -> (line: Line)
        ensures
            line@ == Seq::<SpanView>::empty(),
    {
        let line = Line { spans: Vec::new() };
        assert(line@ =~= Seq::<SpanView>::empty());
        line
    }

    /// The line of one span.
    pub fn of(style: Style, text: &str) -> (line: Line)
        ensures
            line@ == seq![styled(style, text@)],
    {
        let mut line = Line::new();
        line.put(style, text);
        line
    }

    /// Adds `span` at the end of the line.
    pub fn push(&mut self, span: Span)
        ensures
            final(self)@ == old(self)@.push(span@),
    {
        self.spans.push(span);
        assert(self@ =~= old(self)@.push(span@));
    }

    /// Adds `text` in the role `style` at the end of the line.
    pub fn put(&mut self, style: Style, text: &str)
        ensures
            final(self)@ == old(self)@.push(styled(style, text@)),
    {
        self.push(Span::new(style, text));
    }

    /// The line's characters, styles left aside.
    pub fn text(&self) -> (out: String)
        ensures
            out@ == text_of(self@),
    {
        let mut out = String::new();
        let mut i: usize = 0;
        proof {
            assert(self@.take(0) =~= Seq::<SpanView>::empty());
        }
        while i < self.spans.len()
            invariant
                i <= self.spans.len(),
                out@ == text_of(self@.take(i as int)),
            decreases self.spans.len() - i,
        {
            proof {
                let upto = self@.take(i + 1);
                assert(upto.drop_last() =~= self@.take(i as int));
                assert(upto.last() == self.spans@[i as int]@);
            }
            out.append(self.spans[i].text.as_str());
            i = i + 1;
        }
        proof {
            assert(self@.take(i as int) =~= self@);
        }
        out
    }

    /// The line as it is written to a terminal: the spans as they are
    /// written, one after the other. A line of plain spans is written as its
    /// text; for the other looks see [`Span::render`].
    pub fn render(&self) -> (out: String)
        ensures
            rendered_as(self@, out@),
            all_plain(self@) ==> out@ == text_of(self@),
    {
        let mut out = String::new();
        let mut i: usize = 0;
        proof {
            assert(self@.take(0) =~= Seq::<SpanView>::empty());
        }
        while i < self.spans.len()
            invariant
                i <= self.spans.len(),
                rendered_as(self@.take(i as int), out@),
            decreases self.spans.len() - i,
        {
            let ghost before = out@;
            let piece = self.spans[i].render();
            out.append(piece.as_str());
            proof {
                let upto = self@.take(i + 1);
                assert(upto.drop_last() =~= self@.take(i as int));
                assert(upto.last() == self.spans@[i as int]@);
                assert(out@.take(before.len() as int) =~= before);
                assert(out@.skip(before.len() as int) =~= piece@);
            }
            i = i + 1;
        }
        proof {
            assert(self@.take(i as int) =~= self@);
            if all_plain(self@) {
                lemma_plain_line_is_its_text(self@, out@);
            }
        }
        out
    }
}

/// Adds `line` below `lines`.
pub fn push_line(lines: &mut Vec<Line>, line: Line)
    ensures
        screen(final(lines)@) == screen(old(lines)@).push(line@),
{
    lines.push(line);
    assert(screen(lines@) =~= screen(old(lines)@).push(line@));
}

/// Adds the lines of `more` below `lines`.
pub fn append_lines(lines: &mut Vec<Line>, more: Vec<Line>)
    ensures
        screen(final(lines)@) == screen(old(lines)@) + screen(more@),
{
    let mut more = more;
    let ghost added = more@;
    lines.append(&mut more);
    assert(screen(lines@) =~= screen(old(lines)@) + screen(added));
}

/// `ColoredString::from` on a string slice: the text, with no colour and no
/// style yet.
#[verifier::external_body]
fn uncoloured(text: &str) -> ColoredString {
    ColoredString::from(text)
}

/// `Colorize::red` on a `ColoredString`: the same text, to be printed in red.
#[verifier::external_body]
fn in_red(text: ColoredString) -> ColoredString {
    text.red()
}

/// `Colorize::green` on a `ColoredString`: the same text, to be printed in
/// green.
#[verifier::external_body]
fn in_green(text: ColoredString) -> ColoredString {
    text.green()
}

/// `Colorize::yellow` on a `ColoredString`: the same text, to be printed in
/// yellow.
#[verifier::external_body]
fn in_yellow(text: ColoredString) -> ColoredString {
    text.yellow()
}

/// `Colorize::blue` on a `ColoredString`: the same text, to be printed in blue.
#[verifier::external_body]
fn in_blue(text: ColoredString) -> ColoredString {
    text.blue()
}

/// `Colorize::magenta` on a `ColoredString`: the same text, to be printed in
/// magenta.
#[verifier::external_body]
fn in_magenta(text: ColoredString) -> ColoredString {
    text.magenta()
}

/// `Colorize::cyan` on a `ColoredString`: the same text, to be printed in cyan.
#[verifier::external_body]
fn in_cyan(text: ColoredString) -> ColoredString {
    text.cyan()
}

/// `Colorize::bold` on a `ColoredString`: the same text, to be printed bold.
#[verifier::external_body]
fn in_bold(text: ColoredString) -> ColoredString {
    text.bold()
}

/// `Colorize::dimmed` on a `ColoredString`: the same text, to be printed
/// dimmed.
#[verifier::external_body]
fn in_dimmed(text: ColoredString) -> ColoredString {
    text.dimmed()
}

/// `ToString::to_string` on a `ColoredString`, which goes through its
/// `Display`: the text alone where colours are switched off, else the text
/// between escape sequences. Which of the two depends on the environment, so
/// nothing is stated of the result.
#[verifier::external_body]
fn terminal_text(text: &ColoredString) -> String {
    text.to_string()
}

} // verus!
