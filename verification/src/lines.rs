//! The forms of line that the views share: separators, notices, and the
//! lines that report a failure, a warning or a success.

use crate::model::opt_text;
use crate::style::styled;
use crate::style::Line;
use crate::style::SpanView;
use crate::style::Style;
use crate::text::repeat_string;
use crate::text::repeated;
use vstd::prelude::*;
use vstd::string::*;

verus! {

/// The width of the separators of the inbox and thread views, in characters.
pub const SEPARATOR_WIDTH: usize = 60;

/// A horizontal rule of `width` characters.
pub open spec fn rule(width: nat) -> Seq<SpanView> {
    seq![styled(Style::Muted, repeated("━"@, width))]
}

/// The line that sets the parts of the inbox and thread views apart.
pub open spec fn separator() -> Seq<SpanView> {
    rule(SEPARATOR_WIDTH as nat)
}

/// The heading of a view.
pub open spec fn heading(title: Seq<char>) -> Seq<SpanView> {
    seq![styled(Style::Header, title)]
}

/// The line that reports a success.
pub open spec fn success(message: Seq<char>) -> Seq<SpanView> {
    seq![
        styled(Style::SuccessMark, "✓"@),
        styled(Style::Plain, " "@),
        styled(Style::Success, message),
    ]
}

/// The line that tells the user what to do first.
pub open spec fn caution(message: Seq<char>) -> Seq<SpanView> {
    seq![
        styled(Style::WarningMark, "⚠"@),
        styled(Style::Plain, " "@),
        styled(Style::Warning, message),
    ]
}

/// An indented line that names a property and gives its value.
pub open spec fn labelled(label: Seq<char>, value: SpanView) -> Seq<SpanView> {
    seq![
        styled(Style::Plain, "  "@),
        styled(Style::Muted, label),
        styled(Style::Plain, " "@),
        value,
    ]
}

/// A line of secondary text.
pub open spec fn notice(text: Seq<char>) -> Seq<SpanView> {
    seq![styled(Style::Muted, text)]
}

/// The line that reports a failure.
pub open spec fn failure(message: Seq<char>) -> Seq<SpanView> {
    seq![
        styled(Style::ErrorMark, "✗"@),
        styled(Style::Plain, " "@),
        styled(Style::Error, message),
    ]
}

/// The line that reports that something was not found.
pub open spec fn warning(message: Seq<char>) -> Seq<SpanView> {
    seq![
        styled(Style::WarningMark, "✗"@),
        styled(Style::Plain, " "@),
        styled(Style::Warning, message),
    ]
}

/// `text` where it is present, else `default`.
pub open spec fn or_text(text: Option<Seq<char>>, default: Seq<char>) -> Seq<char> {
    match text {
        Some(t) => t,
        None => default,
    }
}

/// A horizontal rule of `width` characters.
pub fn rule_line(width: usize) -> (line: Line)
    ensures
        line@ == rule(width as nat),
{
    let bar = repeat_string("━", width);
    Line::of(Style::Muted, bar.as_str())
}

/// The separator line of the inbox and thread views.
pub fn separator_line() -> (line: Line)
    ensures
        line@ == separator(),
{
    rule_line(SEPARATOR_WIDTH)
}

/// The heading of a view.
pub fn heading_line(title: &str) -> (line: Line)
    ensures
        line@ == heading(title@),
{
    Line::of(Style::Header, title)
}

/// The line that reports a success.
pub fn success_line(message: &str) -> (line: Line)
    ensures
        line@ == success(message@),
{
    let mut line = Line::new();
    line.put(Style::SuccessMark, "✓");
    line.put(Style::Plain, " ");
    line.put(Style::Success, message);
    line
}

/// The line that tells the user what to do first.
pub fn caution_line(message: &str) -> (line: Line)
    ensures
        line@ == caution(message@),
{
    let mut line = Line::new();
    line.put(Style::WarningMark, "⚠");
    line.put(Style::Plain, " ");
    line.put(Style::Warning, message);
    line
}

/// An indented line that names a property and gives its value in the role
/// `style`.
pub fn labelled_line(label: &str, style: Style, value: &str) -> (line: Line)
    ensures
        line@ == labelled(label@, styled(style, value@)),
{
    let mut line = Line::new();
    line.put(Style::Plain, "  ");
    line.put(Style::Muted, label);
    line.put(Style::Plain, " ");
    line.put(style, value);
    line
}

/// A line of secondary text.
pub fn notice_line(text: &str) -> (line: Line)
    ensures
        line@ == notice(text@),
{
    Line::of(Style::Muted, text)
}

/// The line that reports a failure.
pub fn failure_line(message: &str) -> (line: Line)
    ensures
        line@ == failure(message@),
{
    let mut line = Line::new();
    line.put(Style::ErrorMark, "✗");
    line.put(Style::Plain, " ");
    line.put(Style::Error, message);
    line
}

/// The line that reports that something was not found.
pub fn warning_line(message: &str) -> (line: Line)
    ensures
        line@ == warning(message@),
{
    let mut line = Line::new();
    line.put(Style::WarningMark, "✗");
    line.put(Style::Plain, " ");
    line.put(Style::Warning, message);
    line
}

/// The text of `text` where it is present, else `default`.
pub fn text_or<'a>(text: &'a Option<String>, default: &'a str) -> (chosen: &'a str)
    ensures
        chosen@ == or_text(opt_text(*text), default@),
{
    match text {
        Some(t) => t.as_str(),
        None => default,
    }
}

} // verus!
