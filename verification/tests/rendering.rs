use inbox_view::style::append_lines;
use inbox_view::style::push_line;
use inbox_view::style::Hue;
use inbox_view::style::Line;
use inbox_view::style::Look;
use inbox_view::style::Span;
use inbox_view::style::Style;

fn all_styles() -> Vec<Style> {
    vec![
        Style::Plain,
        Style::Muted,
        Style::Strong,
        Style::Header,
        Style::Error,
        Style::ErrorMark,
        Style::Warning,
        Style::WarningMark,
        Style::Success,
        Style::SuccessMark,
        Style::Info,
        Style::Handle,
        Style::Sender,
        Style::Accent,
    ]
}

#[test]
fn rendering_follows_the_colour_switch() {
    colored::control::set_override(true);
    let expected = [
        "x",
        "\u{1b}[2mx\u{1b}[0m",
        "\u{1b}[1mx\u{1b}[0m",
        "\u{1b}[1;36mx\u{1b}[0m",
        "\u{1b}[31mx\u{1b}[0m",
        "\u{1b}[1;31mx\u{1b}[0m",
        "\u{1b}[33mx\u{1b}[0m",
        "\u{1b}[1;33mx\u{1b}[0m",
        "\u{1b}[32mx\u{1b}[0m",
        "\u{1b}[1;32mx\u{1b}[0m",
        "\u{1b}[34mx\u{1b}[0m",
        "\u{1b}[36mx\u{1b}[0m",
        "\u{1b}[1;34mx\u{1b}[0m",
        "\u{1b}[35mx\u{1b}[0m",
    ];
    for (style, wanted) in all_styles().into_iter().zip(expected) {
        assert_eq!(Span::new(style, "x").render(), wanted, "{:?}", style);
    }
    let mut line = Line::new();
    line.put(Style::ErrorMark, "✗");
    line.put(Style::Plain, " ");
    line.put(Style::Error, "no");
    assert_eq!(line.render(), "\u{1b}[1;31m✗\u{1b}[0m \u{1b}[31mno\u{1b}[0m");
    assert_eq!(line.text(), "✗ no");

    colored::control::set_override(false);
    for style in all_styles() {
        assert_eq!(Span::new(style, "x").render(), "x", "{:?}", style);
    }
    assert_eq!(line.render(), "✗ no");
    colored::control::unset_override();
}

#[test]
fn plain_spans_render_as_their_text() {
    assert_eq!(Span::new(Style::Plain, "héllo").render(), "héllo");
    assert_eq!(Span::new(Style::Plain, "").render(), "");
    let mut line = Line::new();
    assert_eq!(line.render(), "");
    line.put(Style::Plain, "  ");
    line.put(Style::Plain, "text");
    assert_eq!(line.render(), "  text");
    assert_eq!(line.render(), line.text());
}

#[test]
fn each_role_has_its_look() {
    let look = |hue, bold, dimmed| Look { hue, bold, dimmed };
    assert_eq!(Style::Plain.to_look(), look(None, false, false));
    assert_eq!(Style::Muted.to_look(), look(None, false, true));
    assert_eq!(Style::Strong.to_look(), look(None, true, false));
    assert_eq!(Style::Header.to_look(), look(Some(Hue::Cyan), true, false));
    assert_eq!(Style::Error.to_look(), look(Some(Hue::Red), false, false));
    assert_eq!(Style::ErrorMark.to_look(), look(Some(Hue::Red), true, false));
    assert_eq!(Style::Warning.to_look(), look(Some(Hue::Yellow), false, false));
    assert_eq!(Style::WarningMark.to_look(), look(Some(Hue::Yellow), true, false));
    assert_eq!(Style::Success.to_look(), look(Some(Hue::Green), false, false));
    assert_eq!(Style::SuccessMark.to_look(), look(Some(Hue::Green), true, false));
    assert_eq!(Style::Info.to_look(), look(Some(Hue::Blue), false, false));
    assert_eq!(Style::Handle.to_look(), look(Some(Hue::Cyan), false, false));
    assert_eq!(Style::Sender.to_look(), look(Some(Hue::Blue), true, false));
    assert_eq!(Style::Accent.to_look(), look(Some(Hue::Magenta), false, false));
}

#[test]
fn lines_are_built_span_by_span() {
    let mut line = Line::of(Style::Header, "Inbox");
    assert_eq!(line, Line { spans: vec![Span { style: Style::Header, text: String::from("Inbox") }] });
    line.push(Span::new(Style::Plain, " "));
    line.put(Style::Info, "(unread)");
    assert_eq!(line.spans.len(), 3);
    assert_eq!(line.text(), "Inbox (unread)");
    assert_eq!(Line::new().spans.len(), 0);
    assert_eq!(Line::new().text(), "");
}

#[test]
fn lines_are_gathered_in_order() {
    let mut lines = Vec::new();
    push_line(&mut lines, Line::of(Style::Plain, "one"));
    append_lines(&mut lines, vec![Line::of(Style::Plain, "two"), Line::of(Style::Plain, "three")]);
    append_lines(&mut lines, Vec::new());
    push_line(&mut lines, Line::new());
    let texts: Vec<String> = lines.iter().map(|line| line.text()).collect();
    assert_eq!(texts, vec!["one", "two", "three", ""]);
}
