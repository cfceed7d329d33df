use inbox_view::model::Thread;
use inbox_view::model::User;
use inbox_view::style::Line;
use inbox_view::style::Span;
use inbox_view::style::Style;
use inbox_view::summary::handle_of;
use inbox_view::summary::thread_summary;
use inbox_view::summary::truncate_preview;
use inbox_view::summary::PREVIEW_LIMIT;

const SAMPLE_SECONDS: u64 = 1_767_270_780;

fn user(pk: &str, username: &str) -> User {
    User {
        pk: String::from(pk),
        username: String::from(username),
        full_name: None,
        is_verified: None,
        is_private: None,
        follower_count: None,
        following_count: None,
    }
}

fn thread(id: &str, users: Vec<User>) -> Thread {
    Thread {
        id: String::from(id),
        users,
        thread_title: None,
        last_message_text: None,
        last_message_timestamp: None,
        has_unread: None,
        messages: None,
    }
}

fn span(style: Style, text: &str) -> Span {
    Span { style, text: String::from(text) }
}

fn texts(lines: &Vec<Line>) -> Vec<String> {
    lines.iter().map(|line| line.text()).collect()
}

#[test]
fn preview_of_36_characters_is_cut_to_35_and_an_ellipsis() {
    let text = "abcdefghijklmnopqrstuvwxyz0123456789";
    assert_eq!(text.chars().count(), 36);
    assert_eq!(truncate_preview(text), "abcdefghijklmnopqrstuvwxyz012345678...");
}

#[test]
fn preview_of_35_characters_is_unchanged() {
    let text = "abcdefghijklmnopqrstuvwxyz012345678";
    assert_eq!(text.chars().count(), 35);
    assert_eq!(truncate_preview(text), text);
    assert_eq!(truncate_preview("short"), "short");
    assert_eq!(truncate_preview(""), "");
}

#[test]
fn preview_truncation_counts_characters_not_bytes() {
    let kept = "é".repeat(35);
    assert_eq!(kept.len(), 70);
    assert_eq!(truncate_preview(&kept), kept);
    let long = "é".repeat(36);
    assert_eq!(truncate_preview(&long), format!("{}...", "é".repeat(35)));
    let mixed = format!("{}{}", "日本語".repeat(11), "abcdef");
    assert_eq!(mixed.chars().count(), 39);
    assert_eq!(truncate_preview(&mixed), format!("{}ab...", "日本語".repeat(11)));
    assert_eq!(PREVIEW_LIMIT, 35);
}

#[test]
fn summary_has_position_title_handle_age_mark_and_preview() {
    let mut t = thread("t1", vec![user("1", "alice"), user("2", "bob")]);
    t.thread_title = Some(String::from("Weekend plans"));
    t.last_message_text = Some(String::from("see you there"));
    t.last_message_timestamp = Some(String::from("2026-01-14T12:33:38"));
    t.has_unread = Some(true);
    let lines = thread_summary(1, &t, Some(SAMPLE_SECONDS + 13 * 86400));
    assert_eq!(
        lines,
        vec![
            Line {
                spans: vec![
                    span(Style::Muted, "  1"),
                    span(Style::Plain, ". "),
                    span(Style::Strong, "Weekend plans"),
                    span(Style::Plain, " "),
                    span(Style::Handle, "@alice"),
                    span(Style::Plain, " "),
                    span(Style::Muted, "13d"),
                    span(Style::Plain, " "),
                    span(Style::Info, "●"),
                ],
            },
            Line {
                spans: vec![
                    span(Style::Plain, "     "),
                    span(Style::Muted, "└"),
                    span(Style::Plain, " "),
                    span(Style::Plain, "see you there"),
                ],
            },
        ]
    );
    assert_eq!(
        texts(&lines),
        vec!["  1. Weekend plans @alice 13d ●", "     └ see you there"]
    );
}

#[test]
fn summary_falls_back_to_handle_media_and_blank_mark() {
    let t = thread("t2", vec![user("7", "carol")]);
    let lines = thread_summary(12, &t, Some(SAMPLE_SECONDS));
    assert_eq!(texts(&lines), vec![" 12. carol @carol   ", "     └ [media]"]);
    assert_eq!(lines[0].spans[8], span(Style::Plain, " "));
    assert_eq!(lines[0].spans[6], span(Style::Muted, ""));
    assert_eq!(lines[1].spans[3], span(Style::Plain, "[media]"));
}

#[test]
fn summary_of_a_thread_without_participants_uses_the_sentinel() {
    let t = thread("t3", vec![]);
    assert_eq!(handle_of(&t), "unknown");
    let lines = thread_summary(3, &t, None);
    assert_eq!(texts(&lines), vec!["  3. unknown @unknown   ", "     └ [media]"]);
    let mut titled = thread("t4", vec![]);
    titled.thread_title = Some(String::from("Group"));
    assert_eq!(texts(&thread_summary(3, &titled, None))[0], "  3. Group @unknown   ");
}

#[test]
fn summary_treats_a_false_or_missing_flag_as_read() {
    let mut t = thread("t5", vec![user("1", "dave")]);
    t.has_unread = Some(false);
    assert_eq!(thread_summary(1, &t, None)[0].spans[8], span(Style::Plain, " "));
    t.has_unread = None;
    assert_eq!(thread_summary(1, &t, None)[0].spans[8], span(Style::Plain, " "));
    t.has_unread = Some(true);
    assert_eq!(thread_summary(1, &t, None)[0].spans[8], span(Style::Info, "●"));
}

#[test]
fn summary_position_is_right_aligned_in_three_columns() {
    let t = thread("t6", vec![user("1", "erin")]);
    assert_eq!(thread_summary(9, &t, None)[0].spans[0], span(Style::Muted, "  9"));
    assert_eq!(thread_summary(10, &t, None)[0].spans[0], span(Style::Muted, " 10"));
    assert_eq!(thread_summary(100, &t, None)[0].spans[0], span(Style::Muted, "100"));
    assert_eq!(thread_summary(1000, &t, None)[0].spans[0], span(Style::Muted, "1000"));
}

#[test]
fn summary_cuts_a_long_preview_and_labels_a_bad_timestamp_empty() {
    let mut t = thread("t7", vec![user("1", "frank")]);
    t.last_message_text = Some("x".repeat(50));
    t.last_message_timestamp = Some(String::from("soon"));
    let lines = thread_summary(2, &t, Some(SAMPLE_SECONDS));
    assert_eq!(lines[0].spans[6], span(Style::Muted, ""));
    assert_eq!(lines[1].spans[3], span(Style::Plain, &format!("{}...", "x".repeat(35))));
}
