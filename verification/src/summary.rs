//! The two-line summary of a thread in the inbox list.

use crate::model::Thread;
use crate::model::ThreadView;
use crate::style::push_line;
use crate::style::screen;
use crate::style::styled;
use crate::style::Line;
use crate::style::SpanView;
use crate::style::Style;
use crate::text::decimal;
use crate::text::decimal_string;
use crate::text::pad_left;
use crate::text::pad_left_string;
use crate::time::age_at;
use crate::time::age_of;
use vstd::prelude::*;
use vstd::string::*;

verus! {

/// The longest preview that is shown in full, in characters.
pub const PREVIEW_LIMIT: usize = 35;

/// The handle that a thread is listed under: that of its first participant,
/// or `unknown` for a thread without participants.
pub open spec fn display_username(thread: ThreadView) -> Seq<char> {
    if thread.users.len() > 0 {
        thread.users[0].username
    } else {
        "unknown"@
    }
}

/// The title that a thread is listed under: its own, or else the handle.
pub open spec fn title_of(thread: ThreadView) -> Seq<char> {
    match thread.thread_title {
        Some(title) => title,
        None => display_username(thread),
    }
}

/// `text` cut down to the preview limit: a longer text keeps its first 35
/// characters, followed by three dots.
pub open spec fn truncated(text: Seq<char>) -> Seq<char> {
    if text.len() > PREVIEW_LIMIT {
        text.take(PREVIEW_LIMIT as int) + "..."@
    } else {
        text
    }
}

/// The preview of a thread: its last message, cut down, or `[media]` where
/// the last message has no text.
pub open spec fn preview_of(thread: ThreadView) -> Seq<char> {
    truncated(
        match thread.last_message_text {
            Some(text) => text,
            None => "[media]"@,
        },
    )
}

/// Whether the thread is flagged as unread. A missing flag counts as read.
pub open spec fn is_unread(thread: ThreadView) -> bool {
    thread.has_unread == Some(true)
}

/// The span at the end of the first line: the unread mark, or a blank of the
/// same width.
pub open spec fn unread_mark(thread: ThreadView) -> SpanView {
    if is_unread(thread) {
        styled(Style::Info, "●"@)
    } else {
        styled(Style::Plain, " "@)
    }
}

/// The summary of `thread` at position `index` of the list (counted from
/// one): a line with the position, the title, the handle, the age of the last
/// message and the unread mark, and below it the indented preview.
pub open spec fn summary_of(index: nat, thread: ThreadView, now: Option<u64>) -> Seq<
    Seq<SpanView>,
> {
    seq![
        seq![
            styled(Style::Muted, pad_left(decimal(index), 3)),
            styled(Style::Plain, ". "@),
            styled(Style::Strong, title_of(thread)),
            styled(Style::Plain, " "@),
            styled(Style::Handle, "@"@ + display_username(thread)),
            styled(Style::Plain, " "@),
            styled(Style::Muted, age_at(thread.last_message_timestamp, now)),
            styled(Style::Plain, " "@),
            unread_mark(thread),
        ],
        seq![
            styled(Style::Plain, "     "@),
            styled(Style::Muted, "└"@),
            styled(Style::Plain, " "@),
            styled(Style::Plain, preview_of(thread)),
        ],
    ]
}

/// A preview is bounded whatever the message: it has at most 38 characters,
/// namely the 35 that are kept and the three dots.
pub proof fn lemma_truncated_len(text: Seq<char>)
    ensures
        truncated(text).len() <= PREVIEW_LIMIT + 3,
        text.len() <= PREVIEW_LIMIT ==> truncated(text) == text,
        text.len() > PREVIEW_LIMIT ==> truncated(text).len() == PREVIEW_LIMIT + 3
            && truncated(text).take(PREVIEW_LIMIT as int) == text.take(PREVIEW_LIMIT as int),
{
    reveal_strlit("...");
    if text.len() > PREVIEW_LIMIT {
        assert(truncated(text).take(PREVIEW_LIMIT as int) =~= text.take(PREVIEW_LIMIT as int));
    }
}

/// The unread mark and the blank that stands in for it are one character
/// wide, so the columns stay in line.
pub proof fn lemma_unread_mark_width(thread: ThreadView)
    ensures
        unread_mark(thread).text.len() == 1,
{
    reveal_strlit("●");
    reveal_strlit(" ");
}

/// The handle that `thread` is listed under.
pub fn handle_of(thread: &Thread) -> (handle: &str)
    ensures
        handle@ == display_username(thread@),
{
    if thread.users.len() > 0 {
        thread.users[0].username.as_str()
    } else {
        "unknown"
    }
}

/// Cuts `text` down to the preview limit, counting characters.
pub fn truncate_preview(text: &str) -> (preview: String)
    ensures
        preview@ == truncated(text@),
        text@.len() <= PREVIEW_LIMIT ==> preview@ == text@,
        text@.len() > PREVIEW_LIMIT ==> preview@ == text@.take(PREVIEW_LIMIT as int) + "..."@,
{
    if text.unicode_len() > PREVIEW_LIMIT {
        let mut preview = String::from_str(text.substring_char(0, PREVIEW_LIMIT));
        preview.append("...");
        preview
    } else {
        String::from_str(text)
    }
}

/// The two lines that list `thread` at position `index`, with ages taken at
/// the reading `now` of the clock.
pub fn thread_summary(index: usize, thread: &Thread, now: Option<u64>) -> (lines: Vec<Line>)
    ensures
        screen(lines@) == summary_of(index as nat, thread@, now),
{
    let handle = handle_of(thread);
    let title = match &thread.thread_title {
        Some(title) => title.as_str(),
        None => handle,
    };
    let preview = match &thread.last_message_text {
        Some(text) => truncate_preview(text.as_str()),
        None => truncate_preview("[media]"),
    };
    let position = pad_left_string(decimal_string(index as u64).as_str(), 3);
    let mut at_handle = String::from_str("@");
    at_handle.append(handle);
    let age = age_of(&thread.last_message_timestamp, now);

    let mut first = Line::new();
    first.put(Style::Muted, position.as_str());
    first.put(Style::Plain, ". ");
    first.put(Style::Strong, title);
    first.put(Style::Plain, " ");
    first.put(Style::Handle, at_handle.as_str());
    first.put(Style::Plain, " ");
    first.put(Style::Muted, age.as_str());
    first.put(Style::Plain, " ");
    match thread.has_unread {
        Some(true) => {
            first.put(Style::Info, "●");
        },
        _ => {
            first.put(Style::Plain, " ");
        },
    }

    let mut second = Line::new();
    second.put(Style::Plain, "     ");
    second.put(Style::Muted, "└");
    second.put(Style::Plain, " ");
    second.put(Style::Plain, preview.as_str());

    let mut lines: Vec<Line> = Vec::new();
    assert(screen(lines@) =~= Seq::<Seq<SpanView>>::empty());
    proof {
        let expected = summary_of(index as nat, thread@, now);
        assert(title@ == title_of(thread@));
        assert(preview@ == preview_of(thread@));
        assert(first@ =~= expected[0]);
        assert(second@ =~= expected[1]);
    }
    push_line(&mut lines, first);
    push_line(&mut lines, second);
    assert(screen(lines@) =~= summary_of(index as nat, thread@, now));
    lines
}

} // verus!
