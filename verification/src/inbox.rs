//! What the inbox and a single thread look like, line by line.

use crate::lines::failure;
use crate::lines::failure_line;
use crate::lines::notice;
use crate::lines::notice_line;
use crate::lines::or_text;
use crate::lines::separator;
use crate::lines::separator_line;
use crate::lines::text_or;
use crate::model::message_views;
use crate::model::opt_text;
use crate::model::thread_views;
use crate::model::user_views;
use crate::model::InboxResponse;
use crate::model::InboxResponseView;
use crate::model::Message;
use crate::model::MessageView;
use crate::model::Thread;
use crate::model::ThreadResponse;
use crate::model::ThreadResponseView;
use crate::model::ThreadView;
use crate::model::User;
use crate::model::UserView;
use crate::style::append_lines;
use crate::style::push_line;
use crate::style::screen;
use crate::style::styled;
use crate::style::Line;
use crate::style::SpanView;
use crate::style::Style;
use crate::summary::is_unread;
use crate::summary::summary_of;
use crate::summary::thread_summary;
use crate::text::decimal;
use crate::text::joined;
use crate::text::decimal_string;
use crate::time::age_at;
use crate::time::age_of;
use vstd::prelude::*;
use vstd::string::*;

verus! {

/// The unread threads of a list, in the order of the list.
pub open spec fn unread_of(threads: Seq<ThreadView>) -> Seq<ThreadView>
    decreases threads.len(),
{
    if threads.len() == 0 {
        Seq::empty()
    } else {
        let before = unread_of(threads.drop_last());
        if is_unread(threads.last()) {
            before.push(threads.last())
        } else {
            before
        }
    }
}

/// Whether the inbox lists `thread`: always, or with `unread_only` where the
/// thread is unread.
pub open spec fn is_listed(thread: ThreadView, unread_only: bool) -> bool {
    !unread_only || is_unread(thread)
}

/// The threads that the inbox shows: all of them, or the unread ones only.
pub open spec fn shown(threads: Seq<ThreadView>, unread_only: bool) -> Seq<ThreadView> {
    if unread_only {
        unread_of(threads)
    } else {
        threads
    }
}

/// The summaries of the threads of `threads` that the inbox lists, in the
/// order of the list. Each stands under the position, counted from one, that
/// its thread has in `threads` itself: a thread that is left out leaves its
/// number unused, so that a number on the screen is the position by which the
/// thread is opened.
pub open spec fn summaries(threads: Seq<ThreadView>, unread_only: bool, now: Option<u64>) -> Seq<
    Seq<SpanView>,
>
    decreases threads.len(),
{
    if threads.len() == 0 {
        Seq::empty()
    } else {
        let above = summaries(threads.drop_last(), unread_only, now);
        if is_listed(threads.last(), unread_only) {
            above + summary_of(threads.len(), threads.last(), now)
        } else {
            above
        }
    }
}

/// The heading of the inbox.
pub open spec fn inbox_heading(unread_only: bool) -> Seq<SpanView> {
    if unread_only {
        seq![
            styled(Style::Header, "Inbox"@),
            styled(Style::Plain, " "@),
            styled(Style::Info, "(unread)"@),
        ]
    } else {
        seq![styled(Style::Header, "Inbox"@)]
    }
}

/// The threads of an answer; none where the answer carries no list.
pub open spec fn threads_of(response: InboxResponseView) -> Seq<ThreadView> {
    match response.threads {
        Some(threads) => threads,
        None => Seq::empty(),
    }
}

/// What is shown for an answer to a request for the inbox.
///
/// A failed request shows the service's message, or a default. A list that
/// is empty (after the unread filter, where that is on) shows one notice and
/// nothing else. Any other list shows a blank line, the heading, a separator,
/// the summaries, a separator and the count. The summaries are numbered by
/// the list as it was fetched, before the filter; the count is that of the
/// threads shown.
pub open spec fn inbox_screen(
    response: InboxResponseView,
    unread_only: bool,
    now: Option<u64>,
) -> Seq<Seq<SpanView>> {
    if !response.success {
        seq![failure(or_text(response.error, "Failed to fetch inbox"@))]
    } else {
        let fetched = threads_of(response);
        let count = shown(fetched, unread_only).len();
        if count == 0 {
            if unread_only {
                seq![notice("No unread conversations."@)]
            } else {
                seq![notice("No conversations found."@)]
            }
        } else {
            seq![Seq::empty(), inbox_heading(unread_only), separator()] + summaries(
                fetched,
                unread_only,
                now,
            ) + seq![separator(), notice("Showing "@ + decimal(count) + " conversations"@)]
        }
    }
}

/// The position of the first user from `from` on whose key is `key`.
pub open spec fn first_with_key(users: Seq<UserView>, key: Seq<char>, from: int) -> Option<int>
    decreases users.len() - from,
{
    if from < 0 || from >= users.len() {
        None
    } else if users[from].pk == key {
        Some(from)
    } else {
        first_with_key(users, key, from + 1)
    }
}

/// The name shown above a message: the handle of the first participant whose
/// key is the sender's, and `You` where the message names no sender or none
/// of the participants.
pub open spec fn sender_of(users: Seq<UserView>, sender: Option<Seq<char>>) -> Seq<char> {
    match sender {
        None => "You"@,
        Some(key) => match first_with_key(users, key, 0) {
            Some(i) => users[i].username,
            None => "You"@,
        },
    }
}

/// The three lines of one message: sender and age, the indented text (or
/// `[media]`), and a blank line.
pub open spec fn message_block(users: Seq<UserView>, message: MessageView, now: Option<u64>) -> Seq<
    Seq<SpanView>,
> {
    seq![
        seq![
            styled(Style::Sender, sender_of(users, message.user_id)),
            styled(Style::Plain, " "@),
            styled(Style::Muted, age_at(message.timestamp, now)),
            styled(Style::Plain, " "@),
        ],
        seq![styled(Style::Plain, "  "@), styled(Style::Plain, or_text(message.text, "[media]"@))],
        Seq::empty(),
    ]
}

/// The blocks of the messages of `shown`, from top to bottom.
pub open spec fn history(users: Seq<UserView>, shown: Seq<MessageView>, now: Option<u64>) -> Seq<
    Seq<SpanView>,
>
    decreases shown.len(),
{
    if shown.len() == 0 {
        Seq::empty()
    } else {
        history(users, shown.drop_last(), now) + message_block(users, shown.last(), now)
    }
}

/// The handles of a list of users.
pub open spec fn usernames(users: Seq<UserView>) -> Seq<Seq<char>> {
    users.map_values(|u: UserView| u.username)
}

/// The messages of a thread, newest first; none where the thread carries no
/// list.
pub open spec fn messages_of(thread: ThreadView) -> Seq<MessageView> {
    match thread.messages {
        Some(messages) => messages,
        None => Seq::empty(),
    }
}

/// The lines above the messages of a thread.
pub open spec fn thread_heading(thread: ThreadView) -> Seq<Seq<SpanView>> {
    seq![
        Seq::empty(),
        seq![
            styled(Style::Header, "Conversation with:"@),
            styled(Style::Plain, " "@),
            styled(Style::Strong, joined(usernames(thread.users), ", "@)),
        ],
        separator(),
    ]
}

/// What is shown for an answer to a request for the thread `thread_id`.
///
/// A failed request shows the service's message, or a default; an answer
/// without a thread shows that it was not found. A thread shows its heading
/// and then its messages from the oldest to the newest, that is in the
/// reverse of the order in which they are listed, followed by a separator and
/// the identifier asked for. A thread without messages shows a notice below
/// the heading.
pub open spec fn thread_screen(
    thread_id: Seq<char>,
    response: ThreadResponseView,
    now: Option<u64>,
) -> Seq<Seq<SpanView>> {
    if !response.success {
        seq![failure(or_text(response.error, "Failed to fetch thread"@))]
    } else {
        match response.thread {
            None => seq![notice("Thread not found."@)],
            Some(thread) => {
                if messages_of(thread).len() == 0 {
                    thread_heading(thread) + seq![notice("No messages in this thread."@)]
                } else {
                    thread_heading(thread) + history(
                        thread.users,
                        messages_of(thread).reverse(),
                        now,
                    ) + seq![separator(), notice("Thread ID: "@ + thread_id)]
                }
            },
        }
    }
}

/// The unread threads of a list are those that filtering by the unread flag
/// keeps: the same threads, each as often, in the same order.
pub proof fn lemma_unread_of_is_filter(threads: Seq<ThreadView>)
    ensures
        unread_of(threads) == threads.filter(|t: ThreadView| is_unread(t)),
    decreases threads.len(),
{
    reveal(Seq::filter);
    if threads.len() > 0 {
        lemma_unread_of_is_filter(threads.drop_last());
    }
}

/// With the unread filter on, every thread shown is unread, and with it off
/// the list is shown as it is.
pub proof fn lemma_shown_threads(threads: Seq<ThreadView>, unread_only: bool)
    ensures
        !unread_only ==> shown(threads, unread_only) == threads,
        unread_only ==> forall|i: int|
            0 <= i < shown(threads, unread_only).len() ==> is_unread(
                #[trigger] shown(threads, unread_only)[i],
            ),
        shown(threads, unread_only).len() <= threads.len(),
    decreases threads.len(),
{
    if unread_only && threads.len() > 0 {
        lemma_shown_threads(threads.drop_last(), unread_only);
    }
}

/// The list of summaries gives each thread that is shown two lines, and none
/// to a thread that is left out.
pub proof fn lemma_summaries_len(threads: Seq<ThreadView>, unread_only: bool, now: Option<u64>)
    ensures
        summaries(threads, unread_only, now).len() == 2 * shown(threads, unread_only).len(),
    decreases threads.len(),
{
    if threads.len() > 0 {
        lemma_summaries_len(threads.drop_last(), unread_only, now);
        if !unread_only {
            assert(shown(threads.drop_last(), unread_only).len() == threads.len() - 1);
        }
    }
}

/// A thread that the inbox lists is summarised under the position that it
/// has in the list as fetched: the thread at place `k` of `threads` (counted
/// from zero) stands under `k + 1`, whether or not threads before it were
/// left out. Its two lines come after those of the threads shown before it.
pub proof fn lemma_summaries_by_position(
    threads: Seq<ThreadView>,
    unread_only: bool,
    now: Option<u64>,
    k: int,
)
    requires
        0 <= k < threads.len(),
        is_listed(threads[k], unread_only),
    ensures
        ({
            let listing = summaries(threads, unread_only, now);
            let above = shown(threads.take(k), unread_only).len() as int;
            &&& !unread_only ==> above == k
            &&& 2 * above + 2 <= listing.len()
            &&& listing.subrange(2 * above, 2 * above + 2) == summary_of(
                (k + 1) as nat,
                threads[k],
                now,
            )
        }),
    decreases threads.len(),
{
    let front = threads.drop_last();
    let before = summaries(front, unread_only, now);
    let above = shown(threads.take(k), unread_only).len() as int;
    lemma_summaries_len(front, unread_only, now);
    if k == threads.len() - 1 {
        let last = summary_of(threads.len(), threads.last(), now);
        assert(threads.take(k) =~= front);
        assert((before + last).subrange(2 * above, 2 * above + 2) =~= last);
    } else {
        lemma_summaries_by_position(front, unread_only, now, k);
        assert(front.take(k) =~= threads.take(k));
        assert(front[k] == threads[k]);
        if is_listed(threads.last(), unread_only) {
            let last = summary_of(threads.len(), threads.last(), now);
            assert((before + last).subrange(2 * above, 2 * above + 2) =~= before.subrange(
                2 * above,
                2 * above + 2,
            ));
        }
    }
}

/// An inbox with nothing to show is one notice and nothing else: no heading,
/// no separator, no count.
pub proof fn lemma_empty_inbox_is_one_notice(
    response: InboxResponseView,
    unread_only: bool,
    now: Option<u64>,
)
    requires
        response.success,
        shown(threads_of(response), unread_only).len() == 0,
    ensures
        inbox_screen(response, unread_only, now) == if unread_only {
            seq![notice("No unread conversations."@)]
        } else {
            seq![notice("No conversations found."@)]
        },
        inbox_screen(response, unread_only, now).len() == 1,
{
}

/// A history gives each message three lines.
pub proof fn lemma_history_len(users: Seq<UserView>, shown: Seq<MessageView>, now: Option<u64>)
    ensures
        history(users, shown, now).len() == 3 * shown.len(),
    decreases shown.len(),
{
    if shown.len() > 0 {
        lemma_history_len(users, shown.drop_last(), now);
    }
}

/// The message at place `k` of what a history shows stands on its lines `3k`
/// to `3k + 2`.
pub proof fn lemma_history_by_position(
    users: Seq<UserView>,
    shown: Seq<MessageView>,
    now: Option<u64>,
    k: int,
)
    requires
        0 <= k < shown.len(),
    ensures
        history(users, shown, now).subrange(3 * k, 3 * k + 3) == message_block(
            users,
            shown[k],
            now,
        ),
    decreases shown.len(),
{
    lemma_history_len(users, shown, now);
    lemma_history_len(users, shown.drop_last(), now);
    let before = history(users, shown.drop_last(), now);
    let last = message_block(users, shown.last(), now);
    if k == shown.len() - 1 {
        assert((before + last).subrange(3 * k, 3 * k + 3) =~= last);
    } else {
        lemma_history_by_position(users, shown.drop_last(), now, k);
        assert((before + last).subrange(3 * k, 3 * k + 3) =~= before.subrange(3 * k, 3 * k + 3));
    }
}

/// A thread is read from top to bottom in the order in which it was written:
/// below the three lines of the heading, the block at place `k` is that of
/// the message that is `k` places from the end of the list, which has the
/// newest message first. The view ends with a separator and the identifier.
pub proof fn lemma_thread_shows_oldest_first(
    thread_id: Seq<char>,
    response: ThreadResponseView,
    now: Option<u64>,
    k: int,
)
    requires
        response.success,
        response.thread is Some,
        0 <= k < messages_of(response.thread->0).len(),
    ensures
        ({
            let thread = response.thread->0;
            let count = messages_of(thread).len();
            let view = thread_screen(thread_id, response, now);
            &&& view.len() == 3 + 3 * count + 2
            &&& view.subrange(3 + 3 * k, 3 + 3 * k + 3) == message_block(
                thread.users,
                messages_of(thread)[count - 1 - k],
                now,
            )
            &&& view[view.len() - 1] == notice("Thread ID: "@ + thread_id)
        }),
{
    let thread = response.thread->0;
    let listed = messages_of(thread);
    let shown = listed.reverse();
    let head = thread_heading(thread);
    let blocks = history(thread.users, shown, now);
    let foot = seq![separator(), notice("Thread ID: "@ + thread_id)];
    lemma_history_len(thread.users, shown, now);
    lemma_history_by_position(thread.users, shown, now, k);
    assert(shown[k] == listed[listed.len() - 1 - k]);
    assert((head + blocks + foot).subrange(3 + 3 * k, 3 + 3 * k + 3) =~= blocks.subrange(
        3 * k,
        3 * k + 3,
    ));
}

/// What a list of borrowed threads stands for.
pub open spec fn borrowed_views(threads: Seq<&Thread>) -> Seq<ThreadView> {
    threads.map_values(|t: &Thread| t@)
}

/// The threads that the inbox shows, in the order of `threads`: all of them,
/// or with `unread_only` those that are flagged as unread.
pub fn select_threads<'a>(threads: &'a Vec<Thread>, unread_only: bool) -> (kept: Vec<&'a Thread>)
    ensures
        borrowed_views(kept@) == shown(thread_views(threads@), unread_only),
{
    let ghost views = thread_views(threads@);
    let mut kept: Vec<&'a Thread> = Vec::new();
    let mut i: usize = 0;
    proof {
        assert(views.take(0) =~= Seq::<ThreadView>::empty());
        assert(borrowed_views(kept@) =~= Seq::<ThreadView>::empty());
    }
    while i < threads.len()
        invariant
            i <= threads.len(),
            views == thread_views(threads@),
            borrowed_views(kept@) == shown(views.take(i as int), unread_only),
        decreases threads.len() - i,
    {
        let thread = &threads[i];
        let ghost before = borrowed_views(kept@);
        proof {
            let upto = views.take(i + 1);
            assert(upto.drop_last() =~= views.take(i as int));
            assert(upto.last() == thread@);
            assert(upto =~= views.take(i as int).push(thread@));
        }
        let unread = match thread.has_unread {
            Some(true) => true,
            _ => false,
        };
        if !unread_only || unread {
            kept.push(thread);
            assert(borrowed_views(kept@) =~= before.push(thread@));
        }
        i = i + 1;
    }
    proof {
        assert(views.take(i as int) =~= views);
    }
    kept
}

/// The summaries of the threads of `threads` that the inbox lists (all of
/// them, or with `unread_only` the unread ones), each under the position that
/// its thread has in `threads`, counted from one.
pub fn list_threads(threads: &Vec<Thread>, unread_only: bool, now: Option<u64>) -> (lines: Vec<
    Line,
>)
    ensures
        screen(lines@) == summaries(thread_views(threads@), unread_only, now),
{
    let ghost views = thread_views(threads@);
    let mut lines: Vec<Line> = Vec::new();
    let mut i: usize = 0;
    proof {
        assert(views.take(0) =~= Seq::<ThreadView>::empty());
        assert(screen(lines@) =~= Seq::<Seq<SpanView>>::empty());
    }
    while i < threads.len()
        invariant
            i <= threads.len(),
            views == thread_views(threads@),
            screen(lines@) == summaries(views.take(i as int), unread_only, now),
        decreases threads.len() - i,
    {
        let thread = &threads[i];
        proof {
            let upto = views.take(i + 1);
            assert(upto.drop_last() =~= views.take(i as int));
            assert(upto.last() == thread@);
        }
        let unread = match thread.has_unread {
            Some(true) => true,
            _ => false,
        };
        if !unread_only || unread {
            let summary = thread_summary(i + 1, thread, now);
            append_lines(&mut lines, summary);
        }
        i = i + 1;
    }
    proof {
        assert(views.take(i as int) =~= views);
    }
    lines
}

/// The lines for an answer to a request for the inbox, with ages taken at
/// the reading `now` of the clock.
pub fn inbox_lines(response: &InboxResponse, unread_only: bool, now: Option<u64>) -> (lines: Vec<
    Line,
>)
    ensures
        screen(lines@) == inbox_screen(response@, unread_only, now),
{
    let mut lines: Vec<Line> = Vec::new();
    assert(screen(lines@) =~= Seq::<Seq<SpanView>>::empty());
    if !response.success {
        push_line(&mut lines, failure_line(text_or(&response.error, "Failed to fetch inbox")));
        return lines;
    }
    let none: Vec<Thread> = Vec::new();
    let all = match &response.threads {
        Some(threads) => threads,
        None => &none,
    };
    assert(thread_views(all@) =~= threads_of(response@));
    let kept = select_threads(all, unread_only);
    if kept.len() == 0 {
        if unread_only {
            push_line(&mut lines, notice_line("No unread conversations."));
        } else {
            push_line(&mut lines, notice_line("No conversations found."));
        }
        return lines;
    }
    let ghost fetched = thread_views(all@);
    let ghost count = borrowed_views(kept@).len();
    push_line(&mut lines, Line::new());
    let mut heading = Line::of(Style::Header, "Inbox");
    if unread_only {
        heading.put(Style::Plain, " ");
        heading.put(Style::Info, "(unread)");
    }
    assert(heading@ =~= inbox_heading(unread_only));
    push_line(&mut lines, heading);
    push_line(&mut lines, separator_line());
    append_lines(&mut lines, list_threads(all, unread_only, now));
    push_line(&mut lines, separator_line());
    let mut total = String::from_str("Showing ");
    total.append(decimal_string(kept.len() as u64).as_str());
    total.append(" conversations");
    assert(total@ =~= "Showing "@ + decimal(count) + " conversations"@);
    push_line(&mut lines, notice_line(total.as_str()));
    assert(screen(lines@) =~= seq![Seq::empty(), inbox_heading(unread_only), separator()]
        + summaries(fetched, unread_only, now) + seq![
        separator(),
        notice("Showing "@ + decimal(count) + " conversations"@),
    ]);
    lines
}

/// The name shown above a message of `sender` in a thread of `users`.
pub fn sender_name<'a>(users: &'a Vec<User>, sender: &Option<String>) -> (name: &'a str)
    ensures
        name@ == sender_of(user_views(users@), opt_text(*sender)),
{
    match sender {
        None => "You",
        Some(key) => {
            let ghost views = user_views(users@);
            let mut i: usize = 0;
            while i < users.len()
                invariant
                    i <= users.len(),
                    views == user_views(users@),
                    opt_text(*sender) == Some(key@),
                    first_with_key(views, key@, 0) == first_with_key(views, key@, i as int),
                decreases users.len() - i,
            {
                assert(views[i as int] == users@[i as int]@);
                if users[i].pk == *key {
                    assert(views[i as int].pk == key@);
                    assert(first_with_key(views, key@, i as int) == Some(i as int));
                    return users[i].username.as_str();
                }
                i = i + 1;
            }
            "You"
        },
    }
}

/// The three lines of `message` in a thread of `users`.
pub fn message_lines(users: &Vec<User>, message: &Message, now: Option<u64>) -> (lines: Vec<Line>)
    ensures
        screen(lines@) == message_block(user_views(users@), message@, now),
{
    let age = age_of(&message.timestamp, now);
    let mut top = Line::new();
    top.put(Style::Sender, sender_name(users, &message.user_id));
    top.put(Style::Plain, " ");
    top.put(Style::Muted, age.as_str());
    top.put(Style::Plain, " ");
    let mut body = Line::new();
    body.put(Style::Plain, "  ");
    body.put(Style::Plain, text_or(&message.text, "[media]"));
    let mut lines: Vec<Line> = Vec::new();
    assert(screen(lines@) =~= Seq::<Seq<SpanView>>::empty());
    proof {
        let expected = message_block(user_views(users@), message@, now);
        assert(top@ =~= expected[0]);
        assert(body@ =~= expected[1]);
    }
    push_line(&mut lines, top);
    push_line(&mut lines, body);
    push_line(&mut lines, Line::new());
    assert(screen(lines@) =~= message_block(user_views(users@), message@, now));
    lines
}

/// The handles of `users`, separated by a comma and a blank.
pub fn participant_list(users: &Vec<User>) -> (list: String)
    ensures
        list@ == joined(usernames(user_views(users@)), ", "@),
{
    let ghost names = usernames(user_views(users@));
    let mut list = String::new();
    let mut i: usize = 0;
    proof {
        assert(names.take(0) =~= Seq::<Seq<char>>::empty());
    }
    while i < users.len()
        invariant
            i <= users.len(),
            names == usernames(user_views(users@)),
            list@ == joined(names.take(i as int), ", "@),
        decreases users.len() - i,
    {
        proof {
            let upto = names.take(i + 1);
            assert(upto.drop_last() =~= names.take(i as int));
            assert(upto.last() == users@[i as int].username@);
            if i == 0 {
                assert(upto[0] == upto.last());
            }
        }
        if i > 0 {
            list.append(", ");
        }
        list.append(users[i].username.as_str());
        i = i + 1;
    }
    proof {
        assert(names.take(i as int) =~= names);
    }
    list
}

/// The lines for an answer to a request for the thread `thread_id`, with
/// ages taken at the reading `now` of the clock.
pub fn thread_lines(thread_id: &str, response: &ThreadResponse, now: Option<u64>) -> (lines: Vec<
    Line,
>)
    ensures
        screen(lines@) == thread_screen(thread_id@, response@, now),
{
    let mut lines: Vec<Line> = Vec::new();
    assert(screen(lines@) =~= Seq::<Seq<SpanView>>::empty());
    if !response.success {
        push_line(&mut lines, failure_line(text_or(&response.error, "Failed to fetch thread")));
        return lines;
    }
    let thread = match &response.thread {
        Some(thread) => thread,
        None => {
            push_line(&mut lines, notice_line("Thread not found."));
            return lines;
        },
    };
    push_line(&mut lines, Line::new());
    let mut heading = Line::of(Style::Header, "Conversation with:");
    heading.put(Style::Plain, " ");
    heading.put(Style::Strong, participant_list(&thread.users).as_str());
    assert(thread@ == response@.thread->0);
    assert(heading@ =~= thread_heading(thread@)[1]);
    push_line(&mut lines, heading);
    push_line(&mut lines, separator_line());
    assert(screen(lines@) =~= thread_heading(thread@));

    let none: Vec<Message> = Vec::new();
    let messages = match &thread.messages {
        Some(messages) => messages,
        None => &none,
    };
    let ghost listed = message_views(messages@);
    assert(listed =~= messages_of(thread@));
    if messages.len() == 0 {
        push_line(&mut lines, notice_line("No messages in this thread."));
        return lines;
    }
    let ghost users = user_views(thread.users@);
    let ghost shown = listed.reverse();
    let ghost head = screen(lines@);
    let mut left: usize = messages.len();
    proof {
        assert(shown.take(0) =~= Seq::<MessageView>::empty());
        assert(head + history(users, shown.take(0), now) =~= head);
    }
    while left > 0
        invariant
            left <= messages.len(),
            messages.len() > 0,
            listed == message_views(messages@),
            shown == listed.reverse(),
            users == user_views(thread.users@),
            screen(lines@) == head + history(users, shown.take(messages.len() - left), now),
        decreases left,
    {
        left = left - 1;
        let ghost done = messages.len() - left - 1;
        proof {
            let upto = shown.take(done + 1);
            assert(upto.drop_last() =~= shown.take(done));
            assert(upto.last() == messages@[left as int]@);
        }
        let block = message_lines(&thread.users, &messages[left], now);
        append_lines(&mut lines, block);
        assert(screen(lines@) =~= head + history(users, shown.take(done + 1), now));
    }
    proof {
        assert(shown.take(messages.len() as int) =~= shown);
    }
    push_line(&mut lines, separator_line());
    let mut footer = String::from_str("Thread ID: ");
    footer.append(thread_id);
    push_line(&mut lines, notice_line(footer.as_str()));
    assert(screen(lines@) =~= thread_screen(thread_id@, response@, now));
    lines
}

} // verus!
