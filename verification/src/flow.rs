//! The commands as steps. A command does not talk to the service itself: it
//! says what to fetch, and is told what came back. Whoever drives it prints
//! the notice of a fetch step before fetching, hands the answer to
//! [`on_inbox`] or [`on_thread`], and goes on until a step ends the command.

use crate::lines::failure;
use crate::lines::failure_line;
use crate::inbox::inbox_lines;
use crate::inbox::is_listed;
use crate::inbox::lemma_summaries_by_position;
use crate::inbox::shown;
use crate::inbox::summaries;
use crate::inbox::inbox_screen;
use crate::lines::notice;
use crate::lines::notice_line;
use crate::lines::or_text;
use crate::lines::text_or;
use crate::inbox::thread_lines;
use crate::inbox::thread_screen;
use crate::inbox::threads_of;
use crate::lines::warning;
use crate::lines::warning_line;
use crate::model::thread_views;
use crate::model::InboxResponse;
use crate::model::InboxResponseView;
use crate::model::Thread;
use crate::model::ThreadResponse;
use crate::model::ThreadResponseView;
use crate::resolve::find_by_username;
use crate::resolve::first_match;
use crate::resolve::has_participant;
use crate::resolve::lemma_first_match;
use crate::resolve::parse_target;
use crate::resolve::position_of;
use crate::resolve::select_position;
use crate::resolve::target_of;
use crate::resolve::Position;
use crate::resolve::Target;
use crate::resolve::TargetView;
use crate::style::push_line;
use crate::style::screen;
use crate::style::Line;
use crate::style::SpanView;
use crate::summary::display_username;
use crate::summary::handle_of;
use crate::summary::summary_of;
use crate::text::decimal;
use crate::text::decimal_string;
use vstd::prelude::*;
use vstd::string::*;

verus! {

/// How many threads are fetched to look for a handle.
pub const SEARCH_LIMIT: u32 = 100;

/// What a command does with the inbox once it is there.
#[derive(Clone, Debug, PartialEq, Eq)]
pub enum Waiting {
    /// List it.
    Listing { unread_only: bool },
    /// Look for the thread with `username` and show it, with up to `limit`
    /// messages.
    Finding { username: String, limit: u32 },
    /// Open the chat of the thread at position `number`, counted from one.
    Opening { number: usize },
}

/// What a [`Waiting`] stands for.
pub enum WaitingView {
    Listing { unread_only: bool },
    Finding { username: Seq<char>, limit: u32 },
    Opening { number: usize },
}

impl View for Waiting {
    type V = WaitingView;

    open spec fn view(&self) -> WaitingView {
        match self {
            Waiting::Listing { unread_only } => WaitingView::Listing { unread_only: *unread_only },
            Waiting::Finding { username, limit } => WaitingView::Finding {
                username: username@,
                limit: *limit,
            },
            Waiting::Opening { number } => WaitingView::Opening { number: *number },
        }
    }
}

/// What is to be done next.
#[derive(Clone, Debug, PartialEq, Eq)]
pub enum Step {
    /// Print `notice`, fetch up to `limit` threads of the inbox, and hand the
    /// answer to [`on_inbox`] together with `then`.
    FetchInbox { notice: Line, limit: u32, then: Waiting },
    /// Print `notice`, fetch the thread `thread_id` with up to `limit`
    /// messages, and hand the answer to [`on_thread`] together with
    /// `thread_id`.
    FetchThread { notice: Line, thread_id: String, limit: u32 },
    /// Go on with the chat with `username`.
    OpenChat { username: String },
    /// Print `output`; the command is over.
    Finish { output: Vec<Line> },
}

/// What a [`Step`] stands for.
pub enum StepView {
    FetchInbox { notice: Seq<SpanView>, limit: u32, then: WaitingView },
    FetchThread { notice: Seq<SpanView>, thread_id: Seq<char>, limit: u32 },
    OpenChat { username: Seq<char> },
    Finish { output: Seq<Seq<SpanView>> },
}

impl View for Step {
    type V = StepView;

    open spec fn view(&self) -> StepView {
        match self {
            Step::FetchInbox { notice, limit, then } => StepView::FetchInbox {
                notice: notice@,
                limit: *limit,
                then: then@,
            },
            Step::FetchThread { notice, thread_id, limit } => StepView::FetchThread {
                notice: notice@,
                thread_id: thread_id@,
                limit: *limit,
            },
            Step::OpenChat { username } => StepView::OpenChat { username: username@ },
            Step::Finish { output } => StepView::Finish { output: screen(output@) },
        }
    }
}

/// The step that ends a command with one line.
pub open spec fn finish_with(line: Seq<SpanView>) -> StepView {
    StepView::Finish { output: seq![line] }
}

/// The first step of listing the inbox.
pub open spec fn inbox_request(limit: u32, unread_only: bool) -> StepView {
    StepView::FetchInbox {
        notice: notice("Fetching inbox..."@),
        limit,
        then: WaitingView::Listing { unread_only },
    }
}

/// The step that fetches the thread `thread_id`.
pub open spec fn thread_request(thread_id: Seq<char>, limit: u32) -> StepView {
    StepView::FetchThread { notice: notice("Fetching messages..."@), thread_id, limit }
}

/// The first step of showing the thread with `username`: the inbox is
/// fetched, up to [`SEARCH_LIMIT`] threads of it, to find the thread in.
pub open spec fn username_request(username: Seq<char>, limit: u32) -> StepView {
    StepView::FetchInbox {
        notice: notice("Finding conversation with @"@ + username + "..."@),
        limit: SEARCH_LIMIT,
        then: WaitingView::Finding { username, limit },
    }
}

/// The first step of showing what `target` names. A handle is looked up in
/// the inbox; an identifier is fetched as it is.
pub open spec fn target_request(target: Seq<char>, limit: u32) -> StepView {
    match target_of(target) {
        TargetView::Username(username) => username_request(username, limit),
        TargetView::ThreadId(thread_id) => thread_request(thread_id, limit),
    }
}

/// The limit of the request that looks for position `number`: the number
/// itself, as far as a limit can hold it.
pub open spec fn limit_for(number: usize) -> u32 {
    (number as int % 0x1_0000_0000) as u32
}

/// The first step of opening the chat at position `number`. Zero is turned
/// down at once, with nothing fetched.
pub open spec fn position_request(number: usize) -> StepView {
    if number == 0 {
        finish_with(failure("Number must be 1 or greater"@))
    } else {
        StepView::FetchInbox {
            notice: notice("Fetching inbox..."@),
            limit: limit_for(number),
            then: WaitingView::Opening { number },
        }
    }
}

/// The line for a position that the inbox does not reach.
pub open spec fn out_of_range(requested: usize, available: usize) -> Seq<SpanView> {
    failure(
        "No conversation at position "@ + decimal(requested as nat) + ". You have "@ + decimal(
            available as nat,
        ) + " conversations."@,
    )
}

/// The step that follows an answer to a request for the inbox.
///
/// A listing ends with the inbox view. A search for a handle ends with the
/// service's failure, or with a warning where no thread has such a
/// participant, and else goes on to fetch the first thread that has one. A
/// position ends with the service's failure, or with the count of threads
/// where the list is too short, and else goes on to the chat with the handle
/// that the thread at that position is listed under.
pub open spec fn after_inbox(then: WaitingView, response: InboxResponseView, now: Option<u64>) -> StepView {
    match then {
        WaitingView::Listing { unread_only } => StepView::Finish {
            output: inbox_screen(response, unread_only, now),
        },
        WaitingView::Finding { username, limit } => {
            if !response.success {
                finish_with(failure(or_text(response.error, "Failed to fetch inbox"@)))
            } else {
                match first_match(threads_of(response), username) {
                    Some(i) => thread_request(threads_of(response)[i].id, limit),
                    None => finish_with(warning("No conversation found with @"@ + username)),
                }
            }
        },
        WaitingView::Opening { number } => {
            if !response.success {
                finish_with(failure(or_text(response.error, "Failed to fetch inbox"@)))
            } else {
                match position_of(number, threads_of(response).len() as usize) {
                    Position::Invalid => finish_with(failure("Number must be 1 or greater"@)),
                    Position::OutOfRange { requested, available } => finish_with(
                        out_of_range(requested, available),
                    ),
                    Position::At { index } => StepView::OpenChat {
                        username: display_username(threads_of(response)[index as int]),
                    },
                }
            }
        },
    }
}

/// The step that follows an answer to a request for the thread `thread_id`:
/// the thread view, which ends the command.
pub open spec fn after_thread(
    thread_id: Seq<char>,
    response: ThreadResponseView,
    now: Option<u64>,
) -> StepView {
    StepView::Finish { output: thread_screen(thread_id, response, now) }
}

/// A handle that no participant of the inbox bears yields the not-found line,
/// which is a warning and no failure, and nothing more is fetched.
pub proof fn lemma_unknown_handle_is_not_found(
    response: InboxResponseView,
    username: Seq<char>,
    limit: u32,
    now: Option<u64>,
)
    requires
        response.success,
        forall|i: int|
            0 <= i < threads_of(response).len() ==> !has_participant(
                #[trigger] threads_of(response)[i],
                username,
            ),
    ensures
        after_inbox(WaitingView::Finding { username, limit }, response, now) == finish_with(
            warning("No conversation found with @"@ + username),
        ),
{
    lemma_first_match(threads_of(response), username);
}

/// A handle that a participant bears, in whatever case, leads to the first
/// thread of the inbox that has such a participant: that thread is fetched
/// by its identifier, with the limit that the command was given.
pub proof fn lemma_known_handle_is_fetched(
    response: InboxResponseView,
    username: Seq<char>,
    limit: u32,
    now: Option<u64>,
    at: int,
)
    requires
        response.success,
        0 <= at < threads_of(response).len(),
        has_participant(threads_of(response)[at], username),
    ensures
        ({
            let step = after_inbox(WaitingView::Finding { username, limit }, response, now);
            exists|first: int|
                0 <= first <= at && has_participant(
                    #[trigger] threads_of(response)[first],
                    username,
                ) && step == thread_request(threads_of(response)[first].id, limit)
        }),
{
    lemma_first_match(threads_of(response), username);
    let first = first_match(threads_of(response), username)->0;
    assert(has_participant(threads_of(response)[first], username));
}

/// Where a position leads once the inbox is there: beyond the list, to the
/// line that names the position and the number of threads; within it, to the
/// chat with the handle of the thread one place before the position.
pub proof fn lemma_position_outcomes(response: InboxResponseView, number: usize, now: Option<u64>)
    requires
        response.success,
        number >= 1,
        threads_of(response).len() <= usize::MAX,
    ensures
        ({
            let threads = threads_of(response);
            let step = after_inbox(WaitingView::Opening { number }, response, now);
            &&& number > threads.len() ==> step == finish_with(
                out_of_range(number, threads.len() as usize),
            )
            &&& number <= threads.len() ==> step == (StepView::OpenChat {
                username: display_username(threads[number - 1]),
            })
        }),
{
}

/// A number on the screen is a position that can be opened: the thread that
/// the inbox lists from place `k` of the fetched list (counted from zero)
/// stands under `k + 1`, and the position `k + 1` in the same list leads to
/// the chat of that thread, with the unread filter on or off.
pub proof fn lemma_listed_number_opens_its_thread(
    response: InboxResponseView,
    unread_only: bool,
    now: Option<u64>,
    k: int,
)
    requires
        response.success,
        0 <= k < threads_of(response).len() <= usize::MAX,
        is_listed(threads_of(response)[k], unread_only),
    ensures
        ({
            let threads = threads_of(response);
            let listing = summaries(threads, unread_only, now);
            let above = shown(threads.take(k), unread_only).len() as int;
            &&& listing.subrange(2 * above, 2 * above + 2) == summary_of(
                (k + 1) as nat,
                threads[k],
                now,
            )
            &&& after_inbox(WaitingView::Opening { number: (k + 1) as usize }, response, now)
                == (StepView::OpenChat { username: display_username(threads[k]) })
        }),
{
    lemma_summaries_by_position(threads_of(response), unread_only, now, k);
}

fn finish_line(line: Line) -> (step: Step)
    ensures
        step@ == finish_with(line@),
{
    let mut output: Vec<Line> = Vec::new();
    assert(screen(output@) =~= Seq::<Seq<SpanView>>::empty());
    push_line(&mut output, line);
    Step::Finish { output }
}

/// Lists the inbox: up to `limit` threads, with `unread_only` the unread
/// ones among them.
pub fn show_inbox(limit: u32, unread_only: bool) -> (step: Step)
    ensures
        step@ == inbox_request(limit, unread_only),
{
    Step::FetchInbox {
        notice: notice_line("Fetching inbox..."),
        limit,
        then: Waiting::Listing { unread_only },
    }
}

/// Shows the thread `thread_id` with up to `limit` messages.
pub fn show_thread(thread_id: &str, limit: u32) -> (step: Step)
    ensures
        step@ == thread_request(thread_id@, limit),
{
    Step::FetchThread {
        notice: notice_line("Fetching messages..."),
        thread_id: String::from_str(thread_id),
        limit,
    }
}

/// Shows the thread with the participant `username`, with up to `limit`
/// messages.
pub fn show_thread_by_username(username: &str, limit: u32) -> (step: Step)
    ensures
        step@ == username_request(username@, limit),
{
    let mut text = String::from_str("Finding conversation with @");
    text.append(username);
    text.append("...");
    Step::FetchInbox {
        notice: notice_line(text.as_str()),
        limit: SEARCH_LIMIT,
        then: Waiting::Finding { username: String::from_str(username), limit },
    }
}

/// Shows what `target` names: with a leading `@` the thread with that
/// participant, else the thread with that identifier.
pub fn show_thread_or_user(target: &str, limit: u32) -> (step: Step)
    ensures
        step@ == target_request(target@, limit),
{
    match parse_target(target) {
        Target::Username(username) => show_thread_by_username(username.as_str(), limit),
        Target::ThreadId(thread_id) => show_thread(thread_id.as_str(), limit),
    }
}

/// Opens the chat of the thread at position `number` of the inbox, counted
/// from one.
pub fn open_by_number(number: usize) -> (step: Step)
    ensures
        step@ == position_request(number),
        number == 0 ==> step@ is Finish,
        number > 0 ==> step@ is FetchInbox && step@->FetchInbox_then == (WaitingView::Opening {
            number,
        }),
        0 < number <= u32::MAX ==> step@->FetchInbox_limit == number,
{
    if number == 0 {
        finish_line(failure_line("Number must be 1 or greater"))
    } else {
        let limit: u32 = (number as u64 % 0x1_0000_0000) as u32;
        Step::FetchInbox {
            notice: notice_line("Fetching inbox..."),
            limit,
            then: Waiting::Opening { number },
        }
    }
}

/// Goes on after the inbox was fetched: `then` says what the command wanted
/// it for, `response` is the answer, and `now` the reading of the clock that
/// ages are taken at.
pub fn on_inbox(then: &Waiting, response: &InboxResponse, now: Option<u64>) -> (step: Step)
    ensures
        step@ == after_inbox(then@, response@, now),
        !(step@ is FetchInbox),
{
    match then {
        Waiting::Listing { unread_only } => Step::Finish {
            output: inbox_lines(response, *unread_only, now),
        },
        Waiting::Finding { username, limit } => {
            if !response.success {
                return finish_line(
                    failure_line(text_or(&response.error, "Failed to fetch inbox")),
                );
            }
            let none: Vec<Thread> = Vec::new();
            let threads = match &response.threads {
                Some(threads) => threads,
                None => &none,
            };
            assert(thread_views(threads@) =~= threads_of(response@));
            match find_by_username(threads, username.as_str()) {
                Some(i) => {
                    proof {
                        lemma_first_match(thread_views(threads@), username@);
                    }
                    show_thread(threads[i].id.as_str(), *limit)
                },
                None => {
                    let mut text = String::from_str("No conversation found with @");
                    text.append(username.as_str());
                    finish_line(warning_line(text.as_str()))
                },
            }
        },
        Waiting::Opening { number } => {
            if !response.success {
                return finish_line(
                    failure_line(text_or(&response.error, "Failed to fetch inbox")),
                );
            }
            let none: Vec<Thread> = Vec::new();
            let threads = match &response.threads {
                Some(threads) => threads,
                None => &none,
            };
            assert(thread_views(threads@) =~= threads_of(response@));
            match select_position(*number, threads.len()) {
                Position::Invalid => finish_line(failure_line("Number must be 1 or greater")),
                Position::OutOfRange { requested, available } => {
                    let mut text = String::from_str("No conversation at position ");
                    text.append(decimal_string(requested as u64).as_str());
                    text.append(". You have ");
                    text.append(decimal_string(available as u64).as_str());
                    text.append(" conversations.");
                    finish_line(failure_line(text.as_str()))
                },
                Position::At { index } => Step::OpenChat {
                    username: String::from_str(handle_of(&threads[index])),
                },
            }
        },
    }
}

/// Goes on after the thread `thread_id` was fetched.
pub fn on_thread(thread_id: &str, response: &ThreadResponse, now: Option<u64>) -> (step: Step)
    ensures
        step@ == after_thread(thread_id@, response@, now),
        step@ is Finish,
{
    Step::Finish { output: thread_lines(thread_id, response, now) }
}

} // verus!
