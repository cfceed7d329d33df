//! Resolving what the user named to a thread: by handle, by position in the
//! inbox, or by the thread's identifier.

use crate::model::thread_views;
use crate::model::Thread;
use crate::model::ThreadView;
use crate::text::chars_of;
use vstd::prelude::*;
use vstd::string::*;

verus! {

/// The code of `c`, with the capital letters `A` to `Z` moved onto the small
/// ones. Every other character keeps its code.
pub open spec fn folded(c: char) -> u32 {
    if 65 <= c as u32 <= 90 {
        (c as u32 + 32) as u32
    } else {
        c as u32
    }
}

/// Whether `a` and `b` are the same but for the case of their ASCII letters.
pub open spec fn same_ignoring_case(a: Seq<char>, b: Seq<char>) -> bool {
    &&& a.len() == b.len()
    &&& forall|i: int| 0 <= i < a.len() ==> folded(#[trigger] a[i]) == folded(b[i])
}

/// Whether one of the thread's participants has the handle `username`, the
/// case of ASCII letters left aside.
pub open spec fn has_participant(thread: ThreadView, username: Seq<char>) -> bool {
    exists|i: int|
        0 <= i < thread.users.len() && same_ignoring_case(
            (#[trigger] thread.users[i]).username,
            username,
        )
}

/// The position of the first thread from `from` on that has a participant
/// with the handle `username`.
pub open spec fn first_match_from(threads: Seq<ThreadView>, username: Seq<char>, from: int) -> Option<
    int,
>
    decreases threads.len() - from,
{
    if from < 0 || from >= threads.len() {
        None
    } else if has_participant(threads[from], username) {
        Some(from)
    } else {
        first_match_from(threads, username, from + 1)
    }
}

/// The position of the first thread with a participant of the handle
/// `username`, in the order of the list.
pub open spec fn first_match(threads: Seq<ThreadView>, username: Seq<char>) -> Option<int> {
    first_match_from(threads, username, 0)
}

/// What a target names.
#[derive(Clone, Debug, PartialEq, Eq)]
pub enum Target {
    /// A conversation partner, by handle (without the `@`).
    Username(String),
    /// A thread, by its identifier.
    ThreadId(String),
}

/// What a [`Target`] stands for.
pub enum TargetView {
    Username(Seq<char>),
    ThreadId(Seq<char>),
}

impl View for Target {
    type V = TargetView;

    open spec fn view(&self) -> TargetView {
        match self {
            Target::Username(name) => TargetView::Username(name@),
            Target::ThreadId(id) => TargetView::ThreadId(id@),
        }
    }
}

/// How a target is read: one that begins with `@` names the handle that
/// follows the `@`; any other is a thread identifier, taken whole.
pub open spec fn target_of(target: Seq<char>) -> TargetView {
    if target.len() > 0 && target[0] == '@' {
        TargetView::Username(target.skip(1))
    } else {
        TargetView::ThreadId(target)
    }
}

/// Where a position of the inbox, counted from one, leads in a list of
/// `available` threads.
#[derive(Clone, Copy, Debug, PartialEq, Eq, Structural)]
pub enum Position {
    /// Zero is no position.
    Invalid,
    /// The list is shorter than the position asks for.
    OutOfRange { requested: usize, available: usize },
    /// The thread at `index` of the list, counted from zero.
    At { index: usize },
}

/// Where the position `number` leads in a list of `available` threads.
pub open spec fn position_of(number: usize, available: usize) -> Position {
    if number == 0 {
        Position::Invalid
    } else if number > available {
        Position::OutOfRange { requested: number, available }
    } else {
        Position::At { index: (number - 1) as usize }
    }
}

/// `s` without the `mark`s that it begins with.
pub open spec fn without_leading(s: Seq<char>, mark: char) -> Seq<char>
    decreases s.len(),
{
    if s.len() > 0 && s[0] == mark {
        without_leading(s.skip(1), mark)
    } else {
        s
    }
}

fn fold_case(c: char) -> (code: u32)
    ensures
        code == folded(c),
{
    let code: u32 = c as u32;
    if 65 <= code && code <= 90 {
        code + 32
    } else {
        code
    }
}

/// Compares two strings without regard to the case of ASCII letters.
pub fn eq_ignoring_case(a: &str, b: &str) -> (same: bool)
    ensures
        same == same_ignoring_case(a@, b@),
{
    let a_chars = chars_of(a);
    let b_chars = chars_of(b);
    if a_chars.len() != b_chars.len() {
        return false;
    }
    let mut i: usize = 0;
    while i < a_chars.len()
        invariant
            i <= a_chars.len(),
            a_chars.len() == b_chars.len(),
            a_chars@ == a@,
            b_chars@ == b@,
            forall|j: int| 0 <= j < i ==> folded(#[trigger] a@[j]) == folded(b@[j]),
        decreases a_chars.len() - i,
    {
        if fold_case(a_chars[i]) != fold_case(b_chars[i]) {
            return false;
        }
        i = i + 1;
    }
    true
}

/// Whether `thread` has a participant with the handle `username`.
pub fn has_user(thread: &Thread, username: &str) -> (found: bool)
    ensures
        found == has_participant(thread@, username@),
{
    let mut i: usize = 0;
    while i < thread.users.len()
        invariant
            i <= thread.users.len(),
            forall|j: int|
                0 <= j < i ==> !same_ignoring_case(
                    (#[trigger] thread@.users[j]).username,
                    username@,
                ),
        decreases thread.users.len() - i,
    {
        assert(thread@.users[i as int] == thread.users@[i as int]@);
        if eq_ignoring_case(thread.users[i].username.as_str(), username) {
            return true;
        }
        i = i + 1;
    }
    false
}

/// A match before `upto` is the first match from `from` on, where no thread
/// from `from` up to it matches.
proof fn lemma_first_match_skips(
    threads: Seq<ThreadView>,
    username: Seq<char>,
    from: int,
    upto: int,
)
    requires
        0 <= from <= upto <= threads.len(),
        forall|j: int| from <= j < upto ==> !has_participant(#[trigger] threads[j], username),
    ensures
        first_match_from(threads, username, from) == first_match_from(threads, username, upto),
    decreases upto - from,
{
    if from < upto {
        lemma_first_match_skips(threads, username, from + 1, upto);
    }
}

/// The first match is a match, and no thread before it is one; where there is
/// none, no thread of the list matches.
pub proof fn lemma_first_match(threads: Seq<ThreadView>, username: Seq<char>)
    ensures
        match first_match(threads, username) {
            Some(i) => {
                &&& 0 <= i < threads.len()
                &&& has_participant(threads[i], username)
                &&& forall|j: int| 0 <= j < i ==> !has_participant(#[trigger] threads[j], username)
            },
            None => forall|j: int|
                0 <= j < threads.len() ==> !has_participant(#[trigger] threads[j], username),
        },
{
    lemma_first_match_from(threads, username, 0);
}

proof fn lemma_first_match_from(threads: Seq<ThreadView>, username: Seq<char>, from: int)
    requires
        0 <= from <= threads.len(),
    ensures
        match first_match_from(threads, username, from) {
            Some(i) => {
                &&& from <= i < threads.len()
                &&& has_participant(threads[i], username)
                &&& forall|j: int|
                    from <= j < i ==> !has_participant(#[trigger] threads[j], username)
            },
            None => forall|j: int|
                from <= j < threads.len() ==> !has_participant(#[trigger] threads[j], username),
        },
    decreases threads.len() - from,
{
    if from < threads.len() && !has_participant(threads[from], username) {
        lemma_first_match_from(threads, username, from + 1);
    }
}

/// Two handles that differ in the case of ASCII letters only are borne by the
/// same participants.
pub proof fn lemma_participant_ignores_case(thread: ThreadView, a: Seq<char>, b: Seq<char>)
    requires
        same_ignoring_case(a, b),
    ensures
        has_participant(thread, a) == has_participant(thread, b),
{
    if has_participant(thread, a) {
        let i = choose|i: int|
            0 <= i < thread.users.len() && same_ignoring_case(
                (#[trigger] thread.users[i]).username,
                a,
            );
        assert(same_ignoring_case(thread.users[i].username, b));
    }
    if has_participant(thread, b) {
        let i = choose|i: int|
            0 <= i < thread.users.len() && same_ignoring_case(
                (#[trigger] thread.users[i]).username,
                b,
            );
        assert(same_ignoring_case(thread.users[i].username, a));
    }
}

/// Looking a handle up does not depend on the case of its ASCII letters: two
/// spellings of it find the same thread, or both find none.
pub proof fn lemma_match_ignores_case(threads: Seq<ThreadView>, a: Seq<char>, b: Seq<char>)
    requires
        same_ignoring_case(a, b),
    ensures
        first_match(threads, a) == first_match(threads, b),
{
    lemma_match_from_ignores_case(threads, a, b, 0);
}

proof fn lemma_match_from_ignores_case(
    threads: Seq<ThreadView>,
    a: Seq<char>,
    b: Seq<char>,
    from: int,
)
    requires
        same_ignoring_case(a, b),
        0 <= from,
    ensures
        first_match_from(threads, a, from) == first_match_from(threads, b, from),
    decreases threads.len() - from,
{
    if from < threads.len() {
        lemma_participant_ignores_case(threads[from], a, b);
        lemma_match_from_ignores_case(threads, a, b, from + 1);
    }
}

/// A thread whose participant bears exactly the handle asked for is a match,
/// so the search finds a thread at or before it.
pub proof fn lemma_participant_is_found(threads: Seq<ThreadView>, username: Seq<char>, at: int, who: int)
    requires
        0 <= at < threads.len(),
        0 <= who < threads[at].users.len(),
        same_ignoring_case(threads[at].users[who].username, username),
    ensures
        first_match(threads, username) is Some,
        first_match(threads, username)->0 <= at,
{
    assert(has_participant(threads[at], username));
    lemma_first_match(threads, username);
}

/// Finds the first thread of the list that has a participant with the handle
/// `username`.
pub fn find_by_username(threads: &Vec<Thread>, username: &str) -> (found: Option<usize>)
    ensures
        match found {
            Some(i) => first_match(thread_views(threads@), username@) == Some(i as int),
            None => first_match(thread_views(threads@), username@) is None,
        },
{
    let ghost views = thread_views(threads@);
    let mut i: usize = 0;
    while i < threads.len()
        invariant
            i <= threads.len(),
            views == thread_views(threads@),
            forall|j: int| 0 <= j < i ==> !has_participant(#[trigger] views[j], username@),
        decreases threads.len() - i,
    {
        assert(views[i as int] == threads@[i as int]@);
        if has_user(&threads[i], username) {
            proof {
                lemma_first_match_skips(views, username@, 0, i as int);
            }
            return Some(i);
        }
        i = i + 1;
    }
    proof {
        lemma_first_match_skips(views, username@, 0, i as int);
    }
    None
}

/// Reads a target: `@handle` or a thread identifier.
pub fn parse_target(target: &str) -> (parsed: Target)
    ensures
        parsed@ == target_of(target@),
{
    let len = target.unicode_len();
    if len > 0 && target.get_char(0) == '@' {
        let name = target.substring_char(1, len);
        assert(name@ =~= target@.skip(1));
        Target::Username(String::from_str(name))
    } else {
        Target::ThreadId(String::from_str(target))
    }
}

/// Decides where the position `number`, counted from one, leads in a list of
/// `available` threads.
pub fn select_position(number: usize, available: usize) -> (position: Position)
    ensures
        position == position_of(number, available),
        number == 0 ==> position == Position::Invalid,
        number > available && number > 0 ==> position == (Position::OutOfRange {
            requested: number,
            available,
        }),
        1 <= number <= available ==> position == (Position::At { index: (number - 1) as usize }),
{
    if number == 0 {
        Position::Invalid
    } else if number > available {
        Position::OutOfRange { requested: number, available }
    } else {
        Position::At { index: number - 1 }
    }
}

/// Takes the leading `mark`s off `s`.
pub fn strip_leading(s: &str, mark: char) -> (rest: &str)
    ensures
        rest@ == without_leading(s@, mark),
{
    let chars = chars_of(s);
    let len = chars.len();
    let mut k: usize = 0;
    assert(s@.skip(0) =~= s@);
    while k < len && chars[k] == mark
        invariant
            k <= len,
            len == chars.len(),
            chars@ == s@,
            without_leading(s@, mark) == without_leading(s@.skip(k as int), mark),
        decreases len - k,
    {
        assert(s@.skip(k as int).skip(1) =~= s@.skip(k + 1));
        k = k + 1;
    }
    let rest = s.substring_char(k, len);
    assert(rest@ =~= s@.skip(k as int));
    rest
}

} // verus!
