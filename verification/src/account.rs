//! What signing in and out, the session's state and the search for an
//! account look like, line by line.

use crate::lines::caution;
use crate::lines::caution_line;
use crate::lines::failure;
use crate::lines::failure_line;
use crate::lines::heading;
use crate::lines::heading_line;
use crate::lines::labelled;
use crate::lines::labelled_line;
use crate::lines::notice;
use crate::lines::notice_line;
use crate::lines::or_text;
use crate::lines::rule;
use crate::lines::rule_line;
use crate::lines::success;
use crate::lines::success_line;
use crate::lines::text_or;
use crate::model::opt_text;
use crate::model::HealthResponse;
use crate::model::HealthResponseView;
use crate::model::LoginResponse;
use crate::model::LoginResponseView;
use crate::model::SearchResponse;
use crate::model::SearchResponseView;
use crate::model::User;
use crate::model::UserView;
use crate::resolve::strip_leading;
use crate::resolve::without_leading;
use crate::style::push_line;
use crate::style::screen;
use crate::style::styled;
use crate::style::Line;
use crate::style::SpanView;
use crate::style::Style;
use vstd::prelude::*;
use vstd::string::*;

verus! {

/// The width of the separators of these views, in characters.
pub const RULE_WIDTH: usize = 40;

/// The unit that a count is shown in.
#[derive(Clone, Copy, Debug, PartialEq, Eq, Structural)]
pub enum CountScale {
    /// Below a thousand: the count itself.
    Units,
    /// From a thousand on: thousands.
    Thousands,
    /// From a million on: millions.
    Millions,
}

/// The unit that the count `n` is shown in.
pub open spec fn scale_of(n: u64) -> CountScale {
    if n >= 1_000_000 {
        CountScale::Millions
    } else if n >= 1_000 {
        CountScale::Thousands
    } else {
        CountScale::Units
    }
}

/// The handle that a search for `query` looks for: the query without the
/// `@`s in front of it.
pub open spec fn searched_handle(query: Seq<char>) -> Seq<char> {
    without_leading(query, '@')
}

/// What is shown before the user is asked for name and password.
pub open spec fn login_banner_screen() -> Seq<Seq<SpanView>> {
    seq![
        heading("Instagram Login"@),
        rule(RULE_WIDTH as nat),
        notice("Your password will be encrypted before transmission."@),
        Seq::empty(),
    ]
}

/// The line that names the account that is signed in.
pub open spec fn signed_in_as(user: UserView) -> Seq<SpanView> {
    seq![
        styled(Style::Plain, "  "@),
        styled(Style::Muted, "Logged in as:"@),
        styled(Style::Plain, " "@),
        styled(Style::Handle, user.username),
        styled(Style::Plain, " ("@),
        styled(Style::Plain, or_text(user.full_name, Seq::empty())),
        styled(Style::Plain, ")"@),
    ]
}

/// What is shown for an answer to a sign-in: the success and, where the
/// answer names it, the account; or the service's message, or a default.
pub open spec fn login_screen(response: LoginResponseView) -> Seq<Seq<SpanView>> {
    if response.success {
        match response.user {
            Some(user) => seq![success("Login successful!"@), signed_in_as(user)],
            None => seq![success("Login successful!"@)],
        }
    } else {
        seq![failure(or_text(response.message, "Login failed"@))]
    }
}

/// The line for a server that could not be reached.
pub open spec fn unreachable(reason: Seq<char>) -> Seq<SpanView> {
    seq![
        styled(Style::ErrorMark, "✗"@),
        styled(Style::Plain, " "@),
        styled(Style::Error, "Cannot connect to server:"@),
        styled(Style::Plain, " "@),
        styled(Style::Plain, reason),
    ]
}

/// The line that gives the state of the session.
pub open spec fn session_line(health: HealthResponseView) -> Seq<SpanView> {
    if health.authenticated {
        seq![
            styled(Style::Plain, "  "@),
            styled(Style::Muted, "Status:"@),
            styled(Style::Plain, " "@),
            styled(Style::Success, "Authenticated"@),
            styled(Style::Plain, " ("@),
            styled(Style::Handle, or_text(health.username, Seq::empty())),
            styled(Style::Plain, ")"@),
        ]
    } else {
        labelled("Status:"@, styled(Style::Warning, "Not authenticated"@))
    }
}

/// What is shown for the state of the server and the session.
pub open spec fn status_screen(health: HealthResponseView) -> Seq<Seq<SpanView>> {
    seq![
        heading("Server Status"@),
        rule(RULE_WIDTH as nat),
        labelled("Server:"@, styled(Style::Success, health.status)),
        session_line(health),
    ]
}

/// What is shown for the account that is signed in, or that none is.
pub open spec fn whoami_screen(health: HealthResponseView) -> Seq<Seq<SpanView>> {
    if health.authenticated {
        seq![
            Seq::empty(),
            heading("Current User"@),
            rule(RULE_WIDTH as nat),
            labelled(
                "Username:"@,
                styled(Style::Handle, "@"@ + or_text(health.username, Seq::empty())),
            ),
            Seq::empty(),
        ]
    } else {
        seq![caution("Not logged in. Use 'ig login' first."@)]
    }
}

/// The line with the account's full name; none where it has no name or an
/// empty one.
pub open spec fn name_lines(user: UserView) -> Seq<Seq<SpanView>> {
    match user.full_name {
        Some(name) => if name.len() > 0 {
            seq![labelled("Name:"@, styled(Style::Plain, name))]
        } else {
            Seq::empty()
        },
        None => Seq::empty(),
    }
}

/// The line that marks a verified account; none for any other.
pub open spec fn verified_lines(user: UserView) -> Seq<Seq<SpanView>> {
    if user.is_verified == Some(true) {
        seq![labelled("Verified:"@, styled(Style::Info, "✓"@))]
    } else {
        Seq::empty()
    }
}

/// The line that says whether the account is private; none where that is not
/// known.
pub open spec fn privacy_lines(user: UserView) -> Seq<Seq<SpanView>> {
    match user.is_private {
        Some(true) => seq![labelled("Account:"@, styled(Style::Warning, "Private"@))],
        Some(false) => seq![labelled("Account:"@, styled(Style::Success, "Public"@))],
        None => Seq::empty(),
    }
}

/// The line for a count that was written out as `figure`; none without one.
pub open spec fn count_lines(label: Seq<char>, figure: Option<Seq<char>>) -> Seq<Seq<SpanView>> {
    match figure {
        Some(text) => seq![labelled(label, styled(Style::Accent, text))],
        None => Seq::empty(),
    }
}

/// What is shown for an account that a search found. `followers` and
/// `following` are the two counts as they are to be displayed.
pub open spec fn profile_screen(
    user: UserView,
    followers: Option<Seq<char>>,
    following: Option<Seq<char>>,
) -> Seq<Seq<SpanView>> {
    seq![
        Seq::empty(),
        heading("User Found"@),
        rule(RULE_WIDTH as nat),
        labelled("Username:"@, styled(Style::Handle, "@"@ + user.username)),
    ] + name_lines(user) + verified_lines(user) + privacy_lines(user) + count_lines(
        "Followers:"@,
        followers,
    ) + count_lines("Following:"@, following) + seq![
        Seq::empty(),
        notice("Send message: ig send "@ + user.username + " -m \"Hello!\""@),
    ]
}

/// What is shown for an answer to a search for `query`: the account, or that
/// there is none of that handle.
pub open spec fn search_screen(
    query: Seq<char>,
    response: SearchResponseView,
    followers: Option<Seq<char>>,
    following: Option<Seq<char>>,
) -> Seq<Seq<SpanView>> {
    match response.user {
        Some(user) => profile_screen(user, followers, following),
        None => seq![caution("User @"@ + searched_handle(query) + " not found"@)],
    }
}

/// The unit that the count `n` is shown in.
pub fn count_scale(n: u64) -> (scale: CountScale)
    ensures
        scale == scale_of(n),
{
    if n >= 1_000_000 {
        CountScale::Millions
    } else if n >= 1_000 {
        CountScale::Thousands
    } else {
        CountScale::Units
    }
}

/// The handle that a search for `query` looks for.
pub fn search_handle(query: &str) -> (handle: &str)
    ensures
        handle@ == searched_handle(query@),
{
    strip_leading(query, '@')
}

/// The notice shown while the search for `query` runs.
pub fn search_notice(query: &str) -> (line: Line)
    ensures
        line@ == notice("Searching for @"@ + searched_handle(query@) + "..."@),
{
    let mut text = String::from_str("Searching for @");
    text.append(search_handle(query));
    text.append("...");
    notice_line(text.as_str())
}

/// The lines shown before the user is asked for name and password.
pub fn login_banner() -> (lines: Vec<Line>)
    ensures
        screen(lines@) == login_banner_screen(),
{
    let mut lines: Vec<Line> = Vec::new();
    assert(screen(lines@) =~= Seq::<Seq<SpanView>>::empty());
    push_line(&mut lines, heading_line("Instagram Login"));
    push_line(&mut lines, rule_line(RULE_WIDTH));
    push_line(
        &mut lines,
        notice_line("Your password will be encrypted before transmission."),
    );
    push_line(&mut lines, Line::new());
    lines
}

/// The notice shown while a sign-in runs.
pub fn authenticating_notice() -> (line: Line)
    ensures
        line@ == notice("Authenticating..."@),
{
    notice_line("Authenticating...")
}

/// The notice shown while a sign-out runs.
pub fn logout_notice() -> (line: Line)
    ensures
        line@ == notice("Logging out..."@),
{
    notice_line("Logging out...")
}

/// The line shown after a sign-out.
pub fn logout_report() -> (line: Line)
    ensures
        line@ == success("Logged out successfully"@),
{
    success_line("Logged out successfully")
}

/// The lines for an answer to a sign-in.
pub fn login_report(response: &LoginResponse) -> (lines: Vec<Line>)
    ensures
        screen(lines@) == login_screen(response@),
{
    let mut lines: Vec<Line> = Vec::new();
    assert(screen(lines@) =~= Seq::<Seq<SpanView>>::empty());
    if response.success {
        push_line(&mut lines, success_line("Login successful!"));
        match &response.user {
            Some(user) => {
                let mut line = Line::new();
                line.put(Style::Plain, "  ");
                line.put(Style::Muted, "Logged in as:");
                line.put(Style::Plain, " ");
                line.put(Style::Handle, user.username.as_str());
                line.put(Style::Plain, " (");
                line.put(Style::Plain, text_or(&user.full_name, ""));
                line.put(Style::Plain, ")");
                proof {
                    reveal_strlit("");
                    assert(""@ =~= Seq::<char>::empty());
                    assert(line@ =~= signed_in_as(user@));
                }
                push_line(&mut lines, line);
            },
            None => {},
        }
    } else {
        push_line(&mut lines, failure_line(text_or(&response.message, "Login failed")));
    }
    lines
}

/// The line for a server that could not be reached, for the given reason.
pub fn unreachable_line(reason: &str) -> (line: Line)
    ensures
        line@ == unreachable(reason@),
{
    let mut line = Line::new();
    line.put(Style::ErrorMark, "✗");
    line.put(Style::Plain, " ");
    line.put(Style::Error, "Cannot connect to server:");
    line.put(Style::Plain, " ");
    line.put(Style::Plain, reason);
    line
}

/// The lines for the state of the server and the session.
pub fn status_report(health: &HealthResponse) -> (lines: Vec<Line>)
    ensures
        screen(lines@) == status_screen(health@),
{
    let mut lines: Vec<Line> = Vec::new();
    assert(screen(lines@) =~= Seq::<Seq<SpanView>>::empty());
    push_line(&mut lines, heading_line("Server Status"));
    push_line(&mut lines, rule_line(RULE_WIDTH));
    push_line(&mut lines, labelled_line("Server:", Style::Success, health.status.as_str()));
    if health.authenticated {
        let mut line = Line::new();
        line.put(Style::Plain, "  ");
        line.put(Style::Muted, "Status:");
        line.put(Style::Plain, " ");
        line.put(Style::Success, "Authenticated");
        line.put(Style::Plain, " (");
        line.put(Style::Handle, text_or(&health.username, ""));
        line.put(Style::Plain, ")");
        proof {
            reveal_strlit("");
            assert(""@ =~= Seq::<char>::empty());
            assert(line@ =~= session_line(health@));
        }
        push_line(&mut lines, line);
    } else {
        push_line(&mut lines, labelled_line("Status:", Style::Warning, "Not authenticated"));
    }
    lines
}

/// The lines for the account that is signed in, or that none is.
pub fn whoami_report(health: &HealthResponse) -> (lines: Vec<Line>)
    ensures
        screen(lines@) == whoami_screen(health@),
{
    let mut lines: Vec<Line> = Vec::new();
    assert(screen(lines@) =~= Seq::<Seq<SpanView>>::empty());
    if health.authenticated {
        let mut handle = String::from_str("@");
        handle.append(text_or(&health.username, ""));
        proof {
            reveal_strlit("");
            assert(""@ =~= Seq::<char>::empty());
        }
        push_line(&mut lines, Line::new());
        push_line(&mut lines, heading_line("Current User"));
        push_line(&mut lines, rule_line(RULE_WIDTH));
        push_line(&mut lines, labelled_line("Username:", Style::Handle, handle.as_str()));
        push_line(&mut lines, Line::new());
    } else {
        push_line(&mut lines, caution_line("Not logged in. Use 'ig login' first."));
    }
    lines
}

fn add_name_lines(lines: &mut Vec<Line>, user: &User)
    ensures
        screen(final(lines)@) == screen(old(lines)@) + name_lines(user@),
{
    match &user.full_name {
        Some(name) => {
            if name.as_str().unicode_len() > 0 {
                push_line(lines, labelled_line("Name:", Style::Plain, name.as_str()));
            }
        },
        None => {},
    }
    assert(screen(lines@) =~= screen(old(lines)@) + name_lines(user@));
}

fn add_verified_lines(lines: &mut Vec<Line>, user: &User)
    ensures
        screen(final(lines)@) == screen(old(lines)@) + verified_lines(user@),
{
    match user.is_verified {
        Some(true) => {
            push_line(lines, labelled_line("Verified:", Style::Info, "✓"));
        },
        _ => {},
    }
    assert(screen(lines@) =~= screen(old(lines)@) + verified_lines(user@));
}

fn add_privacy_lines(lines: &mut Vec<Line>, user: &User)
    ensures
        screen(final(lines)@) == screen(old(lines)@) + privacy_lines(user@),
{
    match user.is_private {
        Some(true) => {
            push_line(lines, labelled_line("Account:", Style::Warning, "Private"));
        },
        Some(false) => {
            push_line(lines, labelled_line("Account:", Style::Success, "Public"));
        },
        None => {},
    }
    assert(screen(lines@) =~= screen(old(lines)@) + privacy_lines(user@));
}

fn add_count_lines(lines: &mut Vec<Line>, label: &str, figure: &Option<String>)
    ensures
        screen(final(lines)@) == screen(old(lines)@) + count_lines(label@, opt_text(*figure)),
{
    match figure {
        Some(text) => {
            push_line(lines, labelled_line(label, Style::Accent, text.as_str()));
        },
        None => {},
    }
    assert(screen(lines@) =~= screen(old(lines)@) + count_lines(label@, opt_text(*figure)));
}

fn profile_head(user: &User) -> (lines: Vec<Line>)
    ensures
        screen(lines@) == seq![
            Seq::empty(),
            heading("User Found"@),
            rule(RULE_WIDTH as nat),
            labelled("Username:"@, styled(Style::Handle, "@"@ + user@.username)),
        ],
{
    let mut lines: Vec<Line> = Vec::new();
    assert(screen(lines@) =~= Seq::<Seq<SpanView>>::empty());
    let mut handle = String::from_str("@");
    handle.append(user.username.as_str());
    push_line(&mut lines, Line::new());
    push_line(&mut lines, heading_line("User Found"));
    push_line(&mut lines, rule_line(RULE_WIDTH));
    push_line(&mut lines, labelled_line("Username:", Style::Handle, handle.as_str()));
    lines
}

fn add_profile_foot(lines: &mut Vec<Line>, user: &User)
    ensures
        screen(final(lines)@) == screen(old(lines)@) + seq![
            Seq::empty(),
            notice("Send message: ig send "@ + user@.username + " -m \"Hello!\""@),
        ],
{
    let mut hint = String::from_str("Send message: ig send ");
    hint.append(user.username.as_str());
    hint.append(" -m \"Hello!\"");
    push_line(lines, Line::new());
    push_line(lines, notice_line(hint.as_str()));
    assert(screen(lines@) =~= screen(old(lines)@) + seq![
        Seq::empty(),
        notice("Send message: ig send "@ + user@.username + " -m \"Hello!\""@),
    ]);
}

/// The lines for the account `user`, with its two counts written out as
/// `followers` and `following`.
pub fn profile_report(user: &User, followers: &Option<String>, following: &Option<String>) -> (lines:
    Vec<Line>)
    ensures
        screen(lines@) == profile_screen(user@, opt_text(*followers), opt_text(*following)),
{
    let mut lines = profile_head(user);
    add_name_lines(&mut lines, user);
    add_verified_lines(&mut lines, user);
    add_privacy_lines(&mut lines, user);
    add_count_lines(&mut lines, "Followers:", followers);
    add_count_lines(&mut lines, "Following:", following);
    add_profile_foot(&mut lines, user);
    lines
}

/// The lines for an answer to a search for `query`, with the account's two
/// counts written out as `followers` and `following`.
pub fn search_report(
    query: &str,
    response: &SearchResponse,
    followers: &Option<String>,
    following: &Option<String>,
) -> (lines: Vec<Line>)
    ensures
        screen(lines@) == search_screen(
            query@,
            response@,
            opt_text(*followers),
            opt_text(*following),
        ),
{
    match &response.user {
        Some(user) => profile_report(user, followers, following),
        None => {
            let mut text = String::from_str("User @");
            text.append(search_handle(query));
            text.append(" not found");
            let mut lines: Vec<Line> = Vec::new();
            assert(screen(lines@) =~= Seq::<Seq<SpanView>>::empty());
            push_line(&mut lines, caution_line(text.as_str()));
            lines
        },
    }
}

} // verus!
