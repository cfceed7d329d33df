use inbox_view::model::Thread;
use inbox_view::model::User;
use inbox_view::resolve::eq_ignoring_case;
use inbox_view::resolve::find_by_username;
use inbox_view::resolve::has_user;
use inbox_view::resolve::parse_target;
use inbox_view::resolve::select_position;
use inbox_view::resolve::strip_leading;
use inbox_view::resolve::Position;
use inbox_view::resolve::Target;

fn member(username: &str) -> User {
    User {
        pk: format!("pk-{}", username),
        username: String::from(username),
        full_name: None,
        is_verified: None,
        is_private: None,
        follower_count: None,
        following_count: None,
    }
}

fn thread_of(id: &str, usernames: &[&str]) -> Thread {
    Thread {
        id: String::from(id),
        users: usernames.iter().map(|name| member(name)).collect(),
        thread_title: None,
        last_message_text: None,
        last_message_timestamp: None,
        has_unread: None,
        messages: None,
    }
}

#[test]
fn username_matching_ignores_ascii_case() {
    let threads = vec![thread_of("a", &["bob"]), thread_of("b", &["alice"])];
    assert_eq!(find_by_username(&threads, "Alice"), Some(1));
    assert_eq!(find_by_username(&threads, "alice"), Some(1));
    assert_eq!(find_by_username(&threads, "ALICE"), Some(1));
    assert_eq!(find_by_username(&threads, "BoB"), Some(0));
}

#[test]
fn username_matching_is_exact_not_partial() {
    let threads = vec![thread_of("a", &["alice_w"]), thread_of("b", &["alice"])];
    assert_eq!(find_by_username(&threads, "alice"), Some(1));
    assert_eq!(find_by_username(&threads, "alic"), None);
    assert_eq!(find_by_username(&threads, "alice_"), None);
    assert_eq!(find_by_username(&threads, ""), None);
}

#[test]
fn username_without_a_match_is_not_found() {
    let threads = vec![thread_of("a", &["bob"]), thread_of("b", &[])];
    assert_eq!(find_by_username(&threads, "alice"), None);
    assert_eq!(find_by_username(&Vec::new(), "alice"), None);
}

#[test]
fn first_matching_thread_wins_in_list_order() {
    let threads = vec![
        thread_of("group", &["zed", "Alice"]),
        thread_of("direct", &["alice"]),
        thread_of("other", &["alice", "bob"]),
    ];
    assert_eq!(find_by_username(&threads, "alice"), Some(0));
    assert_eq!(find_by_username(&threads, "bob"), Some(2));
}

#[test]
fn any_participant_of_a_thread_can_match() {
    let thread = thread_of("g", &["ann", "ben", "Cat"]);
    assert!(has_user(&thread, "ann"));
    assert!(has_user(&thread, "BEN"));
    assert!(has_user(&thread, "cat"));
    assert!(!has_user(&thread, "dan"));
    assert!(!has_user(&thread_of("e", &[]), "ann"));
}

#[test]
fn case_folding_covers_ascii_letters_only() {
    assert!(eq_ignoring_case("Alice", "aLICE"));
    assert!(eq_ignoring_case("", ""));
    assert!(eq_ignoring_case("user_01.x", "USER_01.X"));
    assert!(!eq_ignoring_case("alice", "alice "));
    assert!(!eq_ignoring_case("élan", "Élan"));
    assert!(eq_ignoring_case("Élan", "ÉLAN"));
    assert!(!eq_ignoring_case("a@", "a`"));
    assert!(!eq_ignoring_case("a[", "a{"));
    assert!(!eq_ignoring_case("k", "\u{212A}"));
    assert_eq!(eq_ignoring_case("straße", "STRASSE"), "straße".eq_ignore_ascii_case("STRASSE"));
    assert_eq!(eq_ignoring_case("Zz", "zZ"), "Zz".eq_ignore_ascii_case("zZ"));
}

#[test]
fn target_with_marker_names_a_handle() {
    assert_eq!(parse_target("@alice"), Target::Username(String::from("alice")));
    assert_eq!(parse_target("@"), Target::Username(String::new()));
    assert_eq!(parse_target("@@alice"), Target::Username(String::from("@alice")));
    assert_eq!(parse_target("@émile"), Target::Username(String::from("émile")));
}

#[test]
fn target_without_marker_is_a_thread_identifier() {
    assert_eq!(
        parse_target("340282366841710300949128"),
        Target::ThreadId(String::from("340282366841710300949128"))
    );
    assert_eq!(parse_target("alice@home"), Target::ThreadId(String::from("alice@home")));
    assert_eq!(parse_target(" @alice"), Target::ThreadId(String::from(" @alice")));
    assert_eq!(parse_target(""), Target::ThreadId(String::new()));
}

#[test]
fn position_zero_is_invalid() {
    assert_eq!(select_position(0, 0), Position::Invalid);
    assert_eq!(select_position(0, 5), Position::Invalid);
}

#[test]
fn position_beyond_the_list_is_out_of_range() {
    assert_eq!(select_position(6, 5), Position::OutOfRange { requested: 6, available: 5 });
    assert_eq!(select_position(1, 0), Position::OutOfRange { requested: 1, available: 0 });
    assert_eq!(
        select_position(usize::MAX, 3),
        Position::OutOfRange { requested: usize::MAX, available: 3 }
    );
}

#[test]
fn position_within_the_list_selects_the_entry_before_it() {
    assert_eq!(select_position(1, 5), Position::At { index: 0 });
    assert_eq!(select_position(3, 5), Position::At { index: 2 });
    assert_eq!(select_position(5, 5), Position::At { index: 4 });
}

#[test]
fn strip_leading_takes_every_leading_mark() {
    assert_eq!(strip_leading("@bob", '@'), "bob");
    assert_eq!(strip_leading("@@bob", '@'), "bob");
    assert_eq!(strip_leading("bob", '@'), "bob");
    assert_eq!(strip_leading("b@b@", '@'), "b@b@");
    assert_eq!(strip_leading("@@@", '@'), "");
    assert_eq!(strip_leading("", '@'), "");
    assert_eq!(strip_leading("@émile", '@'), "émile");
}
