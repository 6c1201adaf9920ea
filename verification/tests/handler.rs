use discussion_notify::handler::{handle, ExtractError, Outcome};
use discussion_notify::message::{body_segment, format_message};
use discussion_notify::value::{FieldState, Json};
use discussion_notify::Config;

fn text(s: &str) -> Json {
    Json::Text(s.to_string())
}

fn record(pairs: Vec<(&str, Json)>) -> Json {
    Json::Record(pairs.into_iter().map(|(k, v)| (k.to_string(), v)).collect())
}

fn discussion(title: &str, body: Option<&str>, link: &str, author: &str) -> Json {
    let mut fields = vec![("title", text(title))];
    if let Some(b) = body {
        fields.push(("body", text(b)));
    }
    fields.push(("html_url", text(link)));
    fields.push(("user", record(vec![("login", text(author))])));
    record(fields)
}

fn expect_send(payload: &Json) -> String {
    match handle(payload) {
        Outcome::Send(m) => m,
        other => panic!("expected a message, got {:?}", other),
    }
}

#[test]
fn round_trip_fixed_tuple() {
    let m = format_message("alice", "Hello", "World", "https://x/1");
    assert_eq!(
        m,
        "New Discussion Created by _alice_:\n*Hello*\nWorld\n\nopen: https://x/1"
    );
}

#[test]
fn round_trip_through_handle() {
    let payload = record(vec![
        ("action", text("created")),
        (
            "discussion",
            discussion("Hello", Some("World"), "https://x/1", "alice"),
        ),
    ]);
    assert_eq!(
        expect_send(&payload),
        "New Discussion Created by _alice_:\n*Hello*\nWorld\n\nopen: https://x/1"
    );
}

#[test]
fn absent_action_proceeds_like_created() {
    let with_action = record(vec![
        ("action", text("created")),
        (
            "discussion",
            discussion("Hello", Some("World"), "https://x/1", "alice"),
        ),
    ]);
    let without_action = record(vec![(
        "discussion",
        discussion("Hello", Some("World"), "https://x/1", "alice"),
    )]);
    assert_eq!(expect_send(&with_action), expect_send(&without_action));
}

#[test]
fn foreign_action_sends_nothing() {
    let payload = record(vec![
        ("action", text("deleted")),
        (
            "discussion",
            discussion("Hello", Some("World"), "https://x/1", "alice"),
        ),
    ]);
    assert!(matches!(handle(&payload), Outcome::NotActionable));
}

#[test]
fn edited_action_sends_nothing() {
    let payload = record(vec![
        ("action", text("edited")),
        (
            "discussion",
            discussion("Hello", Some("World"), "https://x/1", "alice"),
        ),
    ]);
    assert!(matches!(handle(&payload), Outcome::NotActionable));
}

#[test]
fn mistyped_action_sends_nothing() {
    let payload = record(vec![
        ("action", Json::Int(3)),
        (
            "discussion",
            discussion("Hello", Some("World"), "https://x/1", "alice"),
        ),
    ]);
    assert!(matches!(handle(&payload), Outcome::NotActionable));
}

#[test]
fn absent_discussion_sends_nothing() {
    let payload = record(vec![("action", text("created"))]);
    assert!(matches!(handle(&payload), Outcome::NotDiscussion));
}

#[test]
fn null_discussion_sends_nothing() {
    let payload = record(vec![("discussion", Json::Null)]);
    assert!(matches!(handle(&payload), Outcome::NotDiscussion));
}

#[test]
fn scalar_discussion_sends_nothing() {
    let payload = record(vec![("discussion", text("nope"))]);
    assert!(matches!(handle(&payload), Outcome::NotDiscussion));
}

#[test]
fn list_discussion_sends_nothing() {
    let payload = record(vec![("discussion", Json::List(vec![Json::Bool(true)]))]);
    assert!(matches!(handle(&payload), Outcome::NotDiscussion));
}

#[test]
fn non_record_payload_sends_nothing() {
    assert!(matches!(handle(&Json::Null), Outcome::NotDiscussion));
}

#[test]
fn missing_title_aborts() {
    let payload = record(vec![(
        "discussion",
        record(vec![
            ("body", text("World")),
            ("html_url", text("https://x/1")),
            ("user", record(vec![("login", text("alice"))])),
        ]),
    )]);
    assert!(matches!(
        handle(&payload),
        Outcome::Abort(ExtractError::MissingTitle)
    ));
}

#[test]
fn mistyped_title_aborts() {
    let payload = record(vec![(
        "discussion",
        record(vec![
            ("title", Json::Int(7)),
            ("html_url", text("https://x/1")),
            ("user", record(vec![("login", text("alice"))])),
        ]),
    )]);
    assert!(matches!(
        handle(&payload),
        Outcome::Abort(ExtractError::MissingTitle)
    ));
}

#[test]
fn missing_link_aborts() {
    let payload = record(vec![(
        "discussion",
        record(vec![
            ("title", text("Hello")),
            ("user", record(vec![("login", text("alice"))])),
        ]),
    )]);
    assert!(matches!(
        handle(&payload),
        Outcome::Abort(ExtractError::MissingLink)
    ));
}

#[test]
fn missing_author_aborts() {
    let payload = record(vec![(
        "discussion",
        record(vec![
            ("title", text("Hello")),
            ("html_url", text("https://x/1")),
        ]),
    )]);
    assert!(matches!(
        handle(&payload),
        Outcome::Abort(ExtractError::MissingAuthor)
    ));
}

#[test]
fn scalar_user_aborts() {
    let payload = record(vec![(
        "discussion",
        record(vec![
            ("title", text("Hello")),
            ("html_url", text("https://x/1")),
            ("user", text("alice")),
        ]),
    )]);
    assert!(matches!(
        handle(&payload),
        Outcome::Abort(ExtractError::MissingAuthor)
    ));
}

#[test]
fn absent_body_yields_placeholder() {
    let payload = record(vec![(
        "discussion",
        discussion("Hello", None, "https://x/1", "alice"),
    )]);
    assert_eq!(
        expect_send(&payload),
        "New Discussion Created by _alice_:\n*Hello*\n<empty body>\n\nopen: https://x/1"
    );
}

#[test]
fn mistyped_body_yields_placeholder() {
    let payload = record(vec![(
        "discussion",
        record(vec![
            ("title", text("Hello")),
            ("body", Json::Null),
            ("html_url", text("https://x/1")),
            ("user", record(vec![("login", text("alice"))])),
        ]),
    )]);
    assert_eq!(
        expect_send(&payload),
        "New Discussion Created by _alice_:\n*Hello*\n<empty body>\n\nopen: https://x/1"
    );
}

#[test]
fn short_body_kept_verbatim() {
    let body = "a".repeat(200);
    assert_eq!(body_segment(&body), body);
}

#[test]
fn long_body_truncated_with_ellipsis() {
    let body = "a".repeat(300);
    let expected = format!("{}...", "a".repeat(200));
    assert_eq!(body_segment(&body), expected);
}

#[test]
fn boundary_201_chars_truncated() {
    let body = "a".repeat(201);
    let expected = format!("{}...", "a".repeat(200));
    assert_eq!(body_segment(&body), expected);
}

#[test]
fn multibyte_body_kept_whole_but_marked() {
    // 150 characters, 300 UTF-8 bytes: the byte test appends the mark while
    // the character count keeps the body whole.
    let body = "\u{e9}".repeat(150);
    let expected = format!("{}...", body);
    assert_eq!(body_segment(&body), expected);
}

#[test]
fn multibyte_boundary_within_bytes() {
    // 199 characters, 200 UTF-8 bytes: kept verbatim with no mark.
    let body = format!("\u{e9}{}", "a".repeat(198));
    assert_eq!(body_segment(&body), body);
}

#[test]
fn multibyte_boundary_over_bytes() {
    // 200 characters, 201 UTF-8 bytes: kept whole yet marked as shortened.
    let body = format!("\u{e9}{}", "a".repeat(199));
    let expected = format!("{}...", body);
    assert_eq!(body_segment(&body), expected);
}

#[test]
fn empty_body_no_mark() {
    assert_eq!(body_segment(""), "");
}

#[test]
fn field_states_are_told_apart() {
    let dis = record(vec![("title", text("Hello")), ("body", Json::Null)]);
    assert!(matches!(dis.text_field("title"), FieldState::Value("Hello")));
    assert!(matches!(dis.text_field("body"), FieldState::Mismatch));
    assert!(matches!(dis.text_field("html_url"), FieldState::Absent));
    assert!(matches!(text("x").text_field("title"), FieldState::Absent));
}

#[test]
fn duplicate_keys_first_wins() {
    let dis = record(vec![("title", text("first")), ("title", text("second"))]);
    assert!(matches!(dis.text_field("title"), FieldState::Value("first")));
}

#[test]
fn config_defaults_apply() {
    let c = Config::from_overrides(None, None, None, None, None);
    assert_eq!(c.owner, "jetjinser");
    assert_eq!(c.repo, "fot");
    assert_eq!(c.team, "ham-5b68442");
    assert_eq!(c.channel, "general");
    assert!(c.login.is_none());
}

#[test]
fn config_overrides_apply() {
    let c = Config::from_overrides(
        Some("o".to_string()),
        Some("r".to_string()),
        Some("t".to_string()),
        Some("c".to_string()),
        Some("l".to_string()),
    );
    assert_eq!(c.owner, "o");
    assert_eq!(c.repo, "r");
    assert_eq!(c.team, "t");
    assert_eq!(c.channel, "c");
    assert_eq!(c.login.as_deref(), Some("l"));
}
