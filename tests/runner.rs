use code_runner::{
    App, AppMsg, Command, Effects, SendError, DISMISS_DELAY_MS, PLACEHOLDER, STATUS_ERROR, URL,
};

fn submit(app: &mut App, reply: Result<String, SendError>) -> Effects {
    let sent = app.update(AppMsg::RunCode);
    assert!(matches!(sent.command, Command::Send(_)));
    app.update(AppMsg::from_response(reply))
}

#[test]
fn starts_with_placeholder_and_no_banner() {
    let app = App::create();
    assert_eq!(app.code(), PLACEHOLDER);
    let screen = app.screen();
    assert_eq!(screen.code, PLACEHOLDER);
    assert_eq!(screen.info, None);
    assert_eq!(screen.error, None);
}

#[test]
fn code_changed_round_trip() {
    let mut app = App::create();
    for text in ["", "let a = 1;", "  spaces  \n", "ünïcödé ✓"] {
        let effects = app.update(AppMsg::CodeChanged(text.to_string()));
        assert_eq!(app.code(), text);
        assert!(!effects.rerender);
        assert_eq!(effects.command, Command::Nothing);
    }
}

#[test]
fn run_code_sends_current_code() {
    let mut app = App::create();
    app.update(AppMsg::CodeChanged("add(1, 2);".to_string()));
    let effects = app.update(AppMsg::RunCode);
    assert!(!effects.rerender);
    assert_eq!(effects.command, Command::Send("add(1, 2);".to_string()));
    assert_eq!(app.code(), "add(1, 2);");
    assert_eq!(app.screen().info, None);
    assert_eq!(URL, "/api/code");
}

#[test]
fn fetching_changes_nothing() {
    let mut app = App::create();
    let before = app.screen();
    let effects = app.update(AppMsg::Fetching);
    assert_eq!(effects, Effects { rerender: false, command: Command::Nothing });
    assert_eq!(app.screen(), before);
}

#[test]
fn result_shows_info_banner() {
    let mut app = App::create();
    let effects = submit(&mut app, Ok("42".to_string()));
    assert!(effects.rerender);
    assert_eq!(effects.command, Command::DismissAfter(DISMISS_DELAY_MS));
    let screen = app.screen();
    assert_eq!(screen.info, Some("42".to_string()));
    assert_eq!(screen.error, None);
}

#[test]
fn empty_body_shows_status_error() {
    let mut app = App::create();
    let effects = submit(&mut app, Ok(String::new()));
    assert_eq!(effects.command, Command::DismissAfter(DISMISS_DELAY_MS));
    let screen = app.screen();
    assert_eq!(screen.error, Some(STATUS_ERROR.to_string()));
    assert_eq!(screen.error, Some("Status error".to_string()));
    assert_eq!(screen.info, None);
}

#[test]
fn transport_failure_shows_error_banner() {
    let mut app = App::create();
    let effects = submit(&mut app, Err(SendError::new("connection refused".to_string())));
    assert_eq!(effects.command, Command::DismissAfter(DISMISS_DELAY_MS));
    let screen = app.screen();
    assert_eq!(screen.error, Some("connection refused".to_string()));
    assert_eq!(screen.info, None);
}

#[test]
fn dismissal_is_three_seconds() {
    assert_eq!(DISMISS_DELAY_MS, 3000);
}

#[test]
fn dismissal_clears_both_banners() {
    let mut app = App::create();
    submit(&mut app, Ok("7".to_string()));
    submit(&mut app, Err(SendError::new("boom".to_string())));
    let screen = app.screen();
    assert_eq!(screen.info, Some("7".to_string()));
    assert_eq!(screen.error, Some("boom".to_string()));
    let effects = app.update(AppMsg::TurnOffShow);
    assert_eq!(effects, Effects { rerender: true, command: Command::Nothing });
    let screen = app.screen();
    assert_eq!(screen.info, None);
    assert_eq!(screen.error, None);
}

#[test]
fn dismissal_after_one_banner_clears_stored_text() {
    let mut app = App::create();
    submit(&mut app, Ok("7".to_string()));
    app.update(AppMsg::TurnOffShow);
    // A later error raises only its own banner: the info text is gone.
    submit(&mut app, Err(SendError::new("late".to_string())));
    let screen = app.screen();
    assert_eq!(screen.info, None);
    assert_eq!(screen.error, Some("late".to_string()));
}

#[test]
fn identity_program_shows_five() {
    let mut app = App::create();
    app.update(AppMsg::CodeChanged("let identity = fn(x) { x; }; identity(5);".to_string()));
    let sent = app.update(AppMsg::RunCode);
    assert_eq!(
        sent.command,
        Command::Send("let identity = fn(x) { x; }; identity(5);".to_string())
    );
    app.update(AppMsg::from_response(Ok("5".to_string())));
    assert_eq!(app.screen().info, Some("5".to_string()));
}

#[test]
fn add_program_shows_ten() {
    let mut app = App::create();
    app.update(AppMsg::CodeChanged("let add = fn(x, y) { x + y; }; add(5, 5);".to_string()));
    let sent = app.update(AppMsg::RunCode);
    assert_eq!(
        sent.command,
        Command::Send("let add = fn(x, y) { x + y; }; add(5, 5);".to_string())
    );
    app.update(AppMsg::from_response(Ok("10".to_string())));
    assert_eq!(app.screen().info, Some("10".to_string()));
}

#[test]
fn unreachable_endpoint_shows_failure() {
    let mut app = App::create();
    submit(&mut app, Err(SendError::new("JsError { name: \"TypeError\" }".to_string())));
    let screen = app.screen();
    assert_eq!(screen.info, None);
    let shown = screen.error.unwrap();
    assert!(!shown.is_empty());
    assert_eq!(shown, "JsError { name: \"TypeError\" }");
}

#[test]
fn later_completion_wins_same_banner() {
    let mut app = App::create();
    app.update(AppMsg::RunCode);
    app.update(AppMsg::RunCode);
    app.update(AppMsg::from_response(Ok("second".to_string())));
    app.update(AppMsg::from_response(Ok("first".to_string())));
    assert_eq!(app.screen().info, Some("first".to_string()));
    assert_eq!(app.screen().error, None);
}

#[test]
fn later_failure_wins_error_banner() {
    let mut app = App::create();
    app.update(AppMsg::from_response(Err(SendError::new("one".to_string()))));
    app.update(AppMsg::from_response(Ok(String::new())));
    assert_eq!(app.screen().error, Some(STATUS_ERROR.to_string()));
}

#[test]
fn from_response_classifies_outcomes() {
    assert_eq!(AppMsg::from_response(Ok("x".to_string())), AppMsg::Response("x".to_string()));
    assert_eq!(
        AppMsg::from_response(Ok(String::new())),
        AppMsg::ResponseError(SendError::status_error())
    );
    assert_eq!(
        AppMsg::from_response(Err(SendError::new("down".to_string()))),
        AppMsg::ResponseError(SendError::new("down".to_string()))
    );
}

#[test]
fn send_error_keeps_description() {
    assert_eq!(SendError::new("a \"quoted\" text".to_string()).description(), "a \"quoted\" text");
    assert_eq!(SendError::status_error().description(), "Status error");
}
