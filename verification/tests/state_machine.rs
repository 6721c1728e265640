use gentor::config::Settings;
use gentor::state::Action;
use gentor::state::App;
use gentor::state::Key;
use gentor::state::Screen;

fn record(provider: &str, model: &str, api_key: &str, base_url: &str) -> Settings {
    Settings::new(
        provider.to_string(),
        model.to_string(),
        api_key.to_string(),
        base_url.to_string(),
    )
}

fn fresh_app() -> App {
    App::new(record("openai", "gpt-4o-mini", "key", "https://api.example.com/v1"))
}

fn type_str(app: &mut App, s: &str) {
    for c in s.chars() {
        let act = app.on_key(Key::Char(c), 0);
        assert_eq!(act, Action::Idle);
    }
}

/// Drive a fresh app into the Settings screen and absorb the entry Enter.
fn open_settings(app: &mut App, now_ms: u64) {
    type_str(app, "/setting");
    let act = app.on_key(Key::Confirm, now_ms);
    assert_eq!(act, Action::Idle);
    assert_eq!(app.state, Screen::Settings);
    let act = app.on_key(Key::Confirm, now_ms);
    assert_eq!(act, Action::Idle);
}

#[test]
fn startup_banner_is_the_only_line() {
    let app = fresh_app();
    assert_eq!(app.state, Screen::Chat);
    assert_eq!(app.messages.len(), 1);
    assert!(app.messages[0].contains("Gentor ready"));
    assert_eq!(app.input.text, "");
}

#[test]
fn exit_command_quits_without_gateway_call() {
    let mut app = fresh_app();
    type_str(&mut app, "/exit");
    let act = app.on_key(Key::Confirm, 0);
    assert_eq!(act, Action::Quit);
    assert_ne!(act, Action::CallGateway);
    assert_eq!(app.state, Screen::Chat);
    assert_eq!(app.messages.len(), 1);
}

#[test]
fn exit_command_is_matched_after_trimming() {
    let mut app = fresh_app();
    type_str(&mut app, "  /exit \t");
    let act = app.on_key(Key::Confirm, 0);
    assert_eq!(act, Action::Quit);
}

#[test]
fn escape_on_chat_quits() {
    let mut app = fresh_app();
    let act = app.on_key(Key::Cancel, 0);
    assert_eq!(act, Action::Quit);
}

#[test]
fn empty_prompt_does_nothing() {
    let mut app = fresh_app();
    let act = app.on_key(Key::Confirm, 0);
    assert_eq!(act, Action::Idle);
    assert_eq!(app.messages.len(), 1);
}

#[test]
fn blank_prompt_is_still_submitted() {
    // A prompt of blanks is non-empty, trims to no command, and so still
    // goes to the gateway.
    let mut app = fresh_app();
    type_str(&mut app, " ");
    let act = app.on_key(Key::Confirm, 0);
    assert_eq!(act, Action::CallGateway);
}

#[test]
fn entering_settings_snapshots_the_record() {
    let mut app = App::new(record("acme", "m0", "k0", "https://u0"));
    type_str(&mut app, "/setting");
    let act = app.on_key(Key::Confirm, 0);
    assert_eq!(act, Action::Idle);
    assert_eq!(app.state, Screen::Settings);
    assert_eq!(app.settings_focus, 0);
    assert!(!app.confirm_save);
    assert!(app.just_entered_settings);
    assert_eq!(app.input.text, "");
    let fields: Vec<&str> = app.settings_input.iter().map(|b| b.text.as_str()).collect();
    assert_eq!(fields, vec!["acme", "m0", "k0", "https://u0"]);
}

#[test]
fn entry_enter_is_absorbed_without_arming() {
    let mut app = fresh_app();
    type_str(&mut app, "/setting");
    app.on_key(Key::Confirm, 0);
    assert!(app.just_entered_settings);
    let act = app.on_key(Key::Confirm, 0);
    assert_eq!(act, Action::Idle);
    assert!(!app.just_entered_settings);
    assert!(!app.confirm_save);
    assert_eq!(app.state, Screen::Settings);
}

#[test]
fn confirm_arms_then_commits_within_window() {
    let mut app = fresh_app();
    open_settings(&mut app, 0);
    let act = app.on_key(Key::Confirm, 1000);
    assert_eq!(act, Action::Idle);
    assert!(app.confirm_save);
    assert_eq!(app.last_confirm, Some(1000));
    app.tick(2500);
    assert!(app.confirm_save);
    let act = app.on_key(Key::Confirm, 2500);
    assert_eq!(act, Action::Persist);
    assert_eq!(app.state, Screen::Chat);
    assert!(!app.confirm_save);
    assert_eq!(app.last_confirm, None);
}

#[test]
fn confirm_expires_after_window_and_rearms() {
    let mut app = fresh_app();
    open_settings(&mut app, 0);
    app.on_key(Key::Confirm, 1000);
    assert!(app.confirm_save);
    app.tick(3500);
    assert!(!app.confirm_save);
    assert_eq!(app.last_confirm, None);
    assert_eq!(app.state, Screen::Settings);
    let act = app.on_key(Key::Confirm, 3500);
    assert_eq!(act, Action::Idle);
    assert!(app.confirm_save);
    assert_eq!(app.last_confirm, Some(3500));
    assert_eq!(app.state, Screen::Settings);
}

#[test]
fn tick_at_exact_window_boundary_keeps_confirmation() {
    let mut app = fresh_app();
    open_settings(&mut app, 0);
    app.on_key(Key::Confirm, 1000);
    app.tick(3000);
    assert!(app.confirm_save);
}

#[test]
fn settings_round_trip_shows_saved_values() {
    let mut app = App::new(record("", "", "", ""));
    open_settings(&mut app, 0);
    type_str(&mut app, "acme");
    app.on_key(Key::Down, 0);
    type_str(&mut app, "m1");
    app.on_key(Key::Down, 0);
    type_str(&mut app, "k1");
    app.on_key(Key::Down, 0);
    type_str(&mut app, "https://x");
    app.on_key(Key::Confirm, 100);
    let act = app.on_key(Key::Confirm, 200);
    assert_eq!(act, Action::Persist);
    assert_eq!(app.state, Screen::Chat);
    assert_eq!(app.settings.provider, "acme");
    assert_eq!(app.settings.model, "m1");
    assert_eq!(app.settings.api_key, "k1");
    assert_eq!(app.settings.base_url, "https://x");
    app.on_persist_result(Ok(()));
    type_str(&mut app, "/setting");
    app.on_key(Key::Confirm, 300);
    let fields: Vec<&str> = app.settings_input.iter().map(|b| b.text.as_str()).collect();
    assert_eq!(fields, vec!["acme", "m1", "k1", "https://x"]);
}

#[test]
fn focus_navigation_stays_within_the_four_fields() {
    let mut app = fresh_app();
    open_settings(&mut app, 0);
    assert_eq!(app.settings_focus, 0);
    app.on_key(Key::Up, 0);
    assert_eq!(app.settings_focus, 0);
    for _ in 0..6 {
        app.on_key(Key::Down, 0);
    }
    assert_eq!(app.settings_focus, 3);
    app.on_key(Key::Up, 0);
    assert_eq!(app.settings_focus, 2);
}

#[test]
fn cancel_leaves_settings_and_keeps_the_record() {
    let mut app = App::new(record("acme", "m0", "k0", "u0"));
    open_settings(&mut app, 0);
    type_str(&mut app, "edited");
    app.on_key(Key::Confirm, 100);
    assert!(app.confirm_save);
    let act = app.on_key(Key::Cancel, 200);
    assert_eq!(act, Action::Idle);
    assert_eq!(app.state, Screen::Chat);
    assert!(!app.confirm_save);
    assert_eq!(app.last_confirm, None);
    assert_eq!(app.settings.provider, "acme");
}

#[test]
fn gateway_success_appends_echo_and_reply() {
    let mut app = fresh_app();
    type_str(&mut app, "fix this bug");
    let act = app.on_key(Key::Confirm, 0);
    assert_eq!(act, Action::CallGateway);
    assert_eq!(app.input.text, "fix this bug");
    let before = app.messages.len();
    app.on_gateway_result(Ok("Try X".to_string()));
    assert_eq!(app.messages.len(), before + 2);
    assert_eq!(app.messages[before], "> fix this bug");
    assert!(app.messages[before + 1].contains("Try X"));
    assert_eq!(app.input.text, "");
}

#[test]
fn gateway_reply_is_trimmed() {
    let mut app = fresh_app();
    type_str(&mut app, "hi");
    app.on_key(Key::Confirm, 0);
    let before = app.messages.len();
    app.on_gateway_result(Ok("  Try X \n".to_string()));
    assert_eq!(app.messages[before + 1], "AI: Try X");
}

#[test]
fn gateway_error_appends_exactly_one_line() {
    let mut app = fresh_app();
    type_str(&mut app, "hello");
    let act = app.on_key(Key::Confirm, 0);
    assert_eq!(act, Action::CallGateway);
    let before = app.messages.len();
    app.on_gateway_result(Err("timeout".to_string()));
    assert_eq!(app.messages.len(), before + 1);
    assert!(app.messages[before].contains("timeout"));
    assert_eq!(app.input.text, "");
}

#[test]
fn persist_outcome_lines() {
    let mut app = fresh_app();
    let before = app.messages.len();
    app.on_persist_result(Ok(()));
    assert_eq!(app.messages[before], "Settings saved.");
    app.on_persist_result(Err("disk full".to_string()));
    assert!(app.messages[before + 1].contains("Failed to save settings"));
    assert!(app.messages[before + 1].contains("disk full"));
}
