use gentor::config::Settings;
use gentor::editor::EditorBuffer;
use gentor::render::render_plan;
use gentor::state::Action;
use gentor::state::App;
use gentor::state::Key;
use gentor::state::Screen;
use gentor::text::trimmed;

fn sample_app() -> App {
    App::new(Settings::new(
        "openai".to_string(),
        "gpt-4o-mini".to_string(),
        "key".to_string(),
        "https://api.example.com/v1".to_string(),
    ))
}

#[test]
fn delete_on_empty_buffer_is_a_noop() {
    let mut b = EditorBuffer::empty();
    b.delete_last();
    assert_eq!(b.text, "");
    b.append_char('a');
    b.append_char('b');
    b.delete_last();
    assert_eq!(b.text, "a");
    b.delete_last();
    b.delete_last();
    b.delete_last();
    assert_eq!(b.text, "");
}

#[test]
fn delete_on_empty_prompt_is_a_noop_in_the_machine() {
    let mut app = sample_app();
    let act = app.on_key(Key::Delete, 0);
    assert_eq!(act, Action::Idle);
    assert_eq!(app.input.text, "");
    app.on_key(Key::Char('x'), 0);
    app.on_key(Key::Delete, 0);
    app.on_key(Key::Delete, 0);
    assert_eq!(app.input.text, "");
}

#[test]
fn editor_buffer_length_counts_characters() {
    let mut b = EditorBuffer::empty();
    assert_eq!(b.char_len(), 0);
    b.append_char('h');
    b.append_char('i');
    assert_eq!(b.char_len(), 2);
    b.clear();
    assert_eq!(b.char_len(), 0);
}

#[test]
fn trimmed_removes_blanks_from_both_ends() {
    assert_eq!(trimmed(&"  hi there \t\n".to_string()), "hi there");
    assert_eq!(trimmed(&"hi".to_string()), "hi");
    assert_eq!(trimmed(&" \t\r\n ".to_string()), "");
    assert_eq!(trimmed(&"".to_string()), "");
}

#[test]
fn placeholder_record_holds_the_example_values() {
    let s = Settings::placeholder();
    assert_eq!(s.provider, "openai");
    assert_eq!(s.model, "gpt-4o-mini");
    assert_eq!(s.api_key, "sk-your-api-key");
    assert_eq!(s.base_url, "https://api.openai.com/v1");
}

#[test]
fn chat_plan_shows_prompt_and_cursor() {
    let mut app = sample_app();
    app.on_key(Key::Char('h'), 0);
    app.on_key(Key::Char('i'), 0);
    let p = render_plan(&app);
    assert!(!p.overlay);
    assert_eq!(p.transcript, app.messages);
    assert_eq!(p.panes.len(), 1);
    assert!(p.panes[0].title.contains("Input"));
    assert_eq!(p.panes[0].text, "hi");
    assert!(!p.panes[0].highlighted);
    let c = p.cursor.as_ref().unwrap();
    assert_eq!(c.pane, 0);
    assert_eq!(c.column, 2);
}

#[test]
fn settings_plan_shows_rows_focus_and_save_caption() {
    let mut app = sample_app();
    for ch in "/setting".chars() {
        app.on_key(Key::Char(ch), 0);
    }
    app.on_key(Key::Confirm, 0);
    app.on_key(Key::Confirm, 0);
    app.on_key(Key::Down, 0);
    assert_eq!(app.state, Screen::Settings);
    let p = render_plan(&app);
    assert!(p.overlay);
    assert_eq!(p.panes.len(), 5);
    let titles: Vec<&str> = p.panes.iter().map(|r| r.title.as_str()).collect();
    assert_eq!(titles, vec!["Provider", "Model", "API Key", "Base URL", "Save"]);
    assert_eq!(p.panes[1].text, "gpt-4o-mini");
    assert!(p.panes[1].highlighted);
    assert!(!p.panes[0].highlighted);
    assert_eq!(p.panes[4].text, "Press Enter to Save");
    let c = p.cursor.as_ref().unwrap();
    assert_eq!(c.pane, 1);
    assert_eq!(c.column, "gpt-4o-mini".chars().count());

    app.on_key(Key::Confirm, 50);
    let armed = render_plan(&app);
    assert_eq!(armed.panes[4].text, "Press one more to save");
}
