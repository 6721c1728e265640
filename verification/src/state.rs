//! The screen state machine: two screens (Chat, Settings), field focus,
//! the two-step save-confirmation gesture with its expiry window, and the
//! transcript. Every transition is stated over [`AppView`], the
//! mathematical model of the machine.
use vstd::prelude::*;

verus! {

use crate::config::Settings;
use crate::config::SettingsView;
use crate::editor::deleted;
use crate::editor::EditorBuffer;
use crate::text::trim_spec;
use crate::text::trimmed;
use vstd::string::StringExecFns;

/// Which screen is showing.
#[derive(Clone, Copy, PartialEq, Eq, Structural, Debug)]
pub enum Screen {
    Chat,
    Settings,
}

/// A key event, as the state machine sees one.
#[derive(Clone, Copy)]
pub enum Key {
    /// The submit / confirm key (Enter).
    Confirm,
    /// A printable character.
    Char(char),
    /// Delete the last character (Backspace).
    Delete,
    Up,
    Down,
    /// Leave the current screen (Esc).
    Cancel,
    /// Any key the machine ignores.
    Other,
}

/// What the surrounding loop must do after an event was handled.
#[derive(Clone, Copy, PartialEq, Eq, Structural, Debug)]
pub enum Action {
    /// Nothing beyond redrawing.
    Idle,
    /// Terminate the process.
    Quit,
    /// Send the current prompt to the completion gateway, then hand the
    /// outcome to [`App::on_gateway_result`].
    CallGateway,
    /// Persist the configuration record, then hand the outcome to
    /// [`App::on_persist_result`].
    Persist,
}

/// How long a pending save confirmation stays armed, in milliseconds.
pub const CONFIRM_WINDOW_MS: u64 = 2000;

/// Mathematical model of the whole interactive state.
#[verifier::ext_equal]
pub struct AppView {
    pub screen: Screen,
    /// Content of the chat prompt buffer.
    pub input: Seq<char>,
    /// The transcript: an append-only sequence of display lines.
    pub messages: Seq<Seq<char>>,
    /// The configuration record.
    pub settings: SettingsView,
    /// Contents of the four settings field buffers.
    pub fields: Seq<Seq<char>>,
    /// Index of the focused settings field.
    pub focus: int,
    /// Whether a save confirmation is pending.
    pub confirm_save: bool,
    /// The instant (milliseconds) at which the pending confirmation was
    /// armed; `Some` exactly when `confirm_save` holds.
    pub armed_at: Option<u64>,
    /// Whether the next Confirm key is absorbed (set for the one event
    /// cycle after entering Settings).
    pub suppress_confirm: bool,
}

pub open spec fn exit_command() -> Seq<char> {
    "/exit"@
}

pub open spec fn settings_command() -> Seq<char> {
    "/setting"@
}

pub open spec fn banner_line() -> Seq<char> {
    "Gentor ready. Type your message, '/setting' to edit config, '/exit' to quit."@
}

/// The transcript line echoing a submitted prompt.
pub open spec fn echo_line(prompt: Seq<char>) -> Seq<char> {
    "> "@ + prompt
}

/// The transcript line carrying an agent reply.
pub open spec fn agent_line(reply: Seq<char>) -> Seq<char> {
    "AI: "@ + reply
}

/// The transcript line carrying a gateway error.
pub open spec fn error_line(message: Seq<char>) -> Seq<char> {
    "Error: "@ + message
}

pub open spec fn saved_line() -> Seq<char> {
    "Settings saved."@
}

pub open spec fn save_failed_line(message: Seq<char>) -> Seq<char> {
    "Failed to save settings: "@ + message
}

/// The four field-buffer contents snapshotted from a configuration record.
pub open spec fn snapshot_fields(s: SettingsView) -> Seq<Seq<char>> {
    seq![s.provider, s.model, s.api_key, s.base_url]
}

/// The configuration record committed from the four field buffers.
pub open spec fn committed_settings(fields: Seq<Seq<char>>) -> SettingsView {
    SettingsView { provider: fields[0], model: fields[1], api_key: fields[2], base_url: fields[3] }
}

/// The state at startup: Chat screen, empty prompt, the banner as the
/// only transcript line, field buffers snapshotted from the record.
pub open spec fn init_view(s: SettingsView) -> AppView {
    AppView {
        screen: Screen::Chat,
        input: Seq::<char>::empty(),
        messages: seq![banner_line()],
        settings: s,
        fields: snapshot_fields(s),
        focus: 0,
        confirm_save: false,
        armed_at: Option::None,
        suppress_confirm: false,
    }
}

/// Submitting the prompt from Chat: an exit command quits, a settings
/// command opens Settings with fresh field buffers and a cleared prompt,
/// any other non-empty prompt goes to the gateway.
pub open spec fn chat_confirm_view(m: AppView) -> (AppView, Action) {
    let t = trim_spec(m.input);
    if t == exit_command() {
        (m, Action::Quit)
    } else if t == settings_command() {
        (
            AppView {
                screen: Screen::Settings,
                input: Seq::<char>::empty(),
                fields: snapshot_fields(m.settings),
                focus: 0,
                confirm_save: false,
                armed_at: Option::None,
                suppress_confirm: true,
                ..m
            },
            Action::Idle,
        )
    } else if m.input.len() > 0 {
        (m, Action::CallGateway)
    } else {
        (m, Action::Idle)
    }
}

/// One key event handled on the Chat screen.
pub open spec fn chat_key_view(m: AppView, key: Key) -> (AppView, Action) {
    match key {
        Key::Confirm => chat_confirm_view(m),
        Key::Char(c) => (AppView { input: m.input.push(c), ..m }, Action::Idle),
        Key::Delete => (AppView { input: deleted(m.input), ..m }, Action::Idle),
        Key::Cancel => (m, Action::Quit),
        _ => (m, Action::Idle),
    }
}

/// The Confirm key on the Settings screen: absorbed once right after
/// entry; arms the confirmation when none is pending; commits the field
/// buffers into the record and returns to Chat when one is pending.
pub open spec fn settings_confirm_view(m: AppView, now_ms: u64) -> (AppView, Action) {
    if m.suppress_confirm {
        (AppView { suppress_confirm: false, ..m }, Action::Idle)
    } else if m.confirm_save {
        (
            AppView {
                screen: Screen::Chat,
                settings: committed_settings(m.fields),
                confirm_save: false,
                armed_at: Option::None,
                ..m
            },
            Action::Persist,
        )
    } else {
        (AppView { confirm_save: true, armed_at: Option::Some(now_ms), ..m }, Action::Idle)
    }
}

/// One key event handled on the Settings screen.
pub open spec fn settings_key_view(m: AppView, key: Key, now_ms: u64) -> (AppView, Action) {
    match key {
        Key::Confirm => settings_confirm_view(m, now_ms),
        Key::Char(c) => (
            AppView { fields: m.fields.update(m.focus, m.fields[m.focus].push(c)), ..m },
            Action::Idle,
        ),
        Key::Delete => (
            AppView { fields: m.fields.update(m.focus, deleted(m.fields[m.focus])), ..m },
            Action::Idle,
        ),
        Key::Up => (AppView { focus: if m.focus > 0 { m.focus - 1 } else { 0int }, ..m }, Action::Idle),
        Key::Down => (
            AppView { focus: if m.focus < 3 { m.focus + 1 } else { m.focus }, ..m },
            Action::Idle,
        ),
        Key::Cancel => (
            AppView {
                screen: Screen::Chat,
                confirm_save: false,
                armed_at: Option::None,
                suppress_confirm: false,
                ..m
            },
            Action::Idle,
        ),
        _ => (m, Action::Idle),
    }
}

/// One key event, dispatched to the current screen's handler.
pub open spec fn key_view(m: AppView, key: Key, now_ms: u64) -> (AppView, Action) {
    match m.screen {
        Screen::Chat => chat_key_view(m, key),
        Screen::Settings => settings_key_view(m, key, now_ms),
    }
}

/// The ambient check run every loop iteration: a pending confirmation
/// expires once more than the window has passed since it was armed.
pub open spec fn tick_view(m: AppView, now_ms: u64) -> AppView {
    match m.armed_at {
        Option::Some(t) => if now_ms > t && now_ms - t > CONFIRM_WINDOW_MS {
            AppView { confirm_save: false, armed_at: Option::None, ..m }
        } else {
            m
        },
        Option::None => m,
    }
}

/// The gateway outcome folded into the state: on success the transcript
/// gains the prompt echo and the agent reply, on failure exactly one
/// error line; either way the prompt buffer is cleared.
pub open spec fn gateway_view(m: AppView, outcome: Result<Seq<char>, Seq<char>>) -> AppView {
    match outcome {
        Result::Ok(reply) => AppView {
            messages: m.messages + seq![echo_line(m.input), agent_line(trim_spec(reply))],
            input: Seq::<char>::empty(),
            ..m
        },
        Result::Err(message) => AppView {
            messages: m.messages.push(error_line(message)),
            input: Seq::<char>::empty(),
            ..m
        },
    }
}

/// The persistence outcome folded into the state: exactly one notice
/// line is appended to the transcript.
pub open spec fn persist_view(m: AppView, outcome: Result<(), Seq<char>>) -> AppView {
    match outcome {
        Result::Ok(_) => AppView { messages: m.messages.push(saved_line()), ..m },
        Result::Err(message) => AppView {
            messages: m.messages.push(save_failed_line(message)),
            ..m
        },
    }
}

/// The view of a transcript held as a vector of lines.
pub open spec fn lines_view(v: Seq<String>) -> Seq<Seq<char>> {
    Seq::new(v.len(), |i: int| v[i]@)
}

/// The view of the settings field buffers held as a vector.
pub open spec fn buffers_view(v: Seq<EditorBuffer>) -> Seq<Seq<char>> {
    Seq::new(v.len(), |i: int| v[i]@)
}

/// The interactive state: current screen, chat prompt, transcript,
/// configuration record, and the Settings screen's working state.
pub struct App {
    pub state: Screen,
    /// The chat prompt buffer.
    pub input: EditorBuffer,
    /// The transcript lines.
    pub messages: Vec<String>,
    /// The configuration record.
    pub settings: Settings,
    /// The four settings field buffers (provider, model, credential,
    /// base URL), indexed by focus.
    pub settings_input: Vec<EditorBuffer>,
    pub settings_focus: usize,
    pub confirm_save: bool,
    /// When the pending confirmation was armed, in milliseconds.
    pub last_confirm: Option<u64>,
    pub just_entered_settings: bool,
}

impl View for App {
    type V = AppView;

    open spec fn view(&self) -> AppView {
        AppView {
            screen: self.state,
            input: self.input@,
            messages: lines_view(self.messages@),
            settings: self.settings@,
            fields: buffers_view(self.settings_input@),
            focus: self.settings_focus as int,
            confirm_save: self.confirm_save,
            armed_at: self.last_confirm,
            suppress_confirm: self.just_entered_settings,
        }
    }
}

/// A fresh vector of field buffers holding copies of the record's fields.
fn snapshot_buffers(s: &Settings) -> (v: Vec<EditorBuffer>)
    ensures
        v@.len() == 4,
        buffers_view(v@) == snapshot_fields(s@),
{
    let mut v: Vec<EditorBuffer> = Vec::new();
    v.push(EditorBuffer::holding(&s.provider));
    v.push(EditorBuffer::holding(&s.model));
    v.push(EditorBuffer::holding(&s.api_key));
    v.push(EditorBuffer::holding(&s.base_url));
    proof {
        assert(buffers_view(v@) =~= snapshot_fields(s@));
    }
    v
}

impl App {
    /// Structural invariant: four field buffers, focus within them, the
    /// armed instant present exactly when a confirmation is pending, and
    /// the Settings-only flags cleared while on Chat.
    pub open spec fn wf(&self) -> bool {
        &&& self.settings_input.len() == 4
        &&& self.settings_focus < 4
        &&& (self.confirm_save <==> self.last_confirm is Some)
        &&& (self.state is Chat ==> !self.confirm_save && !self.just_entered_settings)
    }

    /// The state at startup, holding the loaded configuration record.
    pub fn new(settings: Settings) -> (app: App)
        ensures
            app.wf(),
            app@ == init_view(settings@),
    {
        let mut messages: Vec<String> = Vec::new();
        messages.push(
            String::from_str(
                "Gentor ready. Type your message, '/setting' to edit config, '/exit' to quit.",
            ),
        );
        let settings_input = snapshot_buffers(&settings);
        let app = App {
            state: Screen::Chat,
            input: EditorBuffer::empty(),
            messages,
            settings,
            settings_input,
            settings_focus: 0,
            confirm_save: false,
            last_confirm: Option::None,
            just_entered_settings: false,
        };
        proof {
            assert(app@.messages =~= seq![banner_line()]);
            assert(app@ =~~= init_view(app.settings@));
        }
        app
    }

    /// The ambient deadline check, run once per loop iteration.
    pub fn tick(&mut self, now_ms: u64)
        requires
            old(self).wf(),
        ensures
            final(self).wf(),
            final(self)@ == tick_view(old(self)@, now_ms),
    {
        match self.last_confirm {
            Option::Some(t) => {
                if now_ms > t && now_ms - t > CONFIRM_WINDOW_MS {
                    self.confirm_save = false;
                    self.last_confirm = Option::None;
                    proof {
                        assert(self@ =~~= tick_view(old(self)@, now_ms));
                    }
                }
            },
            Option::None => {},
        }
    }

    /// One key event, dispatched to the current screen's handler.
    pub fn on_key(&mut self, key: Key, now_ms: u64) -> (act: Action)
        requires
            old(self).wf(),
        ensures
            final(self).wf(),
            final(self)@ == key_view(old(self)@, key, now_ms).0,
            act == key_view(old(self)@, key, now_ms).1,
    {
        match self.state {
            Screen::Chat => self.chat_key(key),
            Screen::Settings => self.settings_key(key, now_ms),
        }
    }

    /// The Chat screen's key handler.
    fn chat_key(&mut self, key: Key) -> (act: Action)
        requires
            old(self).wf(),
            old(self).state is Chat,
        ensures
            final(self).wf(),
            final(self)@ == chat_key_view(old(self)@, key).0,
            act == chat_key_view(old(self)@, key).1,
    {
        match key {
            Key::Confirm => {
                let t = trimmed(&self.input.text);
                if t == String::from_str("/exit") {
                    Action::Quit
                } else if t == String::from_str("/setting") {
                    self.input.clear();
                    let fresh = snapshot_buffers(&self.settings);
                    self.settings_input = fresh;
                    self.settings_focus = 0;
                    self.confirm_save = false;
                    self.last_confirm = Option::None;
                    self.just_entered_settings = true;
                    self.state = Screen::Settings;
                    proof {
                        assert(self@ =~~= chat_key_view(old(self)@, key).0);
                    }
                    Action::Idle
                } else if self.input.char_len() > 0 {
                    Action::CallGateway
                } else {
                    Action::Idle
                }
            },
            Key::Char(c) => {
                self.input.append_char(c);
                proof {
                    assert(self@ =~~= chat_key_view(old(self)@, key).0);
                }
                Action::Idle
            },
            Key::Delete => {
                self.input.delete_last();
                proof {
                    assert(self@ =~~= chat_key_view(old(self)@, key).0);
                }
                Action::Idle
            },
            Key::Cancel => Action::Quit,
            Key::Up => Action::Idle,
            Key::Down => Action::Idle,
            Key::Other => Action::Idle,
        }
    }

    /// The Settings screen's key handler.
    fn settings_key(&mut self, key: Key, now_ms: u64) -> (act: Action)
        requires
            old(self).wf(),
            old(self).state is Settings,
        ensures
            final(self).wf(),
            final(self)@ == settings_key_view(old(self)@, key, now_ms).0,
            act == settings_key_view(old(self)@, key, now_ms).1,
    {
        match key {
            Key::Confirm => {
                if self.just_entered_settings {
                    self.just_entered_settings = false;
                    proof {
                        assert(self@ =~~= settings_key_view(old(self)@, key, now_ms).0);
                    }
                    Action::Idle
                } else if self.confirm_save {
                    let provider = self.settings_input[0].text.clone();
                    let model = self.settings_input[1].text.clone();
                    let api_key = self.settings_input[2].text.clone();
                    let base_url = self.settings_input[3].text.clone();
                    self.settings = Settings { provider, model, api_key, base_url };
                    self.confirm_save = false;
                    self.last_confirm = Option::None;
                    self.state = Screen::Chat;
                    proof {
                        assert(self@ =~~= settings_key_view(old(self)@, key, now_ms).0);
                    }
                    Action::Persist
                } else {
                    self.confirm_save = true;
                    self.last_confirm = Option::Some(now_ms);
                    proof {
                        assert(self@ =~~= settings_key_view(old(self)@, key, now_ms).0);
                    }
                    Action::Idle
                }
            },
            Key::Char(c) => {
                let i = self.settings_focus;
                self.settings_input[i].append_char(c);
                proof {
                    assert(self@.fields =~~= settings_key_view(old(self)@, key, now_ms).0.fields);
                    assert(self@ =~~= settings_key_view(old(self)@, key, now_ms).0);
                }
                Action::Idle
            },
            Key::Delete => {
                let i = self.settings_focus;
                self.settings_input[i].delete_last();
                proof {
                    assert(self@.fields =~~= settings_key_view(old(self)@, key, now_ms).0.fields);
                    assert(self@ =~~= settings_key_view(old(self)@, key, now_ms).0);
                }
                Action::Idle
            },
            Key::Up => {
                if self.settings_focus > 0 {
                    self.settings_focus = self.settings_focus - 1;
                }
                proof {
                    assert(self@ =~~= settings_key_view(old(self)@, key, now_ms).0);
                }
                Action::Idle
            },
            Key::Down => {
                if self.settings_focus < 3 {
                    self.settings_focus = self.settings_focus + 1;
                }
                proof {
                    assert(self@ =~~= settings_key_view(old(self)@, key, now_ms).0);
                }
                Action::Idle
            },
            Key::Cancel => {
                self.confirm_save = false;
                self.last_confirm = Option::None;
                self.just_entered_settings = false;
                self.state = Screen::Chat;
                proof {
                    assert(self@ =~~= settings_key_view(old(self)@, key, now_ms).0);
                }
                Action::Idle
            },
            Key::Other => Action::Idle,
        }
    }

    /// Fold the completion gateway's outcome into the state, after an
    /// [`Action::CallGateway`]: on success the transcript gains the
    /// prompt echo and the agent reply, on failure exactly one error
    /// line; the prompt buffer is cleared either way.
    pub fn on_gateway_result(&mut self, outcome: Result<String, String>)
        requires
            old(self).wf(),
            old(self).state is Chat,
        ensures
            final(self).wf(),
            final(self)@ == gateway_view(
                old(self)@,
                match outcome {
                    Result::Ok(reply) => Result::<Seq<char>, Seq<char>>::Ok(reply@),
                    Result::Err(message) => Result::<Seq<char>, Seq<char>>::Err(message@),
                },
            ),
    {
        match outcome {
            Result::Ok(reply) => {
                let echo = String::from_str("> ").concat(self.input.text.as_str());
                self.messages.push(echo);
                let trimmed_reply = trimmed(&reply);
                let agent = String::from_str("AI: ").concat(trimmed_reply.as_str());
                self.messages.push(agent);
                self.input.clear();
                proof {
                    assert(self@.messages =~= old(self)@.messages + seq![
                        echo_line(old(self)@.input),
                        agent_line(trim_spec(reply@)),
                    ]);
                    assert(self@ =~~= gateway_view(
                        old(self)@,
                        Result::<Seq<char>, Seq<char>>::Ok(reply@),
                    ));
                }
            },
            Result::Err(message) => {
                let line = String::from_str("Error: ").concat(message.as_str());
                self.messages.push(line);
                self.input.clear();
                proof {
                    assert(self@.messages =~= old(self)@.messages.push(error_line(message@)));
                    assert(self@ =~~= gateway_view(
                        old(self)@,
                        Result::<Seq<char>, Seq<char>>::Err(message@),
                    ));
                }
            },
        }
    }

    /// Fold the persistence outcome into the state, after an
    /// [`Action::Persist`]: exactly one notice line is appended to the
    /// transcript; the in-memory record keeps the committed values
    /// whether or not persisting succeeded.
    pub fn on_persist_result(&mut self, outcome: Result<(), String>)
        requires
            old(self).wf(),
        ensures
            final(self).wf(),
            final(self)@ == persist_view(
                old(self)@,
                match outcome {
                    Result::Ok(_) => Result::<(), Seq<char>>::Ok(()),
                    Result::Err(message) => Result::<(), Seq<char>>::Err(message@),
                },
            ),
    {
        match outcome {
            Result::Ok(_) => {
                self.messages.push(String::from_str("Settings saved."));
                proof {
                    assert(self@.messages =~= old(self)@.messages.push(saved_line()));
                    assert(self@ =~~= persist_view(old(self)@, Result::<(), Seq<char>>::Ok(())));
                }
            },
            Result::Err(message) => {
                let line = String::from_str("Failed to save settings: ").concat(message.as_str());
                self.messages.push(line);
                proof {
                    assert(self@.messages =~= old(self)@.messages.push(
                        save_failed_line(message@),
                    ));
                    assert(self@ =~~= persist_view(
                        old(self)@,
                        Result::<(), Seq<char>>::Err(message@),
                    ));
                }
            },
        }
    }
}

} // verus!
