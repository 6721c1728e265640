//! Laws of the state machine, each proved over the transition model in
//! [`crate::state`].
use vstd::prelude::*;

verus! {

use crate::editor::deleted;
use crate::state::Action;
use crate::state::AppView;
use crate::state::CONFIRM_WINDOW_MS;
use crate::state::Key;
use crate::state::committed_settings;
use crate::state::exit_command;
use crate::state::key_view;
use crate::state::settings_command;
use crate::state::snapshot_fields;
use crate::state::tick_view;
use crate::text::trim_spec;

/// One character/delete key applied to a buffer content.
pub open spec fn edit_step(s: Seq<char>, key: Key) -> Seq<char> {
    match key {
        Key::Char(c) => s.push(c),
        Key::Delete => deleted(s),
        _ => s,
    }
}

/// A sequence of character/delete keys applied in order.
pub open spec fn edit_run(s: Seq<char>, keys: Seq<Key>) -> Seq<char>
    decreases keys.len(),
{
    if keys.len() == 0 {
        s
    } else {
        edit_run(edit_step(s, keys[0]), keys.drop_first())
    }
}

/// Whether a key only edits the focused buffer.
pub open spec fn is_edit_key(key: Key) -> bool {
    key matches Key::Char(_) || key is Delete
}

/// A chain of key events run through the machine.
pub open spec fn run_keys(m: AppView, keys: Seq<Key>, now_ms: u64) -> AppView
    decreases keys.len(),
{
    if keys.len() == 0 {
        m
    } else {
        run_keys(key_view(m, keys[0], now_ms).0, keys.drop_first(), now_ms)
    }
}

/// Law: a delete key on an empty buffer is a no-op, so no sequence of
/// character/delete keys can drive a buffer's length below zero.
pub proof fn lemma_delete_on_empty_noop(s: Seq<char>)
    requires
        s.len() == 0,
    ensures
        edit_step(s, Key::Delete) == s,
{
}

/// Law: on the Chat screen any sequence of character/delete keys edits
/// the prompt exactly as [`edit_run`] says — deletes on an empty prompt
/// included, as no-ops — and changes nothing else of the state.
pub proof fn lemma_chat_edit_keys(m: AppView, keys: Seq<Key>, now_ms: u64)
    requires
        m.screen is Chat,
        forall|i: int| 0 <= i < keys.len() ==> is_edit_key(#[trigger] keys[i]),
    ensures
        run_keys(m, keys, now_ms) == (AppView { input: edit_run(m.input, keys), ..m }),
    decreases keys.len(),
{
    if keys.len() == 0 {
        assert(run_keys(m, keys, now_ms) =~~= (AppView { input: edit_run(m.input, keys), ..m }));
    } else {
        let k = keys[0];
        assert(is_edit_key(k));
        let m1 = key_view(m, k, now_ms).0;
        assert(m1 =~~= (AppView { input: edit_step(m.input, k), ..m }));
        lemma_chat_edit_keys(m1, keys.drop_first(), now_ms);
        assert(run_keys(m, keys, now_ms) =~~= (AppView { input: edit_run(m.input, keys), ..m }));
    }
}

/// Law: entering Settings from Chat always yields focus 0, no pending
/// confirmation, a cleared prompt, the next Confirm suppressed, and
/// field buffers equal to the configuration record's four fields,
/// verbatim; the record and the transcript are untouched.
pub proof fn lemma_enter_settings(m: AppView, now_ms: u64)
    requires
        m.screen is Chat,
        trim_spec(m.input) == settings_command(),
    ensures
        ({
            let stepped = key_view(m, Key::Confirm, now_ms);
            &&& stepped.0.screen is Settings
            &&& stepped.0.focus == 0
            &&& !stepped.0.confirm_save
            &&& stepped.0.armed_at is None
            &&& stepped.0.suppress_confirm
            &&& stepped.0.input.len() == 0
            &&& stepped.0.fields == snapshot_fields(m.settings)
            &&& stepped.0.settings == m.settings
            &&& stepped.0.messages == m.messages
            &&& stepped.1 == Action::Idle
        }),
{
    reveal_strlit("/exit");
    reveal_strlit("/setting");
    assert(exit_command().len() == 5);
    assert(settings_command().len() == 8);
}

/// Law (confirmation gesture): from no pending confirmation, one Confirm
/// arms the gesture with a fresh deadline; a second Confirm within the
/// window commits the field buffers into the record and returns to Chat;
/// once the window has lapsed, the ambient check disarms the gesture and
/// a Confirm then re-arms it rather than committing.
pub proof fn lemma_confirm_gesture(m: AppView, t0: u64, t1: u64)
    requires
        m.screen is Settings,
        !m.confirm_save,
        !m.suppress_confirm,
        t0 <= t1,
    ensures
        ({
            let armed = key_view(m, Key::Confirm, t0).0;
            &&& armed.confirm_save
            &&& armed.armed_at == Option::Some(t0)
            &&& armed.screen is Settings
            &&& (t1 - t0 <= CONFIRM_WINDOW_MS ==> {
                let ticked = tick_view(armed, t1);
                &&& ticked == armed
                &&& key_view(ticked, Key::Confirm, t1).0.screen is Chat
                &&& key_view(ticked, Key::Confirm, t1).0.settings == committed_settings(m.fields)
                &&& !key_view(ticked, Key::Confirm, t1).0.confirm_save
                &&& key_view(ticked, Key::Confirm, t1).1 == Action::Persist
            })
            &&& (t1 - t0 > CONFIRM_WINDOW_MS ==> {
                let ticked = tick_view(armed, t1);
                &&& !ticked.confirm_save
                &&& ticked.screen is Settings
                &&& key_view(ticked, Key::Confirm, t1).0.screen is Settings
                &&& key_view(ticked, Key::Confirm, t1).0.confirm_save
                &&& key_view(ticked, Key::Confirm, t1).0.armed_at == Option::Some(t1)
                &&& key_view(ticked, Key::Confirm, t1).0.settings == m.settings
                &&& key_view(ticked, Key::Confirm, t1).1 == Action::Idle
            })
        }),
{
}

/// Law (round trip): committing the Settings screen's field buffers and
/// then re-entering Settings from Chat shows exactly the four committed
/// values again.
pub proof fn lemma_settings_round_trip(m: AppView, m2: AppView, t0: u64, t1: u64)
    requires
        m.screen is Settings,
        m.confirm_save,
        !m.suppress_confirm,
        m.fields.len() == 4,
        m2.screen is Chat,
        m2.settings == key_view(m, Key::Confirm, t0).0.settings,
        trim_spec(m2.input) == settings_command(),
    ensures
        key_view(m2, Key::Confirm, t1).0.fields == m.fields,
{
    lemma_enter_settings(m2, t1);
    assert(key_view(m, Key::Confirm, t0).0.settings == committed_settings(m.fields));
    assert(snapshot_fields(committed_settings(m.fields)) =~~= m.fields);
}

} // verus!
