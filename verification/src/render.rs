//! The render layer: a pure projection from the interactive state to a
//! drawing plan. The terminal layer only has to draw the panes and place
//! the cursor; no decision is left to it.
use vstd::prelude::*;

verus! {

use crate::state::App;
use crate::state::AppView;
use crate::state::Screen;
use crate::state::lines_view;
use vstd::string::StringExecFns;

/// One bordered pane of the drawing plan.
pub struct Pane {
    pub title: String,
    pub text: String,
    /// Whether the pane is drawn in the inverted (focused) style.
    pub highlighted: bool,
}

/// Where the cursor goes: a pane index and a column within its text,
/// counted in characters.
pub struct CursorPos {
    pub pane: usize,
    pub column: usize,
}

/// A full drawing plan: the transcript lines (joined and soft-wrapped by
/// the terminal layer), the panes shown under or over them, and the
/// cursor position, if one is shown.
pub struct RenderPlan {
    pub transcript: Vec<String>,
    pub panes: Vec<Pane>,
    /// Whether the panes overlay the whole screen (Settings) instead of
    /// sitting under the transcript (Chat).
    pub overlay: bool,
    pub cursor: Option<CursorPos>,
}

pub open spec fn chat_input_title() -> Seq<char> {
    "Input (Enter: send, /setting: config, /exit: exit)"@
}

/// The labels of the four settings fields, by focus index.
pub open spec fn field_titles() -> Seq<Seq<char>> {
    seq!["Provider"@, "Model"@, "API Key"@, "Base URL"@]
}

/// The Save row's caption, reflecting whether a confirmation is pending.
pub open spec fn save_caption(confirm_save: bool) -> Seq<char> {
    if confirm_save {
        "Press one more to save"@
    } else {
        "Press Enter to Save"@
    }
}

/// What a drawing plan must show of a machine state: the transcript
/// verbatim; on Chat a single un-highlighted input pane holding the live
/// prompt with the cursor after its last character; on Settings a
/// full-screen overlay of the four field rows (the focused one
/// highlighted, the cursor at the end of its text) and the Save row.
pub open spec fn plan_matches(p: RenderPlan, m: AppView) -> bool {
    &&& lines_view(p.transcript@) == m.messages
    &&& match m.screen {
        Screen::Chat => {
            &&& p.panes@.len() == 1
            &&& p.panes@[0].title@ == chat_input_title()
            &&& p.panes@[0].text@ == m.input
            &&& !p.panes@[0].highlighted
            &&& !p.overlay
            &&& p.cursor matches Option::Some(c) && c.pane == 0 && c.column == m.input.len()
        },
        Screen::Settings => {
            &&& p.panes@.len() == 5
            &&& forall|i: int|
                0 <= i < 4 ==> (#[trigger] p.panes@[i]).title@ == field_titles()[i]
                    && p.panes@[i].text@ == m.fields[i]
            &&& forall|i: int| 0 <= i < 5 ==> ((#[trigger] p.panes@[i]).highlighted <==> i == m.focus)
            &&& p.panes@[4].title@ == "Save"@
            &&& p.panes@[4].text@ == save_caption(m.confirm_save)
            &&& p.overlay
            &&& p.cursor matches Option::Some(c) && c.pane == m.focus && c.column
                == m.fields[m.focus].len()
        },
    }
}

/// A copy of the transcript lines.
fn clone_lines(v: &Vec<String>) -> (r: Vec<String>)
    ensures
        r@ == v@,
{
    let mut r: Vec<String> = Vec::new();
    let mut i: usize = 0;
    while i < v.len()
        invariant
            i <= v@.len(),
            r@ == v@.subrange(0, i as int),
        decreases v@.len() - i,
    {
        r.push(v[i].clone());
        proof {
            assert(r@ =~= v@.subrange(0, i + 1));
        }
        i = i + 1;
    }
    proof {
        assert(r@ =~= v@);
    }
    r
}

/// Project the interactive state onto a drawing plan.
pub fn render_plan(app: &App) -> (p: RenderPlan)
    requires
        app.wf(),
    ensures
        plan_matches(p, app@),
{
    let transcript = clone_lines(&app.messages);
    match app.state {
        Screen::Chat => {
            let mut panes: Vec<Pane> = Vec::new();
            panes.push(
                Pane {
                    title: String::from_str("Input (Enter: send, /setting: config, /exit: exit)"),
                    text: app.input.text.clone(),
                    highlighted: false,
                },
            );
            let cursor = Option::Some(CursorPos { pane: 0, column: app.input.char_len() });
            RenderPlan { transcript, panes, overlay: false, cursor }
        },
        Screen::Settings => {
            let mut panes: Vec<Pane> = Vec::new();
            panes.push(
                Pane {
                    title: String::from_str("Provider"),
                    text: app.settings_input[0].text.clone(),
                    highlighted: app.settings_focus == 0,
                },
            );
            panes.push(
                Pane {
                    title: String::from_str("Model"),
                    text: app.settings_input[1].text.clone(),
                    highlighted: app.settings_focus == 1,
                },
            );
            panes.push(
                Pane {
                    title: String::from_str("API Key"),
                    text: app.settings_input[2].text.clone(),
                    highlighted: app.settings_focus == 2,
                },
            );
            panes.push(
                Pane {
                    title: String::from_str("Base URL"),
                    text: app.settings_input[3].text.clone(),
                    highlighted: app.settings_focus == 3,
                },
            );
            let caption = if app.confirm_save {
                String::from_str("Press one more to save")
            } else {
                String::from_str("Press Enter to Save")
            };
            panes.push(Pane { title: String::from_str("Save"), text: caption, highlighted: false });
            let focus = app.settings_focus;
            let cursor = Option::Some(
                CursorPos { pane: focus, column: app.settings_input[focus].char_len() },
            );
            let p = RenderPlan { transcript, panes, overlay: true, cursor };
            proof {
                assert(plan_matches(p, app@));
            }
            p
        },
    }
}

} // verus!
