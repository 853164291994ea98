//! The spotlight panel's visibility toggle and key-window event names.

use vstd::prelude::*;
use crate::text::str_eq;

verus! {

/// The label of the main window, shared by every panel lookup.
pub fn main_window_label() -> (r: &'static str)
    ensures
        r@ == "main"@,
{
    "main"
}

/// What the visibility toggle does to the panel.
#[derive(Debug, Clone, Copy, PartialEq, Eq, Structural)]
pub enum ToggleAction {
    /// Order the panel out.
    Hide,
    /// Show the panel and emit the focus event.
    ShowAndFocus,
}

/// A visible panel is hidden; a hidden one is shown and given focus.
pub fn toggle_action(is_visible: bool) -> (r: ToggleAction)
    ensures
        r is Hide <==> is_visible,
{
    if is_visible {
        ToggleAction::Hide
    } else {
        ToggleAction::ShowAndFocus
    }
}

/// The event emitted towards the front end when the panel is shown.
pub fn focus_event_name() -> (r: &'static str)
    ensures
        r@ == "focus"@,
{
    "focus"
}

/// The event a window's panel emits when it becomes the key window.
pub open spec fn became_key_event_text(label: Seq<char>) -> Seq<char> {
    label + "_panel_did_become_key"@
}

/// The event a window's panel emits when it resigns as the key window.
pub open spec fn resigned_key_event_text(label: Seq<char>) -> Seq<char> {
    label + "_panel_did_resign_key"@
}

/// Builds the became-key event name for a window label.
pub fn became_key_event(label: &str) -> (r: String)
    ensures
        r@ == became_key_event_text(label@),
{
    String::from_str(label).concat("_panel_did_become_key")
}

/// Builds the resigned-key event name for a window label.
pub fn resigned_key_event(label: &str) -> (r: String)
    ensures
        r@ == resigned_key_event_text(label@),
{
    String::from_str(label).concat("_panel_did_resign_key")
}

/// Maps a panel-delegate callback name to the event emitted towards the
/// application, if any.
pub fn delegate_event_for(delegate_name: &str, label: &str) -> (r: Option<String>)
    ensures
        delegate_name@ == "window_did_become_key"@ ==> (r matches Some(e) && e@
            == became_key_event_text(label@)),
        delegate_name@ == "window_did_resign_key"@ ==> (r matches Some(e) && e@
            == resigned_key_event_text(label@)),
        delegate_name@ != "window_did_become_key"@ && delegate_name@ != "window_did_resign_key"@
            ==> r is None,
{
    proof {
        // The two callback names differ, so at most one branch answers.
        reveal_strlit("window_did_become_key");
        reveal_strlit("window_did_resign_key");
        assert("window_did_become_key"@[11] != "window_did_resign_key"@[11]);
    }
    if str_eq(delegate_name, "window_did_become_key") {
        Some(became_key_event(label))
    } else if str_eq(delegate_name, "window_did_resign_key") {
        Some(resigned_key_event(label))
    } else {
        None
    }
}

} // verus!
