//! Deriving what the toggle renders from the resolved preference: the
//! `color-scheme` meta content, the submit control's label, and the payload
//! of the next submission.

use vstd::prelude::*;

use crate::resolve::ToggleState;

verus! {

/// The meta element's `color-scheme` content for a resolved preference.
pub fn color_scheme(resolved: bool) -> (r: &'static str)
    ensures
        resolved ==> r@ == "dark"@,
        !resolved ==> r@ == "light"@,
{
    if resolved {
        "dark"
    } else {
        "light"
    }
}

/// The submit control's label: it names the target mode, the opposite of the
/// resolved preference.
pub fn button_label(resolved: bool) -> (r: &'static str)
    ensures
        resolved ==> r@ == "Switch to Light Mode"@,
        !resolved ==> r@ == "Switch to Dark Mode"@,
{
    if resolved {
        "Switch to Light Mode"
    } else {
        "Switch to Dark Mode"
    }
}

/// The payload of the next submission: always the negated resolved
/// preference.
pub fn next_payload(resolved: bool) -> (r: bool)
    ensures
        r == !resolved,
{
    !resolved
}

/// Everything the toggle renders: the meta content, the hidden submitted
/// value, and the visible label.
pub struct ToggleView {
    pub color_scheme: &'static str,
    pub payload: bool,
    pub button_label: &'static str,
}

/// Renders the toggle for a view state: the meta content reflects the
/// resolved preference, the hidden value submits its negation, and the label
/// names the target mode.
pub fn dark_mode_toggle(state: &ToggleState) -> (v: ToggleView)
    ensures
        state.resolved_spec() ==> v.color_scheme@ == "dark"@ && v.button_label@
            == "Switch to Light Mode"@,
        !state.resolved_spec() ==> v.color_scheme@ == "light"@ && v.button_label@
            == "Switch to Dark Mode"@,
        v.payload == !state.resolved_spec(),
{
    let resolved = state.resolved();
    ToggleView {
        color_scheme: color_scheme(resolved),
        payload: next_payload(resolved),
        button_label: button_label(resolved),
    }
}

} // verus!
