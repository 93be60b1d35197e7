//! The sidebar's API key field.
use vstd::prelude::*;

use crate::components::theme::IconKind;

verus! {

/// The icon of the button that shows or hides the API key: an open eye while it is shown.
pub fn api_key_visibility_icon(visible: bool) -> (r: IconKind)
    ensures
        r == if visible {
            IconKind::Eye
        } else {
            IconKind::EyeOff
        },
{
    if visible {
        IconKind::Eye
    } else {
        IconKind::EyeOff
    }
}

/// The tooltip of the button that shows or hides the API key: what a click does.
pub fn api_key_visibility_tooltip(visible: bool) -> (r: &'static str)
    ensures
        r@ == if visible {
            "Hide API key"@
        } else {
            "Show API key"@
        },
{
    if visible {
        "Hide API key"
    } else {
        "Show API key"
    }
}

} // verus!
