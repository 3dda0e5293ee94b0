//! What a paste consists of: the clipboard, then perhaps bringing the target
//! application to the front, then the paste keystroke.

use crate::platform::Platform;
use crate::text::{
    eq_ignoring_ascii_case, is_blank, option_view, str_eq, str_eq_ignore_ascii_case,
    str_is_blank, trim, trimmed,
};
use vstd::prelude::*;
use vstd::string::*;

verus! {

/// The key that is held while `v` is struck.
#[derive(Clone, Copy, Debug, PartialEq, Eq, Structural)]
pub enum PasteModifier {
    /// The Command key.
    Command,
    /// The Control key.
    Control,
}

/// The steps of a paste, after the clipboard is set.
#[derive(Clone, Debug, PartialEq, Eq)]
pub struct PastePlan {
    /// The application to bring to the front before the keystroke, if any.
    pub activate: Option<String>,
    /// The modifier of the paste keystroke.
    pub modifier: PasteModifier,
}

/// A paste plan as plain values.
pub struct PastePlanView {
    pub activate: Option<Seq<char>>,
    pub modifier: PasteModifier,
}

impl View for PastePlan {
    type V = PastePlanView;

    open spec fn view(&self) -> PastePlanView {
        PastePlanView {
            activate: option_view(self.activate),
            modifier: self.modifier,
        }
    }
}

/// The identifier of this application itself, which is never activated.
pub open spec fn own_bundle_id() -> Seq<char> {
    "app.verba"@
}

/// An identifier names an application that can be brought to the front: it
/// is not empty, not the placeholder for no value, and not this application.
pub open spec fn is_valid_target(id: Seq<char>) -> bool {
    id.len() > 0 && !eq_ignoring_ascii_case(id, "missing value"@) && id != own_bundle_id()
}

/// The application to bring to the front for a target: none without a
/// target, which forces no application to the front. Only macOS brings one
/// to the front.
pub open spec fn activation_of(platform: Platform, target: Option<Seq<char>>) -> Option<
    Seq<char>,
> {
    match target {
        Some(id) => if platform == Platform::MacOs && is_valid_target(trimmed(id)) {
            Some(trimmed(id))
        } else {
            None
        },
        None => None,
    }
}

/// The modifier of the paste keystroke on a platform.
pub open spec fn modifier_of(platform: Platform) -> PasteModifier {
    if platform == Platform::MacOs {
        PasteModifier::Command
    } else {
        PasteModifier::Control
    }
}

/// The plan for pasting `text` into `target`: blank text is not pasted at
/// all; any other text is put on the clipboard and pasted with the
/// keystroke, after the target, where it names an application, was brought
/// to the front.
pub open spec fn paste_plan(platform: Platform, text: Seq<char>, target: Option<Seq<char>>)
    -> Option<PastePlanView> {
    if is_blank(text) {
        None
    } else {
        Some(
            PastePlanView {
                activate: activation_of(platform, target),
                modifier: modifier_of(platform),
            },
        )
    }
}

/// A plan, if any, as plain values.
pub open spec fn plan_view(p: Option<PastePlan>) -> Option<PastePlanView> {
    match p {
        Some(plan) => Some(plan@),
        None => None,
    }
}

/// Whether an identifier names an application that can be brought to the
/// front.
pub fn valid_target(id: &str) -> (r: bool)
    ensures
        r == is_valid_target(id@),
{
    id.unicode_len() > 0 && !str_eq_ignore_ascii_case(id, "missing value") && !str_eq(
        id,
        "app.verba",
    )
}

/// Plans the paste of `text` into `target`. `None` means that there is
/// nothing to do, which is no failure.
pub fn plan_paste(platform: Platform, text: &str, target_bundle_id: Option<String>) -> (r: Option<
    PastePlan,
>)
    ensures
        plan_view(r) == paste_plan(platform, text@, option_view(target_bundle_id)),
{
    if str_is_blank(text) {
        return None;
    }
    let mac: bool = match platform {
        Platform::MacOs => true,
        _ => false,
    };
    let modifier = if mac {
        PasteModifier::Command
    } else {
        PasteModifier::Control
    };
    match target_bundle_id {
        Some(id) => {
            let bid = trim(id.as_str());
            if mac && valid_target(bid) {
                Some(PastePlan { activate: Some(bid.to_string()), modifier })
            } else {
                Some(PastePlan { activate: None, modifier })
            }
        },
        None => Some(PastePlan { activate: None, modifier }),
    }
}

} // verus!
