//! The global hotkey as a source of `Press` and `Release`.
//!
//! The platform's listener sees raw key states, at times the same one twice.
//! `HotkeySource` holds the one flag that turns them into edges: a `Press`
//! only out of the released state, a `Release` only out of the pressed one.

use crate::text::{
    eq_ignoring_ascii_case, option_view, str_eq_ignore_ascii_case, trim, trimmed,
};
use vstd::prelude::*;
use vstd::string::*;

verus! {

/// Virtual key code of the Fn (Globe) key.
pub const KEYCODE_FUNCTION: i64 = 0x3F;

/// Event type of a change of the modifier flags.
pub const EVENT_FLAGS_CHANGED: u32 = 12;

/// Event type by which the system tells that it switched the tap off
/// because a callback took too long.
pub const EVENT_TAP_DISABLED_BY_TIMEOUT: u32 = 0xFFFF_FFFE;

/// The modifier flag that is set while Fn is held.
pub const FLAG_SECONDARY_FN: u64 = 0x0080_0000;

/// An edge of the hotkey.
#[derive(Clone, Copy, Debug, PartialEq, Eq, Structural)]
pub enum HotkeyEvent {
    /// The chord went down.
    Press,
    /// The chord was let go.
    Release,
}

/// What the tap's callback is to do with an event, by its type.
#[derive(Clone, Copy, Debug, PartialEq, Eq, Structural)]
pub enum TapEventKind {
    /// The tap was switched off: switch it on again.
    ReEnable,
    /// The modifier flags changed: look at the key.
    FlagsChanged,
    /// Nothing for the hotkey.
    Other,
}

/// The edge that a raw key state makes out of the flag's state, if any.
pub open spec fn edge(active: bool, down: bool) -> Option<HotkeyEvent> {
    if down && !active {
        Some(HotkeyEvent::Press)
    } else if !down && active {
        Some(HotkeyEvent::Release)
    } else {
        None
    }
}

/// The edges that a run of raw key states makes, starting from `active`.
pub open spec fn edges(active: bool, raw: Seq<bool>) -> Seq<HotkeyEvent>
    decreases raw.len(),
{
    if raw.len() == 0 {
        Seq::empty()
    } else {
        match edge(active, raw[0]) {
            Some(e) => seq![e] + edges(raw[0], raw.drop_first()),
            None => edges(raw[0], raw.drop_first()),
        }
    }
}

/// The kind of a tap event.
pub open spec fn tap_kind(event_type: u32) -> TapEventKind {
    if event_type == EVENT_TAP_DISABLED_BY_TIMEOUT {
        TapEventKind::ReEnable
    } else if event_type == EVENT_FLAGS_CHANGED {
        TapEventKind::FlagsChanged
    } else {
        TapEventKind::Other
    }
}

/// Whether a flags-changed event is about the Fn key, and if so whether the
/// key is down.
pub open spec fn fn_key_state(keycode: i64, flags: u64) -> Option<bool> {
    if keycode == KEYCODE_FUNCTION {
        Some(flags & FLAG_SECONDARY_FN != 0)
    } else {
        None
    }
}

/// The application to paste into, from what the query for the frontmost
/// application printed: none where the query failed, printed nothing or
/// printed the placeholder for no value.
pub open spec fn frontmost_of(success: bool, output: Seq<char>) -> Option<Seq<char>> {
    if !success || trimmed(output).len() == 0 || eq_ignoring_ascii_case(
        trimmed(output),
        "missing value"@,
    ) {
        None
    } else {
        Some(trimmed(output))
    }
}

/// The edge-triggered flag of the hotkey.
pub struct HotkeySource {
    active: bool,
}

impl HotkeySource {
    /// Whether the chord is held, as far as the source has seen.
    pub closed spec fn active(self) -> bool {
        self.active
    }

    /// A source that has seen nothing: the chord is up.
    pub fn new() -> (s: Self)
        ensures
            !s.active(),
    {
        HotkeySource { active: false }
    }

    /// Whether the chord is held.
    pub fn is_active(&self) -> (b: bool)
        ensures
            b == self.active(),
    {
        self.active
    }

    /// Takes a raw key state and gives the edge that it makes, if any.
    pub fn on_key(&mut self, down: bool) -> (e: Option<HotkeyEvent>)
        ensures
            e == edge(old(self).active(), down),
            final(self).active() == down,
    {
        if down && !self.active {
            self.active = true;
            Some(HotkeyEvent::Press)
        } else if !down && self.active {
            self.active = false;
            Some(HotkeyEvent::Release)
        } else {
            None
        }
    }

    /// Takes a flags-changed event of the tap. Events about other keys
    /// change nothing.
    pub fn on_flags_changed(&mut self, keycode: i64, flags: u64) -> (e: Option<HotkeyEvent>)
        ensures
            match fn_key_state(keycode, flags) {
                Some(down) => e == edge(old(self).active(), down) && final(self).active() == down,
                None => e is None && final(self).active() == old(self).active(),
            },
    {
        if keycode != KEYCODE_FUNCTION {
            return None;
        }
        let down = flags & FLAG_SECONDARY_FN != 0;
        self.on_key(down)
    }
}

/// The kind of a tap event.
pub fn classify_tap_event(event_type: u32) -> (k: TapEventKind)
    ensures
        k == tap_kind(event_type),
{
    if event_type == EVENT_TAP_DISABLED_BY_TIMEOUT {
        TapEventKind::ReEnable
    } else if event_type == EVENT_FLAGS_CHANGED {
        TapEventKind::FlagsChanged
    } else {
        TapEventKind::Other
    }
}

/// The application to paste into, from the outcome of the query for the
/// frontmost application.
pub fn get_frontmost_app_bundle_id(success: bool, output: &str) -> (r: Option<String>)
    ensures
        option_view(r) == frontmost_of(success, output@),
{
    if !success {
        return None;
    }
    let s = trim(output);
    if s.unicode_len() == 0 || str_eq_ignore_ascii_case(s, "missing value") {
        None
    } else {
        Some(s.to_string())
    }
}

/// The event with index `i` in a run of edges that starts from `active`:
/// presses and releases take turns, and the first is the one that `active`
/// allows.
pub open spec fn turn(active: bool, i: int) -> HotkeyEvent {
    if (i % 2 == 0) == !active {
        HotkeyEvent::Press
    } else {
        HotkeyEvent::Release
    }
}

/// No edge is ever doubled: whatever raw key states arrive, the source emits
/// presses and releases in turn, a press first if the chord was up.
pub proof fn lemma_edges_alternate(active: bool, raw: Seq<bool>)
    ensures
        forall|i: int| 0 <= i < edges(active, raw).len() ==> edges(active, raw)[i] == turn(active, i),
    decreases raw.len(),
{
    if raw.len() > 0 {
        lemma_edges_alternate(raw[0], raw.drop_first());
        let rest = edges(raw[0], raw.drop_first());
        match edge(active, raw[0]) {
            Some(e) => {
                assert forall|i: int| 0 <= i < edges(active, raw).len() implies edges(active, raw)[i]
                    == turn(active, i) by {
                    if i > 0 {
                        assert(edges(active, raw)[i] == rest[i - 1]);
                        assert(rest[i - 1] == turn(raw[0], i - 1));
                    }
                }
            },
            None => {},
        }
    }
}

/// The paste target of the session in flight: the application that was
/// frontmost when the hotkey went down.
pub struct HotkeyState {
    /// The target, from the press until the paste takes it.
    pub paste_target_bundle_id: Option<String>,
}

impl Default for HotkeyState {
    /// No target.
    fn default() -> (s: Self)
        ensures
            s.paste_target_bundle_id is None,
    {
        HotkeyState { paste_target_bundle_id: None }
    }
}

impl HotkeyState {
    /// Notes the target of the session that starts.
    pub fn set_paste_target(&mut self, bundle_id: Option<String>)
        ensures
            final(self).paste_target_bundle_id == bundle_id,
    {
        self.paste_target_bundle_id = bundle_id;
    }

    /// Hands the target out, once: after the call there is none.
    pub fn take_paste_target(&mut self) -> (r: Option<String>)
        ensures
            r == old(self).paste_target_bundle_id,
            final(self).paste_target_bundle_id is None,
    {
        self.paste_target_bundle_id.take()
    }
}

} // verus!
