//! Gesture actions and the mode logic that decides what reaches the HID device.
use vstd::prelude::*;
use crate::text::{same_text, seq_starts_with, starts_with};

verus! {

/// An action that a recognised gesture triggers on the emulated HID device.
#[derive(Clone, Copy, Debug, PartialEq, Eq, Structural)]
pub enum GestureAction {
    SlideDer,
    SlideIzq,
    ZoomIn,
    ZoomOut,
    Grab,
    Drop,
}

/// The action that a canonical gesture label names, by its prefix; the
/// prefixes are tried in this order.
pub open spec fn action_of_label(label: Seq<char>) -> Option<GestureAction> {
    if seq_starts_with(label, "gesto-slide-derecha"@) {
        Some(GestureAction::SlideDer)
    } else if seq_starts_with(label, "gesto-slide-izquierda"@) {
        Some(GestureAction::SlideIzq)
    } else if seq_starts_with(label, "gesto-zoom-in"@) {
        Some(GestureAction::ZoomIn)
    } else if seq_starts_with(label, "gesto-zoom-out"@) {
        Some(GestureAction::ZoomOut)
    } else if seq_starts_with(label, "gesto-grab"@) {
        Some(GestureAction::Grab)
    } else if seq_starts_with(label, "gesto-drop"@) {
        Some(GestureAction::Drop)
    } else {
        None
    }
}

/// Maps a canonical gesture label to the action it triggers, if any.
pub fn map_label_to_action(label: &str) -> (res: Option<GestureAction>)
    ensures
        res == action_of_label(label@),
{
    if starts_with(label, "gesto-slide-derecha") {
        Some(GestureAction::SlideDer)
    } else if starts_with(label, "gesto-slide-izquierda") {
        Some(GestureAction::SlideIzq)
    } else if starts_with(label, "gesto-zoom-in") {
        Some(GestureAction::ZoomIn)
    } else if starts_with(label, "gesto-zoom-out") {
        Some(GestureAction::ZoomOut)
    } else if starts_with(label, "gesto-grab") {
        Some(GestureAction::Grab)
    } else if starts_with(label, "gesto-drop") {
        Some(GestureAction::Drop)
    } else {
        None
    }
}

/// Each canonical gesture label names its own action.
pub proof fn lemma_canonical_labels_map()
    ensures
        action_of_label("gesto-slide-derecha"@) == Some(GestureAction::SlideDer),
        action_of_label("gesto-slide-izquierda"@) == Some(GestureAction::SlideIzq),
        action_of_label("gesto-zoom-in"@) == Some(GestureAction::ZoomIn),
        action_of_label("gesto-zoom-out"@) == Some(GestureAction::ZoomOut),
        action_of_label("gesto-grab"@) == Some(GestureAction::Grab),
        action_of_label("gesto-drop"@) == Some(GestureAction::Drop),
{
    reveal_strlit("gesto-slide-derecha");
    reveal_strlit("gesto-slide-izquierda");
    reveal_strlit("gesto-zoom-in");
    reveal_strlit("gesto-zoom-out");
    reveal_strlit("gesto-grab");
    reveal_strlit("gesto-drop");
    let l = seq![
        "gesto-slide-derecha"@,
        "gesto-slide-izquierda"@,
        "gesto-zoom-in"@,
        "gesto-zoom-out"@,
        "gesto-grab"@,
        "gesto-drop"@,
    ];
    assert forall|i: int, j: int| 0 <= i < 6 && 0 <= j < 6 && i != j implies !seq_starts_with(
        #[trigger] l[i],
        #[trigger] l[j],
    ) by {
        let s = l[i];
        let p = l[j];
        if p.len() <= s.len() {
            // A position at which the two labels differ.
            let k: int = if (i <= 1 && j >= 2) || (i >= 2 && j <= 1) || (i >= 4 && j >= 2 && j <= 3)
                || (i >= 2 && i <= 3 && j >= 4) {
                6
            } else if i <= 1 {
                12
            } else if i <= 3 {
                11
            } else {
                6
            };
            assert(s[k] != p[k]);
            assert(s.subrange(0, p.len() as int)[k] == s[k]);
        }
    }
    assert forall|i: int| 0 <= i < 6 implies seq_starts_with(#[trigger] l[i], l[i]) by {
        assert(l[i].subrange(0, l[i].len() as int) =~= l[i]);
    }
    assert(l[0] == "gesto-slide-derecha"@);
    assert(l[1] == "gesto-slide-izquierda"@);
    assert(l[2] == "gesto-zoom-in"@);
    assert(l[3] == "gesto-zoom-out"@);
    assert(l[4] == "gesto-grab"@);
    assert(l[5] == "gesto-drop"@);
    assert(seq_starts_with(l[0], l[0]) && seq_starts_with(l[1], l[1]));
    assert(!seq_starts_with(l[1], l[0]));
    assert(!seq_starts_with(l[2], l[0]) && !seq_starts_with(l[2], l[1]));
    assert(seq_starts_with(l[2], l[2]));
    assert(!seq_starts_with(l[3], l[0]) && !seq_starts_with(l[3], l[1]) && !seq_starts_with(l[3], l[2]));
    assert(seq_starts_with(l[3], l[3]));
    assert(!seq_starts_with(l[4], l[0]) && !seq_starts_with(l[4], l[1]) && !seq_starts_with(l[4], l[2]) && !seq_starts_with(l[4], l[3]));
    assert(seq_starts_with(l[4], l[4]));
    assert(!seq_starts_with(l[5], l[0]) && !seq_starts_with(l[5], l[1]) && !seq_starts_with(l[5], l[2]) && !seq_starts_with(l[5], l[3]) && !seq_starts_with(l[5], l[4]));
    assert(seq_starts_with(l[5], l[5]));
}

/// What becomes of a post-processed prediction.
#[derive(Clone, Copy, Debug, PartialEq, Eq, Structural)]
pub enum Dispatch {
    /// The classifier did not recognise the gesture.
    Unknown,
    /// The classifier's confidence is under the threshold.
    LowConfidence,
    /// The label names no action.
    Unmapped,
    /// The action is handed to the HID side.
    Send(GestureAction),
}

/// An unknown gesture is never dispatched, then a prediction below the
/// confidence threshold is not, and otherwise the label's action is.
pub open spec fn dispatch_of(canonical_label: Seq<char>, confident: bool) -> Dispatch {
    if canonical_label == "desconocido"@ {
        Dispatch::Unknown
    } else if !confident {
        Dispatch::LowConfidence
    } else {
        match action_of_label(canonical_label) {
            Some(a) => Dispatch::Send(a),
            None => Dispatch::Unmapped,
        }
    }
}

/// Decides whether a post-processed prediction triggers an action;
/// `confident` tells whether the classifier's confidence reached the threshold.
pub fn decide_dispatch(canonical_label: &str, confident: bool) -> (res: Dispatch)
    ensures
        res == dispatch_of(canonical_label@, confident),
{
    if same_text(canonical_label, "desconocido") {
        Dispatch::Unknown
    } else if !confident {
        Dispatch::LowConfidence
    } else {
        match map_label_to_action(canonical_label) {
            Some(a) => Dispatch::Send(a),
            None => Dispatch::Unmapped,
        }
    }
}

/// The folder of recorded gestures that a key stands for in the keyboard
/// replay mode.
pub open spec fn key_folder(key: char) -> Option<Seq<char>> {
    if key == 'd' {
        Some("gestos/gesto-drop"@)
    } else if key == 'g' {
        Some("gestos/gesto-grab"@)
    } else if key == 'r' {
        Some("gestos/gesto-slide-derecha"@)
    } else if key == 'l' {
        Some("gestos/gesto-slide-izquierda"@)
    } else if key == 'i' {
        Some("gestos/gesto-zoom-in"@)
    } else if key == 'o' {
        Some("gestos/gesto-zoom-out"@)
    } else {
        None
    }
}

/// Looks up the folder of recorded gestures for a key.
pub fn folder_for_key(key: char) -> (res: Option<String>)
    ensures
        match res {
            Some(f) => key_folder(key) == Some(f@),
            None => key_folder(key) is None,
        },
{
    if key == 'd' {
        Some(String::from_str("gestos/gesto-drop"))
    } else if key == 'g' {
        Some(String::from_str("gestos/gesto-grab"))
    } else if key == 'r' {
        Some(String::from_str("gestos/gesto-slide-derecha"))
    } else if key == 'l' {
        Some(String::from_str("gestos/gesto-slide-izquierda"))
    } else if key == 'i' {
        Some(String::from_str("gestos/gesto-zoom-in"))
    } else if key == 'o' {
        Some(String::from_str("gestos/gesto-zoom-out"))
    } else {
        None
    }
}

/// The state kept by the HID side: whether gestures steer the cursor, and
/// whether a grab is waiting for its drop.
#[derive(Clone, Copy, Debug, PartialEq, Eq, Structural)]
pub struct HidMode {
    pub cursor_mode: bool,
    pub grab_active: bool,
}

/// What the HID side does with one incoming action.
#[derive(Clone, Copy, Debug, PartialEq, Eq, Structural)]
pub enum HidCommand {
    /// The action is discarded.
    Ignore,
    /// Cursor mode was switched; `now_active` is the new mode. Nothing is sent.
    ToggleCursor { now_active: bool },
    /// The action is sent to the device, in the cursor mode given.
    Send { action: GestureAction, cursor_mode: bool },
}

/// Whether an action still reaches the device while cursor mode is on.
pub open spec fn passes_in_cursor_mode(action: GestureAction) -> bool {
    action == GestureAction::Grab || action == GestureAction::Drop || action
        == GestureAction::ZoomIn
}

/// One step of the HID side: the next state and the command for `action`.
pub open spec fn hid_transition(m: HidMode, action: GestureAction) -> (HidMode, HidCommand) {
    if m.cursor_mode && !passes_in_cursor_mode(action) {
        (m, HidCommand::Ignore)
    } else if action == GestureAction::Grab {
        (
            HidMode { grab_active: true, ..m },
            HidCommand::Send { action, cursor_mode: m.cursor_mode },
        )
    } else if action == GestureAction::Drop && !m.grab_active {
        (
            HidMode { cursor_mode: !m.cursor_mode, ..m },
            HidCommand::ToggleCursor { now_active: !m.cursor_mode },
        )
    } else if action == GestureAction::Drop {
        (
            HidMode { grab_active: false, ..m },
            HidCommand::Send { action, cursor_mode: m.cursor_mode },
        )
    } else {
        (m, HidCommand::Send { action, cursor_mode: m.cursor_mode })
    }
}

impl HidMode {
    /// The state at start-up: cursor mode off, no grab pending.
    pub fn new() -> (res: HidMode)
        ensures
            !res.cursor_mode,
            !res.grab_active,
    {
        HidMode { cursor_mode: false, grab_active: false }
    }

    /// Handles one action: updates the state and says what to do with it.
    pub fn step(&mut self, action: GestureAction) -> (cmd: HidCommand)
        ensures
            (*final(self), cmd) == hid_transition(*old(self), action),
    {
        let cursor_active = self.cursor_mode;
        let passes = match action {
            GestureAction::Grab | GestureAction::Drop | GestureAction::ZoomIn => true,
            _ => false,
        };
        if cursor_active && !passes {
            return HidCommand::Ignore;
        }
        match action {
            GestureAction::Grab => {
                self.grab_active = true;
            },
            GestureAction::Drop => {
                if !self.grab_active {
                    self.cursor_mode = !self.cursor_mode;
                    return HidCommand::ToggleCursor { now_active: self.cursor_mode };
                } else {
                    self.grab_active = false;
                }
            },
            _ => {},
        }
        HidCommand::Send { action, cursor_mode: cursor_active }
    }
}

/// While cursor mode is on, every action but grab, drop and zoom-in is
/// discarded and leaves the state as it was.
pub proof fn lemma_cursor_mode_filters(m: HidMode, action: GestureAction)
    requires
        m.cursor_mode,
        !passes_in_cursor_mode(action),
    ensures
        hid_transition(m, action) == (m, HidCommand::Ignore),
{
}

/// A sent action carries the cursor mode that was in force when it arrived,
/// and only a toggle changes the cursor mode.
pub proof fn lemma_sent_in_current_mode(m: HidMode, action: GestureAction)
    ensures
        hid_transition(m, action).1 matches HidCommand::Send { action: a, cursor_mode: c } ==> a
            == action && c == m.cursor_mode,
        hid_transition(m, action).0.cursor_mode != m.cursor_mode <==> hid_transition(
            m,
            action,
        ).1 is ToggleCursor,
{
}

/// An action is discarded exactly when cursor mode is on and the action is
/// neither grab, drop nor zoom-in; a pending grab has no say in it.
pub proof fn lemma_ignored_exactly(m: HidMode, action: GestureAction)
    ensures
        hid_transition(m, action).1 is Ignore <==> (m.cursor_mode && action != GestureAction::Grab
            && action != GestureAction::Drop && action != GestureAction::ZoomIn),
{
}

/// With cursor mode off, every action is sent as it came, in cursor mode
/// off, except a drop with no grab pending, which switches cursor mode on.
pub proof fn lemma_cursor_off_sends(m: HidMode, action: GestureAction)
    requires
        !m.cursor_mode,
    ensures
        action == GestureAction::Drop && !m.grab_active ==> hid_transition(m, action) == (
        HidMode { cursor_mode: true, grab_active: false }, HidCommand::ToggleCursor {
            now_active: true,
        }),
        !(action == GestureAction::Drop && !m.grab_active) ==> hid_transition(m, action).1 == (
        HidCommand::Send { action: action, cursor_mode: false }),
{
}

/// Only a grab or a drop changes the state; any other action leaves it as
/// it was, whether it is sent or discarded.
pub proof fn lemma_only_grab_and_drop_change_state(m: HidMode, action: GestureAction)
    requires
        action != GestureAction::Grab,
        action != GestureAction::Drop,
    ensures
        hid_transition(m, action).0 == m,
{
}

/// An unknown gesture is never dispatched, whatever the confidence.
pub proof fn lemma_unknown_never_dispatched(confident: bool)
    ensures
        dispatch_of("desconocido"@, confident) == Dispatch::Unknown,
{
}

/// A prediction below the confidence threshold is never dispatched: any
/// label other than the unknown one is reported as low confidence.
pub proof fn lemma_low_confidence_never_dispatched(canonical_label: Seq<char>)
    requires
        canonical_label != "desconocido"@,
    ensures
        dispatch_of(canonical_label, false) == Dispatch::LowConfidence,
{
}

/// A dispatched action comes from a confident prediction of a known gesture
/// and is the action its label names; a confident known label that names an
/// action is always dispatched.
pub proof fn lemma_dispatch_sends_label_action(canonical_label: Seq<char>, confident: bool)
    ensures
        dispatch_of(canonical_label, confident) matches Dispatch::Send(a) ==> confident
            && canonical_label != "desconocido"@ && action_of_label(canonical_label) == Some(a),
        confident && canonical_label != "desconocido"@ ==> (action_of_label(canonical_label)
            matches Some(a) ==> dispatch_of(canonical_label, confident) == Dispatch::Send(a)),
{
}

/// A drop with no grab pending toggles cursor mode and sends nothing; a
/// second such drop restores the state it started from.
pub proof fn lemma_drop_toggles_back(m: HidMode)
    requires
        !m.grab_active,
    ensures
        hid_transition(m, GestureAction::Drop).1 == (HidCommand::ToggleCursor {
            now_active: !m.cursor_mode,
        }),
        hid_transition(hid_transition(m, GestureAction::Drop).0, GestureAction::Drop).1 == (
        HidCommand::ToggleCursor { now_active: m.cursor_mode }),
        hid_transition(hid_transition(m, GestureAction::Drop).0, GestureAction::Drop).0 == m,
{
}

/// A grab is always sent; the drop after it is sent too, in the same cursor
/// mode, and clears the pending grab instead of toggling cursor mode.
pub proof fn lemma_grab_then_drop(m: HidMode)
    ensures
        hid_transition(m, GestureAction::Grab).1 == (HidCommand::Send {
            action: GestureAction::Grab,
            cursor_mode: m.cursor_mode,
        }),
        hid_transition(hid_transition(m, GestureAction::Grab).0, GestureAction::Drop).1 == (
        HidCommand::Send { action: GestureAction::Drop, cursor_mode: m.cursor_mode }),
        hid_transition(hid_transition(m, GestureAction::Grab).0, GestureAction::Drop).0 == (
        HidMode { cursor_mode: m.cursor_mode, grab_active: false }),
{
}

} // verus!
