//! Post-processing of a classifier label with the orientation cues of the
//! gesture window: slide direction, and zoom-in / grab / drop disambiguation.
//!
//! The cues arrive measured: each orientation change is reduced to a `Trend`
//! against its threshold, and each measured value to its printed text.
use vstd::prelude::*;
use crate::hid::{action_of_label, dispatch_of, Dispatch, GestureAction};
use crate::text::{contains, lowercase, seq_contains, seq_starts_with, to_lowercase};

verus! {

/// Where a measured change stands against a symmetric threshold `t`:
/// `Up` when it is at least `t`, `Down` when it is at most `-t`, else `Flat`.
#[derive(Clone, Copy, Debug, PartialEq, Eq, Structural)]
pub enum Trend {
    Up,
    Down,
    Flat,
}

/// The measurement that settled a slide's direction.
#[derive(Clone, Copy, Debug, PartialEq, Eq, Structural)]
pub enum SlideCue {
    /// The yaw change of sensor 1.
    S1Yaw,
    /// The roll change of sensor 0.
    S0Roll,
    /// The change of the `qx` component of sensor 0.
    Qx,
}

/// The direction of a slide, and the measurement that settled it.
#[derive(Clone, Copy, Debug, PartialEq, Eq, Structural)]
pub struct SlideDecision {
    pub to_right: bool,
    pub cue: SlideCue,
}

/// The slide cues of a window.
pub struct SlideEvidence {
    /// Yaw change of sensor 1 against 10.38 degrees.
    pub yaw: Trend,
    /// Roll change of sensor 0 against 0.62 degrees.
    pub roll: Trend,
    /// Whether the `qx` change of sensor 0 is at least -0.2228.
    pub qx_not_below: bool,
    /// The printed yaw change.
    pub yaw_text: String,
    /// The printed roll change.
    pub roll_text: String,
    /// The printed `qx` change.
    pub qx_text: String,
}

/// Yaw decides first (up: right), then roll (up: left), then `qx`
/// (not below its threshold: left).
pub open spec fn slide_decision(yaw: Trend, roll: Trend, qx_not_below: bool) -> SlideDecision {
    match yaw {
        Trend::Up => SlideDecision { to_right: true, cue: SlideCue::S1Yaw },
        Trend::Down => SlideDecision { to_right: false, cue: SlideCue::S1Yaw },
        Trend::Flat => match roll {
            Trend::Up => SlideDecision { to_right: false, cue: SlideCue::S0Roll },
            Trend::Down => SlideDecision { to_right: true, cue: SlideCue::S0Roll },
            Trend::Flat => SlideDecision { to_right: !qx_not_below, cue: SlideCue::Qx },
        },
    }
}

/// Decides the direction of a slide from its cues.
pub fn decide_slide(yaw: Trend, roll: Trend, qx_not_below: bool) -> (res: SlideDecision)
    ensures
        res == slide_decision(yaw, roll, qx_not_below),
{
    match yaw {
        Trend::Up => SlideDecision { to_right: true, cue: SlideCue::S1Yaw },
        Trend::Down => SlideDecision { to_right: false, cue: SlideCue::S1Yaw },
        Trend::Flat => match roll {
            Trend::Up => SlideDecision { to_right: false, cue: SlideCue::S0Roll },
            Trend::Down => SlideDecision { to_right: true, cue: SlideCue::S0Roll },
            Trend::Flat => SlideDecision { to_right: !qx_not_below, cue: SlideCue::Qx },
        },
    }
}

/// The note that names the measurement that settled a slide.
pub open spec fn slide_note(ev: SlideEvidence, cue: SlideCue) -> Seq<char> {
    match cue {
        SlideCue::S1Yaw => "s1_yaw="@ + ev.yaw_text@ + "°"@,
        SlideCue::S0Roll => "s0_roll="@ + ev.roll_text@ + "°"@,
        SlideCue::Qx => "Δqx="@ + ev.qx_text@,
    }
}

fn slide_note_text(ev: &SlideEvidence, cue: SlideCue) -> (res: String)
    ensures
        res@ == slide_note(*ev, cue),
{
    match cue {
        SlideCue::S1Yaw => String::from_str("s1_yaw=").concat(ev.yaw_text.as_str()).concat("°"),
        SlideCue::S0Roll => String::from_str("s0_roll=").concat(ev.roll_text.as_str()).concat(
            "°",
        ),
        SlideCue::Qx => String::from_str("Δqx=").concat(ev.qx_text.as_str()),
    }
}

/// The canonical label of a slide in the given direction.
pub open spec fn slide_label(to_right: bool) -> Seq<char> {
    if to_right {
        "gesto-slide-derecha"@
    } else {
        "gesto-slide-izquierda"@
    }
}

/// The corrected pair (canonical label, display label), as plain text.
pub type Outcome = (Seq<char>, Seq<char>);

/// A correction of a label: the label to act on and the label to show.
pub struct CorrectionOutcome {
    pub canonical_label: String,
    pub display_label: String,
}

/// The text of a correction, if there is one.
pub open spec fn outcome_text(o: Option<CorrectionOutcome>) -> Option<Outcome> {
    match o {
        Some(c) => Some((c.canonical_label@, c.display_label@)),
        None => None,
    }
}

/// The slide correction of `label`: none unless its lowercase form holds
/// "slide". The canonical label follows the decided direction. The display
/// label confirms `label` when it names the decided direction, shows the
/// correction when it names the other one, and otherwise appends the
/// direction to `label`.
pub open spec fn slide_correction_of(label: Seq<char>, ev: SlideEvidence) -> Option<Outcome> {
    let lower = lowercase(label);
    let d = slide_decision(ev.yaw, ev.roll, ev.qx_not_below);
    let note = slide_note(ev, d.cue);
    let canonical = slide_label(d.to_right);
    if !seq_contains(lower, "slide"@) {
        None
    } else if seq_contains(lower, "derecha"@) || seq_contains(lower, "izquierda"@) {
        if seq_contains(lower, "derecha"@) == d.to_right {
            Some((canonical, label + " [✓ "@ + note + "]"@))
        } else {
            Some((canonical, canonical + " [CORREGIDO: "@ + note + "]"@))
        }
    } else {
        let direction = if d.to_right {
            "DERECHA"@
        } else {
            "IZQUIERDA"@
        };
        Some((canonical, label + "-"@ + direction + " ["@ + note + "]"@))
    }
}

/// Corrects the direction of a slide label with the slide cues of its window.
pub fn slide_correction(label: &str, ev: &SlideEvidence) -> (res: Option<CorrectionOutcome>)
    ensures
        outcome_text(res) == slide_correction_of(label@, *ev),
{
    let lower = to_lowercase(label);
    if !contains(lower.as_str(), "slide") {
        return None;
    }
    let d = decide_slide(ev.yaw, ev.roll, ev.qx_not_below);
    let note = slide_note_text(ev, d.cue);
    let canonical = if d.to_right {
        String::from_str("gesto-slide-derecha")
    } else {
        String::from_str("gesto-slide-izquierda")
    };
    let names_right = contains(lower.as_str(), "derecha");
    let names_left = contains(lower.as_str(), "izquierda");
    let display = if names_right || names_left {
        if names_right == d.to_right {
            String::from_str(label).concat(" [✓ ").concat(note.as_str()).concat("]")
        } else {
            canonical.clone().concat(" [CORREGIDO: ").concat(note.as_str()).concat("]")
        }
    } else {
        let direction = if d.to_right {
            "DERECHA"
        } else {
            "IZQUIERDA"
        };
        String::from_str(label).concat("-").concat(direction).concat(" [").concat(
            note.as_str(),
        ).concat("]")
    };
    Some(CorrectionOutcome { canonical_label: canonical, display_label: display })
}

/// The gesture that the zoom / grab / drop check settles on.
#[derive(Clone, Copy, Debug, PartialEq, Eq, Structural)]
pub enum ZoomClass {
    ZoomIn,
    Grab,
    Drop,
}

/// The zoom / grab / drop cues of a window, all of sensor 3.
pub struct ZoomEvidence {
    /// Whether the mean rotation between consecutive frames is below 0.0348.
    pub stable: bool,
    /// Yaw change against 4.57 degrees.
    pub yaw: Trend,
    /// Roll change against 12.37 degrees.
    pub roll: Trend,
    /// The printed mean rotation.
    pub rotation_text: String,
    /// The printed yaw change.
    pub yaw_text: String,
    /// The printed roll change.
    pub roll_text: String,
}

/// A stable sensor means zoom-in; otherwise yaw decides (up: grab, down:
/// drop), then roll (up: drop, down: grab); with neither, nothing is settled.
pub open spec fn zoom_class(stable: bool, yaw: Trend, roll: Trend) -> Option<ZoomClass> {
    if stable {
        Some(ZoomClass::ZoomIn)
    } else {
        match yaw {
            Trend::Up => Some(ZoomClass::Grab),
            Trend::Down => Some(ZoomClass::Drop),
            Trend::Flat => match roll {
                Trend::Up => Some(ZoomClass::Drop),
                Trend::Down => Some(ZoomClass::Grab),
                Trend::Flat => None,
            },
        }
    }
}

/// Settles zoom-in, grab or drop from the cues, if they settle it.
pub fn decide_zoom(stable: bool, yaw: Trend, roll: Trend) -> (res: Option<ZoomClass>)
    ensures
        res == zoom_class(stable, yaw, roll),
{
    if stable {
        Some(ZoomClass::ZoomIn)
    } else {
        match yaw {
            Trend::Up => Some(ZoomClass::Grab),
            Trend::Down => Some(ZoomClass::Drop),
            Trend::Flat => match roll {
                Trend::Up => Some(ZoomClass::Drop),
                Trend::Down => Some(ZoomClass::Grab),
                Trend::Flat => None,
            },
        }
    }
}

/// The name of a zoom class inside gesture labels.
pub open spec fn zoom_class_name(c: ZoomClass) -> Seq<char> {
    match c {
        ZoomClass::ZoomIn => "zoom-in"@,
        ZoomClass::Grab => "grab"@,
        ZoomClass::Drop => "drop"@,
    }
}

fn zoom_class_text(c: ZoomClass) -> (res: &'static str)
    ensures
        res@ == zoom_class_name(c),
{
    match c {
        ZoomClass::ZoomIn => "zoom-in",
        ZoomClass::Grab => "grab",
        ZoomClass::Drop => "drop",
    }
}

/// The note that names the measurement that settled the class.
pub open spec fn zoom_note(ev: ZoomEvidence) -> Seq<char> {
    if ev.stable {
        "rot_s3="@ + ev.rotation_text@ + " [ZOOM:meñique estable]"@
    } else if ev.yaw != Trend::Flat {
        "s3_yaw="@ + ev.yaw_text@ + "°"@
    } else {
        "s3_roll="@ + ev.roll_text@ + "°"@
    }
}

fn zoom_note_text(ev: &ZoomEvidence) -> (res: String)
    ensures
        res@ == zoom_note(*ev),
{
    if ev.stable {
        String::from_str("rot_s3=").concat(ev.rotation_text.as_str()).concat(
            " [ZOOM:meñique estable]",
        )
    } else if ev.yaw != Trend::Flat {
        String::from_str("s3_yaw=").concat(ev.yaw_text.as_str()).concat("°")
    } else {
        String::from_str("s3_roll=").concat(ev.roll_text.as_str()).concat("°")
    }
}

/// Whether a label is one that the zoom / grab / drop check looks at.
pub open spec fn zoom_check_applies(label: Seq<char>) -> bool {
    ||| seq_contains(label, "zoom-in"@)
    ||| seq_contains(label, "zoom_in"@)
    ||| seq_contains(label, "Zoom"@)
    ||| seq_contains(label, "grab"@)
    ||| seq_contains(label, "Grab"@)
    ||| seq_contains(label, "drop"@)
    ||| seq_contains(label, "Drop"@)
}

/// The zoom / grab / drop correction of `label`: none unless the label is
/// one the check looks at and the cues settle a class. A label whose
/// lowercase form names the class is kept and confirmed; any other becomes
/// the canonical label of the class.
pub open spec fn zoom_correction_of(label: Seq<char>, ev: ZoomEvidence) -> Option<Outcome> {
    match zoom_class(ev.stable, ev.yaw, ev.roll) {
        None => None,
        Some(c) => if !zoom_check_applies(label) {
            None
        } else if seq_contains(lowercase(label), zoom_class_name(c)) {
            Some((label, label + " [✓ "@ + zoom_note(ev) + "]"@))
        } else {
            let target = "gesto-"@ + zoom_class_name(c);
            Some((target, target + " [CORREGIDO: "@ + zoom_note(ev) + "]"@))
        },
    }
}

/// Decides between zoom-in, grab and drop with the cues of sensor 3.
pub fn zoom_grab_drop_correction(label: &str, ev: &ZoomEvidence) -> (res: Option<
    CorrectionOutcome,
>)
    ensures
        outcome_text(res) == zoom_correction_of(label@, *ev),
{
    let applies = contains(label, "zoom-in") || contains(label, "zoom_in") || contains(
        label,
        "Zoom",
    ) || contains(label, "grab") || contains(label, "Grab") || contains(label, "drop")
        || contains(label, "Drop");
    if !applies {
        return None;
    }
    let class = match decide_zoom(ev.stable, ev.yaw, ev.roll) {
        Some(c) => c,
        None => {
            return None;
        },
    };
    let name = zoom_class_text(class);
    let note = zoom_note_text(ev);
    let lower = to_lowercase(label);
    if contains(lower.as_str(), name) {
        let display = String::from_str(label).concat(" [✓ ").concat(note.as_str()).concat("]");
        Some(CorrectionOutcome { canonical_label: String::from_str(label), display_label: display })
    } else {
        let target = String::from_str("gesto-").concat(name);
        let display = target.clone().concat(" [CORREGIDO: ").concat(note.as_str()).concat("]");
        Some(CorrectionOutcome { canonical_label: target, display_label: display })
    }
}

/// The two labels that post-processing hands on.
pub struct PostProcessResult {
    pub canonical_label: String,
    pub display_label: String,
}

/// Post-processing of `label` for a window of `window_len` frames: a window
/// of fewer than two frames leaves it as it is; otherwise the zoom / grab /
/// drop correction, where there is one, takes precedence over the slide
/// correction, and with neither the label stays as it is.
pub open spec fn post_processed(
    label: Seq<char>,
    window_len: nat,
    slide: SlideEvidence,
    zoom: ZoomEvidence,
) -> Outcome {
    if window_len < 2 {
        (label, label)
    } else {
        match zoom_correction_of(label, zoom) {
            Some(z) => z,
            None => match slide_correction_of(label, slide) {
                Some(s) => s,
                None => (label, label),
            },
        }
    }
}

/// Applies the slide and zoom / grab / drop corrections to a classifier label.
pub fn apply_cpp_post_processing(
    label: &str,
    window_len: usize,
    slide: &SlideEvidence,
    zoom: &ZoomEvidence,
) -> (res: PostProcessResult)
    ensures
        (res.canonical_label@, res.display_label@) == post_processed(
            label@,
            window_len as nat,
            *slide,
            *zoom,
        ),
{
    let mut canonical_label = String::from_str(label);
    let mut display_label = String::from_str(label);
    if window_len < 2 {
        return PostProcessResult { canonical_label, display_label };
    }
    if let Some(fix) = slide_correction(label, slide) {
        canonical_label = fix.canonical_label;
        display_label = fix.display_label;
    }
    if let Some(fix) = zoom_grab_drop_correction(label, zoom) {
        canonical_label = fix.canonical_label;
        display_label = fix.display_label;
    }
    PostProcessResult { canonical_label, display_label }
}

/// Yaw settles a slide first: whenever it moved past its threshold, the
/// direction is right for an upward change and left for a downward one,
/// whatever roll and `qx` say.
pub proof fn lemma_yaw_settles_slide(yaw: Trend, roll: Trend, qx_not_below: bool)
    requires
        yaw != Trend::Flat,
    ensures
        slide_decision(yaw, roll, qx_not_below).to_right == (yaw == Trend::Up),
        slide_decision(yaw, roll, qx_not_below).cue == SlideCue::S1Yaw,
{
}

/// With yaw flat, roll settles a slide with the opposite sense: an upward
/// roll means left and a downward roll means right, whatever `qx` says.
pub proof fn lemma_roll_settles_slide(roll: Trend, qx_not_below: bool)
    requires
        roll != Trend::Flat,
    ensures
        slide_decision(Trend::Flat, roll, qx_not_below).to_right == (roll == Trend::Down),
        slide_decision(Trend::Flat, roll, qx_not_below).cue == SlideCue::S0Roll,
{
}

/// With yaw and roll flat, the slide goes right exactly when `qx` fell
/// below its threshold.
pub proof fn lemma_qx_settles_slide(qx_not_below: bool)
    ensures
        slide_decision(Trend::Flat, Trend::Flat, qx_not_below).to_right == !qx_not_below,
        slide_decision(Trend::Flat, Trend::Flat, qx_not_below).cue == SlideCue::Qx,
{
}

/// A label whose lowercase form holds "slide" is always corrected, to the
/// right-hand slide exactly when the cues decide right; any other label is
/// left to the other checks.
pub proof fn lemma_slide_correction_direction(label: Seq<char>, ev: SlideEvidence)
    ensures
        seq_contains(lowercase(label), "slide"@) ==> (slide_correction_of(label, ev) matches Some(
            o,
        ) && (o.0 == "gesto-slide-derecha"@ <==> slide_decision(
            ev.yaw,
            ev.roll,
            ev.qx_not_below,
        ).to_right) && (o.0 == "gesto-slide-derecha"@ || o.0 == "gesto-slide-izquierda"@)),
        !seq_contains(lowercase(label), "slide"@) ==> slide_correction_of(label, ev) is None,
{
    reveal_strlit("gesto-slide-derecha");
    reveal_strlit("gesto-slide-izquierda");
    assert("gesto-slide-derecha"@.len() != "gesto-slide-izquierda"@.len());
}

/// The display label of a slide correction: a label that names the decided
/// direction is confirmed, one that names the other direction is shown
/// corrected to the canonical label, and one that names no direction gets
/// the decided direction appended.
pub proof fn lemma_slide_display(label: Seq<char>, ev: SlideEvidence)
    requires
        seq_contains(lowercase(label), "slide"@),
    ensures
        ({
            let lower = lowercase(label);
            let d = slide_decision(ev.yaw, ev.roll, ev.qx_not_below);
            let note = slide_note(ev, d.cue);
            let names_right = seq_contains(lower, "derecha"@);
            let names_left = seq_contains(lower, "izquierda"@);
            &&& (names_right || names_left) && names_right == d.to_right ==> slide_correction_of(
                label,
                ev,
            ) == Some((slide_label(d.to_right), label + " [✓ "@ + note + "]"@))
            &&& (names_right || names_left) && names_right != d.to_right ==> slide_correction_of(
                label,
                ev,
            ) == Some(
                (
                    slide_label(d.to_right),
                    slide_label(d.to_right) + " [CORREGIDO: "@ + note + "]"@,
                ),
            )
            &&& !names_right && !names_left && d.to_right ==> slide_correction_of(label, ev)
                == Some(("gesto-slide-derecha"@, label + "-DERECHA ["@ + note + "]"@))
            &&& !names_right && !names_left && !d.to_right ==> slide_correction_of(label, ev)
                == Some(("gesto-slide-izquierda"@, label + "-IZQUIERDA ["@ + note + "]"@))
        }),
{
    reveal_strlit("-");
    reveal_strlit("DERECHA");
    reveal_strlit("IZQUIERDA");
    reveal_strlit(" [");
    reveal_strlit("-DERECHA [");
    reveal_strlit("-IZQUIERDA [");
    assert("-"@ + "DERECHA"@ + " ["@ =~= "-DERECHA ["@);
    assert("-"@ + "IZQUIERDA"@ + " ["@ =~= "-IZQUIERDA ["@);
    let lower = lowercase(label);
    let d = slide_decision(ev.yaw, ev.roll, ev.qx_not_below);
    let note = slide_note(ev, d.cue);
    assert(label + "-"@ + "DERECHA"@ + " ["@ + note + "]"@ =~= label + "-DERECHA ["@ + note
        + "]"@);
    assert(label + "-"@ + "IZQUIERDA"@ + " ["@ + note + "]"@ =~= label + "-IZQUIERDA ["@ + note
        + "]"@);
}

/// A stable sensor settles zoom-in; otherwise an upward yaw settles grab and
/// a downward one drop; with yaw flat, an upward roll settles drop and a
/// downward one grab; with everything flat, nothing is settled.
pub proof fn lemma_zoom_class_cues(stable: bool, yaw: Trend, roll: Trend)
    ensures
        stable ==> zoom_class(stable, yaw, roll) == Some(ZoomClass::ZoomIn),
        !stable && yaw == Trend::Up ==> zoom_class(stable, yaw, roll) == Some(ZoomClass::Grab),
        !stable && yaw == Trend::Down ==> zoom_class(stable, yaw, roll) == Some(ZoomClass::Drop),
        !stable && yaw == Trend::Flat && roll == Trend::Up ==> zoom_class(stable, yaw, roll)
            == Some(ZoomClass::Drop),
        !stable && yaw == Trend::Flat && roll == Trend::Down ==> zoom_class(stable, yaw, roll)
            == Some(ZoomClass::Grab),
        zoom_class(stable, yaw, roll) is None <==> (!stable && yaw == Trend::Flat && roll
            == Trend::Flat),
{
}

/// When the zoom / grab / drop check applies and the cues settle a class
/// that the lowercase label does not name, the label is replaced by
/// "gesto-" and the class's name, and the display shows the correction.
pub proof fn lemma_zoom_rewrites_other_class(label: Seq<char>, ev: ZoomEvidence, c: ZoomClass)
    requires
        zoom_check_applies(label),
        zoom_class(ev.stable, ev.yaw, ev.roll) == Some(c),
        !seq_contains(lowercase(label), zoom_class_name(c)),
    ensures
        zoom_correction_of(label, ev) matches Some(o) && o.0 == "gesto-"@ + zoom_class_name(c)
            && o.1 == "gesto-"@ + zoom_class_name(c) + " [CORREGIDO: "@ + zoom_note(ev) + "]"@,
        zoom_correction_of(label, ev) matches Some(o) && action_of_label(o.0) == Some(
            zoom_class_action(c),
        ),
{
    lemma_zoom_label_action(c);
}

/// When the zoom / grab / drop check applies and the lowercase label names
/// the settled class, the label is kept and confirmed.
pub proof fn lemma_zoom_keeps_named_class(label: Seq<char>, ev: ZoomEvidence, c: ZoomClass)
    requires
        zoom_check_applies(label),
        zoom_class(ev.stable, ev.yaw, ev.roll) == Some(c),
        seq_contains(lowercase(label), zoom_class_name(c)),
    ensures
        zoom_correction_of(label, ev) == Some((label, label + " [✓ "@ + zoom_note(ev) + "]"@)),
{
}

/// The zoom / grab / drop check gives nothing for a label it does not look
/// at, or when the cues settle no class.
pub proof fn lemma_zoom_no_correction(label: Seq<char>, ev: ZoomEvidence)
    ensures
        !zoom_check_applies(label) ==> zoom_correction_of(label, ev) is None,
        (!ev.stable && ev.yaw == Trend::Flat && ev.roll == Trend::Flat) ==> zoom_correction_of(
            label,
            ev,
        ) is None,
{
}

/// A window of fewer than two frames leaves the label as it is.
pub proof fn lemma_short_window_keeps_label(
    label: Seq<char>,
    window_len: nat,
    slide: SlideEvidence,
    zoom: ZoomEvidence,
)
    requires
        window_len < 2,
    ensures
        post_processed(label, window_len, slide, zoom) == (label, label),
{
}

/// On a window of two or more frames, a zoom / grab / drop correction is
/// handed on as it is; without one, a slide correction is; with neither,
/// both labels are the input label unchanged.
pub proof fn lemma_post_processing_precedence(
    label: Seq<char>,
    window_len: nat,
    slide: SlideEvidence,
    zoom: ZoomEvidence,
)
    requires
        window_len >= 2,
    ensures
        zoom_correction_of(label, zoom) matches Some(z) ==> post_processed(
            label,
            window_len,
            slide,
            zoom,
        ) == z,
        zoom_correction_of(label, zoom) is None ==> (slide_correction_of(label, slide) matches Some(
            s,
        ) ==> post_processed(label, window_len, slide, zoom) == s),
        zoom_correction_of(label, zoom) is None && slide_correction_of(label, slide) is None
            ==> post_processed(label, window_len, slide, zoom) == (label, label),
{
}

/// On a window of two or more frames, a label without "slide" in its
/// lowercase form keeps both labels unchanged when the zoom cues settle
/// nothing or the zoom / grab / drop check does not look at it.
pub proof fn lemma_uncorrected_label_kept(
    label: Seq<char>,
    window_len: nat,
    slide: SlideEvidence,
    zoom: ZoomEvidence,
)
    requires
        window_len >= 2,
        !seq_contains(lowercase(label), "slide"@),
        (!zoom.stable && zoom.yaw == Trend::Flat && zoom.roll == Trend::Flat) || !zoom_check_applies(
            label,
        ),
    ensures
        post_processed(label, window_len, slide, zoom) == (label, label),
{
}

/// The action of a slide in the given direction.
pub open spec fn slide_action(to_right: bool) -> GestureAction {
    if to_right {
        GestureAction::SlideDer
    } else {
        GestureAction::SlideIzq
    }
}

/// The action of a zoom class.
pub open spec fn zoom_class_action(c: ZoomClass) -> GestureAction {
    match c {
        ZoomClass::ZoomIn => GestureAction::ZoomIn,
        ZoomClass::Grab => GestureAction::Grab,
        ZoomClass::Drop => GestureAction::Drop,
    }
}

proof fn lemma_starts_with_itself(s: Seq<char>)
    ensures
        seq_starts_with(s, s),
{
    assert(s.subrange(0, s.len() as int) =~= s);
}

proof fn lemma_differs_at(s: Seq<char>, p: Seq<char>, i: int)
    requires
        0 <= i < p.len(),
        i < s.len(),
        s[i] != p[i],
    ensures
        !seq_starts_with(s, p),
{
    if p.len() <= s.len() {
        assert(s.subrange(0, p.len() as int)[i] != p[i]);
    }
}

/// The canonical label of a slide names the action of its direction.
pub proof fn lemma_slide_label_action(to_right: bool)
    ensures
        action_of_label(slide_label(to_right)) == Some(slide_action(to_right)),
        slide_label(to_right) != "desconocido"@,
{
    reveal_strlit("gesto-slide-derecha");
    reveal_strlit("gesto-slide-izquierda");
    reveal_strlit("desconocido");
    if to_right {
        lemma_starts_with_itself("gesto-slide-derecha"@);
    } else {
        lemma_differs_at("gesto-slide-izquierda"@, "gesto-slide-derecha"@, 12);
        lemma_starts_with_itself("gesto-slide-izquierda"@);
    }
}

/// The canonical label of a zoom class names the class's action.
pub proof fn lemma_zoom_label_action(c: ZoomClass)
    ensures
        action_of_label("gesto-"@ + zoom_class_name(c)) == Some(zoom_class_action(c)),
        "gesto-"@ + zoom_class_name(c) != "desconocido"@,
{
    reveal_strlit("gesto-");
    reveal_strlit("zoom-in");
    reveal_strlit("grab");
    reveal_strlit("drop");
    reveal_strlit("gesto-slide-derecha");
    reveal_strlit("gesto-slide-izquierda");
    reveal_strlit("gesto-zoom-in");
    reveal_strlit("gesto-zoom-out");
    reveal_strlit("gesto-grab");
    reveal_strlit("gesto-drop");
    reveal_strlit("desconocido");
    let t = "gesto-"@ + zoom_class_name(c);
    assert(t[0] == 'g');
    match c {
        ZoomClass::ZoomIn => {
            assert(t =~= "gesto-zoom-in"@);
            lemma_differs_at(t, "gesto-slide-derecha"@, 6);
            lemma_differs_at(t, "gesto-slide-izquierda"@, 6);
            lemma_starts_with_itself(t);
        },
        ZoomClass::Grab => {
            assert(t =~= "gesto-grab"@);
            lemma_differs_at(t, "gesto-slide-derecha"@, 6);
            lemma_differs_at(t, "gesto-slide-izquierda"@, 6);
            lemma_differs_at(t, "gesto-zoom-in"@, 6);
            lemma_differs_at(t, "gesto-zoom-out"@, 6);
            lemma_starts_with_itself(t);
        },
        ZoomClass::Drop => {
            assert(t =~= "gesto-drop"@);
            lemma_differs_at(t, "gesto-slide-derecha"@, 6);
            lemma_differs_at(t, "gesto-slide-izquierda"@, 6);
            lemma_differs_at(t, "gesto-zoom-in"@, 6);
            lemma_differs_at(t, "gesto-zoom-out"@, 6);
            lemma_differs_at(t, "gesto-grab"@, 6);
            lemma_starts_with_itself(t);
        },
    }
}

/// A slide correction always hands on the canonical label of the decided
/// direction, and that label triggers the slide of that direction.
pub proof fn lemma_slide_correction_action(label: Seq<char>, ev: SlideEvidence)
    ensures
        slide_correction_of(label, ev) matches Some(o) ==> action_of_label(o.0) == Some(
            slide_action(slide_decision(ev.yaw, ev.roll, ev.qx_not_below).to_right),
        ),
{
    lemma_slide_label_action(slide_decision(ev.yaw, ev.roll, ev.qx_not_below).to_right);
}

/// A zoom / grab / drop correction either keeps the label, when it already
/// names the settled class, or replaces it by a label that triggers the
/// settled class's action.
pub proof fn lemma_zoom_correction_action(label: Seq<char>, ev: ZoomEvidence)
    ensures
        zoom_correction_of(label, ev) matches Some(o) ==> (o.0 == label || (zoom_class(
            ev.stable,
            ev.yaw,
            ev.roll,
        ) matches Some(k) && action_of_label(o.0) == Some(zoom_class_action(k)))),
{
    if let Some(k) = zoom_class(ev.stable, ev.yaw, ev.roll) {
        lemma_zoom_label_action(k);
    }
}

/// When only the slide check corrects a confidently predicted label, the
/// prediction is dispatched as the slide of the decided direction.
pub proof fn lemma_slide_prediction_dispatch(
    label: Seq<char>,
    window_len: nat,
    slide: SlideEvidence,
    zoom: ZoomEvidence,
)
    requires
        window_len >= 2,
        zoom_correction_of(label, zoom) is None,
        slide_correction_of(label, slide) is Some,
    ensures
        dispatch_of(post_processed(label, window_len, slide, zoom).0, true) == Dispatch::Send(
            slide_action(slide_decision(slide.yaw, slide.roll, slide.qx_not_below).to_right),
        ),
{
    lemma_slide_label_action(slide_decision(slide.yaw, slide.roll, slide.qx_not_below).to_right);
}

/// When the zoom / grab / drop check rewrites a confidently predicted label,
/// the prediction is dispatched as the settled class's action.
pub proof fn lemma_zoom_prediction_dispatch(
    label: Seq<char>,
    window_len: nat,
    slide: SlideEvidence,
    zoom: ZoomEvidence,
)
    requires
        window_len >= 2,
        zoom_correction_of(label, zoom) matches Some(o) && o.0 != label,
    ensures
        zoom_class(zoom.stable, zoom.yaw, zoom.roll) matches Some(k) && dispatch_of(
            post_processed(label, window_len, slide, zoom).0,
            true,
        ) == Dispatch::Send(zoom_class_action(k)),
{
    let k = zoom_class(zoom.stable, zoom.yaw, zoom.roll)->0;
    lemma_zoom_label_action(k);
}

} // verus!
