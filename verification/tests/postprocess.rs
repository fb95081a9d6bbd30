use quiroscopio::postprocess::{
    apply_cpp_post_processing, decide_slide, decide_zoom, slide_correction,
    zoom_grab_drop_correction, SlideCue, SlideDecision, SlideEvidence, Trend, ZoomClass,
    ZoomEvidence,
};

fn slide_ev(yaw: Trend, roll: Trend, qx_not_below: bool) -> SlideEvidence {
    SlideEvidence {
        yaw,
        roll,
        qx_not_below,
        yaw_text: "12.5".to_string(),
        roll_text: "-0.7".to_string(),
        qx_text: "-0.301".to_string(),
    }
}

fn zoom_ev(stable: bool, yaw: Trend, roll: Trend) -> ZoomEvidence {
    ZoomEvidence {
        stable,
        yaw,
        roll,
        rotation_text: "0.0123".to_string(),
        yaw_text: "5.1".to_string(),
        roll_text: "-13.2".to_string(),
    }
}

#[test]
fn slide_decision_yaw_first() {
    assert_eq!(
        decide_slide(Trend::Up, Trend::Up, true),
        SlideDecision { to_right: true, cue: SlideCue::S1Yaw }
    );
    assert_eq!(
        decide_slide(Trend::Down, Trend::Down, false),
        SlideDecision { to_right: false, cue: SlideCue::S1Yaw }
    );
}

#[test]
fn slide_decision_roll_then_qx() {
    assert_eq!(
        decide_slide(Trend::Flat, Trend::Up, false),
        SlideDecision { to_right: false, cue: SlideCue::S0Roll }
    );
    assert_eq!(
        decide_slide(Trend::Flat, Trend::Down, true),
        SlideDecision { to_right: true, cue: SlideCue::S0Roll }
    );
    assert_eq!(
        decide_slide(Trend::Flat, Trend::Flat, true),
        SlideDecision { to_right: false, cue: SlideCue::Qx }
    );
    assert_eq!(
        decide_slide(Trend::Flat, Trend::Flat, false),
        SlideDecision { to_right: true, cue: SlideCue::Qx }
    );
}

#[test]
fn slide_confirms_matching_direction() {
    let o = slide_correction("gesto-slide-derecha", &slide_ev(Trend::Up, Trend::Flat, true)).unwrap();
    assert_eq!(o.canonical_label, "gesto-slide-derecha");
    assert_eq!(o.display_label, "gesto-slide-derecha [✓ s1_yaw=12.5°]");
}

#[test]
fn slide_corrects_opposite_direction() {
    let o = slide_correction("gesto-slide-derecha", &slide_ev(Trend::Flat, Trend::Up, true)).unwrap();
    assert_eq!(o.canonical_label, "gesto-slide-izquierda");
    assert_eq!(o.display_label, "gesto-slide-izquierda [CORREGIDO: s0_roll=-0.7°]");
}

#[test]
fn slide_appends_missing_direction() {
    let o = slide_correction("gesto-slide", &slide_ev(Trend::Flat, Trend::Flat, false)).unwrap();
    assert_eq!(o.canonical_label, "gesto-slide-derecha");
    assert_eq!(o.display_label, "gesto-slide-DERECHA [Δqx=-0.301]");
    let o = slide_correction("gesto-slide", &slide_ev(Trend::Down, Trend::Flat, false)).unwrap();
    assert_eq!(o.canonical_label, "gesto-slide-izquierda");
    assert_eq!(o.display_label, "gesto-slide-IZQUIERDA [s1_yaw=12.5°]");
}

#[test]
fn slide_matches_case_insensitively() {
    let o = slide_correction("Gesto-SLIDE-Izquierda", &slide_ev(Trend::Down, Trend::Flat, true)).unwrap();
    assert_eq!(o.canonical_label, "gesto-slide-izquierda");
    assert_eq!(o.display_label, "Gesto-SLIDE-Izquierda [✓ s1_yaw=12.5°]");
}

#[test]
fn slide_ignores_other_labels() {
    assert!(slide_correction("gesto-zoom-in", &slide_ev(Trend::Up, Trend::Up, true)).is_none());
    assert!(slide_correction("", &slide_ev(Trend::Up, Trend::Up, true)).is_none());
}

#[test]
fn zoom_decision_order() {
    assert_eq!(decide_zoom(true, Trend::Up, Trend::Up), Some(ZoomClass::ZoomIn));
    assert_eq!(decide_zoom(false, Trend::Up, Trend::Up), Some(ZoomClass::Grab));
    assert_eq!(decide_zoom(false, Trend::Down, Trend::Down), Some(ZoomClass::Drop));
    assert_eq!(decide_zoom(false, Trend::Flat, Trend::Up), Some(ZoomClass::Drop));
    assert_eq!(decide_zoom(false, Trend::Flat, Trend::Down), Some(ZoomClass::Grab));
    assert_eq!(decide_zoom(false, Trend::Flat, Trend::Flat), None);
}

#[test]
fn zoom_confirms_stable_zoom() {
    let o = zoom_grab_drop_correction("gesto-zoom-in", &zoom_ev(true, Trend::Flat, Trend::Flat)).unwrap();
    assert_eq!(o.canonical_label, "gesto-zoom-in");
    assert_eq!(o.display_label, "gesto-zoom-in [✓ rot_s3=0.0123 [ZOOM:meñique estable]]");
}

#[test]
fn zoom_corrects_grab_to_zoom() {
    let o = zoom_grab_drop_correction("gesto-grab", &zoom_ev(true, Trend::Down, Trend::Flat)).unwrap();
    assert_eq!(o.canonical_label, "gesto-zoom-in");
    assert_eq!(
        o.display_label,
        "gesto-zoom-in [CORREGIDO: rot_s3=0.0123 [ZOOM:meñique estable]]"
    );
}

#[test]
fn zoom_corrects_drop_to_grab_by_yaw() {
    let o = zoom_grab_drop_correction("gesto-drop", &zoom_ev(false, Trend::Up, Trend::Up)).unwrap();
    assert_eq!(o.canonical_label, "gesto-grab");
    assert_eq!(o.display_label, "gesto-grab [CORREGIDO: s3_yaw=5.1°]");
}

#[test]
fn zoom_corrects_by_roll() {
    let o = zoom_grab_drop_correction("gesto-grab", &zoom_ev(false, Trend::Flat, Trend::Up)).unwrap();
    assert_eq!(o.canonical_label, "gesto-drop");
    assert_eq!(o.display_label, "gesto-drop [CORREGIDO: s3_roll=-13.2°]");
}

#[test]
fn zoom_keeps_label_naming_class_in_other_case() {
    let o = zoom_grab_drop_correction("gesto-Grab", &zoom_ev(false, Trend::Up, Trend::Flat)).unwrap();
    assert_eq!(o.canonical_label, "gesto-Grab");
    assert_eq!(o.display_label, "gesto-Grab [✓ s3_yaw=5.1°]");
}

#[test]
fn zoom_ambiguous_or_unrelated_gives_nothing() {
    assert!(zoom_grab_drop_correction("gesto-grab", &zoom_ev(false, Trend::Flat, Trend::Flat)).is_none());
    assert!(zoom_grab_drop_correction("gesto-zoom-out", &zoom_ev(true, Trend::Up, Trend::Up)).is_none());
    assert!(zoom_grab_drop_correction("gesto-slide-derecha", &zoom_ev(true, Trend::Up, Trend::Up)).is_none());
}

#[test]
fn zoom_check_applies_to_capitalised_zoom() {
    let o = zoom_grab_drop_correction("Zoom", &zoom_ev(false, Trend::Down, Trend::Flat)).unwrap();
    assert_eq!(o.canonical_label, "gesto-drop");
}

#[test]
fn post_processing_short_window_unchanged() {
    let r = apply_cpp_post_processing(
        "gesto-slide-derecha",
        1,
        &slide_ev(Trend::Down, Trend::Flat, true),
        &zoom_ev(true, Trend::Flat, Trend::Flat),
    );
    assert_eq!(r.canonical_label, "gesto-slide-derecha");
    assert_eq!(r.display_label, "gesto-slide-derecha");
    let r = apply_cpp_post_processing(
        "gesto-grab",
        0,
        &slide_ev(Trend::Down, Trend::Flat, true),
        &zoom_ev(true, Trend::Flat, Trend::Flat),
    );
    assert_eq!(r.canonical_label, "gesto-grab");
}

#[test]
fn post_processing_zoom_overrides_slide() {
    let r = apply_cpp_post_processing(
        "slide-grab",
        40,
        &slide_ev(Trend::Up, Trend::Flat, true),
        &zoom_ev(false, Trend::Flat, Trend::Down),
    );
    assert_eq!(r.canonical_label, "slide-grab");
    assert_eq!(r.display_label, "slide-grab [✓ s3_roll=-13.2°]");
}

#[test]
fn post_processing_slide_only() {
    let r = apply_cpp_post_processing(
        "gesto-slide-izquierda",
        2,
        &slide_ev(Trend::Up, Trend::Flat, true),
        &zoom_ev(true, Trend::Flat, Trend::Flat),
    );
    assert_eq!(r.canonical_label, "gesto-slide-derecha");
    assert_eq!(r.display_label, "gesto-slide-derecha [CORREGIDO: s1_yaw=12.5°]");
}

#[test]
fn post_processing_neither_applies() {
    let r = apply_cpp_post_processing(
        "gesto-zoom-out",
        30,
        &slide_ev(Trend::Up, Trend::Flat, true),
        &zoom_ev(true, Trend::Flat, Trend::Flat),
    );
    assert_eq!(r.canonical_label, "gesto-zoom-out");
    assert_eq!(r.display_label, "gesto-zoom-out");
}
