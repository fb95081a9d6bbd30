use quiroscopio::hid::{
    decide_dispatch, folder_for_key, map_label_to_action, Dispatch, GestureAction, HidCommand,
    HidMode,
};

#[test]
fn labels_map_to_actions() {
    assert_eq!(map_label_to_action("gesto-slide-derecha"), Some(GestureAction::SlideDer));
    assert_eq!(map_label_to_action("gesto-slide-izquierda"), Some(GestureAction::SlideIzq));
    assert_eq!(map_label_to_action("gesto-zoom-in"), Some(GestureAction::ZoomIn));
    assert_eq!(map_label_to_action("gesto-zoom-out"), Some(GestureAction::ZoomOut));
    assert_eq!(map_label_to_action("gesto-grab"), Some(GestureAction::Grab));
    assert_eq!(map_label_to_action("gesto-drop"), Some(GestureAction::Drop));
}

#[test]
fn labels_map_by_prefix() {
    assert_eq!(map_label_to_action("gesto-grab [✓ s3_yaw=5°]"), Some(GestureAction::Grab));
    assert_eq!(map_label_to_action("gesto-slide-derecha2"), Some(GestureAction::SlideDer));
    assert_eq!(map_label_to_action("x-gesto-grab"), None);
    assert_eq!(map_label_to_action("gesto-slide"), None);
    assert_eq!(map_label_to_action("Gesto-grab"), None);
    assert_eq!(map_label_to_action(""), None);
}

#[test]
fn dispatch_rules() {
    assert_eq!(decide_dispatch("desconocido", true), Dispatch::Unknown);
    assert_eq!(decide_dispatch("desconocido", false), Dispatch::Unknown);
    assert_eq!(decide_dispatch("gesto-grab", false), Dispatch::LowConfidence);
    assert_eq!(decide_dispatch("gesto-raro", true), Dispatch::Unmapped);
    assert_eq!(decide_dispatch("gesto-zoom-out", true), Dispatch::Send(GestureAction::ZoomOut));
    assert_eq!(decide_dispatch("desconocido-2", true), Dispatch::Unmapped);
}

#[test]
fn key_folders() {
    assert_eq!(folder_for_key('d').as_deref(), Some("gestos/gesto-drop"));
    assert_eq!(folder_for_key('g').as_deref(), Some("gestos/gesto-grab"));
    assert_eq!(folder_for_key('r').as_deref(), Some("gestos/gesto-slide-derecha"));
    assert_eq!(folder_for_key('l').as_deref(), Some("gestos/gesto-slide-izquierda"));
    assert_eq!(folder_for_key('i').as_deref(), Some("gestos/gesto-zoom-in"));
    assert_eq!(folder_for_key('o').as_deref(), Some("gestos/gesto-zoom-out"));
    assert_eq!(folder_for_key('q'), None);
}

#[test]
fn hid_starts_idle() {
    let m = HidMode::new();
    assert!(!m.cursor_mode);
    assert!(!m.grab_active);
}

#[test]
fn hid_forwards_outside_cursor_mode() {
    let mut m = HidMode::new();
    assert_eq!(
        m.step(GestureAction::SlideIzq),
        HidCommand::Send { action: GestureAction::SlideIzq, cursor_mode: false }
    );
    assert_eq!(m, HidMode::new());
}

#[test]
fn hid_drop_without_grab_toggles_twice_back() {
    let mut m = HidMode::new();
    assert_eq!(m.step(GestureAction::Drop), HidCommand::ToggleCursor { now_active: true });
    assert!(m.cursor_mode);
    assert_eq!(m.step(GestureAction::Drop), HidCommand::ToggleCursor { now_active: false });
    assert_eq!(m, HidMode::new());
}

#[test]
fn hid_cursor_mode_filters_actions() {
    let mut m = HidMode { cursor_mode: true, grab_active: false };
    for a in [GestureAction::SlideDer, GestureAction::SlideIzq, GestureAction::ZoomOut] {
        assert_eq!(m.step(a), HidCommand::Ignore);
        assert_eq!(m, HidMode { cursor_mode: true, grab_active: false });
    }
    assert_eq!(
        m.step(GestureAction::ZoomIn),
        HidCommand::Send { action: GestureAction::ZoomIn, cursor_mode: true }
    );
}

#[test]
fn hid_grab_then_drop_in_cursor_mode() {
    let mut m = HidMode { cursor_mode: true, grab_active: false };
    assert_eq!(
        m.step(GestureAction::Grab),
        HidCommand::Send { action: GestureAction::Grab, cursor_mode: true }
    );
    assert!(m.grab_active);
    assert_eq!(
        m.step(GestureAction::Drop),
        HidCommand::Send { action: GestureAction::Drop, cursor_mode: true }
    );
    assert_eq!(m, HidMode { cursor_mode: true, grab_active: false });
}
