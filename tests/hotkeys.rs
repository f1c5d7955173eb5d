use transform_gizmo::{
    handle_hotkeys, GizmoDirection, GizmoDirections, GizmoMode, HotkeyInput, HotkeyState,
};

fn idle() -> HotkeyState {
    HotkeyState {
        snapping: false,
        accurate_mode: false,
        mode_override: None,
        axes: GizmoDirections::empty(),
    }
}

#[test]
fn snapping_follows_held_keys() {
    let mut state = idle();
    handle_hotkeys(&mut state, HotkeyInput { snapping_held: Some(true), ..Default::default() });
    assert!(state.snapping);
    assert!(!state.accurate_mode);
    handle_hotkeys(&mut state, HotkeyInput { accurate_held: Some(true), ..Default::default() });
    assert!(state.snapping);
    assert!(state.accurate_mode);
    handle_hotkeys(&mut state, HotkeyInput { snapping_held: Some(false), ..Default::default() });
    assert!(!state.snapping);
}

#[test]
fn mode_keys_force_view_modes() {
    let mut state = idle();
    handle_hotkeys(&mut state, HotkeyInput { translate_pressed: true, ..Default::default() });
    assert_eq!(state.mode_override, Some(GizmoMode::TranslateView));
    handle_hotkeys(&mut state, HotkeyInput { scale_pressed: true, ..Default::default() });
    assert_eq!(state.mode_override, Some(GizmoMode::ScaleUniform));
    handle_hotkeys(&mut state, HotkeyInput::default());
    assert_eq!(state.mode_override, Some(GizmoMode::ScaleUniform));
}

#[test]
fn rotate_key_toggles_arcball() {
    let mut state = idle();
    handle_hotkeys(&mut state, HotkeyInput { rotate_pressed: true, ..Default::default() });
    assert_eq!(state.mode_override, Some(GizmoMode::RotateView));
    handle_hotkeys(&mut state, HotkeyInput { rotate_pressed: true, ..Default::default() });
    assert_eq!(state.mode_override, Some(GizmoMode::Arcball));
    handle_hotkeys(&mut state, HotkeyInput { rotate_pressed: true, ..Default::default() });
    assert_eq!(state.mode_override, Some(GizmoMode::RotateView));
}

#[test]
fn axis_keys_limit_forced_mode() {
    let mut state = idle();
    // Without a forced mode, axis keys are ignored.
    handle_hotkeys(&mut state, HotkeyInput { x_pressed: true, ..Default::default() });
    assert!(state.axes.is_empty());
    assert_eq!(state.mode_override, None);

    handle_hotkeys(&mut state, HotkeyInput { translate_pressed: true, ..Default::default() });
    handle_hotkeys(&mut state, HotkeyInput { x_pressed: true, ..Default::default() });
    assert!(state.axes.contains(GizmoDirection::X));
    assert_eq!(state.mode_override, Some(GizmoMode::TranslateX));

    // Inverted Z picks the XY plane.
    handle_hotkeys(
        &mut state,
        HotkeyInput { z_pressed: true, invert_held: true, ..Default::default() },
    );
    assert_eq!(state.mode_override, Some(GizmoMode::TranslateXY));

    // Choosing the same axes again clears them.
    handle_hotkeys(
        &mut state,
        HotkeyInput { z_pressed: true, invert_held: true, ..Default::default() },
    );
    assert!(state.axes.is_empty());
    assert_eq!(state.mode_override, Some(GizmoMode::TranslateView));

    // Rotation has no plane modes: the view rotation is the fallback.
    handle_hotkeys(&mut state, HotkeyInput { y_pressed: true, ..Default::default() });
    handle_hotkeys(&mut state, HotkeyInput { rotate_pressed: true, ..Default::default() });
    assert_eq!(state.mode_override, Some(GizmoMode::RotateY));
    handle_hotkeys(
        &mut state,
        HotkeyInput { x_pressed: true, invert_held: true, ..Default::default() },
    );
    assert_eq!(state.mode_override, Some(GizmoMode::RotateView));
}

#[test]
fn deactivate_drops_forced_mode() {
    let mut state = idle();
    handle_hotkeys(&mut state, HotkeyInput { scale_pressed: true, ..Default::default() });
    handle_hotkeys(
        &mut state,
        HotkeyInput { scale_pressed: true, deactivate: true, ..Default::default() },
    );
    assert_eq!(state.mode_override, None);
}
