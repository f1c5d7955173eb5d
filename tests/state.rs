use transform_gizmo::{GizmoMode, GizmoModes, GizmoState, ModeSelection, PointerState};

fn pointer(hovered: bool, drag_started: bool, dragging: bool) -> PointerState {
    PointerState { hovered, drag_started, dragging }
}

fn active_count(state: &GizmoState) -> usize {
    (0..state.len()).filter(|&i| state.status(i).active).count()
}

fn rotate_state() -> GizmoState {
    GizmoState::new(ModeSelection::new(GizmoMode::all_rotate(), None))
}

#[test]
fn new_state_has_idle_subgizmos() {
    let state = rotate_state();
    assert_eq!(state.len(), 4);
    assert_eq!(state.active_index(), None);
    assert!(!state.is_focused());
    assert_eq!(active_count(&state), 0);
    assert!((0..4).all(|i| state.is_drawn(i)));
}

#[test]
fn hover_focuses_nearest() {
    let mut state = rotate_state();
    assert!(state.begin_frame());
    assert_eq!(state.pick_targets(true), vec![0, 1, 2, 3]);
    let decision = state.interact(pointer(true, false, false), &vec![2, 0]);
    assert!(!decision.drag_started);
    assert_eq!(decision.update, None);
    assert!(state.is_focused());
    assert!(state.status(2).focused);
    assert!(!state.status(0).focused);
    assert_eq!(state.active_index(), None);
}

#[test]
fn unhovered_gizmo_picks_nothing() {
    let mut state = rotate_state();
    state.begin_frame();
    assert!(state.pick_targets(false).is_empty());
    let decision = state.interact(pointer(false, true, true), &vec![]);
    assert_eq!(decision.update, None);
    assert!(!state.is_focused());
}

#[test]
fn drag_lifecycle() {
    let mut state = rotate_state();
    state.begin_frame();
    let started = state.interact(pointer(true, true, true), &vec![1]);
    assert!(started.drag_started);
    assert_eq!(started.update, Some(1));
    assert_eq!(state.active_index(), Some(1));
    assert!(state.status(1).active && state.status(1).focused);
    assert!(state.is_drawn(1));
    assert!(!state.is_drawn(0));

    // While dragging, no picking happens and the same subgizmo updates.
    assert!(!state.begin_frame());
    assert!(state.pick_targets(true).is_empty());
    let moving = state.interact(pointer(true, false, true), &vec![]);
    assert!(!moving.drag_started);
    assert_eq!(moving.update, Some(1));
    assert_eq!(active_count(&state), 1);

    // Releasing ends the drag.
    state.begin_frame();
    let released = state.interact(pointer(true, false, false), &vec![]);
    assert_eq!(released.update, None);
    assert_eq!(state.active_index(), None);
    assert_eq!(active_count(&state), 0);
    assert!(!state.is_focused());
}

#[test]
fn at_most_one_active_over_a_sequence() {
    let mut state = GizmoState::new(ModeSelection::new(GizmoMode::all(), None));
    let frames = [
        (pointer(true, true, true), vec![3, 5]),
        (pointer(true, true, true), vec![5]),
        (pointer(true, false, false), vec![7]),
        (pointer(true, true, true), vec![7, 3]),
        (pointer(false, false, true), vec![]),
        (pointer(true, true, false), vec![0]),
    ];
    for (p, hits) in frames.iter() {
        state.begin_frame();
        state.interact(*p, hits);
        assert!(active_count(&state) <= 1);
    }
}

#[test]
fn idle_frames_change_nothing() {
    let mut state = rotate_state();
    for _ in 0..3 {
        state.begin_frame();
        let decision = state.interact(pointer(true, false, false), &vec![3]);
        assert_eq!(decision.update, None);
        assert!(!decision.drag_started);
        assert_eq!(state.active_index(), None);
        assert!(state.status(3).focused);
        assert_eq!(active_count(&state), 0);
    }
    for _ in 0..3 {
        state.begin_frame();
        let decision = state.interact(pointer(false, false, false), &vec![]);
        assert_eq!(decision.update, None);
        assert!(!state.is_focused());
    }
}

#[test]
fn mode_change_ends_drag() {
    let mut state = rotate_state();
    state.begin_frame();
    state.interact(pointer(true, true, true), &vec![0]);
    assert_eq!(state.active_index(), Some(0));

    state.update_modes(ModeSelection::new(GizmoMode::all_translate(), None));
    assert_eq!(state.active_index(), None);
    assert_eq!(active_count(&state), 0);
    assert_eq!(state.len(), 7);
}

#[test]
fn unchanged_modes_keep_drag() {
    let mut state = rotate_state();
    state.begin_frame();
    state.interact(pointer(true, true, true), &vec![2]);
    state.update_modes(ModeSelection::new(GizmoMode::all_rotate(), None));
    assert_eq!(state.active_index(), Some(2));
    assert_eq!(state.len(), 4);
}

#[test]
fn override_forces_first_subgizmo() {
    let mut state =
        GizmoState::new(ModeSelection::new(GizmoMode::all(), Some(GizmoMode::TranslateY)));
    assert_eq!(state.len(), 1);
    state.begin_frame();
    assert_eq!(state.pick_targets(true), vec![0]);
    // No hit and no button: the override still activates its subgizmo.
    let decision = state.interact(pointer(true, false, false), &vec![]);
    assert!(decision.drag_started);
    assert_eq!(decision.update, Some(0));
    assert_eq!(state.active_index(), Some(0));
}

#[test]
fn empty_mode_set_builds_nothing() {
    let mut state = GizmoState::new(ModeSelection::new(GizmoModes::empty(), None));
    assert_eq!(state.len(), 0);
    state.begin_frame();
    let decision = state.interact(pointer(true, true, true), &vec![]);
    assert_eq!(decision.update, None);
}
