//! Mode bookkeeping, subgizmo layout and interaction state of a 3D
//! transformation gizmo.
//!
//! - `modes`, `mode_set`: the gizmo modes, their kinds and axes, and sets
//!   of modes and of directions.
//! - `config`: orientation, pivot policy, and the selection of enabled modes
//!   with its optional override.
//! - `layout`: which subgizmos the enabled modes produce, in build order,
//!   and where axis arrows are placed.
//! - `state`: the per-frame interaction state machine that focuses, starts,
//!   updates and ends drags, with at most one subgizmo active.
//! - `draw`: composable triangle-list draw data.
//! - `hotkeys`: keyboard shortcuts that force a mode and limit it to axes.

mod config;
mod draw;
mod hotkeys;
mod layout;
mod mode_set;
mod modes;
mod state;

pub use config::{
    enabled_modes_spec, modes_changed_spec, GizmoOrientation, ModeSelection, TransformPivotPoint,
};
pub use draw::{can_append, rebased, GizmoDrawData};
pub use hotkeys::{
    default_mode, first_of_kind, handle_hotkeys, held_or, mode_for, next_axes, next_kind,
    next_override, pressed_axes, HotkeyInput, HotkeyState,
};
pub use layout::{
    arrow_counterpart, arrow_modes_overlapping, arrow_placement, arrow_placement_spec,
    arrows_overlap_spec, item_if, layout_spec, rotation_layout, scale_layout, scale_params,
    subgizmo_layout, translation_layout, translation_params, ArrowPlacement, SubGizmoParams,
    TransformKind,
};
pub use mode_set::{has_bit, GizmoDirections, GizmoModes};
pub use modes::{GizmoDirection, GizmoMode, GizmoModeKind, MODE_COUNT};
pub use state::{
    clear_focus, drag_stage, fresh_statuses, hits_in_range, interact_spec,
    lemma_idle_frame_is_stable, lemma_interact_preserves_well_formed, lemma_mode_change_ends_drag,
    lemma_single_active,
    pick_candidate, pick_stage, pick_targets_spec, update_modes_spec, FrameDecision, GizmoState,
    GizmoStateView, PointerState, SubGizmoStatus,
};
