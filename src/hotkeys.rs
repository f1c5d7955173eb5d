use vstd::prelude::*;

use crate::mode_set::{GizmoDirections, GizmoModes};
use crate::modes::{GizmoDirection, GizmoMode, GizmoModeKind, MODE_COUNT};

verus! {

/// Keyboard and mouse state for one frame, read from the bound hotkeys.
#[derive(Debug, Clone, Copy, PartialEq, Eq, Structural, Default)]
pub struct HotkeyInput {
    /// Whether the snapping key is held; `None` when no key is bound.
    pub snapping_held: Option<bool>,
    /// Whether the accurate-mode key is held; `None` when no key is bound.
    pub accurate_held: Option<bool>,
    /// Whether the modifier that inverts an axis choice is held.
    pub invert_held: bool,
    /// Whether the X axis key was just pressed.
    pub x_pressed: bool,
    /// Whether the Y axis key was just pressed.
    pub y_pressed: bool,
    /// Whether the Z axis key was just pressed.
    pub z_pressed: bool,
    /// Whether the rotate key was just pressed.
    pub rotate_pressed: bool,
    /// Whether the translate key was just pressed.
    pub translate_pressed: bool,
    /// Whether the scale key was just pressed.
    pub scale_pressed: bool,
    /// Whether a deactivating click or the deactivate key came this frame.
    pub deactivate: bool,
}

/// The options that hotkeys change, and the axes chosen so far.
#[derive(Debug, Clone, Copy, PartialEq, Eq, Structural)]
pub struct HotkeyState {
    /// Whether transformations snap.
    pub snapping: bool,
    /// Whether snapping is twice as fine.
    pub accurate_mode: bool,
    /// The single mode forced by hotkeys, if any.
    pub mode_override: Option<GizmoMode>,
    /// The axes the forced mode is limited to.
    pub axes: GizmoDirections,
}

/// The axes an axis key asks for: its own axis, or the two others when the
/// invert modifier is held. When several axis keys come at once, Z wins
/// over Y and Y over X; with none, the set is empty.
pub open spec fn pressed_axes(input: HotkeyInput) -> Set<GizmoDirection> {
    if input.z_pressed {
        if input.invert_held {
            set![GizmoDirection::X, GizmoDirection::Y]
        } else {
            set![GizmoDirection::Z]
        }
    } else if input.y_pressed {
        if input.invert_held {
            set![GizmoDirection::X, GizmoDirection::Z]
        } else {
            set![GizmoDirection::Y]
        }
    } else if input.x_pressed {
        if input.invert_held {
            set![GizmoDirection::Y, GizmoDirection::Z]
        } else {
            set![GizmoDirection::X]
        }
    } else {
        Set::empty()
    }
}

/// The chosen axes after a frame: a new choice replaces the old one, and
/// choosing the same axes again clears them. Without a forced mode no axes
/// are kept.
pub open spec fn next_axes(
    axes: Set<GizmoDirection>,
    input: HotkeyInput,
    mode_override: Option<GizmoMode>,
) -> Set<GizmoDirection> {
    let chosen = pressed_axes(input);
    let replaced = if chosen != Set::<GizmoDirection>::empty() {
        if axes == chosen {
            Set::empty()
        } else {
            chosen
        }
    } else {
        axes
    };
    if mode_override is None {
        Set::empty()
    } else {
        replaced
    }
}

/// The mode kind to force: the rotate key toggles between axis rotation
/// and the arcball, the translate and scale keys pick their kind, and with
/// no key the kind of the current override stays.
pub open spec fn next_kind(input: HotkeyInput, mode_override: Option<GizmoMode>) -> Option<
    GizmoModeKind,
> {
    if input.rotate_pressed {
        if mode_override matches Some(m) && m.kind_spec() == GizmoModeKind::Rotate {
            Some(GizmoModeKind::Arcball)
        } else {
            Some(GizmoModeKind::Rotate)
        }
    } else if input.translate_pressed {
        Some(GizmoModeKind::Translate)
    } else if input.scale_pressed {
        Some(GizmoModeKind::Scale)
    } else {
        match mode_override {
            Some(m) => Some(m.kind_spec()),
            None => None,
        }
    }
}

/// The first mode, in declaration order from position `i` on, that is in
/// `modes` and of the given kind.
pub open spec fn first_of_kind(modes: Set<GizmoMode>, kind: GizmoModeKind, i: u32) -> Option<
    GizmoMode,
>
    decreases MODE_COUNT - i,
{
    if i >= MODE_COUNT {
        None
    } else {
        let m = GizmoMode::from_index_spec(i);
        if modes.contains(m) && m.kind_spec() == kind {
            Some(m)
        } else {
            first_of_kind(modes, kind, (i + 1) as u32)
        }
    }
}

/// The mode forced for a kind when no mode of that kind acts on the chosen axes.
pub open spec fn default_mode(kind: GizmoModeKind) -> GizmoMode {
    match kind {
        GizmoModeKind::Rotate => GizmoMode::RotateView,
        GizmoModeKind::Translate => GizmoMode::TranslateView,
        GizmoModeKind::Scale => GizmoMode::ScaleUniform,
        GizmoModeKind::Arcball => GizmoMode::Arcball,
    }
}

/// The mode of `kind` acting exactly on `axes`, the first in declaration
/// order, or the kind's default mode when there is none.
pub open spec fn mode_for(axes: Set<GizmoDirection>, kind: GizmoModeKind) -> GizmoMode {
    match first_of_kind(Set::new(|m: GizmoMode| m.axes_spec() == axes), kind, 0) {
        Some(m) => m,
        None => default_mode(kind),
    }
}

/// The forced mode after a frame: the mode for the chosen kind on the
/// chosen `axes`, or none after a deactivating click or key.
pub open spec fn next_override(
    axes: Set<GizmoDirection>,
    input: HotkeyInput,
    mode_override: Option<GizmoMode>,
) -> Option<GizmoMode> {
    if input.deactivate {
        None
    } else {
        match next_kind(input, mode_override) {
            Some(kind) => Some(mode_for(axes, kind)),
            None => None,
        }
    }
}

/// A held-key option: the key's state when a key is bound, else unchanged.
pub open spec fn held_or(held: Option<bool>, current: bool) -> bool {
    match held {
        Some(h) => h,
        None => current,
    }
}

fn find_first_of_kind(modes: &GizmoModes, kind: GizmoModeKind) -> (r: Option<GizmoMode>)
    ensures
        r == first_of_kind(modes@, kind, 0),
{
    let mut i: u32 = 0;
    while i < MODE_COUNT
        invariant
            i <= MODE_COUNT,
            first_of_kind(modes@, kind, 0) == first_of_kind(modes@, kind, i),
        decreases MODE_COUNT - i,
    {
        let m = GizmoMode::from_index(i);
        if modes.contains(m) && m.kind() == kind {
            return Some(m);
        }
        i = i + 1;
    }
    None
}

fn axes_of_keys(input: &HotkeyInput) -> (r: GizmoDirections)
    ensures
        r@ == pressed_axes(*input),
{
    let r = if input.z_pressed {
        if input.invert_held {
            GizmoDirections::new(true, true, false, false)
        } else {
            GizmoDirections::new(false, false, true, false)
        }
    } else if input.y_pressed {
        if input.invert_held {
            GizmoDirections::new(true, false, true, false)
        } else {
            GizmoDirections::new(false, true, false, false)
        }
    } else if input.x_pressed {
        if input.invert_held {
            GizmoDirections::new(false, true, true, false)
        } else {
            GizmoDirections::new(true, false, false, false)
        }
    } else {
        GizmoDirections::empty()
    };
    assert(r@ =~= pressed_axes(*input));
    r
}

/// Applies a frame's hotkeys: the snapping keys set the snapping options
/// while held, the axis keys choose or clear the axes, the mode keys choose
/// the forced mode kind, and the forced mode is the one of that kind acting
/// on the chosen axes. A deactivating click or key drops the forced mode.
pub fn handle_hotkeys(state: &mut HotkeyState, input: HotkeyInput)
    ensures
        final(state).snapping == held_or(input.snapping_held, old(state).snapping),
        final(state).accurate_mode == held_or(input.accurate_held, old(state).accurate_mode),
        final(state).axes@ == next_axes(old(state).axes@, input, old(state).mode_override),
        final(state).mode_override == next_override(
            final(state).axes@,
            input,
            old(state).mode_override,
        ),
{
    if let Some(held) = input.snapping_held {
        state.snapping = held;
    }
    if let Some(held) = input.accurate_held {
        state.accurate_mode = held;
    }
    let chosen = axes_of_keys(&input);
    proof {
        chosen.lemma_view_injective(state.axes);
    }
    if !chosen.is_empty() {
        if state.axes == chosen {
            state.axes = GizmoDirections::empty();
        } else {
            state.axes = chosen;
        }
    }
    if state.mode_override.is_none() {
        state.axes = GizmoDirections::empty();
    }
    assert(state.axes@ =~= next_axes(old(state).axes@, input, old(state).mode_override));
    let kind: Option<GizmoModeKind> = if input.rotate_pressed {
        match state.mode_override {
            Some(m) => if m.is_rotate() {
                Some(GizmoModeKind::Arcball)
            } else {
                Some(GizmoModeKind::Rotate)
            },
            None => Some(GizmoModeKind::Rotate),
        }
    } else if input.translate_pressed {
        Some(GizmoModeKind::Translate)
    } else if input.scale_pressed {
        Some(GizmoModeKind::Scale)
    } else {
        match state.mode_override {
            Some(m) => Some(m.kind()),
            None => None,
        }
    };
    let forced = match kind {
        Some(k) => {
            let candidates = GizmoMode::all_from_axes(state.axes);
            match find_first_of_kind(&candidates, k) {
                Some(m) => Some(m),
                None => Some(
                    match k {
                        GizmoModeKind::Rotate => GizmoMode::RotateView,
                        GizmoModeKind::Translate => GizmoMode::TranslateView,
                        GizmoModeKind::Scale => GizmoMode::ScaleUniform,
                        GizmoModeKind::Arcball => GizmoMode::Arcball,
                    },
                ),
            }
        },
        None => None,
    };
    state.mode_override = if input.deactivate {
        None
    } else {
        forced
    };
}

} // verus!
