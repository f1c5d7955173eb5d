use vstd::prelude::*;

use crate::mode_set::GizmoModes;
use crate::modes::GizmoMode;

verus! {

/// The point in space around which all rotations are centered.
#[derive(Debug, Clone, Copy, PartialEq, Eq, Structural, Hash)]
pub enum TransformPivotPoint {
    /// Pivot around the median point of targets
    MedianPoint,
    /// Pivot around each target's own origin
    IndividualOrigins,
}

impl Default for TransformPivotPoint {
    fn default() -> (r: TransformPivotPoint)
        ensures
            r == TransformPivotPoint::MedianPoint,
    {
        TransformPivotPoint::MedianPoint
    }
}

/// Orientation of a gizmo.
#[derive(Debug, Clone, Copy, PartialEq, Eq, Structural, Hash)]
pub enum GizmoOrientation {
    /// Transformation axes are aligned to world space.
    Global,
    /// Transformation axes are aligned to the last target's orientation.
    Local,
}

impl Default for GizmoOrientation {
    fn default() -> (r: GizmoOrientation)
        ensures
            r == GizmoOrientation::Global,
    {
        GizmoOrientation::Global
    }
}

/// Which modes a gizmo offers: the enabled set, and an optional single
/// mode that overrides it.
#[derive(Debug, Clone, Copy)]
pub struct ModeSelection {
    /// The gizmo's operation modes.
    pub modes: GizmoModes,
    /// If set, this mode is forced active and other modes are disabled
    pub mode_override: Option<GizmoMode>,
}

/// Whether going from selection `old` to selection `new` changes the modes
/// in use: the enabled set differs while no override is set, or the
/// override itself differs.
pub open spec fn modes_changed_spec(
    new_modes: Set<GizmoMode>,
    new_override: Option<GizmoMode>,
    old_modes: Set<GizmoMode>,
    old_override: Option<GizmoMode>,
) -> bool {
    (new_modes != old_modes && new_override is None) || new_override != old_override
}

/// The modes in use: the override alone when one is set, else the enabled set.
pub open spec fn enabled_modes_spec(
    modes: Set<GizmoMode>,
    mode_override: Option<GizmoMode>,
) -> Set<GizmoMode> {
    match mode_override {
        Some(m) => set![m],
        None => modes,
    }
}

impl ModeSelection {
    /// The selection with the given modes and override.
    pub fn new(modes: GizmoModes, mode_override: Option<GizmoMode>) -> (r: ModeSelection)
        ensures
            r.modes@ == modes@,
            r.mode_override == mode_override,
    {
        ModeSelection { modes, mode_override }
    }

    /// Whether the modes have changed, compared to given other selection
    pub fn modes_changed(&self, other: &ModeSelection) -> (r: bool)
        ensures
            r == modes_changed_spec(
                self.modes@,
                self.mode_override,
                other.modes@,
                other.mode_override,
            ),
    {
        let same_override = match (self.mode_override, other.mode_override) {
            (Some(a), Some(b)) => a == b,
            (None, None) => true,
            _ => false,
        };
        (self.modes != other.modes && self.mode_override.is_none()) || !same_override
    }

    /// Get all modes that are currently enabled
    pub fn enabled_modes(&self) -> (r: GizmoModes)
        ensures
            r@ == enabled_modes_spec(self.modes@, self.mode_override),
    {
        match self.mode_override {
            Some(m) => GizmoModes::only(m),
            None => self.modes,
        }
    }
}

} // verus!
