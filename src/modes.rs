use vstd::prelude::*;

verus! {

/// Operation mode of a gizmo.
#[derive(Debug, Clone, Copy, PartialEq, Eq, Structural, Hash)]
pub enum GizmoMode {
    /// Rotate around the X axis
    RotateX,
    /// Rotate around the Y axis
    RotateY,
    /// Rotate around the Z axis
    RotateZ,
    /// Rotate around the view forward axis
    RotateView,
    /// Translate along the X axis
    TranslateX,
    /// Translate along the Y axis
    TranslateY,
    /// Translate along the Z axis
    TranslateZ,
    /// Translate along the XY plane
    TranslateXY,
    /// Translate along the XZ plane
    TranslateXZ,
    /// Translate along the YZ plane
    TranslateYZ,
    /// Translate along the view forward axis
    TranslateView,
    /// Scale along the X axis
    ScaleX,
    /// Scale along the Y axis
    ScaleY,
    /// Scale along the Z axis
    ScaleZ,
    /// Scale along the XY plane
    ScaleXY,
    /// Scale along the XZ plane
    ScaleXZ,
    /// Scale along the YZ plane
    ScaleYZ,
    /// Scale uniformly in all directions
    ScaleUniform,
    /// Rotate using an arcball (trackball)
    Arcball,
}

/// The kind of transformation a mode performs.
#[derive(Debug, Clone, Copy, PartialEq, Eq, Structural, Hash)]
pub enum GizmoModeKind {
    Rotate,
    Translate,
    Scale,
    Arcball,
}

/// Direction a subgizmo acts along.
#[derive(Debug, Clone, Copy, PartialEq, Eq, Structural, Hash)]
pub enum GizmoDirection {
    /// Gizmo points in the X-direction
    X,
    /// Gizmo points in the Y-direction
    Y,
    /// Gizmo points in the Z-direction
    Z,
    /// Gizmo points in the view direction
    View,
}

/// Number of distinct gizmo modes.
pub const MODE_COUNT: u32 = 19;

impl GizmoMode {
    /// The kind of transformation this mode performs.
    pub open spec fn kind_spec(self) -> GizmoModeKind {
        match self {
            GizmoMode::RotateX | GizmoMode::RotateY | GizmoMode::RotateZ
            | GizmoMode::RotateView => GizmoModeKind::Rotate,
            GizmoMode::TranslateX | GizmoMode::TranslateY | GizmoMode::TranslateZ
            | GizmoMode::TranslateXY | GizmoMode::TranslateXZ | GizmoMode::TranslateYZ
            | GizmoMode::TranslateView => GizmoModeKind::Translate,
            GizmoMode::ScaleX | GizmoMode::ScaleY | GizmoMode::ScaleZ | GizmoMode::ScaleXY
            | GizmoMode::ScaleXZ | GizmoMode::ScaleYZ | GizmoMode::ScaleUniform => GizmoModeKind::Scale,
            GizmoMode::Arcball => GizmoModeKind::Arcball,
        }
    }

    /// Position of the mode in declaration order.
    pub open spec fn index(self) -> u32 {
        match self {
            GizmoMode::RotateX => 0,
            GizmoMode::RotateY => 1,
            GizmoMode::RotateZ => 2,
            GizmoMode::RotateView => 3,
            GizmoMode::TranslateX => 4,
            GizmoMode::TranslateY => 5,
            GizmoMode::TranslateZ => 6,
            GizmoMode::TranslateXY => 7,
            GizmoMode::TranslateXZ => 8,
            GizmoMode::TranslateYZ => 9,
            GizmoMode::TranslateView => 10,
            GizmoMode::ScaleX => 11,
            GizmoMode::ScaleY => 12,
            GizmoMode::ScaleZ => 13,
            GizmoMode::ScaleXY => 14,
            GizmoMode::ScaleXZ => 15,
            GizmoMode::ScaleYZ => 16,
            GizmoMode::ScaleUniform => 17,
            GizmoMode::Arcball => 18,
        }
    }

    /// The directions each mode acts on.
    pub open spec fn axes_spec(self) -> Set<GizmoDirection> {
        match self {
            GizmoMode::RotateX | GizmoMode::TranslateX | GizmoMode::ScaleX => set![GizmoDirection::X],
            GizmoMode::RotateY | GizmoMode::TranslateY | GizmoMode::ScaleY => set![GizmoDirection::Y],
            GizmoMode::RotateZ | GizmoMode::TranslateZ | GizmoMode::ScaleZ => set![GizmoDirection::Z],
            GizmoMode::RotateView | GizmoMode::TranslateView => set![GizmoDirection::View],
            GizmoMode::ScaleUniform | GizmoMode::Arcball => set![
                GizmoDirection::X,
                GizmoDirection::Y,
                GizmoDirection::Z,
            ],
            GizmoMode::TranslateXY | GizmoMode::ScaleXY => set![GizmoDirection::X, GizmoDirection::Y],
            GizmoMode::TranslateXZ | GizmoMode::ScaleXZ => set![GizmoDirection::X, GizmoDirection::Z],
            GizmoMode::TranslateYZ | GizmoMode::ScaleYZ => set![GizmoDirection::Y, GizmoDirection::Z],
        }
    }

    /// The mode at position `i` in declaration order.
    pub open spec fn from_index_spec(i: u32) -> GizmoMode {
        if i == 0 {
            GizmoMode::RotateX
        } else if i == 1 {
            GizmoMode::RotateY
        } else if i == 2 {
            GizmoMode::RotateZ
        } else if i == 3 {
            GizmoMode::RotateView
        } else if i == 4 {
            GizmoMode::TranslateX
        } else if i == 5 {
            GizmoMode::TranslateY
        } else if i == 6 {
            GizmoMode::TranslateZ
        } else if i == 7 {
            GizmoMode::TranslateXY
        } else if i == 8 {
            GizmoMode::TranslateXZ
        } else if i == 9 {
            GizmoMode::TranslateYZ
        } else if i == 10 {
            GizmoMode::TranslateView
        } else if i == 11 {
            GizmoMode::ScaleX
        } else if i == 12 {
            GizmoMode::ScaleY
        } else if i == 13 {
            GizmoMode::ScaleZ
        } else if i == 14 {
            GizmoMode::ScaleXY
        } else if i == 15 {
            GizmoMode::ScaleXZ
        } else if i == 16 {
            GizmoMode::ScaleYZ
        } else if i == 17 {
            GizmoMode::ScaleUniform
        } else {
            GizmoMode::Arcball
        }
    }

    /// Position of the mode in declaration order.
    pub fn bit_index(&self) -> (r: u32)
        ensures
            r == self.index(),
            r < MODE_COUNT,
    {
        match self {
            GizmoMode::RotateX => 0,
            GizmoMode::RotateY => 1,
            GizmoMode::RotateZ => 2,
            GizmoMode::RotateView => 3,
            GizmoMode::TranslateX => 4,
            GizmoMode::TranslateY => 5,
            GizmoMode::TranslateZ => 6,
            GizmoMode::TranslateXY => 7,
            GizmoMode::TranslateXZ => 8,
            GizmoMode::TranslateYZ => 9,
            GizmoMode::TranslateView => 10,
            GizmoMode::ScaleX => 11,
            GizmoMode::ScaleY => 12,
            GizmoMode::ScaleZ => 13,
            GizmoMode::ScaleXY => 14,
            GizmoMode::ScaleXZ => 15,
            GizmoMode::ScaleYZ => 16,
            GizmoMode::ScaleUniform => 17,
            GizmoMode::Arcball => 18,
        }
    }

    /// The mode at position `i` in declaration order.
    pub fn from_index(i: u32) -> (r: GizmoMode)
        requires
            i < MODE_COUNT,
        ensures
            r == Self::from_index_spec(i),
            r.index() == i,
    {
        if i == 0 {
            GizmoMode::RotateX
        } else if i == 1 {
            GizmoMode::RotateY
        } else if i == 2 {
            GizmoMode::RotateZ
        } else if i == 3 {
            GizmoMode::RotateView
        } else if i == 4 {
            GizmoMode::TranslateX
        } else if i == 5 {
            GizmoMode::TranslateY
        } else if i == 6 {
            GizmoMode::TranslateZ
        } else if i == 7 {
            GizmoMode::TranslateXY
        } else if i == 8 {
            GizmoMode::TranslateXZ
        } else if i == 9 {
            GizmoMode::TranslateYZ
        } else if i == 10 {
            GizmoMode::TranslateView
        } else if i == 11 {
            GizmoMode::ScaleX
        } else if i == 12 {
            GizmoMode::ScaleY
        } else if i == 13 {
            GizmoMode::ScaleZ
        } else if i == 14 {
            GizmoMode::ScaleXY
        } else if i == 15 {
            GizmoMode::ScaleXZ
        } else if i == 16 {
            GizmoMode::ScaleYZ
        } else if i == 17 {
            GizmoMode::ScaleUniform
        } else {
            GizmoMode::Arcball
        }
    }

    /// The kind of transformation this mode performs.
    pub fn kind(&self) -> (r: GizmoModeKind)
        ensures
            r == self.kind_spec(),
    {
        match self {
            GizmoMode::RotateX | GizmoMode::RotateY | GizmoMode::RotateZ
            | GizmoMode::RotateView => GizmoModeKind::Rotate,
            GizmoMode::TranslateX | GizmoMode::TranslateY | GizmoMode::TranslateZ
            | GizmoMode::TranslateXY | GizmoMode::TranslateXZ | GizmoMode::TranslateYZ
            | GizmoMode::TranslateView => GizmoModeKind::Translate,
            GizmoMode::ScaleX | GizmoMode::ScaleY | GizmoMode::ScaleZ | GizmoMode::ScaleXY
            | GizmoMode::ScaleXZ | GizmoMode::ScaleYZ | GizmoMode::ScaleUniform => GizmoModeKind::Scale,
            GizmoMode::Arcball => GizmoModeKind::Arcball,
        }
    }

    /// Is this mode for rotation
    pub fn is_rotate(&self) -> (r: bool)
        ensures
            r == (self.kind_spec() == GizmoModeKind::Rotate),
    {
        self.kind() == GizmoModeKind::Rotate
    }

    /// Is this mode for translation
    pub fn is_translate(&self) -> (r: bool)
        ensures
            r == (self.kind_spec() == GizmoModeKind::Translate),
    {
        self.kind() == GizmoModeKind::Translate
    }

    /// Is this mode for scaling
    pub fn is_scale(&self) -> (r: bool)
        ensures
            r == (self.kind_spec() == GizmoModeKind::Scale),
    {
        self.kind() == GizmoModeKind::Scale
    }
}

/// Every mode has a position below `MODE_COUNT`, and that position leads
/// back to the mode.
pub proof fn lemma_index_round_trip(m: GizmoMode)
    ensures
        m.index() < MODE_COUNT,
        GizmoMode::from_index_spec(m.index()) == m,
{
}

} // verus!
