use vstd::prelude::*;

use crate::mode_set::GizmoModes;
use crate::modes::{GizmoDirection, GizmoMode, GizmoModeKind};

verus! {

/// Whether a subgizmo acts along a single axis or within a plane.
#[derive(Debug, Clone, Copy, PartialEq, Eq, Structural, Hash)]
pub enum TransformKind {
    Axis,
    Plane,
}

/// Kind and parameters of one subgizmo. Two subgizmos with equal
/// parameters are the same handle, so this value is also its identity.
#[derive(Debug, Clone, Copy, PartialEq, Eq, Structural, Hash)]
pub enum SubGizmoParams {
    /// Rotation around one axis, or around the view axis.
    Rotation { direction: GizmoDirection },
    /// Free rotation driven by cursor movement.
    Arcball,
    /// Translation along an axis or within a plane.
    Translation { mode: GizmoMode, direction: GizmoDirection, transform_kind: TransformKind },
    /// Scaling along an axis, within a plane, or uniformly.
    Scale { mode: GizmoMode, direction: GizmoDirection, transform_kind: TransformKind },
}

/// Where a translation or scale arrow lies along its axis.
#[derive(Debug, Clone, Copy, PartialEq, Eq, Structural, Hash)]
pub enum ArrowPlacement {
    /// A short translate arrow beyond the scale handle of the same axis.
    Outer,
    /// An arrow from the inner circle outwards, shortened when other
    /// modes are enabled alongside.
    Inner { shortened: bool },
}

/// `p` alone when `c` holds, else nothing.
pub open spec fn item_if(c: bool, p: SubGizmoParams) -> Seq<SubGizmoParams> {
    if c {
        seq![p]
    } else {
        Seq::empty()
    }
}

/// A translation subgizmo with the given parameters.
pub open spec fn translation_params(
    mode: GizmoMode,
    direction: GizmoDirection,
    transform_kind: TransformKind,
) -> SubGizmoParams {
    SubGizmoParams::Translation { mode, direction, transform_kind }
}

/// A scale subgizmo with the given parameters.
pub open spec fn scale_params(
    mode: GizmoMode,
    direction: GizmoDirection,
    transform_kind: TransformKind,
) -> SubGizmoParams {
    SubGizmoParams::Scale { mode, direction, transform_kind }
}

/// Rotation subgizmos of the enabled modes `m`, in order X, Y, Z, view, arcball.
pub open spec fn rotation_layout(m: Set<GizmoMode>) -> Seq<SubGizmoParams> {
    Seq::empty() + item_if(
        m.contains(GizmoMode::RotateX),
        SubGizmoParams::Rotation { direction: GizmoDirection::X },
    ) + item_if(
        m.contains(GizmoMode::RotateY),
        SubGizmoParams::Rotation { direction: GizmoDirection::Y },
    ) + item_if(
        m.contains(GizmoMode::RotateZ),
        SubGizmoParams::Rotation { direction: GizmoDirection::Z },
    ) + item_if(
        m.contains(GizmoMode::RotateView),
        SubGizmoParams::Rotation { direction: GizmoDirection::View },
    ) + item_if(m.contains(GizmoMode::Arcball), SubGizmoParams::Arcball)
}

/// Translation subgizmos of the enabled modes `m`: the three axes, the view
/// plane, then the XY, XZ and YZ planes (named by their normal).
pub open spec fn translation_layout(m: Set<GizmoMode>) -> Seq<SubGizmoParams> {
    Seq::empty() + item_if(
        m.contains(GizmoMode::TranslateX),
        translation_params(GizmoMode::TranslateX, GizmoDirection::X, TransformKind::Axis),
    ) + item_if(
        m.contains(GizmoMode::TranslateY),
        translation_params(GizmoMode::TranslateY, GizmoDirection::Y, TransformKind::Axis),
    ) + item_if(
        m.contains(GizmoMode::TranslateZ),
        translation_params(GizmoMode::TranslateZ, GizmoDirection::Z, TransformKind::Axis),
    ) + item_if(
        m.contains(GizmoMode::TranslateView),
        translation_params(GizmoMode::TranslateView, GizmoDirection::View, TransformKind::Plane),
    ) + item_if(
        m.contains(GizmoMode::TranslateXY),
        translation_params(GizmoMode::TranslateXY, GizmoDirection::X, TransformKind::Plane),
    ) + item_if(
        m.contains(GizmoMode::TranslateXZ),
        translation_params(GizmoMode::TranslateXZ, GizmoDirection::Y, TransformKind::Plane),
    ) + item_if(
        m.contains(GizmoMode::TranslateYZ),
        translation_params(GizmoMode::TranslateYZ, GizmoDirection::Z, TransformKind::Plane),
    )
}

/// Scale subgizmos of the enabled modes `m`: the three axes, uniform, then
/// the XY, XZ and YZ planes. Uniform scale is left out when view rotation is
/// enabled, and a scale plane when the translate plane on the same axes is.
pub open spec fn scale_layout(m: Set<GizmoMode>) -> Seq<SubGizmoParams> {
    Seq::empty() + item_if(
        m.contains(GizmoMode::ScaleX),
        scale_params(GizmoMode::ScaleX, GizmoDirection::X, TransformKind::Axis),
    ) + item_if(
        m.contains(GizmoMode::ScaleY),
        scale_params(GizmoMode::ScaleY, GizmoDirection::Y, TransformKind::Axis),
    ) + item_if(
        m.contains(GizmoMode::ScaleZ),
        scale_params(GizmoMode::ScaleZ, GizmoDirection::Z, TransformKind::Axis),
    ) + item_if(
        m.contains(GizmoMode::ScaleUniform) && !m.contains(GizmoMode::RotateView),
        scale_params(GizmoMode::ScaleUniform, GizmoDirection::View, TransformKind::Plane),
    ) + item_if(
        m.contains(GizmoMode::ScaleXY) && !m.contains(GizmoMode::TranslateXY),
        scale_params(GizmoMode::ScaleXY, GizmoDirection::X, TransformKind::Plane),
    ) + item_if(
        m.contains(GizmoMode::ScaleXZ) && !m.contains(GizmoMode::TranslateXZ),
        scale_params(GizmoMode::ScaleXZ, GizmoDirection::Y, TransformKind::Plane),
    ) + item_if(
        m.contains(GizmoMode::ScaleYZ) && !m.contains(GizmoMode::TranslateYZ),
        scale_params(GizmoMode::ScaleYZ, GizmoDirection::Z, TransformKind::Plane),
    )
}

/// All subgizmos of the enabled modes `m`, in the order they are built.
pub open spec fn layout_spec(m: Set<GizmoMode>) -> Seq<SubGizmoParams> {
    rotation_layout(m) + translation_layout(m) + scale_layout(m)
}

fn push_if(v: &mut Vec<SubGizmoParams>, c: bool, p: SubGizmoParams)
    ensures
        final(v)@ == old(v)@ + item_if(c, p),
{
    if c {
        v.push(p);
    }
    assert(final(v)@ =~= old(v)@ + item_if(c, p));
}

fn add_rotation(modes: &GizmoModes) -> (r: Vec<SubGizmoParams>)
    ensures
        r@ == rotation_layout(modes@),
{
    let mut v: Vec<SubGizmoParams> = Vec::new();
    push_if(
        &mut v,
        modes.contains(GizmoMode::RotateX),
        SubGizmoParams::Rotation { direction: GizmoDirection::X },
    );
    push_if(
        &mut v,
        modes.contains(GizmoMode::RotateY),
        SubGizmoParams::Rotation { direction: GizmoDirection::Y },
    );
    push_if(
        &mut v,
        modes.contains(GizmoMode::RotateZ),
        SubGizmoParams::Rotation { direction: GizmoDirection::Z },
    );
    push_if(
        &mut v,
        modes.contains(GizmoMode::RotateView),
        SubGizmoParams::Rotation { direction: GizmoDirection::View },
    );
    push_if(&mut v, modes.contains(GizmoMode::Arcball), SubGizmoParams::Arcball);
    v
}

fn add_translation(modes: &GizmoModes) -> (r: Vec<SubGizmoParams>)
    ensures
        r@ == translation_layout(modes@),
{
    let mut v: Vec<SubGizmoParams> = Vec::new();
    push_if(
        &mut v,
        modes.contains(GizmoMode::TranslateX),
        SubGizmoParams::Translation {
            mode: GizmoMode::TranslateX,
            direction: GizmoDirection::X,
            transform_kind: TransformKind::Axis,
        },
    );
    push_if(
        &mut v,
        modes.contains(GizmoMode::TranslateY),
        SubGizmoParams::Translation {
            mode: GizmoMode::TranslateY,
            direction: GizmoDirection::Y,
            transform_kind: TransformKind::Axis,
        },
    );
    push_if(
        &mut v,
        modes.contains(GizmoMode::TranslateZ),
        SubGizmoParams::Translation {
            mode: GizmoMode::TranslateZ,
            direction: GizmoDirection::Z,
            transform_kind: TransformKind::Axis,
        },
    );
    push_if(
        &mut v,
        modes.contains(GizmoMode::TranslateView),
        SubGizmoParams::Translation {
            mode: GizmoMode::TranslateView,
            direction: GizmoDirection::View,
            transform_kind: TransformKind::Plane,
        },
    );
    push_if(
        &mut v,
        modes.contains(GizmoMode::TranslateXY),
        SubGizmoParams::Translation {
            mode: GizmoMode::TranslateXY,
            direction: GizmoDirection::X,
            transform_kind: TransformKind::Plane,
        },
    );
    push_if(
        &mut v,
        modes.contains(GizmoMode::TranslateXZ),
        SubGizmoParams::Translation {
            mode: GizmoMode::TranslateXZ,
            direction: GizmoDirection::Y,
            transform_kind: TransformKind::Plane,
        },
    );
    push_if(
        &mut v,
        modes.contains(GizmoMode::TranslateYZ),
        SubGizmoParams::Translation {
            mode: GizmoMode::TranslateYZ,
            direction: GizmoDirection::Z,
            transform_kind: TransformKind::Plane,
        },
    );
    v
}

fn add_scale(modes: &GizmoModes) -> (r: Vec<SubGizmoParams>)
    ensures
        r@ == scale_layout(modes@),
{
    let mut v: Vec<SubGizmoParams> = Vec::new();
    push_if(
        &mut v,
        modes.contains(GizmoMode::ScaleX),
        SubGizmoParams::Scale {
            mode: GizmoMode::ScaleX,
            direction: GizmoDirection::X,
            transform_kind: TransformKind::Axis,
        },
    );
    push_if(
        &mut v,
        modes.contains(GizmoMode::ScaleY),
        SubGizmoParams::Scale {
            mode: GizmoMode::ScaleY,
            direction: GizmoDirection::Y,
            transform_kind: TransformKind::Axis,
        },
    );
    push_if(
        &mut v,
        modes.contains(GizmoMode::ScaleZ),
        SubGizmoParams::Scale {
            mode: GizmoMode::ScaleZ,
            direction: GizmoDirection::Z,
            transform_kind: TransformKind::Axis,
        },
    );
    push_if(
        &mut v,
        modes.contains(GizmoMode::ScaleUniform) && !modes.contains(GizmoMode::RotateView),
        SubGizmoParams::Scale {
            mode: GizmoMode::ScaleUniform,
            direction: GizmoDirection::View,
            transform_kind: TransformKind::Plane,
        },
    );
    push_if(
        &mut v,
        modes.contains(GizmoMode::ScaleXY) && !modes.contains(GizmoMode::TranslateXY),
        SubGizmoParams::Scale {
            mode: GizmoMode::ScaleXY,
            direction: GizmoDirection::X,
            transform_kind: TransformKind::Plane,
        },
    );
    push_if(
        &mut v,
        modes.contains(GizmoMode::ScaleXZ) && !modes.contains(GizmoMode::TranslateXZ),
        SubGizmoParams::Scale {
            mode: GizmoMode::ScaleXZ,
            direction: GizmoDirection::Y,
            transform_kind: TransformKind::Plane,
        },
    );
    push_if(
        &mut v,
        modes.contains(GizmoMode::ScaleYZ) && !modes.contains(GizmoMode::TranslateYZ),
        SubGizmoParams::Scale {
            mode: GizmoMode::ScaleYZ,
            direction: GizmoDirection::Z,
            transform_kind: TransformKind::Plane,
        },
    );
    v
}

/// The subgizmos to build for the enabled modes, in build order.
pub fn subgizmo_layout(modes: &GizmoModes) -> (r: Vec<SubGizmoParams>)
    ensures
        r@ == layout_spec(modes@),
{
    let mut v = add_rotation(modes);
    let mut translation = add_translation(modes);
    let mut scale = add_scale(modes);
    v.append(&mut translation);
    v.append(&mut scale);
    v
}

/// The mode on the same axis whose arrow would overlap the arrow of `mode`.
pub open spec fn arrow_counterpart(mode: GizmoMode) -> Option<GizmoMode> {
    match mode {
        GizmoMode::TranslateX => Some(GizmoMode::ScaleX),
        GizmoMode::TranslateY => Some(GizmoMode::ScaleY),
        GizmoMode::TranslateZ => Some(GizmoMode::ScaleZ),
        GizmoMode::ScaleX => Some(GizmoMode::TranslateX),
        GizmoMode::ScaleY => Some(GizmoMode::TranslateY),
        GizmoMode::ScaleZ => Some(GizmoMode::TranslateZ),
        _ => None,
    }
}

/// Whether the arrow of `mode` and the arrow of its counterpart on the
/// same axis are both enabled.
pub open spec fn arrows_overlap_spec(mode: GizmoMode, other_modes: Set<GizmoMode>) -> bool {
    match arrow_counterpart(mode) {
        Some(c) => other_modes.contains(c),
        None => false,
    }
}

/// Whether a translate arrow and a scale arrow on the same axis are both enabled.
pub fn arrow_modes_overlapping(mode: GizmoMode, other_modes: &GizmoModes) -> (r: bool)
    ensures
        r == arrows_overlap_spec(mode, other_modes@),
{
    (mode == GizmoMode::TranslateX && other_modes.contains(GizmoMode::ScaleX)) || (mode
        == GizmoMode::TranslateY && other_modes.contains(GizmoMode::ScaleY)) || (mode
        == GizmoMode::TranslateZ && other_modes.contains(GizmoMode::ScaleZ)) || (mode
        == GizmoMode::ScaleX && other_modes.contains(GizmoMode::TranslateX)) || (mode
        == GizmoMode::ScaleY && other_modes.contains(GizmoMode::TranslateY)) || (mode
        == GizmoMode::ScaleZ && other_modes.contains(GizmoMode::TranslateZ))
}

/// Where the arrow of `mode` lies among the enabled `modes`.
pub open spec fn arrow_placement_spec(mode: GizmoMode, modes: Set<GizmoMode>) -> ArrowPlacement {
    if mode.kind_spec() == GizmoModeKind::Translate && arrows_overlap_spec(mode, modes) {
        ArrowPlacement::Outer
    } else {
        ArrowPlacement::Inner { shortened: modes.len() > 1 }
    }
}

/// Where the arrow of `mode` lies, given all enabled `modes`: a translate
/// arrow moves outwards when the scale arrow of its axis is enabled too.
pub fn arrow_placement(mode: GizmoMode, modes: &GizmoModes) -> (r: ArrowPlacement)
    ensures
        r == arrow_placement_spec(mode, modes@),
{
    if mode.is_translate() && arrow_modes_overlapping(mode, modes) {
        ArrowPlacement::Outer
    } else {
        ArrowPlacement::Inner { shortened: modes.len() > 1 }
    }
}

} // verus!
