use transform_gizmo::{
    arrow_modes_overlapping, arrow_placement, subgizmo_layout, ArrowPlacement, GizmoDirection,
    GizmoMode, GizmoModes, SubGizmoParams, TransformKind,
};

#[test]
fn layout_of_all_modes() {
    let layout = subgizmo_layout(&GizmoMode::all());
    // 4 rotations and the arcball, 7 translations, 3 scale axes: uniform
    // scale gives way to view rotation, scale planes to translate planes.
    assert_eq!(layout.len(), 15);
    assert_eq!(layout[0], SubGizmoParams::Rotation { direction: GizmoDirection::X });
    assert_eq!(layout[4], SubGizmoParams::Arcball);
    assert_eq!(
        layout[8],
        SubGizmoParams::Translation {
            mode: GizmoMode::TranslateView,
            direction: GizmoDirection::View,
            transform_kind: TransformKind::Plane,
        }
    );
    assert_eq!(
        layout[10],
        SubGizmoParams::Translation {
            mode: GizmoMode::TranslateXZ,
            direction: GizmoDirection::Y,
            transform_kind: TransformKind::Plane,
        }
    );
    assert_eq!(
        layout[14],
        SubGizmoParams::Scale {
            mode: GizmoMode::ScaleZ,
            direction: GizmoDirection::Z,
            transform_kind: TransformKind::Axis,
        }
    );
}

#[test]
fn layout_of_scale_modes() {
    let layout = subgizmo_layout(&GizmoMode::all_scale());
    assert_eq!(layout.len(), 7);
    assert_eq!(
        layout[3],
        SubGizmoParams::Scale {
            mode: GizmoMode::ScaleUniform,
            direction: GizmoDirection::View,
            transform_kind: TransformKind::Plane,
        }
    );
    assert_eq!(
        layout[6],
        SubGizmoParams::Scale {
            mode: GizmoMode::ScaleYZ,
            direction: GizmoDirection::Z,
            transform_kind: TransformKind::Plane,
        }
    );
}

#[test]
fn layout_of_no_modes() {
    assert!(subgizmo_layout(&GizmoModes::empty()).is_empty());
}

#[test]
fn scale_plane_gives_way_to_translate_plane() {
    let mut modes = GizmoModes::only(GizmoMode::ScaleXY);
    assert_eq!(subgizmo_layout(&modes).len(), 1);
    modes.insert(GizmoMode::TranslateXY);
    let layout = subgizmo_layout(&modes);
    assert_eq!(layout.len(), 1);
    assert_eq!(
        layout[0],
        SubGizmoParams::Translation {
            mode: GizmoMode::TranslateXY,
            direction: GizmoDirection::X,
            transform_kind: TransformKind::Plane,
        }
    );
}

#[test]
fn arrow_overlap() {
    let mut modes = GizmoModes::only(GizmoMode::TranslateX);
    assert!(!arrow_modes_overlapping(GizmoMode::TranslateX, &modes));
    modes.insert(GizmoMode::ScaleX);
    assert!(arrow_modes_overlapping(GizmoMode::TranslateX, &modes));
    assert!(arrow_modes_overlapping(GizmoMode::ScaleX, &modes));
    assert!(!arrow_modes_overlapping(GizmoMode::TranslateY, &modes));
    assert!(!arrow_modes_overlapping(GizmoMode::RotateX, &modes));
}

#[test]
fn arrow_placements() {
    let only = GizmoModes::only(GizmoMode::TranslateZ);
    assert_eq!(
        arrow_placement(GizmoMode::TranslateZ, &only),
        ArrowPlacement::Inner { shortened: false }
    );
    let mut both = only;
    both.insert(GizmoMode::ScaleZ);
    assert_eq!(arrow_placement(GizmoMode::TranslateZ, &both), ArrowPlacement::Outer);
    assert_eq!(
        arrow_placement(GizmoMode::ScaleZ, &both),
        ArrowPlacement::Inner { shortened: true }
    );
}
