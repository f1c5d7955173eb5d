use transform_gizmo::{
    GizmoDirection, GizmoDirections, GizmoMode, GizmoModeKind, GizmoModes, GizmoOrientation,
    ModeSelection, TransformPivotPoint,
};

#[test]
fn mode_kinds() {
    assert_eq!(GizmoMode::RotateView.kind(), GizmoModeKind::Rotate);
    assert_eq!(GizmoMode::TranslateYZ.kind(), GizmoModeKind::Translate);
    assert_eq!(GizmoMode::ScaleUniform.kind(), GizmoModeKind::Scale);
    assert_eq!(GizmoMode::Arcball.kind(), GizmoModeKind::Arcball);
    assert!(GizmoMode::RotateX.is_rotate());
    assert!(!GizmoMode::Arcball.is_rotate());
    assert!(GizmoMode::TranslateView.is_translate());
    assert!(!GizmoMode::ScaleX.is_translate());
    assert!(GizmoMode::ScaleXZ.is_scale());
    assert!(!GizmoMode::RotateZ.is_scale());
}

#[test]
fn mode_group_sizes() {
    assert_eq!(GizmoMode::all().len(), 19);
    assert_eq!(GizmoMode::all_rotate().len(), 4);
    assert_eq!(GizmoMode::all_translate().len(), 7);
    assert_eq!(GizmoMode::all_scale().len(), 7);
    assert!(!GizmoMode::all_rotate().contains(GizmoMode::Arcball));
    assert!(GizmoMode::all().contains(GizmoMode::Arcball));
    assert!(GizmoMode::all_translate().contains(GizmoMode::TranslateView));
    assert!(!GizmoMode::all_scale().contains(GizmoMode::TranslateX));
}

#[test]
fn mode_set_insert_remove() {
    let mut modes = GizmoModes::empty();
    assert!(modes.is_empty());
    assert_eq!(modes.len(), 0);
    modes.insert(GizmoMode::ScaleY);
    modes.insert(GizmoMode::RotateX);
    modes.insert(GizmoMode::ScaleY);
    assert_eq!(modes.len(), 2);
    assert!(modes.contains(GizmoMode::ScaleY));
    assert!(!modes.contains(GizmoMode::ScaleX));
    modes.remove(GizmoMode::ScaleY);
    assert_eq!(modes.len(), 1);
    assert!(modes == GizmoModes::only(GizmoMode::RotateX));
    assert!(modes != GizmoModes::only(GizmoMode::RotateY));
    assert!(!modes.is_empty());
}

#[test]
fn mode_axes() {
    let xy = GizmoMode::TranslateXY.axes();
    assert!(xy.contains(GizmoDirection::X));
    assert!(xy.contains(GizmoDirection::Y));
    assert!(!xy.contains(GizmoDirection::Z));
    assert!(GizmoMode::RotateView.axes().contains(GizmoDirection::View));
    assert_eq!(GizmoMode::ScaleUniform.axes(), GizmoMode::Arcball.axes());
}

#[test]
fn modes_from_axes() {
    let xy = GizmoModes::all_of_kind(GizmoModeKind::Translate);
    assert_eq!(xy.len(), 7);

    let planes = GizmoMode::all_from_axes(GizmoDirections::new(true, true, false, false));
    assert_eq!(planes.len(), 2);
    assert!(planes.contains(GizmoMode::TranslateXY));
    assert!(planes.contains(GizmoMode::ScaleXY));

    let all_axes = GizmoMode::all_from_axes(GizmoDirections::new(true, true, true, false));
    assert_eq!(all_axes.len(), 2);
    assert!(all_axes.contains(GizmoMode::ScaleUniform));
    assert!(all_axes.contains(GizmoMode::Arcball));

    let x = GizmoMode::all_from_axes(GizmoDirections::new(true, false, false, false));
    assert_eq!(x.len(), 3);
    assert!(x.contains(GizmoMode::RotateX));
    assert!(x.contains(GizmoMode::TranslateX));
    assert!(x.contains(GizmoMode::ScaleX));

    let none = GizmoMode::all_from_axes(GizmoDirections::new(false, false, false, false));
    assert!(none.is_empty());
}

#[test]
fn defaults() {
    assert_eq!(GizmoOrientation::default(), GizmoOrientation::Global);
    assert_eq!(TransformPivotPoint::default(), TransformPivotPoint::MedianPoint);
}

#[test]
fn modes_changed_rules() {
    let rotate = ModeSelection::new(GizmoMode::all_rotate(), None);
    let scale = ModeSelection::new(GizmoMode::all_scale(), None);
    assert!(!rotate.modes_changed(&rotate));
    assert!(scale.modes_changed(&rotate));

    // While an override is set, the enabled set is not compared.
    let forced_a = ModeSelection::new(GizmoMode::all_rotate(), Some(GizmoMode::TranslateX));
    let forced_b = ModeSelection::new(GizmoMode::all_scale(), Some(GizmoMode::TranslateX));
    assert!(!forced_b.modes_changed(&forced_a));

    let forced_c = ModeSelection::new(GizmoMode::all_scale(), Some(GizmoMode::TranslateY));
    assert!(forced_c.modes_changed(&forced_b));
    assert!(rotate.modes_changed(&forced_a));
    assert!(forced_a.modes_changed(&rotate));
}

#[test]
fn enabled_modes_follow_override() {
    let plain = ModeSelection::new(GizmoMode::all_translate(), None);
    assert_eq!(plain.enabled_modes().len(), 7);
    let forced = ModeSelection::new(GizmoMode::all_translate(), Some(GizmoMode::ScaleZ));
    assert!(forced.enabled_modes() == GizmoModes::only(GizmoMode::ScaleZ));
}
