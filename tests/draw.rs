use transform_gizmo::GizmoDrawData;

fn mesh(vertex_count: usize, indices: Vec<u32>) -> GizmoDrawData<[f32; 2], [f32; 4]> {
    let mut data = GizmoDrawData::new();
    for i in 0..vertex_count {
        data.vertices.push([i as f32, 0.0]);
        data.colors.push([1.0, 1.0, 1.0, 1.0]);
    }
    data.indices = indices;
    data
}

#[test]
fn draw_data_composition() {
    let a = mesh(3, vec![0, 1, 2]);
    let b = mesh(4, vec![0, 1, 2, 0, 2, 3]);
    let sum = a.add(b);
    assert_eq!(sum.vertices.len(), 7);
    assert_eq!(sum.colors.len(), 7);
    assert_eq!(sum.indices, vec![0, 1, 2, 3, 4, 5, 3, 5, 6]);
    assert_eq!(sum.vertices[3], [0.0, 0.0]);
}

#[test]
fn draw_data_add_assign_onto_empty() {
    let mut data: GizmoDrawData<[f32; 2], [f32; 4]> = GizmoDrawData::default();
    data.add_assign(mesh(3, vec![2, 1, 0]));
    assert_eq!(data.indices, vec![2, 1, 0]);
    data.add_assign(mesh(0, vec![]));
    assert_eq!(data.vertices.len(), 3);
    assert_eq!(data.indices.len(), 3);
}
