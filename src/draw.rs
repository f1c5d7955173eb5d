use vstd::prelude::*;

verus! {

/// Triangle-list geometry for drawing a gizmo: one color per vertex, and
/// indices into the vertex list. The vertex and color types are left to
/// the renderer (viewport coordinates and linear RGBA).
#[derive(Debug, Clone)]
pub struct GizmoDrawData<V, C> {
    /// Vertices in viewport space.
    pub vertices: Vec<V>,
    /// Colors, one for each vertex.
    pub colors: Vec<C>,
    /// Indices to the vertex data.
    pub indices: Vec<u32>,
}

/// Each index of `indices` moved up by `offset`.
pub open spec fn rebased(indices: Seq<u32>, offset: nat) -> Seq<u32> {
    indices.map_values(|i: u32| (i + offset) as u32)
}

/// Whether the indices of `rhs` still fit in `u32` once placed after the
/// vertices of `lhs`.
pub open spec fn can_append<V, C>(lhs: GizmoDrawData<V, C>, rhs: GizmoDrawData<V, C>) -> bool {
    &&& lhs.vertices@.len() <= u32::MAX
    &&& forall|k: int|
        0 <= k < rhs.indices@.len() ==> lhs.vertices@.len() + #[trigger] rhs.indices@[k]
            <= u32::MAX
}

impl<V, C> GizmoDrawData<V, C> {
    /// Draw data with nothing in it.
    pub fn new() -> (r: GizmoDrawData<V, C>)
        ensures
            r.vertices@ == Seq::<V>::empty(),
            r.colors@ == Seq::<C>::empty(),
            r.indices@ == Seq::<u32>::empty(),
    {
        GizmoDrawData { vertices: Vec::new(), colors: Vec::new(), indices: Vec::new() }
    }

    /// Whether the indices of `rhs` still fit in `u32` once placed after
    /// our vertices, as `add_assign` requires.
    pub fn can_add(&self, rhs: &GizmoDrawData<V, C>) -> (r: bool)
        ensures
            r == can_append(*self, *rhs),
    {
        let count = self.vertices.len();
        if count > 0xFFFF_FFFFusize {
            return false;
        }
        let mut k: usize = 0;
        while k < rhs.indices.len()
            invariant
                k <= rhs.indices@.len(),
                count == self.vertices@.len(),
                count <= u32::MAX,
                forall|j: int| 0 <= j < k ==> count + #[trigger] rhs.indices@[j] <= u32::MAX,
            decreases rhs.indices@.len() - k,
        {
            if rhs.indices[k] as usize > 0xFFFF_FFFFusize - count {
                return false;
            }
            k = k + 1;
        }
        true
    }

    /// Appends the geometry of `rhs`: its vertices and colors follow ours,
    /// and its indices are moved up by our vertex count so they still
    /// address its own vertices.
    pub fn add_assign(&mut self, rhs: GizmoDrawData<V, C>)
        requires
            can_append(*old(self), rhs),
        ensures
            final(self).vertices@ == old(self).vertices@ + rhs.vertices@,
            final(self).colors@ == old(self).colors@ + rhs.colors@,
            final(self).indices@ == old(self).indices@ + rebased(
                rhs.indices@,
                old(self).vertices@.len(),
            ),
    {
        let offset = self.vertices.len() as u32;
        let GizmoDrawData { vertices: mut rhs_vertices, colors: mut rhs_colors, indices: rhs_indices } =
            rhs;
        self.vertices.append(&mut rhs_vertices);
        self.colors.append(&mut rhs_colors);
        let ghost start = self.indices@;
        let mut k: usize = 0;
        while k < rhs_indices.len()
            invariant
                k <= rhs_indices@.len(),
                rhs_indices@ == rhs.indices@,
                offset == old(self).vertices@.len(),
                can_append(*old(self), rhs),
                start == old(self).indices@,
                self.vertices@ == old(self).vertices@ + rhs.vertices@,
                self.colors@ == old(self).colors@ + rhs.colors@,
                self.indices@ == start + rebased(rhs_indices@.subrange(0, k as int), offset as nat),
            decreases rhs_indices@.len() - k,
        {
            let index = offset + rhs_indices[k];
            self.indices.push(index);
            assert(rhs_indices@.subrange(0, k + 1) =~= rhs_indices@.subrange(0, k as int).push(
                rhs_indices@[k as int],
            ));
            assert(rebased(rhs_indices@.subrange(0, k + 1), offset as nat) =~= rebased(
                rhs_indices@.subrange(0, k as int),
                offset as nat,
            ).push(index));
            k = k + 1;
        }
        assert(rhs_indices@.subrange(0, k as int) =~= rhs_indices@);
    }

    /// The geometry of `self` followed by that of `rhs`.
    pub fn add(self, rhs: GizmoDrawData<V, C>) -> (r: GizmoDrawData<V, C>)
        requires
            can_append(self, rhs),
        ensures
            r.vertices@ == self.vertices@ + rhs.vertices@,
            r.colors@ == self.colors@ + rhs.colors@,
            r.indices@ == self.indices@ + rebased(rhs.indices@, self.vertices@.len()),
    {
        let mut r = self;
        r.add_assign(rhs);
        r
    }
}

impl<V, C> Default for GizmoDrawData<V, C> {
    fn default() -> (r: GizmoDrawData<V, C>)
        ensures
            r.vertices@ == Seq::<V>::empty(),
            r.colors@ == Seq::<C>::empty(),
            r.indices@ == Seq::<u32>::empty(),
    {
        GizmoDrawData::new()
    }
}

} // verus!
