use vstd::prelude::*;

use crate::modes::{GizmoDirection, GizmoMode, GizmoModeKind, MODE_COUNT};

verus! {

/// Whether bit `i` of `bits` is set.
pub open spec fn has_bit(bits: u32, i: u32) -> bool {
    (bits >> i) & 1u32 == 1u32
}

/// Setting bit `i` sets it and leaves the other bits.
proof fn lemma_bit_insert(bits: u32, i: u32, j: u32)
    by (bit_vector)
    requires
        i < 32,
        j < 32,
    ensures
        (((bits | (1u32 << i)) >> j) & 1u32 == 1u32) == (i == j || (bits >> j) & 1u32 == 1u32),
{
}

/// Clearing bit `i` clears it and leaves the other bits.
proof fn lemma_bit_remove(bits: u32, i: u32, j: u32)
    by (bit_vector)
    requires
        i < 32,
        j < 32,
    ensures
        (((bits & !(1u32 << i)) >> j) & 1u32 == 1u32) == (i != j && (bits >> j) & 1u32 == 1u32),
{
}

/// Setting or clearing one of the low mode bits keeps a value within the mode bits.
proof fn lemma_bit_bounds(bits: u32, i: u32)
    by (bit_vector)
    requires
        bits < 0x80000u32,
        i < 19,
    ensures
        (bits | (1u32 << i)) < 0x80000u32,
        (bits & !(1u32 << i)) < 0x80000u32,
{
}

/// Zero has no bit set.
proof fn lemma_no_bits(j: u32)
    by (bit_vector)
    requires
        j < 32,
    ensures
        (0u32 >> j) & 1u32 == 0u32,
{
}

/// Which mode positions the masks of all modes and of each kind hold.
proof fn lemma_mask_bits(j: u32)
    by (bit_vector)
    requires
        j < 19,
    ensures
        ((0x7FFFFu32 >> j) & 1u32 == 1u32),
        ((0xFu32 >> j) & 1u32 == 1u32) == (j < 4),
        ((0x7F0u32 >> j) & 1u32 == 1u32) == (4 <= j < 11),
        ((0x3F800u32 >> j) & 1u32 == 1u32) == (11 <= j < 18),
{
}

/// Two values within the mode bits that agree on every mode bit are equal.
proof fn lemma_same_bits(a: u32, b: u32)
    by (bit_vector)
    requires
        a < 0x80000u32,
        b < 0x80000u32,
        (a >> 0u32) & 1u32 == (b >> 0u32) & 1u32,
        (a >> 1u32) & 1u32 == (b >> 1u32) & 1u32,
        (a >> 2u32) & 1u32 == (b >> 2u32) & 1u32,
        (a >> 3u32) & 1u32 == (b >> 3u32) & 1u32,
        (a >> 4u32) & 1u32 == (b >> 4u32) & 1u32,
        (a >> 5u32) & 1u32 == (b >> 5u32) & 1u32,
        (a >> 6u32) & 1u32 == (b >> 6u32) & 1u32,
        (a >> 7u32) & 1u32 == (b >> 7u32) & 1u32,
        (a >> 8u32) & 1u32 == (b >> 8u32) & 1u32,
        (a >> 9u32) & 1u32 == (b >> 9u32) & 1u32,
        (a >> 10u32) & 1u32 == (b >> 10u32) & 1u32,
        (a >> 11u32) & 1u32 == (b >> 11u32) & 1u32,
        (a >> 12u32) & 1u32 == (b >> 12u32) & 1u32,
        (a >> 13u32) & 1u32 == (b >> 13u32) & 1u32,
        (a >> 14u32) & 1u32 == (b >> 14u32) & 1u32,
        (a >> 15u32) & 1u32 == (b >> 15u32) & 1u32,
        (a >> 16u32) & 1u32 == (b >> 16u32) & 1u32,
        (a >> 17u32) & 1u32 == (b >> 17u32) & 1u32,
        (a >> 18u32) & 1u32 == (b >> 18u32) & 1u32,
    ensures
        a == b,
{
}

/// A single bit is zero or one.
proof fn lemma_bit_is_zero_or_one(bits: u32, j: u32)
    by (bit_vector)
    ensures
        (bits >> j) & 1u32 == 1u32 || (bits >> j) & 1u32 == 0u32,
{
}

/// A set of gizmo modes, stored as one bit per mode.
#[derive(Debug, Clone, Copy)]
pub struct GizmoModes {
    bits: u32,
}

impl View for GizmoModes {
    type V = Set<GizmoMode>;

    closed spec fn view(&self) -> Set<GizmoMode> {
        Set::new(|m: GizmoMode| has_bit(self.bits, m.index()))
    }
}

impl PartialEq for GizmoModes {
    fn eq(&self, other: &GizmoModes) -> (r: bool) {
        proof {
            use_type_invariant(self);
            use_type_invariant(other);
            self.lemma_same_view_same_bits(*other);
        }
        self.bits == other.bits
    }
}

impl vstd::std_specs::cmp::PartialEqSpecImpl for GizmoModes {
    open spec fn obeys_eq_spec() -> bool {
        true
    }

    open spec fn eq_spec(&self, other: &GizmoModes) -> bool {
        self@ == other@
    }
}

impl Eq for GizmoModes {
}

impl GizmoModes {
    /// Only the bits of existing modes are set.
    #[verifier::type_invariant]
    spec fn inv(self) -> bool {
        self.bits < 0x80000u32
    }

    /// Two well-formed sets hold the same modes exactly when their bits are equal.
    proof fn lemma_same_view_same_bits(self, other: GizmoModes)
        requires
            self.inv(),
            other.inv(),
        ensures
            (self@ == other@) == (self.bits == other.bits),
    {
        if self@ == other@ {
            assert forall|i: u32| i < MODE_COUNT implies (self.bits >> i) & 1u32 == (other.bits
                >> i) & 1u32 by {
                let m = GizmoMode::from_index_spec(i);
                assert(self@.contains(m) == other@.contains(m));
                lemma_bit_is_zero_or_one(self.bits, i);
                lemma_bit_is_zero_or_one(other.bits, i);
            }
            lemma_same_bits(self.bits, other.bits);
        }
    }

    /// The empty set.
    pub fn empty() -> (r: GizmoModes)
        ensures
            r@ == Set::<GizmoMode>::empty(),
    {
        let r = GizmoModes { bits: 0 };
        assert forall|m: GizmoMode| !r@.contains(m) by {
            lemma_no_bits(m.index());
        }
        assert(r@ =~= Set::<GizmoMode>::empty());
        r
    }

    /// The set holding only `mode`.
    pub fn only(mode: GizmoMode) -> (r: GizmoModes)
        ensures
            r@ == set![mode],
    {
        let mut r = GizmoModes::empty();
        r.insert(mode);
        assert(r@ =~= set![mode]);
        r
    }

    /// Whether `mode` is in the set.
    pub fn contains(&self, mode: GizmoMode) -> (r: bool)
        ensures
            r == self@.contains(mode),
    {
        let i = mode.bit_index();
        (self.bits >> i) & 1u32 == 1u32
    }

    /// Adds `mode` to the set.
    pub fn insert(&mut self, mode: GizmoMode)
        ensures
            final(self)@ == old(self)@.insert(mode),
    {
        proof {
            use_type_invariant(&*self);
        }
        let i = mode.bit_index();
        let bits = self.bits | (1u32 << i);
        proof {
            lemma_bit_bounds(self.bits, i);
            assert forall|m: GizmoMode| #[trigger] has_bit(bits, m.index()) == (m == mode || self@.contains(m)) by {
                lemma_bit_insert(self.bits, i, m.index());
                crate::modes::lemma_index_round_trip(m);
                crate::modes::lemma_index_round_trip(mode);
            }
        }
        *self = GizmoModes { bits };
        assert(self@ =~= old(self)@.insert(mode));
    }

    /// Removes `mode` from the set.
    pub fn remove(&mut self, mode: GizmoMode)
        ensures
            final(self)@ == old(self)@.remove(mode),
    {
        proof {
            use_type_invariant(&*self);
        }
        let i = mode.bit_index();
        let bits = self.bits & !(1u32 << i);
        proof {
            lemma_bit_bounds(self.bits, i);
            assert forall|m: GizmoMode| #[trigger] has_bit(bits, m.index()) == (m != mode && self@.contains(m)) by {
                lemma_bit_remove(self.bits, i, m.index());
                crate::modes::lemma_index_round_trip(m);
                crate::modes::lemma_index_round_trip(mode);
            }
        }
        *self = GizmoModes { bits };
        assert(self@ =~= old(self)@.remove(mode));
    }

    /// Number of modes in the set.
    pub fn len(&self) -> (r: usize)
        ensures
            self@.finite(),
            r == self@.len(),
    {
        let mut count: usize = 0;
        let mut i: u32 = 0;
        let ghost mut seen: Set<GizmoMode> = Set::empty();
        while i < MODE_COUNT
            invariant
                i <= MODE_COUNT,
                seen == Set::new(|m: GizmoMode| self@.contains(m) && m.index() < i),
                seen.finite(),
                count == seen.len(),
                count <= i,
            decreases MODE_COUNT - i,
        {
            let m = GizmoMode::from_index(i);
            let ghost next = Set::new(|x: GizmoMode| self@.contains(x) && x.index() < i + 1);
            if (self.bits >> i) & 1u32 == 1u32 {
                proof {
                    assert(!seen.contains(m));
                    assert(next =~= seen.insert(m));
                }
                count = count + 1;
            } else {
                proof {
                    assert(next =~= seen);
                }
            }
            proof {
                seen = next;
            }
            i = i + 1;
        }
        assert(seen =~= self@);
        count
    }

    /// Whether the set holds no mode.
    pub fn is_empty(&self) -> (r: bool)
        ensures
            r == (self@ == Set::<GizmoMode>::empty()),
    {
        proof {
            use_type_invariant(self);
            let e = GizmoModes { bits: 0 };
            assert forall|m: GizmoMode| !e@.contains(m) by {
                lemma_no_bits(m.index());
            }
            assert(e@ =~= Set::<GizmoMode>::empty());
            self.lemma_same_view_same_bits(e);
        }
        self.bits == 0
    }

    /// Every mode.
    pub fn all() -> (r: GizmoModes)
        ensures
            r@ == Set::<GizmoMode>::full(),
    {
        let r = GizmoModes { bits: 0x7FFFFu32 };
        assert forall|m: GizmoMode| r@.contains(m) by {
            lemma_mask_bits(m.index());
        }
        assert(r@ =~= Set::<GizmoMode>::full());
        r
    }

    /// Every mode of the given kind.
    pub fn all_of_kind(kind: GizmoModeKind) -> (r: GizmoModes)
        ensures
            r@ == Set::new(|m: GizmoMode| m.kind_spec() == kind),
    {
        let bits: u32 = match kind {
            GizmoModeKind::Rotate => 0xFu32,
            GizmoModeKind::Translate => 0x7F0u32,
            GizmoModeKind::Scale => 0x3F800u32,
            GizmoModeKind::Arcball => 0x40000u32,
        };
        let r = GizmoModes { bits };
        assert forall|m: GizmoMode| r@.contains(m) == (m.kind_spec() == kind) by {
            lemma_mask_bits(m.index());
            if kind == GizmoModeKind::Arcball {
                assert(((0x40000u32 >> m.index()) & 1u32 == 1u32) == (m.index() == 18)) by {
                    lemma_arcball_bit(m.index());
                }
            }
        }
        assert(r@ =~= Set::new(|m: GizmoMode| m.kind_spec() == kind));
        r
    }
}

/// The arcball mask holds only the arcball position.
proof fn lemma_arcball_bit(j: u32)
    by (bit_vector)
    requires
        j < 19,
    ensures
        ((0x40000u32 >> j) & 1u32 == 1u32) == (j == 18),
{
}

/// A set of gizmo directions.
#[derive(Debug, Clone, Copy, PartialEq, Eq, Structural, Hash)]
pub struct GizmoDirections {
    x: bool,
    y: bool,
    z: bool,
    view: bool,
}

impl View for GizmoDirections {
    type V = Set<GizmoDirection>;

    closed spec fn view(&self) -> Set<GizmoDirection> {
        Set::new(
            |d: GizmoDirection|
                match d {
                    GizmoDirection::X => self.x,
                    GizmoDirection::Y => self.y,
                    GizmoDirection::Z => self.z,
                    GizmoDirection::View => self.view,
                },
        )
    }
}

impl GizmoDirections {
    /// Two direction sets are equal exactly when they hold the same directions.
    pub proof fn lemma_view_injective(self, other: GizmoDirections)
        ensures
            (self@ == other@) == (self == other),
    {
        if self@ == other@ {
            assert(self@.contains(GizmoDirection::X) == other@.contains(GizmoDirection::X));
            assert(self@.contains(GizmoDirection::Y) == other@.contains(GizmoDirection::Y));
            assert(self@.contains(GizmoDirection::Z) == other@.contains(GizmoDirection::Z));
            assert(self@.contains(GizmoDirection::View) == other@.contains(GizmoDirection::View));
        }
    }

    /// The set holding the given directions.
    pub fn new(x: bool, y: bool, z: bool, view: bool) -> (r: GizmoDirections)
        ensures
            r@.contains(GizmoDirection::X) == x,
            r@.contains(GizmoDirection::Y) == y,
            r@.contains(GizmoDirection::Z) == z,
            r@.contains(GizmoDirection::View) == view,
    {
        GizmoDirections { x, y, z, view }
    }

    /// The empty set.
    pub fn empty() -> (r: GizmoDirections)
        ensures
            r@ == Set::<GizmoDirection>::empty(),
    {
        let r = GizmoDirections { x: false, y: false, z: false, view: false };
        assert(r@ =~= Set::<GizmoDirection>::empty());
        r
    }

    /// Whether the set holds no direction.
    pub fn is_empty(&self) -> (r: bool)
        ensures
            r == (self@ == Set::<GizmoDirection>::empty()),
    {
        proof {
            if self@ == Set::<GizmoDirection>::empty() {
                assert(!self@.contains(GizmoDirection::X));
                assert(!self@.contains(GizmoDirection::Y));
                assert(!self@.contains(GizmoDirection::Z));
                assert(!self@.contains(GizmoDirection::View));
            }
            if !self.x && !self.y && !self.z && !self.view {
                assert(self@ =~= Set::<GizmoDirection>::empty());
            }
        }
        !self.x && !self.y && !self.z && !self.view
    }

    /// Whether `direction` is in the set.
    pub fn contains(&self, direction: GizmoDirection) -> (r: bool)
        ensures
            r == self@.contains(direction),
    {
        match direction {
            GizmoDirection::X => self.x,
            GizmoDirection::Y => self.y,
            GizmoDirection::Z => self.z,
            GizmoDirection::View => self.view,
        }
    }
}

impl GizmoMode {
    /// All modes
    pub fn all() -> (r: GizmoModes)
        ensures
            r@ == Set::<GizmoMode>::full(),
    {
        GizmoModes::all()
    }

    /// All rotation modes
    pub fn all_rotate() -> (r: GizmoModes)
        ensures
            r@ == Set::new(|m: GizmoMode| m.kind_spec() == GizmoModeKind::Rotate),
    {
        GizmoModes::all_of_kind(GizmoModeKind::Rotate)
    }

    /// All translation modes
    pub fn all_translate() -> (r: GizmoModes)
        ensures
            r@ == Set::new(|m: GizmoMode| m.kind_spec() == GizmoModeKind::Translate),
    {
        GizmoModes::all_of_kind(GizmoModeKind::Translate)
    }

    /// All scaling modes
    pub fn all_scale() -> (r: GizmoModes)
        ensures
            r@ == Set::new(|m: GizmoMode| m.kind_spec() == GizmoModeKind::Scale),
    {
        GizmoModes::all_of_kind(GizmoModeKind::Scale)
    }

    /// Axes this mode acts on
    pub fn axes(&self) -> (r: GizmoDirections)
        ensures
            r@ == self.axes_spec(),
    {
        let r = match self {
            GizmoMode::RotateX | GizmoMode::TranslateX | GizmoMode::ScaleX => GizmoDirections::new(
                true,
                false,
                false,
                false,
            ),
            GizmoMode::RotateY | GizmoMode::TranslateY | GizmoMode::ScaleY => GizmoDirections::new(
                false,
                true,
                false,
                false,
            ),
            GizmoMode::RotateZ | GizmoMode::TranslateZ | GizmoMode::ScaleZ => GizmoDirections::new(
                false,
                false,
                true,
                false,
            ),
            GizmoMode::RotateView | GizmoMode::TranslateView => GizmoDirections::new(
                false,
                false,
                false,
                true,
            ),
            GizmoMode::ScaleUniform | GizmoMode::Arcball => GizmoDirections::new(
                true,
                true,
                true,
                false,
            ),
            GizmoMode::TranslateXY | GizmoMode::ScaleXY => GizmoDirections::new(
                true,
                true,
                false,
                false,
            ),
            GizmoMode::TranslateXZ | GizmoMode::ScaleXZ => GizmoDirections::new(
                true,
                false,
                true,
                false,
            ),
            GizmoMode::TranslateYZ | GizmoMode::ScaleYZ => GizmoDirections::new(
                false,
                true,
                true,
                false,
            ),
        };
        assert(r@ =~= self.axes_spec());
        r
    }

    /// Returns the modes that match to given axes exactly
    pub fn all_from_axes(axes: GizmoDirections) -> (r: GizmoModes)
        ensures
            r@ == Set::new(|m: GizmoMode| m.axes_spec() == axes@),
    {
        let mut r = GizmoModes::empty();
        let mut i: u32 = 0;
        while i < MODE_COUNT
            invariant
                i <= MODE_COUNT,
                r@ == Set::new(|m: GizmoMode| m.index() < i && m.axes_spec() == axes@),
            decreases MODE_COUNT - i,
        {
            let mode = GizmoMode::from_index(i);
            let mode_axes = mode.axes();
            proof {
                mode_axes.lemma_view_injective(axes);
            }
            let ghost prev = r@;
            if mode_axes == axes {
                r.insert(mode);
            }
            proof {
                assert forall|m: GizmoMode| #[trigger] r@.contains(m) == (m.index() < i + 1
                    && m.axes_spec() == axes@) by {
                    crate::modes::lemma_index_round_trip(m);
                }
            }
            assert(r@ =~= Set::new(|m: GizmoMode| m.index() < i + 1 && m.axes_spec() == axes@));
            i = i + 1;
        }
        proof {
            assert forall|m: GizmoMode| #[trigger] r@.contains(m) == (m.axes_spec() == axes@) by {
                crate::modes::lemma_index_round_trip(m);
            }
        }
        assert(r@ =~= Set::new(|m: GizmoMode| m.axes_spec() == axes@));
        r
    }
}

} // verus!
