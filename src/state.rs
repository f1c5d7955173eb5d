use vstd::prelude::*;

use crate::config::{enabled_modes_spec, modes_changed_spec, ModeSelection};
use crate::layout::{layout_spec, subgizmo_layout, SubGizmoParams};
use crate::modes::GizmoMode;

verus! {

/// Identity and per-frame flags of one subgizmo.
#[derive(Debug, Clone, Copy, PartialEq, Eq, Structural)]
pub struct SubGizmoStatus {
    /// Kind and parameters, which also identify the subgizmo.
    pub params: SubGizmoParams,
    /// Whether this subgizmo is focused this frame
    pub focused: bool,
    /// Whether this subgizmo is being dragged
    pub active: bool,
}

/// Pointer state for one frame, as the caller reports it.
#[derive(Debug, Clone, Copy, PartialEq, Eq, Structural, Default)]
pub struct PointerState {
    /// Whether the gizmo is hovered this frame.
    pub hovered: bool,
    /// Whether dragging was started this frame.
    pub drag_started: bool,
    /// Whether the user is currently dragging.
    pub dragging: bool,
}

/// What the caller has to do after a frame's interaction was decided.
#[derive(Debug, Clone, Copy, PartialEq, Eq, Structural)]
pub struct FrameDecision {
    /// A drag began this frame: the start transforms of the targets and of
    /// the gizmo are to be recorded.
    pub drag_started: bool,
    /// The subgizmo whose drag update runs this frame, if any.
    pub update: Option<usize>,
}

/// The mathematical state of a gizmo's interaction.
pub struct GizmoStateView {
    pub modes: Set<GizmoMode>,
    pub mode_override: Option<GizmoMode>,
    pub subgizmos: Seq<SubGizmoStatus>,
    pub active: Option<usize>,
}

impl GizmoStateView {
    /// At most the subgizmo named by `active` is flagged active, and that
    /// index is in range.
    pub open spec fn well_formed(self) -> bool {
        &&& (self.active matches Some(a) ==> a < self.subgizmos.len())
        &&& forall|i: int|
            0 <= i < self.subgizmos.len() && (#[trigger] self.subgizmos[i]).active
                ==> self.active is Some && self.active->0 as int == i
    }

    /// Whether the mode override forces its single subgizmo active.
    pub open spec fn forced(self) -> bool {
        self.mode_override is Some
    }

    /// The same state with other subgizmo statuses.
    pub open spec fn with_subgizmos(self, subgizmos: Seq<SubGizmoStatus>) -> GizmoStateView {
        GizmoStateView { subgizmos, ..self }
    }

    /// The same state with another dragged subgizmo.
    pub open spec fn with_active(self, active: Option<usize>) -> GizmoStateView {
        GizmoStateView { active, ..self }
    }

    /// Whether any subgizmo is focused.
    pub open spec fn is_focused(self) -> bool {
        exists|i: int| 0 <= i < self.subgizmos.len() && (#[trigger] self.subgizmos[i]).focused
    }

    /// Whether subgizmo `i` is drawn: all are while none is dragged,
    /// else only the dragged one.
    pub open spec fn is_drawn(self, i: int) -> bool {
        self.active is None || self.subgizmos[i].active
    }
}

/// Fresh, unfocused and inactive statuses for the given subgizmos.
pub open spec fn fresh_statuses(layout: Seq<SubGizmoParams>) -> Seq<SubGizmoStatus> {
    layout.map_values(|p: SubGizmoParams| SubGizmoStatus { params: p, focused: false, active: false })
}

/// The state after the selection of modes becomes `selection`. A change of
/// modes discards the subgizmos and ends any drag; an empty subgizmo list
/// is then rebuilt from the enabled modes.
pub open spec fn update_modes_spec(
    s: GizmoStateView,
    modes: Set<GizmoMode>,
    mode_override: Option<GizmoMode>,
) -> GizmoStateView {
    let changed = modes_changed_spec(modes, mode_override, s.modes, s.mode_override);
    let kept = if changed {
        Seq::<SubGizmoStatus>::empty()
    } else {
        s.subgizmos
    };
    let active = if changed {
        None
    } else {
        s.active
    };
    let subgizmos = if kept.len() == 0 {
        fresh_statuses(layout_spec(enabled_modes_spec(modes, mode_override)))
    } else {
        kept
    };
    GizmoStateView { modes, mode_override, subgizmos, active }
}

/// Every subgizmo unfocused, all else kept.
pub open spec fn clear_focus(s: GizmoStateView) -> GizmoStateView {
    s.with_subgizmos(
        s.subgizmos.map_values(|st: SubGizmoStatus| SubGizmoStatus { focused: false, ..st }),
    )
}

/// The subgizmos to ray-test this frame: none while one is dragged or the
/// gizmo is not hovered; only the first under a mode override; else all.
pub open spec fn pick_targets_spec(s: GizmoStateView, hovered: bool) -> Seq<usize> {
    if s.active is Some || !hovered {
        Seq::empty()
    } else if s.forced() {
        if s.subgizmos.len() > 0 {
            seq![0usize]
        } else {
            Seq::empty()
        }
    } else {
        Seq::new(s.subgizmos.len(), |i: int| i as usize)
    }
}

/// The subgizmo under the pointer: the first one under a mode override,
/// else the nearest hit, `nearest` listing the hits from nearest to farthest.
pub open spec fn pick_candidate(s: GizmoStateView, nearest: Seq<usize>) -> Option<usize> {
    if s.forced() {
        if s.subgizmos.len() > 0 {
            Some(0usize)
        } else {
            None
        }
    } else if nearest.len() > 0 {
        Some(nearest[0])
    } else {
        None
    }
}

/// First half of a frame: with no drag under way and the gizmo hovered, the
/// candidate is focused, and it becomes the dragged one when a drag starts
/// (or an override forces it). The flag says whether a drag started.
pub open spec fn pick_stage(s: GizmoStateView, p: PointerState, nearest: Seq<usize>) -> (
    GizmoStateView,
    bool,
) {
    if s.active is None && p.hovered {
        match pick_candidate(s, nearest) {
            Some(c) => {
                let focused = s.with_subgizmos(
                    s.subgizmos.update(c as int, SubGizmoStatus { focused: true, ..s.subgizmos[c as int] }),
                );
                if p.drag_started || s.forced() {
                    (focused.with_active(Some(c)), true)
                } else {
                    (focused, false)
                }
            },
            None => (s, false),
        }
    } else {
        (s, false)
    }
}

/// Second half of a frame: the dragged subgizmo stays active and focused
/// and is updated while the drag goes on, else it is released.
pub open spec fn drag_stage(s: GizmoStateView, p: PointerState) -> (GizmoStateView, Option<usize>) {
    match s.active {
        Some(a) => if p.dragging || s.forced() {
            (
                s.with_subgizmos(
                    s.subgizmos.update(
                        a as int,
                        SubGizmoStatus { focused: true, active: true, ..s.subgizmos[a as int] },
                    ),
                ),
                Some(a),
            )
        } else {
            (
                s.with_subgizmos(
                    s.subgizmos.update(
                        a as int,
                        SubGizmoStatus { focused: false, active: false, ..s.subgizmos[a as int] },
                    ),
                ).with_active(None),
                None,
            )
        },
        None => (s, None),
    }
}

/// The state after a frame's interaction, and what the caller must do.
pub open spec fn interact_spec(s: GizmoStateView, p: PointerState, nearest: Seq<usize>) -> (
    GizmoStateView,
    FrameDecision,
) {
    let (picked, started) = pick_stage(s, p, nearest);
    let (dragged, update) = drag_stage(picked, p);
    (dragged, FrameDecision { drag_started: started, update })
}

/// Whether every listed hit names a subgizmo of `s`.
pub open spec fn hits_in_range(s: GizmoStateView, nearest: Seq<usize>) -> bool {
    forall|k: int| 0 <= k < nearest.len() ==> #[trigger] nearest[k] < s.subgizmos.len()
}

/// Picking keeps the state well formed and the subgizmo count.
proof fn lemma_pick_stage_well_formed(s: GizmoStateView, p: PointerState, nearest: Seq<usize>)
    requires
        s.well_formed(),
        hits_in_range(s, nearest),
    ensures
        pick_stage(s, p, nearest).0.well_formed(),
        pick_stage(s, p, nearest).0.subgizmos.len() == s.subgizmos.len(),
        pick_stage(s, p, nearest).0.mode_override == s.mode_override,
{
    let picked = pick_stage(s, p, nearest).0;
    if s.active is None && p.hovered {
        if let Some(c) = pick_candidate(s, nearest) {
            assert(c < s.subgizmos.len());
            assert forall|i: int| 0 <= i < picked.subgizmos.len() implies #[trigger] picked.subgizmos[i].active
                == s.subgizmos[i].active by {}
            assert forall|i: int| 0 <= i < s.subgizmos.len() implies !(#[trigger] s.subgizmos[i]).active by {}
        }
    }
}

/// Dragging or releasing keeps the state well formed.
proof fn lemma_drag_stage_well_formed(s: GizmoStateView, p: PointerState)
    requires
        s.well_formed(),
    ensures
        drag_stage(s, p).0.well_formed(),
{
    let dragged = drag_stage(s, p).0;
    if let Some(a) = s.active {
        assert forall|i: int|
            0 <= i < dragged.subgizmos.len() && (#[trigger] dragged.subgizmos[i]).active implies dragged.active is Some
            && dragged.active->0 as int == i by {
            if i != a as int {
                assert(s.subgizmos[i] == dragged.subgizmos[i]);
            }
        }
    }
}

/// Changing the modes in use ends any drag: afterwards no subgizmo is
/// dragged or flagged active, whatever the state was.
pub proof fn lemma_mode_change_ends_drag(
    s: GizmoStateView,
    modes: Set<GizmoMode>,
    mode_override: Option<GizmoMode>,
)
    requires
        modes_changed_spec(modes, mode_override, s.modes, s.mode_override),
    ensures
        update_modes_spec(s, modes, mode_override).active is None,
        forall|i: int|
            0 <= i < update_modes_spec(s, modes, mode_override).subgizmos.len() ==> !(
            #[trigger] update_modes_spec(s, modes, mode_override).subgizmos[i]).active,
{
}

/// In a well-formed state at most one subgizmo is active.
pub proof fn lemma_single_active(s: GizmoStateView)
    requires
        s.well_formed(),
    ensures
        forall|i: int, j: int|
            0 <= i < s.subgizmos.len() && 0 <= j < s.subgizmos.len() && (#[trigger] s.subgizmos[i]).active
                && (#[trigger] s.subgizmos[j]).active ==> i == j,
{
}

/// A frame without a drag, started from a state where nothing is being
/// dragged and no override forces a subgizmo, asks for no update and leaves
/// no subgizmo active; the same frame repeated gives the same state and the
/// same decision again.
pub proof fn lemma_idle_frame_is_stable(s: GizmoStateView, p: PointerState, nearest: Seq<usize>)
    requires
        s.well_formed(),
        hits_in_range(s, nearest),
        s.active is None,
        s.mode_override is None,
        !p.dragging,
    ensures
        ({
            let (s1, d1) = interact_spec(clear_focus(s), p, nearest);
            &&& d1.update is None
            &&& s1.active is None
            &&& s1.subgizmos.len() == s.subgizmos.len()
            &&& forall|i: int| 0 <= i < s1.subgizmos.len() ==> !(#[trigger] s1.subgizmos[i]).active
            &&& interact_spec(clear_focus(s1), p, nearest) == (s1, d1)
        }),
{
    let c0 = clear_focus(s);
    let (s1, d1) = interact_spec(c0, p, nearest);
    assert forall|i: int| 0 <= i < s.subgizmos.len() implies !(#[trigger] s.subgizmos[i]).active by {}
    assert forall|i: int| 0 <= i < s1.subgizmos.len() implies !(#[trigger] s1.subgizmos[i]).active by {
        assert(!s.subgizmos[i].active);
    }
    assert(clear_focus(s1).subgizmos =~= c0.subgizmos);
    assert(clear_focus(s1) == c0);
}

/// Deciding a frame keeps the state well formed: at most the subgizmo
/// that is being dragged is flagged active.
pub proof fn lemma_interact_preserves_well_formed(
    s: GizmoStateView,
    p: PointerState,
    nearest: Seq<usize>,
)
    requires
        s.well_formed(),
        hits_in_range(s, nearest),
    ensures
        interact_spec(s, p, nearest).0.well_formed(),
{
    lemma_pick_stage_well_formed(s, p, nearest);
    lemma_drag_stage_well_formed(pick_stage(s, p, nearest).0, p);
}

/// Interaction state of a gizmo: the enabled modes, one status per
/// subgizmo, and which subgizmo is being dragged.
#[derive(Debug, Clone)]
pub struct GizmoState {
    selection: ModeSelection,
    subgizmos: Vec<SubGizmoStatus>,
    active: Option<usize>,
}

impl View for GizmoState {
    type V = GizmoStateView;

    closed spec fn view(&self) -> GizmoStateView {
        GizmoStateView {
            modes: self.selection.modes@,
            mode_override: self.selection.mode_override,
            subgizmos: self.subgizmos@,
            active: self.active,
        }
    }
}

fn fresh_status_list(layout: Vec<SubGizmoParams>) -> (r: Vec<SubGizmoStatus>)
    ensures
        r@ == fresh_statuses(layout@),
{
    let mut r: Vec<SubGizmoStatus> = Vec::new();
    let mut i: usize = 0;
    while i < layout.len()
        invariant
            i <= layout@.len(),
            r@ == fresh_statuses(layout@.subrange(0, i as int)),
        decreases layout@.len() - i,
    {
        r.push(SubGizmoStatus { params: layout[i], focused: false, active: false });
        assert(fresh_statuses(layout@.subrange(0, i + 1)) =~= fresh_statuses(
            layout@.subrange(0, i as int),
        ).push(SubGizmoStatus { params: layout@[i as int], focused: false, active: false }));
        i = i + 1;
    }
    assert(layout@.subrange(0, i as int) =~= layout@);
    r
}

impl GizmoState {
    /// The interaction state is well formed.
    pub open spec fn wf(&self) -> bool {
        self@.well_formed()
    }

    /// The state of a new gizmo: the subgizmos of the enabled modes, none
    /// of them focused or dragged.
    pub fn new(selection: ModeSelection) -> (r: GizmoState)
        ensures
            r.wf(),
            r@.modes == selection.modes@,
            r@.mode_override == selection.mode_override,
            r@.subgizmos == fresh_statuses(
                layout_spec(enabled_modes_spec(selection.modes@, selection.mode_override)),
            ),
            r@.active is None,
    {
        let layout = subgizmo_layout(&selection.enabled_modes());
        let subgizmos = fresh_status_list(layout);
        GizmoState { selection, subgizmos, active: None }
    }

    /// Takes a new selection of modes. When the modes change, the
    /// subgizmos are rebuilt and any drag ends.
    pub fn update_modes(&mut self, selection: ModeSelection) -> (rebuilt: bool)
        requires
            old(self).wf(),
        ensures
            rebuilt == (modes_changed_spec(
                selection.modes@,
                selection.mode_override,
                old(self)@.modes,
                old(self)@.mode_override,
            ) || old(self)@.subgizmos.len() == 0),
            final(self).wf(),
            final(self)@ == update_modes_spec(old(self)@, selection.modes@, selection.mode_override),
            modes_changed_spec(
                selection.modes@,
                selection.mode_override,
                old(self)@.modes,
                old(self)@.mode_override,
            ) ==> final(self)@.active is None && forall|i: int|
                0 <= i < final(self)@.subgizmos.len() ==> !(
                #[trigger] final(self)@.subgizmos[i]).active,
    {
        if selection.modes_changed(&self.selection) {
            self.subgizmos.clear();
            self.active = None;
        }
        self.selection = selection;
        if self.subgizmos.len() == 0 {
            let layout = subgizmo_layout(&selection.enabled_modes());
            self.subgizmos = fresh_status_list(layout);
            self.active = None;
            true
        } else {
            false
        }
    }

    /// Starts a frame: every subgizmo loses focus. Returns whether no drag
    /// is under way, in which case the gizmo follows its targets this frame.
    pub fn begin_frame(&mut self) -> (r: bool)
        requires
            old(self).wf(),
        ensures
            final(self).wf(),
            final(self)@ == clear_focus(old(self)@),
            r == (old(self)@.active is None),
    {
        let ghost start = self.subgizmos@;
        let mut i: usize = 0;
        while i < self.subgizmos.len()
            invariant
                i <= self.subgizmos@.len(),
                self.subgizmos@.len() == start.len(),
                start == old(self).subgizmos@,
                self.active == old(self).active,
                self.selection == old(self).selection,
                forall|j: int|
                    0 <= j < start.len() ==> #[trigger] self.subgizmos@[j] == if j < i {
                        SubGizmoStatus { focused: false, ..start[j] }
                    } else {
                        start[j]
                    },
            decreases start.len() - i,
        {
            let mut st = self.subgizmos[i];
            st.focused = false;
            self.subgizmos.set(i, st);
            i = i + 1;
        }
        assert(self.subgizmos@ =~= start.map_values(
            |st: SubGizmoStatus| SubGizmoStatus { focused: false, ..st },
        ));
        proof {
            assert forall|j: int|
                0 <= j < self.subgizmos@.len() && (#[trigger] self.subgizmos@[j]).active implies self.active is Some
                && self.active->0 as int == j by {
                assert(start[j].active);
            }
        }
        self.active.is_none()
    }

    /// The subgizmos the caller ray-tests this frame, by index.
    pub fn pick_targets(&self, hovered: bool) -> (r: Vec<usize>)
        ensures
            r@ == pick_targets_spec(self@, hovered),
    {
        let mut r: Vec<usize> = Vec::new();
        if self.active.is_some() || !hovered {
            return r;
        }
        if self.selection.mode_override.is_some() {
            if self.subgizmos.len() > 0 {
                r.push(0);
            }
            assert(r@ =~= pick_targets_spec(self@, hovered));
            return r;
        }
        let mut i: usize = 0;
        while i < self.subgizmos.len()
            invariant
                i <= self.subgizmos@.len(),
                r@ == Seq::new(i as nat, |k: int| k as usize),
            decreases self.subgizmos@.len() - i,
        {
            r.push(i);
            assert(r@ =~= Seq::new((i + 1) as nat, |k: int| k as usize));
            i = i + 1;
        }
        r
    }

    /// Decides the frame's interaction from the pointer state and the hits
    /// among the picked subgizmos, listed from nearest to farthest.
    pub fn interact(&mut self, pointer: PointerState, nearest: &Vec<usize>) -> (r: FrameDecision)
        requires
            old(self).wf(),
            hits_in_range(old(self)@, nearest@),
        ensures
            final(self).wf(),
            (final(self)@, r) == interact_spec(old(self)@, pointer, nearest@),
    {
        let forced = self.selection.mode_override.is_some();
        let mut started = false;
        if self.active.is_none() && pointer.hovered {
            let candidate: Option<usize> = if forced {
                if self.subgizmos.len() > 0 {
                    Some(0)
                } else {
                    None
                }
            } else if nearest.len() > 0 {
                Some(nearest[0])
            } else {
                None
            };
            if let Some(c) = candidate {
                let mut st = self.subgizmos[c];
                st.focused = true;
                self.subgizmos.set(c, st);
                if pointer.drag_started || forced {
                    self.active = Some(c);
                    started = true;
                }
            }
        }
        let ghost picked = self@;
        assert(pick_stage(old(self)@, pointer, nearest@) == (picked, started));
        let mut update: Option<usize> = None;
        if let Some(a) = self.active {
            let mut st = self.subgizmos[a];
            if pointer.dragging || forced {
                st.active = true;
                st.focused = true;
                self.subgizmos.set(a, st);
                update = Some(a);
            } else {
                st.active = false;
                st.focused = false;
                self.subgizmos.set(a, st);
                self.active = None;
            }
        }
        assert(drag_stage(picked, pointer) == (self@, update));
        proof {
            lemma_interact_preserves_well_formed(old(self)@, pointer, nearest@);
        }
        FrameDecision { drag_started: started, update }
    }

    /// Whether any subgizmo is focused after the latest frame.
    pub fn is_focused(&self) -> (r: bool)
        ensures
            r == self@.is_focused(),
    {
        let mut i: usize = 0;
        while i < self.subgizmos.len()
            invariant
                i <= self.subgizmos@.len(),
                forall|j: int| 0 <= j < i ==> !(#[trigger] self.subgizmos@[j]).focused,
            decreases self.subgizmos@.len() - i,
        {
            if self.subgizmos[i].focused {
                return true;
            }
            i = i + 1;
        }
        false
    }

    /// Whether subgizmo `i` is drawn this frame.
    pub fn is_drawn(&self, i: usize) -> (r: bool)
        requires
            i < self@.subgizmos.len(),
        ensures
            r == self@.is_drawn(i as int),
    {
        self.active.is_none() || self.subgizmos[i].active
    }

    /// Number of subgizmos.
    pub fn len(&self) -> (r: usize)
        ensures
            r == self@.subgizmos.len(),
    {
        self.subgizmos.len()
    }

    /// Status of subgizmo `i`.
    pub fn status(&self, i: usize) -> (r: SubGizmoStatus)
        requires
            i < self@.subgizmos.len(),
        ensures
            r == self@.subgizmos[i as int],
    {
        self.subgizmos[i]
    }

    /// The subgizmo being dragged, if any.
    pub fn active_index(&self) -> (r: Option<usize>)
        ensures
            r == self@.active,
    {
        self.active
    }

    /// The current selection of modes.
    pub fn selection(&self) -> (r: ModeSelection)
        ensures
            r.modes@ == self@.modes,
            r.mode_override == self@.mode_override,
    {
        self.selection
    }
}

} // verus!
