use vstd::prelude::*;

use crate::command::StateError;
use crate::document::{DocState, Document};
use crate::editing::{with_sheet, with_transient, with_view, workbench_animation, workbench_frame};
use crate::geometry::{clamp_i32, Vec2};
use crate::selection::SelectionModel;
use crate::sheet::{AnimationModel, FrameModel, Hitbox, HitboxModel, KeyframeModel, SheetModel};
use crate::transient::{
    find_hitbox_snapshot, find_keyframe_snapshot, hitbox_snapshot_pos, keyframe_snapshot_pos,
    KeyframeSnapshot, Transient, TransientModel,
};
use crate::view_state::{screen_to_sheet, to_sheet_units, trunc_div, ViewModel};

verus! {

/// The selected keyframe positions, when keyframes are selected.
pub open spec fn selected_keyframes(s: DocState) -> Result<Seq<usize>, StateError> {
    match s.view.selection {
        Some(SelectionModel::Keyframe(sel)) => Ok(sel.items),
        _ => Err(StateError::NoKeyframeSelected),
    }
}

/// The selected hitbox names, when hitboxes are selected.
pub open spec fn selected_hitboxes(s: DocState) -> Result<Seq<Seq<char>>, StateError> {
    match s.view.selection {
        Some(SelectionModel::Hitbox(sel)) => Ok(sel.items),
        _ => Err(StateError::NoHitboxSelected),
    }
}

pub open spec fn snapshot_of(ks: Seq<KeyframeModel>, k: usize) -> KeyframeSnapshot {
    KeyframeSnapshot { index: k, duration: ks[k as int].duration, offset: ks[k as int].offset }
}

pub open spec fn all_below(items: Seq<usize>, n: int) -> bool {
    forall|j: int| 0 <= j < items.len() ==> (#[trigger] items[j]) < n
}

/// Begins dragging the end of a keyframe: remembers each selected keyframe as it is.
pub open spec fn begin_duration_drag_effect(
    s: DocState,
    frame_being_dragged: usize,
    reference_clock: u32,
) -> Result<DocState, StateError> {
    match workbench_animation(s) {
        Err(e) => Err(e),
        Ok(name) => match selected_keyframes(s) {
            Err(e) => Err(e),
            Ok(items) => {
                let ks = s.sheet.animation(name).keyframes;
                if !all_below(items, ks.len() as int) {
                    Err(StateError::InvalidKeyframeIndex)
                } else {
                    Ok(
                        with_transient(
                            s,
                            Some(
                                TransientModel::KeyframeDuration {
                                    initial: items.map_values(|k: usize| snapshot_of(ks, k)),
                                    frame_being_dragged,
                                    reference_clock,
                                },
                            ),
                        ),
                    )
                }
            },
        },
    }
}

/// How many of `items[..n]` are at most `d`.
pub open spec fn count_at_most(items: Seq<usize>, d: usize, n: int) -> int
    decreases n,
{
    if n <= 0 {
        0
    } else {
        count_at_most(items, d, n - 1) + if items[n - 1] <= d {
            1int
        } else {
            0int
        }
    }
}

/// `old + delta`, held between `minimum` and the largest `u32`.
pub open spec fn dragged_duration(old: u32, delta: int, minimum: u32) -> u32 {
    let d = old + delta;
    if d < minimum {
        minimum
    } else if d > u32::MAX {
        u32::MAX
    } else {
        d as u32
    }
}

pub open spec fn has_all_snapshots(snap: Seq<KeyframeSnapshot>, items: Seq<usize>) -> bool {
    forall|j: int| 0 <= j < items.len() ==> keyframe_snapshot_pos(snap, #[trigger] items[j]) >= 0
}

/// How a gesture changes one keyframe, from what it was when the gesture began.
pub enum KeyframeEdit {
    /// Duration changed by a share, held to at least a minimum, for keyframes at or before
    /// the one dragged.
    Duration(i64, u32, usize),
    /// Moved by a distance in sheet pixels.
    Offset(Vec2),
}

pub open spec fn keyframe_edit_bounded(e: KeyframeEdit) -> bool {
    match e {
        KeyframeEdit::Duration(share, _, _) => -0x1_0000_0000 <= share <= 0x1_0000_0000,
        KeyframeEdit::Offset(_) => true,
    }
}

pub open spec fn edited_keyframe(k: KeyframeModel, snap: KeyframeSnapshot, edit: KeyframeEdit) -> KeyframeModel {
    match edit {
        KeyframeEdit::Duration(share, minimum, dragged) => if snap.index <= dragged {
            KeyframeModel { duration: dragged_duration(snap.duration, share as int, minimum), ..k }
        } else {
            k
        },
        KeyframeEdit::Offset(d) => KeyframeModel { offset: snap.offset.saturating_sum(d), ..k },
    }
}

/// `ks` with each keyframe in `items` edited from its snapshot in `initial`.
pub open spec fn edited_keyframes(
    ks: Seq<KeyframeModel>,
    items: Seq<usize>,
    initial: Seq<KeyframeSnapshot>,
    edit: KeyframeEdit,
) -> Seq<KeyframeModel> {
    Seq::new(
        ks.len(),
        |k: int|
            if items.contains(k as usize) {
                edited_keyframe(ks[k], initial[keyframe_snapshot_pos(initial, k as usize)], edit)
            } else {
                ks[k]
            },
    )
}

/// Continues a duration drag. The clock moved by `clock_at_cursor - reference_clock` since
/// the drag began; that change is split evenly (rounding toward zero) among the selected
/// keyframes at or before the dragged one, and each of those gets its initial duration plus
/// that share, held to at least `minimum_duration`; selected keyframes after the dragged one
/// keep their duration. The playhead goes to the
/// start of the keyframe touched last.
pub open spec fn update_duration_drag_effect(
    s: DocState,
    clock_at_cursor: u32,
    minimum_duration: u32,
) -> Result<DocState, StateError> {
    match workbench_animation(s) {
        Err(e) => Err(e),
        Ok(name) => match s.view.selection {
            Some(SelectionModel::Keyframe(sel)) => match s.transient {
                Some(TransientModel::KeyframeDuration { initial, frame_being_dragged, reference_clock }) => {
                    let a = s.sheet.animation(name);
                    let ks = a.keyframes;
                    if !all_below(sel.items, ks.len() as int) {
                        Err(StateError::InvalidKeyframeIndex)
                    } else if !has_all_snapshots(initial, sel.items) {
                        Err(StateError::MissingKeyframeDurationData)
                    } else if sel.last_touched >= ks.len() {
                        Err(StateError::InvalidKeyframeIndex)
                    } else {
                        let n = count_at_most(sel.items, frame_being_dragged, sel.items.len() as int);
                        let share = trunc_div(
                            clock_at_cursor - reference_clock,
                            if n > 1 { n } else { 1 },
                        );
                        let new_ks = edited_keyframes(
                            ks,
                            sel.items,
                            initial,
                            KeyframeEdit::Duration(share as i64, minimum_duration, frame_being_dragged),
                        );
                        let new_a = AnimationModel { keyframes: new_ks, ..a };
                        Ok(
                            with_view(
                                with_sheet(s, s.sheet.with_animation(name, new_a)),
                                ViewModel {
                                    timeline_clock: new_a.start(sel.last_touched as int) as u128,
                                    ..s.view
                                },
                            ),
                        )
                    }
                },
                _ => Err(StateError::NotAdjustingKeyframeDuration),
            },
            _ => Err(StateError::NoKeyframeSelected),
        },
    }
}

impl Document {
    pub fn begin_keyframe_duration_drag(
        &mut self,
        frame_being_dragged: usize,
        reference_clock: u32,
    ) -> (r: Result<(), StateError>)
        ensures
            final(self).outcome(
                *old(self),
                r,
                begin_duration_drag_effect(old(self).state(), frame_being_dragged, reference_clock),
            ),
    {
        let a = match self.workbench_animation_position() {
            Ok(a) => a,
            Err(e) => return Err(e),
        };
        let items = match &self.view.selection {
            Some(crate::selection::Selection::Keyframe(sel)) => &sel.items,
            _ => return Err(StateError::NoKeyframeSelected),
        };
        let ghost ks = self.sheet@.animations[a as int].keyframes;
        let n = self.sheet.animations[a].keyframes.len();
        let mut initial: Vec<KeyframeSnapshot> = Vec::new();
        let mut j: usize = 0;
        while j < items.len()
            invariant
                0 <= j <= items@.len(),
                n == ks.len(),
                a < self.sheet@.animations.len(),
                ks == self.sheet@.animations[a as int].keyframes,
                *self == *old(self),
                workbench_animation(self.state()) is Ok,
                ks == self.sheet@.animation(workbench_animation(self.state())->Ok_0).keyframes,
                selected_keyframes(self.state()) == Ok::<Seq<usize>, StateError>(items@),
                forall|i: int| 0 <= i < j ==> (#[trigger] items@[i]) < n,
                initial@ == items@.take(j as int).map_values(|k: usize| snapshot_of(ks, k)),
            decreases items@.len() - j,
        {
            let k = items[j];
            if k >= n {
                assert(!all_below(items@, n as int));
                return Err(StateError::InvalidKeyframeIndex);
            }
            let kf = &self.sheet.animations[a].keyframes[k];
            initial.push(KeyframeSnapshot { index: k, duration: kf.duration, offset: kf.offset });
            assert(items@.take(j + 1) == items@.take(j as int).push(k));
            assert(initial@ =~= items@.take(j + 1).map_values(|k: usize| snapshot_of(ks, k)));
            j += 1;
        }
        assert(items@.take(j as int) == items@);
        self.transient = Some(
            Transient::KeyframeDuration { initial, frame_being_dragged, reference_clock },
        );
        Ok(())
    }


}

pub proof fn lemma_push_contains<A>(s: Seq<A>, k: A, x: A)
    ensures
        s.push(k).contains(x) <==> (s.contains(x) || x == k),
{
    if s.contains(x) {
        let i = choose|i: int| 0 <= i < s.len() && s[i] == x;
        assert(s.push(k)[i] == x);
    }
    if x == k {
        assert(s.push(k)[s.len() as int] == x);
    }
    if s.push(k).contains(x) {
        let i = choose|i: int| 0 <= i < s.len() + 1 && s.push(k)[i] == x;
        if i < s.len() {
            assert(s[i] == x);
        }
    }
}

pub(crate) fn all_keyframes_below(items: &Vec<usize>, n: usize) -> (r: bool)
    ensures
        r == all_below(items@, n as int),
{
    let mut j: usize = 0;
    while j < items.len()
        invariant
            0 <= j <= items@.len(),
            forall|i: int| 0 <= i < j ==> (#[trigger] items@[i]) < n,
        decreases items@.len() - j,
    {
        if items[j] >= n {
            return false;
        }
        j += 1;
    }
    true
}

fn all_snapshotted(initial: &Vec<KeyframeSnapshot>, items: &Vec<usize>) -> (r: bool)
    ensures
        r == has_all_snapshots(initial@, items@),
{
    let mut j: usize = 0;
    while j < items.len()
        invariant
            0 <= j <= items@.len(),
            forall|i: int|
                0 <= i < j ==> keyframe_snapshot_pos(initial@, #[trigger] items@[i]) >= 0,
        decreases items@.len() - j,
    {
        let found = find_keyframe_snapshot(initial, items[j]);
        if found.is_none() {
            return false;
        }
        proof {
            crate::sheet::lemma_position_of_bounds(initial@.map_values(|s: KeyframeSnapshot| s.index), items@[j as int]);
        }
        j += 1;
    }
    true
}

fn count_up_to(items: &Vec<usize>, d: usize) -> (r: u64)
    ensures
        r == count_at_most(items@, d, items@.len() as int),
        r <= items@.len(),
{
    let mut count: u64 = 0;
    let mut j: usize = 0;
    while j < items.len()
        invariant
            0 <= j <= items@.len(),
            count == count_at_most(items@, d, j as int),
            count <= j,
        decreases items@.len() - j,
    {
        if items[j] <= d {
            count = count + 1;
        }
        j += 1;
    }
    count
}

/// The truncating quotient of `a` by `b`.
fn quotient(a: i64, b: i64) -> (r: i64)
    requires
        b >= 1,
        -0x1_0000_0000 <= a <= 0x1_0000_0000,
    ensures
        r == trunc_div(a as int, b as int),
        -0x1_0000_0000 <= r <= 0x1_0000_0000,
{
    let r = if a >= 0 {
        a / b
    } else {
        -((-a) / b)
    };
    assert(-0x1_0000_0000 <= r <= 0x1_0000_0000) by (nonlinear_arith)
        requires
            -0x1_0000_0000 <= a <= 0x1_0000_0000,
            b >= 1,
            r == trunc_div(a as int, b as int),
    ;
    r
}

fn edit_keyframe(k: &mut crate::sheet::Keyframe, snap: KeyframeSnapshot, edit: &KeyframeEdit)
    requires
        keyframe_edit_bounded(*edit),
    ensures
        final(k)@ == edited_keyframe(old(k)@, snap, *edit),
{
    match edit {
        KeyframeEdit::Duration(share, minimum, dragged) => {
            if snap.index <= *dragged {
                let sum: i64 = snap.duration as i64 + *share;
                k.duration = if sum < *minimum as i64 {
                    *minimum
                } else if sum > u32::MAX as i64 {
                    u32::MAX
                } else {
                    sum as u32
                };
            }
        },
        KeyframeEdit::Offset(d) => {
            k.offset = snap.offset.saturating_add(*d);
        },
    }
}

#[verifier::rlimit(50)]
pub(crate) fn apply_keyframe_edit(
    ks: &mut Vec<crate::sheet::Keyframe>,
    items: &Vec<usize>,
    initial: &Vec<KeyframeSnapshot>,
    edit: &KeyframeEdit,
)
    requires
        all_below(items@, old(ks)@.len() as int),
        has_all_snapshots(initial@, items@),
        keyframe_edit_bounded(*edit),
    ensures
        final(ks)@.map_values(|k: crate::sheet::Keyframe| k@) == edited_keyframes(
            old(ks)@.map_values(|k: crate::sheet::Keyframe| k@),
            items@,
            initial@,
            *edit,
        ),
{
    let ghost ks0 = old(ks)@.map_values(|k: crate::sheet::Keyframe| k@);
    let ghost target = edited_keyframes(ks0, items@, initial@, *edit);
    let mut j: usize = 0;
    while j < items.len()
        invariant
            0 <= j <= items@.len(),
            ks@.len() == ks0.len(),
            target == edited_keyframes(ks0, items@, initial@, *edit),
            target.len() == ks0.len(),
            all_below(items@, ks0.len() as int),
            has_all_snapshots(initial@, items@),
            keyframe_edit_bounded(*edit),
            forall|k: int|
                0 <= k < ks0.len() ==> (#[trigger] ks@[k])@ == if items@.take(j as int).contains(
                    k as usize,
                ) {
                    target[k]
                } else {
                    ks0[k]
                },
        decreases items@.len() - j,
    {
        let k = items[j];
        assert(k < ks0.len());
        let snap = find_keyframe_snapshot(initial, k);
        proof {
            assert(keyframe_snapshot_pos(initial@, items@[j as int]) >= 0);
        }
        let snap = snap.unwrap();
        assert(snap == initial@[keyframe_snapshot_pos(initial@, k)]);
        let ghost prev = ks@;
        edit_keyframe(&mut ks[k], snap, edit);
        proof {
            assert(items@.take(j + 1) =~= items@.take(j as int).push(k));
            assert(items@.contains(k)) by {
                assert(items@[j as int] == k);
            }
            assert forall|kk: int| 0 <= kk < ks0.len() implies (#[trigger] ks@[kk])@ == if items@.take(
                j + 1,
            ).contains(kk as usize) {
                target[kk]
            } else {
                ks0[kk]
            } by {
                lemma_push_contains(items@.take(j as int), k, kk as usize);
                assert(prev[kk]@ == if items@.take(j as int).contains(kk as usize) {
                    target[kk]
                } else {
                    ks0[kk]
                });
                assert(ks0.len() == ks.len());
                assert((kk as usize) as int == kk);
                if kk != k as int {
                    assert(ks@[kk] == prev[kk]);
                    assert((kk as usize) != k);
                } else {
                    assert((kk as usize) == k);
                    assert(items@.take(j + 1).contains(kk as usize));
                    match *edit {
                        KeyframeEdit::Duration(..) => {
                            assert(prev[kk]@.frame == ks0[kk].frame);
                            assert(prev[kk]@.offset == ks0[kk].offset);
                        },
                        KeyframeEdit::Offset(..) => {
                            assert(prev[kk]@.frame == ks0[kk].frame);
                            assert(prev[kk]@.duration == ks0[kk].duration);
                        },
                    }
                    assert(ks@[kk]@ == target[kk]);
                }
            }
        }
        j += 1;
    }
    proof {
        assert(items@.take(j as int) =~= items@);
        assert(ks@.map_values(|k: crate::sheet::Keyframe| k@) =~= target);
    }
}

impl Document {
    /// Continues a duration drag; see `update_duration_drag_effect`.
    #[verifier::rlimit(100)]
    pub fn update_keyframe_duration_drag(
        &mut self,
        clock_at_cursor: u32,
        minimum_duration: u32,
    ) -> (r: Result<(), StateError>)
        ensures
            final(self).outcome(
                *old(self),
                r,
                update_duration_drag_effect(old(self).state(), clock_at_cursor, minimum_duration),
            ),
    {
        let a = match self.workbench_animation_position() {
            Ok(a) => a,
            Err(e) => return Err(e),
        };
        let sel = match &self.view.selection {
            Some(crate::selection::Selection::Keyframe(sel)) => sel.clone(),
            _ => return Err(StateError::NoKeyframeSelected),
        };
        let (initial, dragged, reference) = match &self.transient {
            Some(Transient::KeyframeDuration { initial, frame_being_dragged, reference_clock }) => {
                let c = initial.clone();
                assert(c@ =~= initial@);
                (c, *frame_being_dragged, *reference_clock)
            },
            _ => return Err(StateError::NotAdjustingKeyframeDuration),
        };
        let n = self.sheet.animations[a].keyframes.len();
        if !all_keyframes_below(&sel.items, n) {
            return Err(StateError::InvalidKeyframeIndex);
        }
        if !all_snapshotted(&initial, &sel.items) {
            return Err(StateError::MissingKeyframeDurationData);
        }
        let last = sel.last_touched_in_range;
        if last >= n {
            return Err(StateError::InvalidKeyframeIndex);
        }
        let count = count_up_to(&sel.items, dragged);
        let divisor: i64 = if count > 0x2_0000_0000 {
            0x2_0000_0000
        } else if count > 1 {
            count as i64
        } else {
            1
        };
        let share = quotient(clock_at_cursor as i64 - reference as i64, divisor);
        proof {
            let delta = clock_at_cursor - reference;
            if count > 0x2_0000_0000 {
                assert(trunc_div(delta, count as int) == 0 && trunc_div(delta, 0x2_0000_0000) == 0)
                    by (nonlinear_arith)
                    requires
                        -0x1_0000_0000 <= delta <= 0x1_0000_0000,
                        count > 0x2_0000_0000,
                ;
            }
        }
        let ghost s0 = self.state();
        let ghost name = workbench_animation(s0)->Ok_0;
        let edit = KeyframeEdit::Duration(share, minimum_duration, dragged);
        apply_keyframe_edit(&mut self.sheet.animations[a].keyframes, &sel.items, &initial, &edit);
        proof {
            assert(self.sheet@.animations =~= s0.sheet.with_animation(
                name,
                AnimationModel {
                    keyframes: edited_keyframes(
                        s0.sheet.animation(name).keyframes,
                        sel@.items,
                        initial@,
                        edit,
                    ),
                    ..s0.sheet.animation(name)
                },
            ).animations);
        }
        let clock = self.sheet.animations[a].frame_start_time(last);
        self.view.timeline_clock = clock;
        Ok(())
    }
}

/// What each selected keyframe of the animation on the workbench is now.
pub open spec fn keyframe_snapshots(s: DocState) -> Result<Seq<KeyframeSnapshot>, StateError> {
    match workbench_animation(s) {
        Err(e) => Err(e),
        Ok(name) => match selected_keyframes(s) {
            Err(e) => Err(e),
            Ok(items) => {
                let ks = s.sheet.animation(name).keyframes;
                if !all_below(items, ks.len() as int) {
                    Err(StateError::InvalidKeyframeIndex)
                } else {
                    Ok(items.map_values(|k: usize| snapshot_of(ks, k)))
                }
            },
        },
    }
}

pub open spec fn begin_offset_drag_effect(s: DocState) -> Result<DocState, StateError> {
    match keyframe_snapshots(s) {
        Err(e) => Err(e),
        Ok(snap) => Ok(with_transient(s, Some(TransientModel::KeyframePosition(snap)))),
    }
}

/// Edits the selected keyframes of the animation on the workbench from snapshots.
#[verifier::opaque]
pub open spec fn keyframe_update_effect(
    s: DocState,
    snap: Result<Seq<KeyframeSnapshot>, StateError>,
    missing: StateError,
    edit: KeyframeEdit,
) -> Result<DocState, StateError> {
    match workbench_animation(s) {
        Err(e) => Err(e),
        Ok(name) => match selected_keyframes(s) {
            Err(e) => Err(e),
            Ok(items) => match snap {
                Err(e) => Err(e),
                Ok(snap) => {
                    let a = s.sheet.animation(name);
                    if !has_all_snapshots(snap, items) {
                        Err(missing)
                    } else if !all_below(items, a.keyframes.len() as int) {
                        Err(StateError::InvalidKeyframeIndex)
                    } else {
                        Ok(
                            with_sheet(
                                s,
                                s.sheet.with_animation(
                                    name,
                                    AnimationModel {
                                        keyframes: edited_keyframes(a.keyframes, items, snap, edit),
                                        ..a
                                    },
                                ),
                            ),
                        )
                    }
                },
            },
        },
    }
}

/// Moves each selected keyframe to its offset when the drag began plus the mouse movement
/// (on its larger axis unless `both_axis`), in sheet pixels rounded down.
pub open spec fn update_offset_drag_effect(s: DocState, delta: Vec2, both_axis: bool) -> Result<
    DocState,
    StateError,
> {
    let d = crate::hitbox_gestures::locked(delta, both_axis);
    let zoom = s.view.workbench_zoom_level;
    keyframe_update_effect(
        s,
        match s.transient {
            Some(TransientModel::KeyframePosition(snap)) => Ok(snap),
            _ => Err(StateError::NotAdjustingKeyframePosition),
        },
        StateError::MissingKeyframePositionData,
        KeyframeEdit::Offset(Vec2 { x: screen_to_sheet(zoom, d.x), y: screen_to_sheet(zoom, d.y) }),
    )
}

pub open spec fn snap_result(r: Result<Vec<KeyframeSnapshot>, StateError>) -> Result<
    Seq<KeyframeSnapshot>,
    StateError,
> {
    match r {
        Ok(v) => Ok(v@),
        Err(e) => Err(e),
    }
}

impl Document {
    fn selected_keyframe_indexes(&self) -> (r: Result<Vec<usize>, StateError>)
        ensures
            match selected_keyframes(self.state()) {
                Ok(n) => r is Ok && r->Ok_0@ == n,
                Err(e) => r == Err::<Vec<usize>, StateError>(e),
            },
    {
        match &self.view.selection {
            Some(crate::selection::Selection::Keyframe(sel)) => {
                let c = sel.clone();
                Ok(c.items)
            },
            _ => Err(StateError::NoKeyframeSelected),
        }
    }

    pub(crate) fn keyframe_snapshots_now(&self) -> (r: Result<Vec<KeyframeSnapshot>, StateError>)
        ensures
            snap_result(r) == keyframe_snapshots(self.state()),
    {
        let a = match self.workbench_animation_position() {
            Ok(a) => a,
            Err(e) => return Err(e),
        };
        let items = match self.selected_keyframe_indexes() {
            Ok(i) => i,
            Err(e) => return Err(e),
        };
        let ghost ks = self.sheet@.animations[a as int].keyframes;
        let n = self.sheet.animations[a].keyframes.len();
        if !all_keyframes_below(&items, n) {
            return Err(StateError::InvalidKeyframeIndex);
        }
        let mut snaps: Vec<KeyframeSnapshot> = Vec::new();
        let mut j: usize = 0;
        while j < items.len()
            invariant
                0 <= j <= items@.len(),
                n == ks.len(),
                a < self.sheet@.animations.len(),
                ks == self.sheet@.animations[a as int].keyframes,
                all_below(items@, n as int),
                snaps@.len() == j,
                forall|k: int| 0 <= k < j ==> #[trigger] snaps@[k] == snapshot_of(ks, items@[k]),
            decreases items@.len() - j,
        {
            let k = items[j];
            assert(k < n);
            let kf = &self.sheet.animations[a].keyframes[k];
            snaps.push(KeyframeSnapshot { index: k, duration: kf.duration, offset: kf.offset });
            j += 1;
        }
        assert(snaps@ =~= items@.map_values(|k: usize| snapshot_of(ks, k)));
        Ok(snaps)
    }

    pub fn begin_keyframe_offset_drag(&mut self) -> (r: Result<(), StateError>)
        ensures
            final(self).outcome(*old(self), r, begin_offset_drag_effect(old(self).state())),
    {
        match self.keyframe_snapshots_now() {
            Ok(snap) => {
                self.transient = Some(Transient::KeyframePosition(snap));
                Ok(())
            },
            Err(e) => Err(e),
        }
    }

    pub fn update_keyframes(
        &mut self,
        snap: Result<Vec<KeyframeSnapshot>, StateError>,
        missing: StateError,
        edit: KeyframeEdit,
    ) -> (r: Result<(), StateError>)
        requires
            keyframe_edit_bounded(edit),
        ensures
            final(self).outcome(
                *old(self),
                r,
                keyframe_update_effect(old(self).state(), snap_result(snap), missing, edit),
            ),
    {
        reveal(keyframe_update_effect);
        let a = match self.workbench_animation_position() {
            Ok(a) => a,
            Err(e) => return Err(e),
        };
        let items = match self.selected_keyframe_indexes() {
            Ok(i) => i,
            Err(e) => return Err(e),
        };
        let snap = match snap {
            Ok(s) => s,
            Err(e) => return Err(e),
        };
        if !all_snapshotted(&snap, &items) {
            return Err(missing);
        }
        if !all_keyframes_below(&items, self.sheet.animations[a].keyframes.len()) {
            return Err(StateError::InvalidKeyframeIndex);
        }
        let ghost s0 = self.state();
        apply_keyframe_edit(&mut self.sheet.animations[a].keyframes, &items, &snap, &edit);
        proof {
            let name = workbench_animation(s0)->Ok_0;
            assert(self.sheet@.animations =~= s0.sheet.with_animation(
                name,
                AnimationModel {
                    keyframes: edited_keyframes(s0.sheet.animation(name).keyframes, items@, snap@, edit),
                    ..s0.sheet.animation(name)
                },
            ).animations);
        }
        Ok(())
    }

    /// Continues a keyframe offset drag; see `update_offset_drag_effect`.
    pub fn update_keyframe_offset_drag(&mut self, mouse_delta: Vec2, both_axis: bool) -> (r: Result<
        (),
        StateError,
    >)
        ensures
            final(self).outcome(
                *old(self),
                r,
                update_offset_drag_effect(old(self).state(), mouse_delta, both_axis),
            ),
    {
        let d = crate::hitbox_gestures::lock_axis(mouse_delta, both_axis);
        let zoom = self.view.workbench_zoom_level;
        let edit = KeyframeEdit::Offset(Vec2 { x: to_sheet_units(zoom, d.x), y: to_sheet_units(zoom, d.y) });
        let snap = match &self.transient {
            Some(Transient::KeyframePosition(s)) => {
                let c = s.clone();
                assert(c@ =~= s@);
                Ok(c)
            },
            _ => Err(StateError::NotAdjustingKeyframePosition),
        };
        self.update_keyframes(snap, StateError::MissingKeyframePositionData, edit)
    }
}

} // verus!
