use vstd::prelude::*;

use crate::command::StateError;
use crate::document::{DocState, Document};
use crate::editing::{with_selection, with_sheet, workbench_animation, workbench_frame};
use crate::geometry::{clamp_i32, clamp_to_i32, Vec2};
use crate::gestures::{
    all_below, apply_keyframe_edit, edited_keyframes, keyframe_snapshots, snap_result, KeyframeEdit,
};
use crate::hitbox_gestures::{
    all_hitboxes_in, all_named_in, apply_hitbox_edit, edited_hitboxes, HitboxEdit,
};
use crate::selection::{Selection, SelectionModel};
use crate::sheet::{AnimationModel, FrameModel, Hitbox, HitboxModel, Keyframe, KeyframeModel, SheetModel};
use crate::transient::hitbox_snapshot_pos;

verus! {

pub open spec fn nudge_offset(direction: Vec2, large: bool) -> Vec2 {
    let amp: int = if large { 10 } else { 1 };
    Vec2 { x: clamp_i32(direction.x * amp), y: clamp_i32(direction.y * amp) }
}

/// Moves the selected hitboxes or keyframes by `direction`, ten times as far when `large`.
pub open spec fn nudge_effect(s: DocState, direction: Vec2, large: bool) -> Result<DocState, StateError> {
    let off = nudge_offset(direction, large);
    match s.view.selection {
        Some(SelectionModel::Hitbox(sel)) => if sel.items.len() == 0 {
            Ok(s)
        } else {
            match workbench_frame(s) {
                Err(e) => Err(e),
                Ok(p) => {
                    let f = s.sheet.frame(p);
                    if !all_hitboxes_in(f, sel.items) {
                        Err(StateError::InvalidHitboxName)
                    } else {
                        Ok(
                            with_sheet(
                                s,
                                s.sheet.with_frame(
                                    p,
                                    FrameModel {
                                        hitboxes: edited_hitboxes(
                                            f.hitboxes,
                                            sel.items,
                                            f.hitboxes,
                                            HitboxEdit::Move(off),
                                        ),
                                        ..f
                                    },
                                ),
                            ),
                        )
                    }
                },
            }
        },
        Some(SelectionModel::Keyframe(sel)) => if sel.items.len() == 0 {
            Ok(s)
        } else {
            match keyframe_snapshots(s) {
                Err(e) => Err(e),
                Ok(snap) => {
                    let name = workbench_animation(s)->Ok_0;
                    let a = s.sheet.animation(name);
                    Ok(
                        with_sheet(
                            s,
                            s.sheet.with_animation(
                                name,
                                AnimationModel {
                                    keyframes: edited_keyframes(
                                        a.keyframes,
                                        sel.items,
                                        snap,
                                        KeyframeEdit::Offset(off),
                                    ),
                                    ..a
                                },
                            ),
                        ),
                    )
                },
            }
        },
        _ => Ok(s),
    }
}

/// The sheet after removing, in turn, the first `n` animations named in `names`.
pub open spec fn without_animations(sh: SheetModel, names: Seq<Seq<char>>, n: int) -> SheetModel
    decreases n,
{
    if n <= 0 {
        sh
    } else {
        let prev = without_animations(sh, names, n - 1);
        if prev.has_animation(names[n - 1]) {
            SheetModel { animations: prev.animations.remove(prev.animation_pos(names[n - 1])), ..prev }
        } else {
            prev
        }
    }
}

/// The sheet after removing, in turn, the first `n` frames named in `paths`.
pub open spec fn without_frames(sh: SheetModel, paths: Seq<Seq<char>>, n: int) -> SheetModel
    decreases n,
{
    if n <= 0 {
        sh
    } else {
        let prev = without_frames(sh, paths, n - 1);
        if prev.has_frame(paths[n - 1]) {
            SheetModel { frames: prev.frames.remove(prev.frame_pos(paths[n - 1])), ..prev }
        } else {
            prev
        }
    }
}

/// The frame after removing, in turn, the first `n` hitboxes named in `names`.
pub open spec fn without_hitboxes(f: FrameModel, names: Seq<Seq<char>>, n: int) -> FrameModel
    decreases n,
{
    if n <= 0 {
        f
    } else {
        let prev = without_hitboxes(f, names, n - 1);
        if prev.has_hitbox(names[n - 1]) {
            FrameModel { hitboxes: prev.hitboxes.remove(prev.hitbox_pos(names[n - 1])), ..prev }
        } else {
            prev
        }
    }
}

/// The first `n` keyframes of `ks` whose positions are not in `items`, in order.
pub open spec fn kept_keyframes(ks: Seq<KeyframeModel>, items: Seq<usize>, n: int) -> Seq<
    KeyframeModel,
>
    decreases n,
{
    if n <= 0 {
        seq![]
    } else if items.contains((n - 1) as usize) {
        kept_keyframes(ks, items, n - 1)
    } else {
        kept_keyframes(ks, items, n - 1).push(ks[n - 1])
    }
}

/// Deletes what is selected, and clears the selection.
pub open spec fn delete_effect(s: DocState) -> Result<DocState, StateError> {
    match s.view.selection {
        Some(SelectionModel::Animation(sel)) => Ok(
            with_selection(
                with_sheet(s, without_animations(s.sheet, sel.items, sel.items.len() as int)),
                None,
            ),
        ),
        Some(SelectionModel::Frame(sel)) => Ok(
            with_selection(
                with_sheet(s, without_frames(s.sheet, sel.items, sel.items.len() as int)),
                None,
            ),
        ),
        Some(SelectionModel::Hitbox(sel)) => match workbench_frame(s) {
            Err(e) => Err(e),
            Ok(p) => Ok(
                with_selection(
                    with_sheet(
                        s,
                        s.sheet.with_frame(
                            p,
                            without_hitboxes(s.sheet.frame(p), sel.items, sel.items.len() as int),
                        ),
                    ),
                    None,
                ),
            ),
        },
        Some(SelectionModel::Keyframe(sel)) => match workbench_animation(s) {
            Err(e) => Err(e),
            Ok(name) => {
                let a = s.sheet.animation(name);
                Ok(
                    with_selection(
                        with_sheet(
                            s,
                            s.sheet.with_animation(
                                name,
                                AnimationModel {
                                    keyframes: kept_keyframes(
                                        a.keyframes,
                                        sel.items,
                                        a.keyframes.len() as int,
                                    ),
                                    ..a
                                },
                            ),
                        ),
                        None,
                    ),
                )
            },
        },
        None => Ok(with_selection(s, None)),
    }
}

pub(crate) fn keep_unselected(ks: &Vec<Keyframe>, items: &Vec<usize>) -> (r: Vec<Keyframe>)
    ensures
        r@.map_values(|k: Keyframe| k@) == kept_keyframes(
            ks@.map_values(|k: Keyframe| k@),
            items@,
            ks@.len() as int,
        ),
{
    let ghost km = ks@.map_values(|k: Keyframe| k@);
    let mut out: Vec<Keyframe> = Vec::new();
    let mut i: usize = 0;
    while i < ks.len()
        invariant
            0 <= i <= ks@.len(),
            km == ks@.map_values(|k: Keyframe| k@),
            out@.map_values(|k: Keyframe| k@) == kept_keyframes(km, items@, i as int),
        decreases ks@.len() - i,
    {
        let selected = crate::selection::IndexSelection::contains_in(items, i);
        if !selected {
            let k = ks[i].clone();
            out.push(k);
            assert(out@.map_values(|k: Keyframe| k@) =~= kept_keyframes(km, items@, i as int).push(
                km[i as int],
            ));
        }
        i += 1;
    }
    out
}

impl Document {
    #[verifier::rlimit(60)]
    pub fn nudge_selection(&mut self, direction: Vec2, large: bool) -> (r: Result<(), StateError>)
        ensures
            final(self).outcome(*old(self), r, nudge_effect(old(self).state(), direction, large)),
    {
        let amp: i64 = if large { 10 } else { 1 };
        let off = Vec2 {
            x: clamp_to_i32(direction.x as i64 * amp),
            y: clamp_to_i32(direction.y as i64 * amp),
        };
        let hitboxes = match &self.view.selection {
            Some(Selection::Hitbox(sel)) => Some(sel.clone()),
            _ => None,
        };
        if let Some(sel) = hitboxes {
            if sel.items.len() == 0 {
                return Ok(());
            }
            let f = match self.workbench_frame_position() {
                Ok(f) => f,
                Err(e) => return Err(e),
            };
            let ghost s0 = self.state();
            let ghost fm = self.sheet@.frames[f as int];
            proof {
                assert(fm.hitbox_names() =~= crate::hitbox_gestures::hitbox_names_of(self.sheet.frames@[f as int].hitboxes@.map_values(|h: Hitbox| h@)));
            }
            if !all_named_in(&self.sheet.frames[f].hitboxes, &sel.items) {
                return Err(StateError::InvalidHitboxName);
            }
            let snapshot = self.sheet.frames[f].hitboxes.clone();
            proof {
                let nm = sel@.items;
                let sn = snapshot@.map_values(|h: Hitbox| h@);
                assert(sn =~= fm.hitboxes);
                assert forall|j: int| 0 <= j < nm.len() implies hitbox_snapshot_pos(sn, #[trigger] nm[j]) >= 0 by {
                    assert(fm.has_hitbox(nm[j]));
                    assert(sn.map_values(|h: HitboxModel| h.name) =~= fm.hitbox_names());
                    crate::sheet::lemma_position_of_bounds(sn.map_values(|h: HitboxModel| h.name), nm[j]);
                }
            }
            apply_hitbox_edit(&mut self.sheet.frames[f].hitboxes, &sel.items, &snapshot, &HitboxEdit::Move(off));
            proof {
                let p = workbench_frame(s0)->Ok_0;
                assert(self.sheet@.frames =~= s0.sheet.with_frame(
                    p,
                    FrameModel {
                        hitboxes: edited_hitboxes(fm.hitboxes, sel@.items, fm.hitboxes, HitboxEdit::Move(off)),
                        ..fm
                    },
                ).frames);
            }
            return Ok(());
        }
        let keyframes = match &self.view.selection {
            Some(Selection::Keyframe(sel)) => Some(sel.clone()),
            _ => None,
        };
        if let Some(sel) = keyframes {
            if sel.items.len() == 0 {
                return Ok(());
            }
            let snap = match self.keyframe_snapshots_now() {
                Ok(s) => s,
                Err(e) => return Err(e),
            };
            let a = match self.workbench_animation_position() {
                Ok(a) => a,
                Err(e) => return Err(e),
            };
            let ghost s0 = self.state();
            proof {
                let ks = s0.sheet.animations[a as int].keyframes;
                assert forall|j: int| 0 <= j < sel@.items.len() implies crate::transient::keyframe_snapshot_pos(snap@, #[trigger] sel@.items[j]) >= 0 by {
                    assert(snap@[j].index == sel@.items[j]);
                    assert(snap@.map_values(|s: crate::transient::KeyframeSnapshot| s.index)[j] == sel@.items[j]);
                    crate::sheet::lemma_position_of_bounds(snap@.map_values(|s: crate::transient::KeyframeSnapshot| s.index), sel@.items[j]);
                }
            }
            apply_keyframe_edit(&mut self.sheet.animations[a].keyframes, &sel.items, &snap, &KeyframeEdit::Offset(off));
            proof {
                let name = workbench_animation(s0)->Ok_0;
                assert(self.sheet@.animations =~= s0.sheet.with_animation(
                    name,
                    AnimationModel {
                        keyframes: edited_keyframes(s0.sheet.animation(name).keyframes, sel@.items, snap@, KeyframeEdit::Offset(off)),
                        ..s0.sheet.animation(name)
                    },
                ).animations);
            }
            return Ok(());
        }
        Ok(())
    }

    /// Deletes what is selected, and clears the selection.
    #[verifier::rlimit(60)]
    pub fn delete_selection(&mut self) -> (r: Result<(), StateError>)
        ensures
            final(self).outcome(*old(self), r, delete_effect(old(self).state())),
    {
        let sel = match &self.view.selection {
            Some(s) => Some(s.clone()),
            None => None,
        };
        let ghost s0 = self.state();
        match sel {
            Some(Selection::Animation(names)) => {
                let mut j: usize = 0;
                while j < names.items.len()
                    invariant
                        0 <= j <= names.items@.len(),
                        self.sheet@ == without_animations(s0.sheet, names@.items, j as int),
                        self.view@ == s0.view,
                        self.transient@ == old(self).transient@,
                        self.persistent@ == s0.persistent,
                        self.source@ == old(self).source@,
                        self.history_model() == old(self).history_model(),
                    decreases names.items@.len() - j,
                {
                    self.sheet.delete_animation(&names.items[j]);
                    j += 1;
                }
            },
            Some(Selection::Frame(paths)) => {
                let mut j: usize = 0;
                while j < paths.items.len()
                    invariant
                        0 <= j <= paths.items@.len(),
                        self.sheet@ == without_frames(s0.sheet, paths@.items, j as int),
                        self.view@ == s0.view,
                        self.transient@ == old(self).transient@,
                        self.persistent@ == s0.persistent,
                        self.source@ == old(self).source@,
                        self.history_model() == old(self).history_model(),
                    decreases paths.items@.len() - j,
                {
                    self.sheet.delete_frame(&paths.items[j]);
                    j += 1;
                }
            },
            Some(Selection::Hitbox(names)) => {
                let f = match self.workbench_frame_position() {
                    Ok(f) => f,
                    Err(e) => return Err(e),
                };
                let ghost p = workbench_frame(s0)->Ok_0;
                let ghost fm = s0.sheet.frame(p);
                assert(s0.sheet.with_frame(p, without_hitboxes(fm, names@.items, 0)).frames =~= s0.sheet.frames);
                let mut j: usize = 0;
                while j < names.items.len()
                    invariant
                        0 <= j <= names.items@.len(),
                        f < self.sheet@.frames.len(),
                        f as int == s0.sheet.frame_pos(p),
                        s0.sheet.frames.len() == self.sheet@.frames.len(),
                        self.sheet@ == s0.sheet.with_frame(p, without_hitboxes(fm, names@.items, j as int)),
                        self.view@ == s0.view,
                        self.transient@ == old(self).transient@,
                        self.persistent@ == s0.persistent,
                        self.source@ == old(self).source@,
                        self.history_model() == old(self).history_model(),
                    decreases names.items@.len() - j,
                {
                    assert(self.sheet@.frames[f as int] == without_hitboxes(fm, names@.items, j as int));
                    assert(self.sheet.frames@[f as int]@ == without_hitboxes(fm, names@.items, j as int));
                    assert(names.items@[j as int]@ == names@.items[j as int]);
                    let ghost before = self.sheet@.frames;
                    self.sheet.frames[f].delete_hitbox(&names.items[j]);
                    assert(self.sheet@.frames =~= before.update(f as int, without_hitboxes(fm, names@.items, j + 1)));
                    assert(self.sheet.frames@[f as int]@ == without_hitboxes(fm, names@.items, j + 1));
                    proof {
                        assert(self.sheet@.frames =~= s0.sheet.with_frame(
                            p,
                            without_hitboxes(fm, names@.items, j + 1),
                        ).frames);
                    }
                    j += 1;
                }
            },
            Some(Selection::Keyframe(indexes)) => {
                let a = match self.workbench_animation_position() {
                    Ok(a) => a,
                    Err(e) => return Err(e),
                };
                let kept = keep_unselected(&self.sheet.animations[a].keyframes, &indexes.items);
                self.sheet.animations[a].keyframes = kept;
                proof {
                    let name = workbench_animation(s0)->Ok_0;
                    let am = s0.sheet.animation(name);
                    assert(self.sheet@.animations =~= s0.sheet.with_animation(
                        name,
                        AnimationModel {
                            keyframes: kept_keyframes(am.keyframes, indexes@.items, am.keyframes.len() as int),
                            ..am
                        },
                    ).animations);
                }
            },
            None => {},
        }
        self.view.selection = None;
        Ok(())
    }
}

} // verus!
