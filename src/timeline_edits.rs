use vstd::prelude::*;

use crate::command::StateError;
use crate::document::{DocState, Document};
use crate::editing::{with_sheet, with_view, workbench_animation};
use crate::gestures::{all_below, selected_keyframes};
use crate::selection::{IndexSelection, IndexSelectionModel, Selection, SelectionModel};
use crate::selection_edits::kept_keyframes;
use crate::view_state::ViewModel;
use crate::geometry::Vec2;
use crate::sheet::{AnimationModel, Keyframe, KeyframeModel};

verus! {

/// How long a new keyframe lasts, in milliseconds.
pub const DEFAULT_KEYFRAME_DURATION: u32 = 100;

pub open spec fn new_keyframe(path: Seq<char>) -> KeyframeModel {
    KeyframeModel { frame: path, duration: DEFAULT_KEYFRAME_DURATION, offset: Vec2 { x: 0, y: 0 } }
}

/// Inserts keyframes showing `paths`, in order, before keyframe `index` of the animation on
/// the workbench (`index` may be the number of keyframes, to append).
pub open spec fn insert_keyframes_effect(s: DocState, paths: Seq<Seq<char>>, index: usize) -> Result<
    DocState,
    StateError,
> {
    match workbench_animation(s) {
        Err(e) => Err(e),
        Ok(name) => {
            let a = s.sheet.animation(name);
            if paths.len() > 0 && index > a.keyframes.len() {
                Err(StateError::InvalidKeyframeIndex)
            } else if paths.len() == 0 {
                Ok(s)
            } else {
                Ok(
                    with_sheet(
                        s,
                        s.sheet.with_animation(
                            name,
                            AnimationModel {
                                keyframes: a.keyframes.take(index as int) + paths.map_values(
                                    |p: Seq<char>| new_keyframe(p),
                                ) + a.keyframes.skip(index as int),
                                ..a
                            },
                        ),
                    ),
                )
            }
        },
    }
}

impl Document {
    pub fn insert_keyframes_before(&mut self, paths: &Vec<String>, next_frame_index: usize) -> (r:
        Result<(), StateError>)
        ensures
            final(self).outcome(
                *old(self),
                r,
                insert_keyframes_effect(
                    old(self).state(),
                    paths@.map_values(|p: String| p@),
                    next_frame_index,
                ),
            ),
    {
        let a = match self.workbench_animation_position() {
            Ok(a) => a,
            Err(e) => return Err(e),
        };
        if paths.len() == 0 {
            return Ok(());
        }
        if next_frame_index > self.sheet.animations[a].keyframes.len() {
            return Err(StateError::InvalidKeyframeIndex);
        }
        let ghost s0 = self.state();
        let ghost ks = self.sheet@.animations[a as int].keyframes;
        let ghost pm = paths@.map_values(|p: String| p@);
        let ghost i = next_frame_index as int;
        let mut k: usize = paths.len();
        proof {
            assert(ks.take(i) + pm.skip(k as int).map_values(|p: Seq<char>| new_keyframe(p)) + ks.skip(i) =~= ks);
            assert(s0.sheet.animations[a as int] == (AnimationModel { keyframes: ks, ..s0.sheet.animations[a as int] }));
            assert(s0.sheet.with_animation(
                workbench_animation(s0)->Ok_0,
                AnimationModel { keyframes: ks, ..s0.sheet.animations[a as int] },
            ).animations =~= s0.sheet.animations);
        }
        while k > 0
            invariant
                0 <= k <= paths@.len(),
                0 <= i <= ks.len(),
                i == next_frame_index,
                pm == paths@.map_values(|p: String| p@),
                a < self.sheet@.animations.len(),
                self.sheet@.animations.len() == s0.sheet.animations.len(),
                self.sheet@ == s0.sheet.with_animation(
                    workbench_animation(s0)->Ok_0,
                    AnimationModel {
                        keyframes: ks.take(i) + pm.skip(k as int).map_values(
                            |p: Seq<char>| new_keyframe(p),
                        ) + ks.skip(i),
                        ..s0.sheet.animations[a as int]
                    },
                ),
                a as int == s0.sheet.animation_pos(workbench_animation(s0)->Ok_0),
                self.view@ == s0.view,
                self.transient@ == old(self).transient@,
                self.persistent@ == s0.persistent,
                self.source@ == old(self).source@,
                self.history_model() == old(self).history_model(),
            decreases k,
        {
            k -= 1;
            let kf = Keyframe { frame: paths[k].clone(), duration: DEFAULT_KEYFRAME_DURATION, offset: Vec2::zero() };
            let ghost before = self.sheet@;
            let ghost cur = self.sheet@.animations[a as int].keyframes;
            assert(cur.len() >= i);
            self.sheet.animations[a].keyframes.insert(next_frame_index, kf);
            proof {
                assert(pm.skip(k as int) =~= seq![pm[k as int]] + pm.skip(k + 1));
                assert(self.sheet@.animations[a as int].keyframes =~= cur.insert(i, new_keyframe(pm[k as int])));
                assert(self.sheet@.animations[a as int].keyframes =~= ks.take(i) + pm.skip(k as int).map_values(
                    |p: Seq<char>| new_keyframe(p),
                ) + ks.skip(i));
                assert(before.animations =~= s0.sheet.animations.update(a as int, before.animations[a as int]));
                assert(self.sheet@.animations =~= before.animations.update(a as int, self.sheet@.animations[a as int]));
                assert(self.sheet@.animations[a as int].name == s0.sheet.animations[a as int].name);
                assert(self.sheet@.animations[a as int].looping == s0.sheet.animations[a as int].looping);
                assert(self.sheet@.animations =~= s0.sheet.animations.update(
                    a as int,
                    AnimationModel {
                        keyframes: ks.take(i) + pm.skip(k as int).map_values(|p: Seq<char>| new_keyframe(p)) + ks.skip(i),
                        ..s0.sheet.animations[a as int]
                    },
                ));
            }
        }
        proof {
            assert(pm.skip(0) =~= pm);
        }
        Ok(())
    }
}

/// The first `n` keyframes of `ks` whose positions are in `items`, in order.
pub open spec fn picked_keyframes(ks: Seq<KeyframeModel>, items: Seq<usize>, n: int) -> Seq<
    KeyframeModel,
>
    decreases n,
{
    if n <= 0 {
        seq![]
    } else if items.contains((n - 1) as usize) {
        picked_keyframes(ks, items, n - 1).push(ks[n - 1])
    } else {
        picked_keyframes(ks, items, n - 1)
    }
}

/// How many of the positions below `n` are in `items`.
pub open spec fn selected_below(items: Seq<usize>, n: int) -> int
    decreases n,
{
    if n <= 0 {
        0
    } else {
        selected_below(items, n - 1) + if items.contains((n - 1) as usize) {
            1int
        } else {
            0int
        }
    }
}

/// Moves the selected keyframes, in their order, to stand together before keyframe
/// `new_index` (counted before the move); they stay selected and the playhead goes to the
/// first of them.
pub open spec fn reorder_effect(s: DocState, new_index: usize) -> Result<DocState, StateError> {
    match selected_keyframes(s) {
        Err(e) => Err(e),
        Ok(items) => match workbench_animation(s) {
            Err(e) => Err(e),
            Ok(name) => {
                let a = s.sheet.animation(name);
                let ks = a.keyframes;
                let n = ks.len() as int;
                if !all_below(items, n) || new_index > n {
                    Err(StateError::InvalidKeyframeIndex)
                } else {
                    let moved = picked_keyframes(ks, items, n);
                    let rest = kept_keyframes(ks, items, n);
                    let ins = new_index - selected_below(items, new_index as int);
                    let new_ks = rest.take(ins) + moved + rest.skip(ins);
                    if ins >= new_ks.len() {
                        Err(StateError::InvalidKeyframeIndex)
                    } else {
                        let new_a = AnimationModel { keyframes: new_ks, ..a };
                        let m = moved.len();
                        Ok(
                            with_view(
                                with_sheet(s, s.sheet.with_animation(name, new_a)),
                                ViewModel {
                                    selection: Some(
                                        SelectionModel::Keyframe(
                                            IndexSelectionModel {
                                                items: Seq::new(m, |i: int| (ins + i) as usize),
                                                last_touched: if m > 0 {
                                                    (ins + m - 1) as usize
                                                } else {
                                                    ins as usize
                                                },
                                            },
                                        ),
                                    ),
                                    timeline_clock: new_a.start(ins) as u128,
                                    ..s.view
                                },
                            ),
                        )
                    }
                }
            },
        },
    }
}

fn pick_selected(ks: &Vec<Keyframe>, items: &Vec<usize>) -> (r: Vec<Keyframe>)
    ensures
        r@.map_values(|k: Keyframe| k@) == picked_keyframes(
            ks@.map_values(|k: Keyframe| k@),
            items@,
            ks@.len() as int,
        ),
{
    let ghost km = ks@.map_values(|k: Keyframe| k@);
    let mut out: Vec<Keyframe> = Vec::new();
    let mut i: usize = 0;
    while i < ks.len()
        invariant
            0 <= i <= ks@.len(),
            km == ks@.map_values(|k: Keyframe| k@),
            out@.map_values(|k: Keyframe| k@) == picked_keyframes(km, items@, i as int),
        decreases ks@.len() - i,
    {
        if IndexSelection::contains_in(items, i) {
            let k = ks[i].clone();
            out.push(k);
            assert(out@.map_values(|k: Keyframe| k@) =~= picked_keyframes(km, items@, i as int).push(
                km[i as int],
            ));
        }
        i += 1;
    }
    out
}

proof fn lemma_split(ks: Seq<KeyframeModel>, items: Seq<usize>, n: int)
    requires
        0 <= n <= ks.len(),
    ensures
        picked_keyframes(ks, items, n).len() + kept_keyframes(ks, items, n).len() == n,
        0 <= selected_below(items, n) <= n,
        selected_below(items, n) == picked_keyframes(ks, items, n).len(),
    decreases n,
{
    if n > 0 {
        lemma_split(ks, items, n - 1);
    }
}

proof fn lemma_selected_below_grows(items: Seq<usize>, a: int, b: int)
    requires
        0 <= a <= b,
    ensures
        0 <= selected_below(items, b) - selected_below(items, a) <= b - a,
    decreases b - a,
{
    if a < b {
        lemma_selected_below_grows(items, a, b - 1);
    }
}

fn count_selected_below(items: &Vec<usize>, n: usize) -> (r: usize)
    ensures
        r == selected_below(items@, n as int),
        r <= n,
{
    let mut c: usize = 0;
    let mut i: usize = 0;
    while i < n
        invariant
            0 <= i <= n,
            c == selected_below(items@, i as int),
            c <= i,
        decreases n - i,
    {
        if IndexSelection::contains_in(items, i) {
            c = c + 1;
        }
        i += 1;
    }
    c
}

impl Document {
    #[verifier::rlimit(100)]
    pub fn reorder_keyframes(&mut self, new_index: usize) -> (r: Result<(), StateError>)
        ensures
            final(self).outcome(*old(self), r, reorder_effect(old(self).state(), new_index)),
    {
        let items = match &self.view.selection {
            Some(Selection::Keyframe(sel)) => sel.clone().items,
            _ => return Err(StateError::NoKeyframeSelected),
        };
        let a = match self.workbench_animation_position() {
            Ok(a) => a,
            Err(e) => return Err(e),
        };
        let n = self.sheet.animations[a].keyframes.len();
        if !crate::gestures::all_keyframes_below(&items, n) || new_index > n {
            return Err(StateError::InvalidKeyframeIndex);
        }
        let ghost s0 = self.state();
        let ghost name = workbench_animation(s0)->Ok_0;
        let ghost ks = s0.sheet.animation(name).keyframes;
        assert(self.sheet.animations@[a as int].keyframes@.map_values(|k: Keyframe| k@) == ks);
        let mut moved = pick_selected(&self.sheet.animations[a].keyframes, &items);
        let mut front = crate::selection_edits::keep_unselected(&self.sheet.animations[a].keyframes, &items);
        let before = count_selected_below(&items, new_index);
        proof {
            lemma_split(ks, items@, n as int);
            lemma_split(ks, items@, new_index as int);
            lemma_selected_below_grows(items@, new_index as int, n as int);
        }
        let ins = new_index - before;
        let m = moved.len();
        let ghost rest = front@.map_values(|k: Keyframe| k@);
        let ghost mv = moved@.map_values(|k: Keyframe| k@);
        let mut back = front.split_off(ins);
        front.append(&mut moved);
        front.append(&mut back);
        let ghost new_ks = rest.take(ins as int) + mv + rest.skip(ins as int);
        assert(front@.map_values(|k: Keyframe| k@) =~= new_ks);
        if ins >= front.len() {
            return Err(StateError::InvalidKeyframeIndex);
        }
        let mut selected: Vec<usize> = Vec::new();
        let mut j: usize = 0;
        while j < m
            invariant
                0 <= j <= m,
                ins + m <= front.len(),
                selected@ == Seq::new(j as nat, |i: int| (ins + i) as usize),
            decreases m - j,
        {
            selected.push(ins + j);
            assert(selected@ =~= Seq::new((j + 1) as nat, |i: int| (ins + i) as usize));
            j += 1;
        }
        let last = if m > 0 { ins + m - 1 } else { ins };
        self.sheet.animations[a].keyframes = front;
        proof {
            assert(self.sheet@.animations =~= s0.sheet.with_animation(
                name,
                AnimationModel { keyframes: new_ks, ..s0.sheet.animation(name) },
            ).animations);
        }
        let clock = self.sheet.animations[a].frame_start_time(ins);
        self.view.timeline_clock = clock;
        self.view.selection = Some(
            Selection::Keyframe(IndexSelection { items: selected, last_touched_in_range: last }),
        );
        Ok(())
    }
}

} // verus!
