use vstd::prelude::*;

use crate::command::StateError;
use crate::document::{DocState, Document, PersistentModel};
use crate::geometry::Vec2;
use crate::selection::{
    IndexSelection, IndexSelectionModel, MultiSelection, NameSelectionModel, Selection,
    SelectionModel,
};
use crate::sheet::SheetModel;
use crate::transient::{Transient, TransientModel};
use crate::view_state::{ViewModel, WorkbenchItem, WorkbenchModel};

verus! {

pub open spec fn with_view(s: DocState, v: ViewModel) -> DocState {
    DocState { view: v, ..s }
}

pub open spec fn with_sheet(s: DocState, sheet: SheetModel) -> DocState {
    DocState { sheet, ..s }
}

pub open spec fn with_selection(s: DocState, sel: Option<SelectionModel>) -> DocState {
    with_view(s, ViewModel { selection: sel, ..s.view })
}

pub open spec fn with_transient(s: DocState, t: Option<TransientModel>) -> DocState {
    DocState { transient: t, ..s }
}

pub open spec fn with_playing(s: DocState, playing: bool) -> DocState {
    DocState { persistent: PersistentModel { timeline_is_playing: playing, ..s.persistent }, ..s }
}

/// The path of the frame on the workbench, which must be in the sheet.
pub open spec fn workbench_frame(s: DocState) -> Result<Seq<char>, StateError> {
    match s.view.workbench_item {
        Some(WorkbenchModel::Frame(p)) => if s.sheet.has_frame(p) {
            Ok(p)
        } else {
            Err(StateError::FrameNotInDocument)
        },
        _ => Err(StateError::NotEditingAnyFrame),
    }
}

/// The name of the animation on the workbench, which must be in the sheet.
pub open spec fn workbench_animation(s: DocState) -> Result<Seq<char>, StateError> {
    match s.view.workbench_item {
        Some(WorkbenchModel::Animation(n)) => if s.sheet.has_animation(n) {
            Ok(n)
        } else {
            Err(StateError::AnimationNotInDocument)
        },
        _ => Err(StateError::NotEditingAnyAnimation),
    }
}

pub open spec fn select_frames_effect(s: DocState, paths: NameSelectionModel) -> Result<
    DocState,
    StateError,
> {
    if exists|i: int| 0 <= i < paths.items.len() && !s.sheet.has_frame(#[trigger] paths.items[i]) {
        Err(StateError::FrameNotInDocument)
    } else if paths.items.len() == 0 {
        Ok(with_selection(s, None))
    } else {
        Ok(with_selection(s, Some(SelectionModel::Frame(paths))))
    }
}

pub open spec fn select_animations_effect(s: DocState, names: NameSelectionModel) -> Result<
    DocState,
    StateError,
> {
    if exists|i: int|
        0 <= i < names.items.len() && !s.sheet.has_animation(#[trigger] names.items[i]) {
        Err(StateError::AnimationNotInDocument)
    } else if names.items.len() == 0 {
        Ok(with_selection(s, None))
    } else {
        Ok(with_selection(s, Some(SelectionModel::Animation(names))))
    }
}

pub open spec fn select_hitboxes_effect(s: DocState, names: NameSelectionModel) -> Result<
    DocState,
    StateError,
> {
    match workbench_frame(s) {
        Err(e) => Err(e),
        Ok(p) => if exists|i: int|
            0 <= i < names.items.len() && !s.sheet.frame(p).has_hitbox(#[trigger] names.items[i]) {
            Err(StateError::InvalidHitboxName)
        } else if names.items.len() == 0 {
            Ok(with_selection(s, None))
        } else {
            Ok(with_selection(s, Some(SelectionModel::Hitbox(names))))
        },
    }
}

/// Selects keyframes of the animation on the workbench. Unless playback runs or the
/// playhead already lies within the keyframe touched last, the playhead moves to its start.
pub open spec fn select_keyframes_effect(s: DocState, sel: IndexSelectionModel) -> Result<
    DocState,
    StateError,
> {
    if sel.items.len() == 0 {
        Ok(with_selection(s, None))
    } else {
        match workbench_animation(s) {
            Err(e) => Err(e),
            Ok(name) => {
                let a = s.sheet.animation(name);
                let k = sel.last_touched as int;
                if k >= a.keyframes.len() {
                    Err(StateError::InvalidKeyframeIndex)
                } else {
                    let start = a.start(k);
                    let clock = s.view.timeline_clock as int;
                    let inside = clock >= start && (clock < start + a.keyframes[k].duration || k
                        == a.keyframes.len() - 1);
                    let new_clock = if !s.persistent.timeline_is_playing && !inside {
                        start as u128
                    } else {
                        s.view.timeline_clock
                    };
                    Ok(
                        with_view(
                            s,
                            ViewModel {
                                selection: Some(SelectionModel::Keyframe(sel)),
                                timeline_clock: new_clock,
                                ..s.view
                            },
                        ),
                    )
                }
            },
        }
    }
}

pub open spec fn edit_frame_effect(s: DocState, path: Seq<char>) -> Result<DocState, StateError> {
    if !s.sheet.has_frame(path) {
        Err(StateError::FrameNotInDocument)
    } else {
        Ok(
            with_view(
                s,
                ViewModel {
                    workbench_item: Some(WorkbenchModel::Frame(path)),
                    workbench_offset: Vec2 { x: 0, y: 0 },
                    ..s.view
                },
            ),
        )
    }
}

pub open spec fn edit_animation_effect(s: DocState, name: Seq<char>) -> Result<
    DocState,
    StateError,
> {
    if !s.sheet.has_animation(name) {
        Err(StateError::AnimationNotInDocument)
    } else {
        Ok(
            with_playing(
                with_view(
                    s,
                    ViewModel {
                        workbench_item: Some(WorkbenchModel::Animation(name)),
                        workbench_offset: Vec2 { x: 0, y: 0 },
                        timeline_clock: 0,
                        ..s.view
                    },
                ),
                false,
            ),
        )
    }
}

impl Document {
    /// The position in the sheet of the frame on the workbench.
    pub fn workbench_frame_position(&self) -> (r: Result<usize, StateError>)
        ensures
            match workbench_frame(self.state()) {
                Ok(p) => r is Ok && r->Ok_0 as int == self.sheet@.frame_pos(p) && r->Ok_0
                    < self.sheet@.frames.len() && self.sheet@.frames[r->Ok_0 as int]
                    == self.sheet@.frame(p),
                Err(e) => r == Err::<usize, StateError>(e),
            },
    {
        match &self.view.workbench_item {
            Some(WorkbenchItem::Frame(p)) => match self.sheet.frame_position(p) {
                Some(i) => Ok(i),
                None => Err(StateError::FrameNotInDocument),
            },
            _ => Err(StateError::NotEditingAnyFrame),
        }
    }

    /// The position in the sheet of the animation on the workbench.
    pub fn workbench_animation_position(&self) -> (r: Result<usize, StateError>)
        ensures
            match workbench_animation(self.state()) {
                Ok(n) => r is Ok && r->Ok_0 as int == self.sheet@.animation_pos(n) && r->Ok_0
                    < self.sheet@.animations.len() && self.sheet@.animations[r->Ok_0 as int]
                    == self.sheet@.animation(n),
                Err(e) => r == Err::<usize, StateError>(e),
            },
    {
        match &self.view.workbench_item {
            Some(WorkbenchItem::Animation(n)) => match self.sheet.animation_position(n) {
                Some(i) => Ok(i),
                None => Err(StateError::AnimationNotInDocument),
            },
            _ => Err(StateError::NotEditingAnyAnimation),
        }
    }

    pub fn clear_selection(&mut self)
        ensures
            final(self).edited_from(*old(self), with_selection(old(self).state(), None)),
    {
        self.view.selection = None;
    }

    /// Selects the frames at `paths`; fails, changing nothing, if one is not in the sheet.
    pub fn select_frames(&mut self, paths: &MultiSelection) -> (r: Result<(), StateError>)
        ensures
            final(self).outcome(*old(self), r, select_frames_effect(old(self).state(), paths@)),
    {
        let mut i: usize = 0;
        while i < paths.items.len()
            invariant
                0 <= i <= paths.items@.len(),
                forall|j: int| 0 <= j < i ==> self.sheet@.has_frame(#[trigger] paths@.items[j]),
            decreases paths.items@.len() - i,
        {
            if !self.sheet.has_frame(&paths.items[i]) {
                assert(!self.sheet@.has_frame(paths@.items[i as int]));
                return Err(StateError::FrameNotInDocument);
            }
            i += 1;
        }
        if paths.items.len() == 0 {
            self.view.selection = None;
        } else {
            self.view.selection = Some(Selection::Frame(paths.clone()));
        }
        Ok(())
    }

    /// Selects the animations named in `names`; fails, changing nothing, if one is not in
    /// the sheet.
    pub fn select_animations(&mut self, names: &MultiSelection) -> (r: Result<(), StateError>)
        ensures
            final(self).outcome(*old(self), r, select_animations_effect(old(self).state(), names@)),
    {
        let mut i: usize = 0;
        while i < names.items.len()
            invariant
                0 <= i <= names.items@.len(),
                forall|j: int|
                    0 <= j < i ==> self.sheet@.has_animation(#[trigger] names@.items[j]),
            decreases names.items@.len() - i,
        {
            if !self.sheet.has_animation(&names.items[i]) {
                assert(!self.sheet@.has_animation(names@.items[i as int]));
                return Err(StateError::AnimationNotInDocument);
            }
            i += 1;
        }
        if names.items.len() == 0 {
            self.view.selection = None;
        } else {
            self.view.selection = Some(Selection::Animation(names.clone()));
        }
        Ok(())
    }

    /// Selects hitboxes of the frame on the workbench; fails, changing nothing, if one is not
    /// in that frame.
    pub fn select_hitboxes(&mut self, names: &MultiSelection) -> (r: Result<(), StateError>)
        ensures
            final(self).outcome(*old(self), r, select_hitboxes_effect(old(self).state(), names@)),
    {
        let f = match self.workbench_frame_position() {
            Ok(f) => f,
            Err(e) => return Err(e),
        };
        let ghost frame = self.sheet@.frames[f as int];
        proof {
            let p = workbench_frame(self.state())->Ok_0;
            assert(frame == self.sheet@.frame(p));
        }
        let mut i: usize = 0;
        while i < names.items.len()
            invariant
                0 <= i <= names.items@.len(),
                f < self.sheet@.frames.len(),
                *self == *old(self),
                frame == self.sheet@.frames[f as int],
                workbench_frame(self.state()) is Ok,
                frame == self.sheet@.frame(workbench_frame(self.state())->Ok_0),
                forall|j: int| 0 <= j < i ==> frame.has_hitbox(#[trigger] names@.items[j]),
            decreases names.items@.len() - i,
        {
            if !self.sheet.frames[f].has_hitbox(&names.items[i]) {
                assert(!frame.has_hitbox(names@.items[i as int]));
                return Err(StateError::InvalidHitboxName);
            }
            i += 1;
        }
        if names.items.len() == 0 {
            self.view.selection = None;
        } else {
            self.view.selection = Some(Selection::Hitbox(names.clone()));
        }
        Ok(())
    }

    /// Selects keyframes of the animation on the workbench and brings the playhead to the
    /// keyframe touched last, unless it is playing or already there.
    pub fn select_keyframes(&mut self, frame_indexes: &IndexSelection) -> (r: Result<
        (),
        StateError,
    >)
        ensures
            final(self).outcome(
                *old(self),
                r,
                select_keyframes_effect(old(self).state(), frame_indexes@),
            ),
    {
        if frame_indexes.items.len() == 0 {
            self.view.selection = None;
            return Ok(());
        }
        let a = match self.workbench_animation_position() {
            Ok(a) => a,
            Err(e) => return Err(e),
        };
        proof {
            let name = workbench_animation(self.state())->Ok_0;
            assert(self.sheet@.animations[a as int] == self.sheet@.animation(name));
        }
        let k = frame_indexes.last_touched_in_range;
        let n = self.sheet.animations[a].keyframes.len();
        if k >= n {
            return Err(StateError::InvalidKeyframeIndex);
        }
        let start = self.sheet.animations[a].frame_start_time(k);
        let duration = self.sheet.animations[a].keyframes[k].duration;
        let clock = self.view.timeline_clock;
        proof {
            crate::timeline::lemma_frame_start_bounds(self.sheet@.animations[a as int].keyframes, k as int);
            assert(k * 0xFFFF_FFFF <= 0xFFFF_FFFF_FFFF_FFFF * 0xFFFF_FFFF) by (nonlinear_arith)
                requires k <= 0xFFFF_FFFF_FFFF_FFFF;
        }
        let inside = clock >= start && (clock < start + duration as u128 || k == n - 1);
        if !self.persistent.timeline_is_playing && !inside {
            self.view.timeline_clock = start;
        }
        self.view.selection = Some(Selection::Keyframe(frame_indexes.clone()));
        Ok(())
    }

    /// Shows the frame at `path` on the workbench.
    pub fn edit_frame(&mut self, path: &String) -> (r: Result<(), StateError>)
        ensures
            final(self).outcome(*old(self), r, edit_frame_effect(old(self).state(), path@)),
    {
        if !self.sheet.has_frame(path) {
            return Err(StateError::FrameNotInDocument);
        }
        self.view.workbench_item = Some(WorkbenchItem::Frame(path.clone()));
        self.view.workbench_offset = Vec2::zero();
        Ok(())
    }

    /// Shows the animation named `name` on the workbench, playhead at zero and stopped.
    pub fn edit_animation(&mut self, name: &String) -> (r: Result<(), StateError>)
        ensures
            final(self).outcome(*old(self), r, edit_animation_effect(old(self).state(), name@)),
    {
        if !self.sheet.has_animation(name) {
            return Err(StateError::AnimationNotInDocument);
        }
        self.view.workbench_item = Some(WorkbenchItem::Animation(name.clone()));
        self.view.workbench_offset = Vec2::zero();
        self.view.timeline_clock = 0;
        self.persistent.timeline_is_playing = false;
        Ok(())
    }

    /// Starts editing a name, seeded with `old_name`.
    pub fn begin_rename(&mut self, old_name: &String)
        ensures
            final(self).edited_from(
                *old(self),
                with_transient(old(self).state(), Some(TransientModel::Rename(old_name@))),
            ),
    {
        self.transient = Some(Transient::Rename(old_name.clone()));
    }
}

pub open spec fn new_animation_base() -> Seq<char> {
    seq!['N', 'e', 'w', ' ', 'A', 'n', 'i', 'm', 'a', 't', 'i', 'o', 'n']
}

pub open spec fn new_hitbox_base() -> Seq<char> {
    seq!['N', 'e', 'w', ' ', 'H', 'i', 't', 'b', 'o', 'x']
}

/// Adds an empty looping animation under a name not yet taken, selects it, shows it on the
/// workbench and starts renaming it.
pub open spec fn create_animation_effect(s: DocState) -> DocState {
    let name = crate::names::fresh_name(s.sheet.animation_names(), new_animation_base());
    let sheet = SheetModel {
        animations: s.sheet.animations.push(
            crate::sheet::AnimationModel { name, keyframes: seq![], looping: true },
        ),
        ..s.sheet
    };
    DocState {
        sheet,
        view: ViewModel {
            selection: Some(
                SelectionModel::Animation(NameSelectionModel { items: seq![name], last_touched: name }),
            ),
            workbench_item: Some(WorkbenchModel::Animation(name)),
            workbench_offset: Vec2 { x: 0, y: 0 },
            timeline_clock: 0,
            ..s.view
        },
        transient: Some(TransientModel::Rename(name)),
        persistent: PersistentModel { timeline_is_playing: false, ..s.persistent },
    }
}

/// Adds an empty hitbox at `position` to the frame on the workbench, under a name not yet
/// taken there, and selects it.
pub open spec fn create_hitbox_effect(s: DocState, position: Vec2) -> Result<DocState, StateError> {
    match workbench_frame(s) {
        Err(e) => Err(e),
        Ok(p) => {
            let f = s.sheet.frame(p);
            let name = crate::names::fresh_name(f.hitbox_names(), new_hitbox_base());
            let h = crate::sheet::HitboxModel {
                name,
                position,
                size: crate::geometry::Size { width: 0, height: 0 },
            };
            Ok(
                with_selection(
                    with_sheet(
                        s,
                        s.sheet.with_frame(
                            p,
                            crate::sheet::FrameModel { hitboxes: f.hitboxes.push(h), ..f },
                        ),
                    ),
                    Some(SelectionModel::Hitbox(NameSelectionModel { items: seq![name], last_touched: name })),
                ),
            )
        },
    }
}

impl Document {
    #[verifier::rlimit(50)]
    pub fn create_animation(&mut self) -> (r: Result<(), StateError>)
        ensures
            r is Ok,
            final(self).edited_from(*old(self), create_animation_effect(old(self).state())),
    {
        let ghost s0 = self.state();
        let names = self.sheet.animation_name_list();
        let base = String::from_str("New Animation");
        proof {
            reveal_strlit("New Animation");
            assert(base@ =~= new_animation_base());
        }
        let name = crate::names::make_fresh_name(&names, &base);
        let animation = crate::sheet::Animation { name: name.clone(), keyframes: Vec::new(), looping: true };
        assert(animation@.keyframes =~= seq![]);
        self.sheet.animations.push(animation);
        assert(self.sheet@.animations =~= s0.sheet.animations.push(
            crate::sheet::AnimationModel { name: name@, keyframes: seq![], looping: true },
        ));
        self.view.selection = Some(Selection::Animation(MultiSelection::single(name.clone())));
        self.transient = Some(Transient::Rename(name.clone()));
        self.view.workbench_item = Some(WorkbenchItem::Animation(name));
        self.view.workbench_offset = Vec2::zero();
        self.view.timeline_clock = 0;
        self.persistent.timeline_is_playing = false;
        Ok(())
    }

    #[verifier::rlimit(50)]
    pub fn create_hitbox(&mut self, mouse_position: Vec2) -> (r: Result<(), StateError>)
        ensures
            final(self).outcome(*old(self), r, create_hitbox_effect(old(self).state(), mouse_position)),
    {
        let f = match self.workbench_frame_position() {
            Ok(f) => f,
            Err(e) => return Err(e),
        };
        let ghost s0 = self.state();
        let ghost fm = self.sheet@.frames[f as int];
        assert(self.sheet.frames@[f as int]@ == fm);
        let names = self.sheet.frames[f].hitbox_name_list();
        let base = String::from_str("New Hitbox");
        proof {
            reveal_strlit("New Hitbox");
            assert(base@ =~= new_hitbox_base());
        }
        let name = crate::names::make_fresh_name(&names, &base);
        let h = crate::sheet::Hitbox {
            name: name.clone(),
            position: mouse_position,
            size: crate::geometry::Size { width: 0, height: 0 },
        };
        let ghost before = self.sheet@.frames;
        self.sheet.frames[f].hitboxes.push(h);
        proof {
            let p = workbench_frame(s0)->Ok_0;
            assert(self.sheet@.frames[f as int].hitboxes =~= fm.hitboxes.push(h@));
            assert(self.sheet@.frames =~= s0.sheet.with_frame(
                p,
                crate::sheet::FrameModel { hitboxes: fm.hitboxes.push(h@), ..fm },
            ).frames);
        }
        self.view.selection = Some(Selection::Hitbox(MultiSelection::single(name)));
        Ok(())
    }
}

} // verus!
