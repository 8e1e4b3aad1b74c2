use vstd::prelude::*;

use crate::command::StateError;
use crate::document::{CloseState, DocState, Document, PersistentModel};
use crate::editing::{with_playing, with_sheet, with_view, workbench_animation};
use crate::selection::{IndexSelection, IndexSelectionModel, Selection, SelectionModel};
use crate::sheet::{AnimationModel, SheetModel};
use crate::view_state::{ViewModel, WorkbenchModel};

verus! {

/// Playback over `delta` milliseconds. While playing, with an animation on the workbench:
/// a positive duration moves the playhead, wrapping around when the animation loops and
/// stopping at its end otherwise; a zero duration stops playback at zero.
pub open spec fn advance_effect(s: DocState, delta: u64) -> DocState {
    if !s.persistent.timeline_is_playing {
        s
    } else {
        match s.view.workbench_item {
            Some(WorkbenchModel::Animation(name)) => if s.sheet.has_animation(name) {
                let a = s.sheet.animation(name);
                let d = a.duration();
                let clock = s.view.timeline_clock + delta;
                if d > 0 {
                    if a.looping {
                        with_view(s, ViewModel { timeline_clock: (clock % d) as u128, ..s.view })
                    } else if clock >= d {
                        with_playing(
                            with_view(s, ViewModel { timeline_clock: d as u128, ..s.view }),
                            false,
                        )
                    } else {
                        with_view(s, ViewModel { timeline_clock: clock as u128, ..s.view })
                    }
                } else {
                    with_playing(with_view(s, ViewModel { timeline_clock: 0, ..s.view }), false)
                }
            } else {
                s
            },
            _ => s,
        }
    }
}

/// A document waiting to be saved before closing may close once it is saved.
pub open spec fn try_close_effect(s: DocState, saved: bool) -> DocState {
    if s.persistent.close_state == Some(CloseState::Saving) && saved {
        DocState {
            persistent: PersistentModel { close_state: Some(CloseState::Allowed), ..s.persistent },
            ..s
        }
    } else {
        s
    }
}

/// Starts or stops playback; starting a finished animation that does not loop rewinds it.
pub open spec fn toggle_playback_effect(s: DocState) -> Result<DocState, StateError> {
    match workbench_animation(s) {
        Err(e) => Err(e),
        Ok(name) => {
            let a = s.sheet.animation(name);
            let rewind = !s.persistent.timeline_is_playing && a.duration() > 0 && !a.looping
                && s.view.timeline_clock >= a.duration();
            let v = if rewind {
                ViewModel { timeline_clock: 0, ..s.view }
            } else {
                s.view
            };
            Ok(with_playing(with_view(s, v), !s.persistent.timeline_is_playing))
        },
    }
}

pub open spec fn toggle_looping_effect(s: DocState) -> Result<DocState, StateError> {
    match workbench_animation(s) {
        Err(e) => Err(e),
        Ok(name) => {
            let a = s.sheet.animation(name);
            Ok(with_sheet(s, s.sheet.with_animation(name, AnimationModel { looping: !a.looping, ..a })))
        },
    }
}

/// Moves the playhead to `t` and selects the keyframe shown there.
pub open spec fn scrub_effect(s: DocState, t: u128) -> Result<DocState, StateError> {
    match workbench_animation(s) {
        Err(e) => Err(e),
        Ok(name) => match s.sheet.animation(name).frame_at(t as int) {
            None => Err(StateError::NoKeyframeForThisTime),
            Some(i) => Ok(
                with_view(
                    s,
                    ViewModel {
                        selection: Some(
                            SelectionModel::Keyframe(
                                IndexSelectionModel { items: seq![i as usize], last_touched: i as usize },
                            ),
                        ),
                        timeline_clock: t,
                        ..s.view
                    },
                ),
            ),
        },
    }
}

/// Scrubs to the latest keyframe start before the playhead, or to the first keyframe.
pub open spec fn snap_previous_effect(s: DocState) -> Result<DocState, StateError> {
    match workbench_animation(s) {
        Err(e) => Err(e),
        Ok(name) => {
            let a = s.sheet.animation(name);
            if a.keyframes.len() == 0 {
                Ok(s)
            } else {
                scrub_effect(s, a.previous_boundary(s.view.timeline_clock as int) as u128)
            }
        },
    }
}

/// Scrubs to the earliest keyframe start after the playhead, or to the last keyframe.
pub open spec fn snap_next_effect(s: DocState) -> Result<DocState, StateError> {
    match workbench_animation(s) {
        Err(e) => Err(e),
        Ok(name) => {
            let a = s.sheet.animation(name);
            if a.keyframes.len() == 0 {
                Ok(s)
            } else {
                scrub_effect(s, a.next_boundary(s.view.timeline_clock as int) as u128)
            }
        },
    }
}

impl Document {
    fn advance_timeline(&mut self, delta: u64)
        requires
            old(self).view.timeline_clock + delta <= u128::MAX,
        ensures
            final(self).edited_from(*old(self), advance_effect(old(self).state(), delta)),
    {
        if !self.persistent.timeline_is_playing {
            return;
        }
        let a = match self.workbench_animation_position() {
            Ok(a) => a,
            Err(_) => return,
        };
        let d = self.sheet.animations[a].duration();
        let clock = self.view.timeline_clock + delta as u128;
        if d > 0 {
            if self.sheet.animations[a].looping {
                self.view.timeline_clock = clock % d;
            } else if clock >= d {
                self.persistent.timeline_is_playing = false;
                self.view.timeline_clock = d;
            } else {
                self.view.timeline_clock = clock;
            }
        } else {
            self.persistent.timeline_is_playing = false;
            self.view.timeline_clock = 0;
        }
    }

    fn try_close(&mut self)
        requires
            old(self).wf(),
        ensures
            final(self).wf(),
            final(self).edited_from(
                *old(self),
                try_close_effect(old(self).state(), old(self).is_saved_spec()),
            ),
    {
        if self.persistent.close_state == Some(CloseState::Saving) {
            if self.is_saved() {
                self.persistent.close_state = Some(CloseState::Allowed);
            }
        }
    }

    /// Advances playback by `delta` milliseconds, then lets a document that was waiting to
    /// be saved close.
    pub fn tick(&mut self, delta: u64)
        requires
            old(self).wf(),
            old(self).view.timeline_clock + delta <= u128::MAX,
        ensures
            final(self).wf(),
            final(self).edited_from(
                *old(self),
                try_close_effect(advance_effect(old(self).state(), delta), old(self).is_saved_spec()),
            ),
    {
        self.advance_timeline(delta);
        self.try_close();
    }

    pub fn toggle_playback(&mut self) -> (r: Result<(), StateError>)
        ensures
            final(self).outcome(*old(self), r, toggle_playback_effect(old(self).state())),
    {
        let a = match self.workbench_animation_position() {
            Ok(a) => a,
            Err(e) => return Err(e),
        };
        if !self.persistent.timeline_is_playing {
            let d = self.sheet.animations[a].duration();
            if d > 0 && !self.sheet.animations[a].looping && self.view.timeline_clock >= d {
                self.view.timeline_clock = 0;
            }
        }
        self.persistent.timeline_is_playing = !self.persistent.timeline_is_playing;
        Ok(())
    }

    pub fn toggle_looping(&mut self) -> (r: Result<(), StateError>)
        ensures
            final(self).outcome(*old(self), r, toggle_looping_effect(old(self).state())),
    {
        let a = match self.workbench_animation_position() {
            Ok(a) => a,
            Err(e) => return Err(e),
        };
        let ghost before = self.sheet@;
        self.sheet.animations[a].looping = !self.sheet.animations[a].looping;
        proof {
            let name = workbench_animation(old(self).state())->Ok_0;
            assert(self.sheet@.animations =~= before.with_animation(
                name,
                AnimationModel { looping: !before.animation(name).looping, ..before.animation(name) },
            ).animations);
        }
        Ok(())
    }

    /// Moves the playhead to `new_time` and selects the keyframe shown there.
    pub fn update_timeline_scrub(&mut self, new_time: u128) -> (r: Result<(), StateError>)
        ensures
            final(self).outcome(*old(self), r, scrub_effect(old(self).state(), new_time)),
    {
        let a = match self.workbench_animation_position() {
            Ok(a) => a,
            Err(e) => return Err(e),
        };
        let index = match self.sheet.animations[a].frame_at(new_time) {
            Some(i) => i,
            None => return Err(StateError::NoKeyframeForThisTime),
        };
        self.view.selection = Some(Selection::Keyframe(IndexSelection::single(index)));
        self.view.timeline_clock = new_time;
        Ok(())
    }

    pub fn snap_to_previous_frame(&mut self) -> (r: Result<(), StateError>)
        ensures
            final(self).outcome(*old(self), r, snap_previous_effect(old(self).state())),
    {
        let a = match self.workbench_animation_position() {
            Ok(a) => a,
            Err(e) => return Err(e),
        };
        if self.sheet.animations[a].keyframes.len() == 0 {
            return Ok(());
        }
        let clock = self.sheet.animations[a].previous_boundary(self.view.timeline_clock);
        self.update_timeline_scrub(clock)
    }

    pub fn snap_to_next_frame(&mut self) -> (r: Result<(), StateError>)
        ensures
            final(self).outcome(*old(self), r, snap_next_effect(old(self).state())),
    {
        let a = match self.workbench_animation_position() {
            Ok(a) => a,
            Err(e) => return Err(e),
        };
        if self.sheet.animations[a].keyframes.len() == 0 {
            return Ok(());
        }
        let clock = self.sheet.animations[a].next_boundary(self.view.timeline_clock);
        self.update_timeline_scrub(clock)
    }
}

} // verus!
