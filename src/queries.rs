use vstd::prelude::*;

use crate::document::Document;
use crate::editing::with_transient;
use crate::selection::{Selection, SelectionModel};
use crate::sheet::{Animation, Frame, Hitbox};
use crate::transient::{Transient, TransientModel};

verus! {

/// What `std::path::Path::file_name` gives for a path: its last component, if any.
pub uninterp spec fn file_name_of(path: Seq<char>) -> Option<Seq<char>>;

/// Relies on `std::path::Path::file_name`, whose result depends on the path alone.
#[verifier::external_body]
fn file_name(path: &String) -> (r: Option<String>)
    ensures
        match r {
            Some(n) => file_name_of(path@) == Some(n@),
            None => file_name_of(path@) is None,
        },
{
    std::path::Path::new(path).file_name().map(|f| f.to_string_lossy().into_owned())
}

/// The name shown for a document at `path`: its file name, or `???` without one.
pub open spec fn display_name(path: Seq<char>) -> Seq<char> {
    match file_name_of(path) {
        Some(n) => n,
        None => seq!['?', '?', '?'],
    }
}

impl Document {
    /// The file name of the document's path.
    pub fn get_display_name(&self) -> (r: String)
        ensures
            r@ == display_name(self.source@),
    {
        match file_name(&self.source) {
            Some(n) => n,
            None => {
                let r = String::from_str("???");
                proof {
                    reveal_strlit("???");
                }
                assert(r@ =~= seq!['?', '?', '?']);
                r
            },
        }
    }

    pub fn is_dragging_content_frames(&self) -> (r: bool)
        ensures
            r == (self.state().transient matches Some(TransientModel::ContentFramesDrag)),
    {
        matches!(self.transient, Some(Transient::ContentFramesDrag))
    }

    pub fn is_dragging_timeline_frames(&self) -> (r: bool)
        ensures
            r == (self.state().transient matches Some(TransientModel::TimelineFrameDrag)),
    {
        matches!(self.transient, Some(Transient::TimelineFrameDrag))
    }

    pub fn is_positioning_hitbox(&self) -> (r: bool)
        ensures
            r == (self.state().transient matches Some(TransientModel::HitboxPosition(_))),
    {
        matches!(self.transient, Some(Transient::HitboxPosition(_)))
    }

    pub fn is_sizing_hitbox(&self) -> (r: bool)
        ensures
            r == (self.state().transient matches Some(TransientModel::HitboxSize(..))),
    {
        matches!(self.transient, Some(Transient::HitboxSize(..)))
    }

    pub fn is_scrubbing_timeline(&self) -> (r: bool)
        ensures
            r == (self.state().transient matches Some(TransientModel::TimelineScrub)),
    {
        matches!(self.transient, Some(Transient::TimelineScrub))
    }

    pub fn is_adjusting_frame_duration(&self) -> (r: bool)
        ensures
            r == (self.state().transient matches Some(TransientModel::KeyframeDuration { .. })),
    {
        matches!(self.transient, Some(Transient::KeyframeDuration { .. }))
    }

    pub fn is_moving_keyframe(&self) -> (r: bool)
        ensures
            r == (self.state().transient matches Some(TransientModel::KeyframePosition(_))),
    {
        matches!(self.transient, Some(Transient::KeyframePosition(_)))
    }

    pub fn is_frame_selected(&self, frame: &Frame) -> (r: bool)
        ensures
            r == (self.view@.selection matches Some(SelectionModel::Frame(sel)) && sel.items.contains(
                frame.source@,
            )),
    {
        match &self.view.selection {
            Some(Selection::Frame(sel)) => sel.contains(&frame.source),
            _ => false,
        }
    }

    pub fn is_animation_selected(&self, animation: &Animation) -> (r: bool)
        ensures
            r == (self.view@.selection matches Some(SelectionModel::Animation(sel))
                && sel.items.contains(animation.name@)),
    {
        match &self.view.selection {
            Some(Selection::Animation(sel)) => sel.contains(&animation.name),
            _ => false,
        }
    }

    pub fn is_hitbox_selected(&self, hitbox: &Hitbox) -> (r: bool)
        ensures
            r == (self.view@.selection matches Some(SelectionModel::Hitbox(sel)) && sel.items.contains(
                hitbox.name@,
            )),
    {
        match &self.view.selection {
            Some(Selection::Hitbox(sel)) => sel.contains(&hitbox.name),
            _ => false,
        }
    }

    pub fn is_keyframe_selected(&self, keyframe_index: usize) -> (r: bool)
        ensures
            r == (self.view@.selection matches Some(SelectionModel::Keyframe(sel))
                && sel.items.contains(keyframe_index)),
    {
        match &self.view.selection {
            Some(Selection::Keyframe(sel)) => sel.contains(keyframe_index),
            _ => false,
        }
    }

    /// Starts dragging keyframes along the timeline.
    pub fn begin_keyframe_drag(&mut self)
        ensures
            final(self).edited_from(
                *old(self),
                with_transient(old(self).state(), Some(TransientModel::TimelineFrameDrag)),
            ),
    {
        self.transient = Some(Transient::TimelineFrameDrag);
    }
}

} // verus!
