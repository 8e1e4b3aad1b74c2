use vstd::prelude::*;

use crate::geometry::Vec2;
use crate::sheet::{position_of, Hitbox, HitboxModel};

verus! {

/// The handle of a hitbox that a resize gesture drags.
#[derive(Clone, Copy, Debug, PartialEq, Eq, Structural)]
pub enum ResizeAxis {
    N,
    S,
    W,
    E,
    NW,
    NE,
    SW,
    SE,
}

impl ResizeAxis {
    pub open spec fn is_diagonal(self) -> bool {
        matches!(self, ResizeAxis::NW | ResizeAxis::NE | ResizeAxis::SW | ResizeAxis::SE)
    }
}

/// What a keyframe was when a gesture on it began.
#[derive(Clone, Copy, Debug, PartialEq, Eq, Structural)]
pub struct KeyframeSnapshot {
    pub index: usize,
    pub duration: u32,
    pub offset: Vec2,
}

/// Position of the first snapshot of keyframe `index`, or -1.
pub open spec fn keyframe_snapshot_pos(snap: Seq<KeyframeSnapshot>, index: usize) -> int {
    position_of(snap.map_values(|s: KeyframeSnapshot| s.index), index)
}

/// Position of the first snapshot of the hitbox named `name`, or -1.
pub open spec fn hitbox_snapshot_pos(snap: Seq<HitboxModel>, name: Seq<char>) -> int {
    position_of(snap.map_values(|h: HitboxModel| h.name), name)
}

pub fn find_keyframe_snapshot(snap: &Vec<KeyframeSnapshot>, index: usize) -> (r: Option<
    KeyframeSnapshot,
>)
    ensures
        keyframe_snapshot_pos(snap@, index) == -1 ==> r is None,
        keyframe_snapshot_pos(snap@, index) >= 0 ==> r == Some(
            snap@[keyframe_snapshot_pos(snap@, index)],
        ),
{
    let ghost keys = snap@.map_values(|s: KeyframeSnapshot| s.index);
    let mut i: usize = 0;
    while i < snap.len()
        invariant
            0 <= i <= snap@.len(),
            keys == snap@.map_values(|s: KeyframeSnapshot| s.index),
            forall|j: int| 0 <= j < i ==> keys[j] != index,
        decreases snap@.len() - i,
    {
        if snap[i].index == index {
            proof {
                crate::sheet::lemma_position_of_found(keys, index, i as int);
            }
            return Some(snap[i]);
        }
        i += 1;
    }
    proof {
        crate::sheet::lemma_position_of_missing(keys, index);
    }
    None
}

pub fn find_hitbox_snapshot(snap: &Vec<Hitbox>, name: &String) -> (r: Option<usize>)
    ensures
        hitbox_snapshot_pos(snap@.map_values(|h: Hitbox| h@), name@) == -1 ==> r is None,
        hitbox_snapshot_pos(snap@.map_values(|h: Hitbox| h@), name@) >= 0 ==> r == Some(
            hitbox_snapshot_pos(snap@.map_values(|h: Hitbox| h@), name@) as usize,
        ) && hitbox_snapshot_pos(snap@.map_values(|h: Hitbox| h@), name@) < snap@.len(),
{
    let ghost keys = snap@.map_values(|h: Hitbox| h@).map_values(|h: HitboxModel| h.name);
    let mut i: usize = 0;
    while i < snap.len()
        invariant
            0 <= i <= snap@.len(),
            keys == snap@.map_values(|h: Hitbox| h@).map_values(|h: HitboxModel| h.name),
            forall|j: int| 0 <= j < i ==> keys[j] != name@,
        decreases snap@.len() - i,
    {
        if snap[i].name == *name {
            proof {
                crate::sheet::lemma_position_of_found(keys, name@, i as int);
            }
            return Some(i);
        }
        i += 1;
    }
    proof {
        crate::sheet::lemma_position_of_missing(keys, name@);
    }
    None
}

/// A gesture in progress: kept out of history, and cleared by any command that is not
/// part of a gesture.
#[derive(Debug)]
pub enum Transient {
    ContentFramesDrag,
    TimelineFrameDrag,
    TimelineScrub,
    Rename(String),
    KeyframeDuration {
        initial: Vec<KeyframeSnapshot>,
        frame_being_dragged: usize,
        reference_clock: u32,
    },
    KeyframePosition(Vec<KeyframeSnapshot>),
    HitboxPosition(Vec<Hitbox>),
    HitboxSize(ResizeAxis, Vec<Hitbox>),
}

pub enum TransientModel {
    ContentFramesDrag,
    TimelineFrameDrag,
    TimelineScrub,
    Rename(Seq<char>),
    KeyframeDuration {
        initial: Seq<KeyframeSnapshot>,
        frame_being_dragged: usize,
        reference_clock: u32,
    },
    KeyframePosition(Seq<KeyframeSnapshot>),
    HitboxPosition(Seq<HitboxModel>),
    HitboxSize(ResizeAxis, Seq<HitboxModel>),
}

impl View for Transient {
    type V = TransientModel;

    open spec fn view(&self) -> TransientModel {
        match self {
            Transient::ContentFramesDrag => TransientModel::ContentFramesDrag,
            Transient::TimelineFrameDrag => TransientModel::TimelineFrameDrag,
            Transient::TimelineScrub => TransientModel::TimelineScrub,
            Transient::Rename(n) => TransientModel::Rename(n@),
            Transient::KeyframeDuration { initial, frame_being_dragged, reference_clock } =>
                TransientModel::KeyframeDuration {
                initial: initial@,
                frame_being_dragged: *frame_being_dragged,
                reference_clock: *reference_clock,
            },
            Transient::KeyframePosition(s) => TransientModel::KeyframePosition(s@),
            Transient::HitboxPosition(s) => TransientModel::HitboxPosition(
                s@.map_values(|h: Hitbox| h@),
            ),
            Transient::HitboxSize(a, s) => TransientModel::HitboxSize(
                *a,
                s@.map_values(|h: Hitbox| h@),
            ),
        }
    }
}

impl Clone for Transient {
    fn clone(&self) -> (r: Transient)
        ensures
            r@ == self@,
    {
        match self {
            Transient::ContentFramesDrag => Transient::ContentFramesDrag,
            Transient::TimelineFrameDrag => Transient::TimelineFrameDrag,
            Transient::TimelineScrub => Transient::TimelineScrub,
            Transient::Rename(n) => Transient::Rename(n.clone()),
            Transient::KeyframeDuration { initial, frame_being_dragged, reference_clock } => {
                let c = initial.clone();
                assert(c@ =~= initial@);
                Transient::KeyframeDuration {
                    initial: c,
                    frame_being_dragged: *frame_being_dragged,
                    reference_clock: *reference_clock,
                }
            },
            Transient::KeyframePosition(s) => {
                let c = s.clone();
                assert(c@ =~= s@);
                Transient::KeyframePosition(c)
            },
            Transient::HitboxPosition(s) => {
                let c = s.clone();
                assert(c@.map_values(|h: Hitbox| h@) =~= s@.map_values(|h: Hitbox| h@));
                Transient::HitboxPosition(c)
            },
            Transient::HitboxSize(a, s) => {
                let c = s.clone();
                assert(c@.map_values(|h: Hitbox| h@) =~= s@.map_values(|h: Hitbox| h@));
                Transient::HitboxSize(*a, c)
            },
        }
    }
}

pub open spec fn transient_model(t: Option<Transient>) -> Option<TransientModel> {
    match t {
        Some(t) => Some(t@),
        None => None,
    }
}

pub fn clone_transient(t: &Option<Transient>) -> (r: Option<Transient>)
    ensures
        transient_model(r) == transient_model(*t),
{
    match t {
        Some(t) => Some(t.clone()),
        None => None,
    }
}

} // verus!
