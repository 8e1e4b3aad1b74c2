use vstd::prelude::*;

use crate::sheet::{Animation, AnimationModel, KeyframeModel};

verus! {

/// Start time, in milliseconds, of keyframe `i`: the sum of the durations before it.
pub open spec fn frame_start(ks: Seq<KeyframeModel>, i: int) -> int
    decreases i,
{
    if i <= 0 || ks.len() < i {
        0
    } else {
        frame_start(ks, i - 1) + ks[i - 1].duration
    }
}

/// The first keyframe from `i` on whose span ends after `t`; the last one if none does.
pub open spec fn first_ending_after(ks: Seq<KeyframeModel>, t: int, i: int) -> int
    decreases ks.len() - i,
{
    if i >= ks.len() - 1 {
        ks.len() - 1
    } else if t < frame_start(ks, i + 1) {
        i
    } else {
        first_ending_after(ks, t, i + 1)
    }
}

/// The latest keyframe start, at or below keyframe `i`, that is strictly before `now`;
/// the first keyframe's start if there is none.
pub open spec fn last_start_before(ks: Seq<KeyframeModel>, now: int, i: int) -> int
    decreases i,
{
    if i <= 0 {
        0
    } else if frame_start(ks, i) < now {
        frame_start(ks, i)
    } else {
        last_start_before(ks, now, i - 1)
    }
}

/// The earliest keyframe start, at or above keyframe `i`, that is strictly after `now`;
/// the last keyframe's start if there is none.
pub open spec fn first_start_after(ks: Seq<KeyframeModel>, now: int, i: int) -> int
    decreases ks.len() - i,
{
    if i >= ks.len() - 1 {
        frame_start(ks, ks.len() - 1)
    } else if frame_start(ks, i) > now {
        frame_start(ks, i)
    } else {
        first_start_after(ks, now, i + 1)
    }
}

impl AnimationModel {
    pub open spec fn start(self, i: int) -> int {
        frame_start(self.keyframes, i)
    }

    pub open spec fn duration(self) -> int {
        frame_start(self.keyframes, self.keyframes.len() as int)
    }

    /// The time at which playback shows a frame: wrapped into the animation's span when it
    /// loops.
    pub open spec fn local_time(self, t: int) -> int {
        if self.looping && self.duration() > 0 {
            t % self.duration()
        } else {
            t
        }
    }

    /// The keyframe shown at time `t`, if the animation has any.
    pub open spec fn frame_at(self, t: int) -> Option<int> {
        if self.keyframes.len() == 0 {
            None
        } else {
            Some(first_ending_after(self.keyframes, self.local_time(t), 0))
        }
    }

    /// Where snapping back from `now` lands.
    pub open spec fn previous_boundary(self, now: int) -> int {
        last_start_before(self.keyframes, now, self.keyframes.len() - 1)
    }

    /// Where snapping forward from `now` lands.
    pub open spec fn next_boundary(self, now: int) -> int {
        first_start_after(self.keyframes, now, 0)
    }
}

pub proof fn lemma_frame_start_bounds(ks: Seq<KeyframeModel>, i: int)
    requires
        0 <= i <= ks.len(),
    ensures
        0 <= frame_start(ks, i) <= i * 0xFFFF_FFFF,
    decreases i,
{
    if i > 0 {
        lemma_frame_start_bounds(ks, i - 1);
    }
}

proof fn lemma_start_fits(ks: Seq<KeyframeModel>, i: int)
    requires
        0 <= i <= ks.len(),
        i <= usize::MAX,
    ensures
        0 <= frame_start(ks, i) < u128::MAX,
{
    lemma_frame_start_bounds(ks, i);
    assert(i * 0xFFFF_FFFF < u128::MAX) by (nonlinear_arith)
        requires
            0 <= i <= usize::MAX,
    ;
}

impl Animation {
    /// Start time of keyframe `i`; `i` may be the number of keyframes, which gives the
    /// animation's duration.
    pub fn frame_start_time(&self, i: usize) -> (r: u128)
        requires
            i <= self.keyframes@.len(),
        ensures
            r == self@.start(i as int),
    {
        let mut t: u128 = 0;
        let mut k: usize = 0;
        while k < i
            invariant
                k <= i <= self.keyframes@.len(),
                t == frame_start(self@.keyframes, k as int),
            decreases i - k,
        {
            proof {
                lemma_start_fits(self@.keyframes, k + 1);
            }
            t = t + self.keyframes[k].duration as u128;
            k += 1;
        }
        t
    }

    pub fn duration(&self) -> (r: u128)
        ensures
            r == self@.duration(),
    {
        self.frame_start_time(self.keyframes.len())
    }

    pub fn frame_at(&self, t: u128) -> (r: Option<usize>)
        ensures
            match self@.frame_at(t as int) {
                Some(i) => r == Some(i as usize) && 0 <= i < self@.keyframes.len(),
                None => r is None,
            },
    {
        let n = self.keyframes.len();
        if n == 0 {
            return None;
        }
        let total = self.duration();
        let local = if self.looping && total > 0 {
            t % total
        } else {
            t
        };
        let ghost ks = self@.keyframes;
        let mut i: usize = 0;
        let mut end: u128 = self.keyframes[0].duration as u128;
        assert(frame_start(ks, 0) == 0);
        assert(end == frame_start(ks, 1));
        while i < n - 1
            invariant
                n == ks.len(),
                ks == self@.keyframes,
                i < n,
                end == frame_start(ks, i + 1),
                local == self@.local_time(t as int),
                first_ending_after(ks, local as int, 0) == first_ending_after(
                    ks,
                    local as int,
                    i as int,
                ),
            decreases n - i,
        {
            if local < end {
                return Some(i);
            }
            proof {
                lemma_start_fits(ks, i + 2);
            }
            i += 1;
            end = end + self.keyframes[i].duration as u128;
        }
        Some(n - 1)
    }

    pub fn previous_boundary(&self, now: u128) -> (r: u128)
        requires
            self@.keyframes.len() > 0,
        ensures
            r == self@.previous_boundary(now as int),
    {
        let mut i: usize = self.keyframes.len() - 1;
        let ghost ks = self@.keyframes;
        while i > 0
            invariant
                i < ks.len(),
                ks == self@.keyframes,
                self@.previous_boundary(now as int) == last_start_before(ks, now as int, i as int),
            decreases i,
        {
            let s = self.frame_start_time(i);
            if s < now {
                return s;
            }
            i -= 1;
        }
        0
    }

    pub fn next_boundary(&self, now: u128) -> (r: u128)
        requires
            self@.keyframes.len() > 0,
        ensures
            r == self@.next_boundary(now as int),
    {
        let n = self.keyframes.len();
        let mut i: usize = 0;
        let ghost ks = self@.keyframes;
        while i < n - 1
            invariant
                n == ks.len(),
                i < n,
                ks == self@.keyframes,
                self@.next_boundary(now as int) == first_start_after(ks, now as int, i as int),
            decreases n - i,
        {
            let s = self.frame_start_time(i);
            if s > now {
                return s;
            }
            i += 1;
        }
        self.frame_start_time(n - 1)
    }
}

} // verus!
