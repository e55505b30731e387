use vstd::prelude::*;

use crate::geometry::Point;

verus! {

/// A short, non-looping impact animation shown where the ball hit a paddle.
///
/// The frames themselves live with whoever draws them; the effect tracks which
/// frame is current, and stays on the last one once it gets there.
#[derive(Clone, Copy, Debug, PartialEq, Eq, Structural)]
pub struct Impact {
    position: Point,
    current_frame: usize,
    frame_rate: u32,
    frame_count: usize,
}

impl Impact {
    /// Updates spent on each frame.
    pub const FRAME_SPEED: u32 = 6;

    pub closed spec fn spec_position(&self) -> Point {
        self.position
    }

    pub closed spec fn spec_current_frame(&self) -> int {
        self.current_frame as int
    }

    /// Updates spent so far on the current frame.
    pub closed spec fn spec_frame_rate(&self) -> int {
        self.frame_rate as int
    }

    pub closed spec fn spec_frame_count(&self) -> int {
        self.frame_count as int
    }

    pub open spec fn wf(&self) -> bool {
        &&& 1 <= self.spec_frame_count()
        &&& 0 <= self.spec_current_frame() < self.spec_frame_count()
        &&& 0 <= self.spec_frame_rate() < Impact::FRAME_SPEED
    }

    /// Whether the effect shows its last frame, after which nothing changes.
    pub open spec fn finished(&self) -> bool {
        self.spec_current_frame() + 1 >= self.spec_frame_count()
    }

    /// A fresh effect at `pos` over `frame_count` frames.
    pub closed spec fn spawned(pos: Point, frame_count: usize) -> Impact {
        Impact { position: pos, current_frame: 0, frame_rate: 0, frame_count }
    }

    /// A fresh effect stands where it was spawned, shows its first frame with its
    /// counter at zero, and is well formed where it has at least one frame.
    pub proof fn lemma_spawned(pos: Point, frame_count: usize)
        ensures
            Impact::spawned(pos, frame_count).spec_position() == pos,
            Impact::spawned(pos, frame_count).spec_current_frame() == 0,
            Impact::spawned(pos, frame_count).spec_frame_rate() == 0,
            Impact::spawned(pos, frame_count).spec_frame_count() == frame_count,
            frame_count >= 1 ==> Impact::spawned(pos, frame_count).wf(),
    {
    }

    /// The effect after one update.
    pub closed spec fn stepped(self) -> Impact {
        if self.current_frame + 1 >= self.frame_count {
            self
        } else if self.frame_rate + 1 == Impact::FRAME_SPEED {
            Impact { current_frame: (self.current_frame + 1) as usize, frame_rate: 0, ..self }
        } else {
            Impact { frame_rate: (self.frame_rate + 1) as u32, ..self }
        }
    }

    /// The effect after `k` updates.
    pub open spec fn after(self, k: nat) -> Impact
        decreases k,
    {
        if k == 0 {
            self
        } else {
            self.after((k - 1) as nat).stepped()
        }
    }

    /// Updates a fresh effect takes to reach its last frame.
    pub open spec fn updates_to_finish(&self) -> int {
        (self.spec_frame_count() - 1) * Impact::FRAME_SPEED
    }

    proof fn lemma_after_early(self, k: nat)
        requires
            self.wf(),
            self.current_frame == 0,
            self.frame_rate == 0,
            k <= self.updates_to_finish(),
        ensures
            self.after(k) == (Impact {
                current_frame: (k / 6) as usize,
                frame_rate: (k % 6) as u32,
                ..self
            }),
        decreases k,
    {
        if k > 0 {
            let j = (k - 1) as nat;
            self.lemma_after_early(j);
            let n = self.frame_count as int;
            assert(j / 6 < n - 1) by (nonlinear_arith)
                requires
                    j < (n - 1) * 6,
            ;
            if j % 6 + 1 == 6 {
                assert(k / 6 == j / 6 + 1 && k % 6 == 0) by (nonlinear_arith)
                    requires
                        k == j + 1,
                        j % 6 == 5,
                ;
            } else {
                assert(k / 6 == j / 6 && k % 6 == j % 6 + 1) by (nonlinear_arith)
                    requires
                        k == j + 1,
                        j % 6 < 5,
                ;
            }
        }
    }

    proof fn lemma_after_late(self, k: nat)
        requires
            self.wf(),
            self.current_frame == 0,
            self.frame_rate == 0,
            k >= self.updates_to_finish(),
        ensures
            self.after(k) == self.after(self.updates_to_finish() as nat),
        decreases k,
    {
        let m = self.updates_to_finish() as nat;
        if k > m {
            self.lemma_after_late((k - 1) as nat);
            self.lemma_after_early(m);
            let n = self.frame_count as int;
            assert(m / 6 == n - 1) by (nonlinear_arith)
                requires
                    m == (n - 1) * 6,
                    n >= 1,
            ;
        }
    }

    /// A fresh effect shows its last frame after exactly `(frame_count - 1) * FRAME_SPEED`
    /// updates, not before; from then on further updates leave it unchanged. Until
    /// then, after `k` updates it shows frame `k / FRAME_SPEED`; it stays well formed.
    pub proof fn lemma_reaches_last_frame(self, k: nat)
        requires
            self.wf(),
            self.spec_current_frame() == 0,
            self.spec_frame_rate() == 0,
        ensures
            k < self.updates_to_finish() ==> !self.after(k).finished(),
            k == self.updates_to_finish() ==> self.after(k).spec_current_frame() == self.spec_frame_count() - 1,
            k >= self.updates_to_finish() ==> self.after(k) == self.after(self.updates_to_finish() as nat),
            self.after(k).spec_frame_count() == self.spec_frame_count(),
            self.after(k).spec_position() == self.spec_position(),
            self.after(k).wf(),
            k <= self.updates_to_finish() ==> {
                &&& self.after(k).spec_current_frame() == k as int / (Impact::FRAME_SPEED as int)
                &&& self.after(k).spec_frame_rate() == k as int % (Impact::FRAME_SPEED as int)
            },
    {
        let n = self.frame_count as int;
        let m = self.updates_to_finish() as nat;
        if k <= m {
            self.lemma_after_early(k);
            if k < m {
                assert(k / 6 < n - 1) by (nonlinear_arith)
                    requires
                        k < (n - 1) * 6,
                ;
            } else {
                assert(k / 6 == n - 1) by (nonlinear_arith)
                    requires
                        k == (n - 1) * 6,
                        n >= 1,
                ;
            }
        } else {
            self.lemma_after_late(k);
            self.lemma_after_early(m);
        }
    }

    /// A fresh effect at `pos` over `frame_count` frames, on its first frame.
    pub fn new(pos: Point, frame_count: usize) -> (r: Impact)
        requires
            frame_count >= 1,
        ensures
            r == Impact::spawned(pos, frame_count),
            r.wf(),
            r.spec_position() == pos,
            r.spec_frame_count() == frame_count,
            r.spec_current_frame() == 0,
            r.spec_frame_rate() == 0,
    {
        Impact { position: pos, current_frame: 0, frame_rate: 0, frame_count }
    }

    pub fn position(&self) -> (r: Point)
        ensures
            r == self.spec_position(),
    {
        self.position
    }

    /// Index of the frame to draw.
    pub fn current_frame(&self) -> (r: usize)
        ensures
            r == self.spec_current_frame(),
    {
        self.current_frame
    }

    pub fn frame_count(&self) -> (r: usize)
        ensures
            r == self.spec_frame_count(),
    {
        self.frame_count
    }

    /// Counts one update; every `FRAME_SPEED` updates the next frame comes up, until
    /// the last frame, which then stays.
    pub fn update(&mut self)
        requires
            old(self).wf(),
        ensures
            *final(self) == old(self).stepped(),
            final(self).wf(),
            final(self).spec_position() == old(self).spec_position(),
            final(self).spec_frame_count() == old(self).spec_frame_count(),
            old(self).finished() ==> *final(self) == *old(self),
            !old(self).finished() && old(self).spec_frame_rate() + 1 == Impact::FRAME_SPEED ==> {
                &&& final(self).spec_current_frame() == old(self).spec_current_frame() + 1
                &&& final(self).spec_frame_rate() == 0
            },
            !old(self).finished() && old(self).spec_frame_rate() + 1 != Impact::FRAME_SPEED ==> {
                &&& final(self).spec_current_frame() == old(self).spec_current_frame()
                &&& final(self).spec_frame_rate() == old(self).spec_frame_rate() + 1
            },
    {
        if self.current_frame + 1 >= self.frame_count {
            return;
        }
        if self.frame_rate + 1 == Impact::FRAME_SPEED {
            self.current_frame = self.current_frame + 1;
            self.frame_rate = 0;
        } else {
            self.frame_rate = self.frame_rate + 1;
        }
    }
}

} // verus!
