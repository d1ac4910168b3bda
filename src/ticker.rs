use vstd::prelude::*;

verus! {

/// Frame pacer. Times are microseconds read from one monotonic clock.
pub struct Ticker {
    /// When the current frame was polled.
    pub start: u64,
    /// When the last frame finished, after its pause.
    pub end: u64,
}

/// What the pacer decided when a frame was polled.
#[derive(Clone, Copy, Debug, PartialEq, Eq, Structural)]
pub struct TickPlan {
    /// Time since the last frame finished: the work done before this poll.
    pub work: u64,
    /// Time since the last poll, pause included.
    pub frame: u64,
    /// How long to sleep before the frame finishes.
    pub pause: u64,
}

/// The pause that stretches `elapsed` to `min_frame`, or none when the frame
/// already took that long.
pub open spec fn pause_for(elapsed: int, min_frame: int) -> int {
    if elapsed < min_frame {
        min_frame - elapsed
    } else {
        0
    }
}

impl Ticker {
    /// A pacer whose last frame started and finished at `now`.
    pub fn new(now: u64) -> (r: Ticker)
        ensures
            r.start == now,
            r.end == now,
    {
        Ticker { start: now, end: now }
    }

    /// Polls a frame at `now`: records it as the frame's start and says how
    /// long to sleep so that at least `min_frame` passes between the ends of
    /// two frames.
    pub fn begin(&mut self, now: u64, min_frame: u64) -> (r: TickPlan)
        requires
            now >= old(self).end,
            now >= old(self).start,
        ensures
            final(self).start == now,
            final(self).end == old(self).end,
            r.work == now - old(self).end,
            r.frame == now - old(self).start,
            r.pause == pause_for(now - old(self).end, min_frame as int),
    {
        let work = now - self.end;
        let frame = now - self.start;
        let pause = if work < min_frame {
            min_frame - work
        } else {
            0
        };
        self.start = now;
        TickPlan { work, frame, pause }
    }

    /// Finishes the frame at `now`, after the pause, and returns the time
    /// since the previous frame finished.
    pub fn finish(&mut self, now: u64) -> (r: u64)
        requires
            now >= old(self).end,
        ensures
            final(self).start == old(self).start,
            final(self).end == now,
            r == now - old(self).end,
    {
        let elapsed = now - self.end;
        self.end = now;
        elapsed
    }
}

/// A frame that polls at `start`, sleeps at least the pause it was given and
/// finishes at `end` lasts at least `min_frame` since the previous frame
/// finished at `last_end`.
pub proof fn lemma_pacing_lower_bound(last_end: int, start: int, end: int, min_frame: int)
    requires
        last_end <= start,
        start + pause_for(start - last_end, min_frame) <= end,
    ensures
        end - last_end >= min_frame,
{
}

} // verus!
