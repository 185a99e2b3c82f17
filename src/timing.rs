//! Frame timing: frames per whole second, and the time since the last millisecond tick.
use vstd::prelude::*;

verus! {

/// Frame-timing state, in whole seconds and milliseconds since the loop began.
#[derive(Clone, Copy, Debug, PartialEq, Eq, Structural)]
pub struct FrameTimer {
    pub prev_seconds: u64,
    pub prev_ms: u64,
    pub frames: u64,
    pub fps_frames: u64,
    pub fps_seconds: u64,
    pub frame_time_ms: u64,
}

impl FrameTimer {
    pub open spec fn start() -> FrameTimer {
        FrameTimer {
            prev_seconds: 0,
            prev_ms: 0,
            frames: 0,
            fps_frames: 0,
            fps_seconds: 0,
            frame_time_ms: 0,
        }
    }

    pub fn new() -> (r: FrameTimer)
        ensures
            r == FrameTimer::start(),
    {
        FrameTimer {
            prev_seconds: 0,
            prev_ms: 0,
            frames: 0,
            fps_frames: 0,
            fps_seconds: 0,
            frame_time_ms: 0,
        }
    }

    /// The state after one frame observed at `now_seconds` whole seconds and
    /// `now_ms` whole milliseconds since the loop began. The frame counter
    /// saturates at `u64::MAX`.
    pub open spec fn next(self, now_seconds: u64, now_ms: u64) -> FrameTimer {
        let frames = if self.frames == u64::MAX {
            u64::MAX
        } else {
            (self.frames + 1) as u64
        };
        let t = if now_seconds > self.prev_seconds {
            FrameTimer {
                prev_seconds: now_seconds,
                frames: 0,
                fps_frames: frames,
                fps_seconds: (now_seconds - self.prev_seconds) as u64,
                ..self
            }
        } else {
            FrameTimer { frames, ..self }
        };
        if now_ms > self.prev_ms {
            FrameTimer { prev_ms: now_ms, frame_time_ms: (now_ms - self.prev_ms) as u64, ..t }
        } else {
            t
        }
    }

    /// Counts one frame and updates the frames-per-second window and the frame time.
    /// The frame rate is `fps_frames / fps_seconds`, recomputed only when the whole
    /// seconds advance; the frame time is the milliseconds since the last
    /// millisecond tick, a coarse estimate of one frame's duration.
    pub fn tick(&mut self, now_seconds: u64, now_ms: u64)
        ensures
            *final(self) == old(self).next(now_seconds, now_ms),
    {
        let frames = self.frames.saturating_add(1);
        if now_seconds > self.prev_seconds {
            self.fps_frames = frames;
            self.fps_seconds = now_seconds - self.prev_seconds;
            self.frames = 0;
            self.prev_seconds = now_seconds;
        } else {
            self.frames = frames;
        }
        if now_ms > self.prev_ms {
            self.frame_time_ms = now_ms - self.prev_ms;
            self.prev_ms = now_ms;
        }
    }
}

/// Once the frame rate has been recomputed at a whole second, no later frame
/// within that second (or at an earlier reading) recomputes it: its value stays
/// as it was until the seconds advance again.
pub proof fn lemma_fps_stable_within_second(
    t: FrameTimer,
    s1: u64,
    ms1: u64,
    s2: u64,
    ms2: u64,
)
    requires
        s2 <= s1,
    ensures
        t.next(s1, ms1).next(s2, ms2).fps_frames == t.next(s1, ms1).fps_frames,
        t.next(s1, ms1).next(s2, ms2).fps_seconds == t.next(s1, ms1).fps_seconds,
{
}

/// When the whole seconds advance, the frame rate is recomputed from exactly the
/// frames counted since the last recomputation, this one included, over the
/// seconds elapsed since then, and the count starts again.
pub proof fn lemma_fps_at_recompute(t: FrameTimer, s: u64, ms: u64)
    requires
        s > t.prev_seconds,
        t.frames < u64::MAX,
    ensures
        t.next(s, ms).fps_frames == t.frames + 1,
        t.next(s, ms).fps_seconds == s - t.prev_seconds,
        t.next(s, ms).frames == 0,
        t.next(s, ms).prev_seconds == s,
{
}

} // verus!
