use vstd::prelude::*;
use crate::time::since;

verus! {

/// Target frame rate.
pub const TARGET_FPS: u32 = 30;

/// Length of a frame at the target rate, in milliseconds: `1000 / 30`.
pub const FRAME_DURATION_MS: u64 = 33;

/// Frame pacing and a frames-per-second count over one-second windows.
/// Times are monotonic milliseconds.
pub struct AnimationLoop {
    last_frame: u64,
    frame_count: u64,
    fps_sample_start: u64,
    fps_sample_count: u32,
    current_fps: u32,
}

impl AnimationLoop {
    pub closed spec fn last(&self) -> u64 {
        self.last_frame
    }

    pub closed spec fn frames(&self) -> u64 {
        self.frame_count
    }

    pub closed spec fn sample_start(&self) -> u64 {
        self.fps_sample_start
    }

    pub closed spec fn sample_count(&self) -> u32 {
        self.fps_sample_count
    }

    pub closed spec fn shown_fps(&self) -> u32 {
        self.current_fps
    }

    /// A loop started at `now`, reporting the target rate until it has
    /// measured a second.
    pub fn new(now: u64) -> (r: Self)
        ensures
            r.last() == now,
            r.frames() == 0,
            r.sample_start() == now,
            r.sample_count() == 0,
            r.shown_fps() == TARGET_FPS,
    {
        AnimationLoop {
            last_frame: now,
            frame_count: 0,
            fps_sample_start: now,
            fps_sample_count: 0,
            current_fps: TARGET_FPS,
        }
    }

    /// Whether a frame's time has passed since the last one.
    pub fn should_render(&self, now: u64) -> (r: bool)
        ensures
            r == (since(now, self.last()) >= FRAME_DURATION_MS),
    {
        let elapsed: u64 = if now >= self.last_frame { now - self.last_frame } else { 0 };
        elapsed >= FRAME_DURATION_MS
    }

    /// Milliseconds since the last frame.
    pub fn delta_millis(&self, now: u64) -> (r: u64)
        ensures
            r == since(now, self.last()),
    {
        if now >= self.last_frame {
            now - self.last_frame
        } else {
            0
        }
    }

    /// Records a frame drawn at `now`; once a second has passed since the
    /// window began, the frames of that window become the reported rate and
    /// a new window begins. The window count stops at its maximum.
    pub fn frame_rendered(&mut self, now: u64)
        requires
            old(self).frames() < u64::MAX,
        ensures
            final(self).last() == now,
            final(self).frames() == old(self).frames() + 1,
            ({
                let count = if old(self).sample_count() < u32::MAX {
                    old(self).sample_count() + 1
                } else {
                    old(self).sample_count() as int
                };
                if since(now, old(self).sample_start()) >= 1000 {
                    &&& final(self).shown_fps() == count
                    &&& final(self).sample_count() == 0
                    &&& final(self).sample_start() == now
                } else {
                    &&& final(self).shown_fps() == old(self).shown_fps()
                    &&& final(self).sample_count() == count
                    &&& final(self).sample_start() == old(self).sample_start()
                }
            }),
    {
        self.last_frame = now;
        self.frame_count = self.frame_count + 1;
        if self.fps_sample_count < u32::MAX {
            self.fps_sample_count = self.fps_sample_count + 1;
        }
        let window: u64 = if now >= self.fps_sample_start { now - self.fps_sample_start } else { 0 };
        if window >= 1000 {
            self.current_fps = self.fps_sample_count;
            self.fps_sample_count = 0;
            self.fps_sample_start = now;
        }
    }

    /// The rate measured over the last full window.
    pub fn fps(&self) -> (r: u32)
        ensures
            r == self.shown_fps(),
    {
        self.current_fps
    }

    /// Frames drawn so far.
    pub fn frame_count(&self) -> (r: u64)
        ensures
            r == self.frames(),
    {
        self.frame_count
    }

    /// Milliseconds until the next frame is due, 0 when it is due already.
    pub fn time_until_next_frame(&self, now: u64) -> (r: u64)
        ensures
            r == if since(now, self.last()) >= FRAME_DURATION_MS {
                0
            } else {
                FRAME_DURATION_MS - since(now, self.last())
            },
    {
        let elapsed: u64 = if now >= self.last_frame { now - self.last_frame } else { 0 };
        if elapsed >= FRAME_DURATION_MS {
            0
        } else {
            FRAME_DURATION_MS - elapsed
        }
    }
}

} // verus!
