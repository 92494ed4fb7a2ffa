//! Frame timing, on a microsecond clock the host reads and passes in: the
//! fixed-timestep pacer that decides when a tick is due and what timing
//! values the tick carries, and the frame counter that rolls up a report
//! once per second.  Rate values derived from a report (frames per second,
//! milliseconds per frame) are quotients the host computes for display.

use vstd::prelude::*;

verus! {

/// One due tick: the time since the last tick, and the accumulated absolute
/// time, both in microseconds.  Passed by value into rendering each tick.
#[derive(Clone, Copy, PartialEq, Eq, Structural, Debug)]
pub struct FrameTick {
    pub delta_micros: u64,
    pub time_micros: u64,
}

/// Fixed-timestep pacing: a tick is due once a full frame duration has
/// elapsed since the last tick.  The target tick rate is an explicit
/// configuration value given at construction, not process-wide state.
pub struct FramePacer {
    pub frame_duration_micros: u64,
    pub last_update_micros: u64,
    pub time_micros: u64,
}

impl FramePacer {
    /// A pacer that saw its last tick `now_micros`, with no time
    /// accumulated yet.
    pub fn new(frame_duration_micros: u64, now_micros: u64) -> (r: FramePacer)
        ensures
            r.frame_duration_micros == frame_duration_micros,
            r.last_update_micros == now_micros,
            r.time_micros == 0,
    {
        FramePacer { frame_duration_micros, last_update_micros: now_micros, time_micros: 0 }
    }

    /// Decides whether a tick is due at `now_micros`.  If a full frame
    /// duration has elapsed, the elapsed time is folded into the
    /// accumulated time, the tick's timing values come back, and the pacer
    /// restarts from `now_micros`; otherwise nothing changes and no tick is
    /// due.  The clock must not run backwards, and the accumulated time
    /// must still fit its counter.
    pub fn tick(&mut self, now_micros: u64) -> (r: Option<FrameTick>)
        requires
            now_micros >= old(self).last_update_micros,
            old(self).time_micros + (now_micros - old(self).last_update_micros) <= u64::MAX,
        ensures
            final(self).frame_duration_micros == old(self).frame_duration_micros,
            ({
                let delta = now_micros - old(self).last_update_micros;
                if delta >= old(self).frame_duration_micros {
                    &&& r == Some(
                        FrameTick {
                            delta_micros: delta as u64,
                            time_micros: (old(self).time_micros + delta) as u64,
                        },
                    )
                    &&& final(self).last_update_micros == now_micros
                    &&& final(self).time_micros == old(self).time_micros + delta
                } else {
                    &&& r is None
                    &&& *final(self) == *old(self)
                }
            }),
    {
        let delta = now_micros - self.last_update_micros;
        if delta >= self.frame_duration_micros {
            self.time_micros = self.time_micros + delta;
            self.last_update_micros = now_micros;
            Some(FrameTick { delta_micros: delta, time_micros: self.time_micros })
        } else {
            None
        }
    }

    /// When the next tick falls due: one frame duration after the last one.
    pub fn next_deadline_micros(&self) -> (r: u64)
        requires
            self.last_update_micros + self.frame_duration_micros <= u64::MAX,
        ensures
            r == self.last_update_micros + self.frame_duration_micros,
    {
        self.last_update_micros + self.frame_duration_micros
    }
}

/// What the frame counter reports when a second has passed: how many frames
/// it saw and over how long.  Frames per second is `frames` divided by the
/// elapsed seconds; milliseconds per frame is the reciprocal scaled — both
/// are display quotients left to the host.
#[derive(Clone, Copy, PartialEq, Eq, Structural, Debug)]
pub struct FrameStats {
    pub frames: u32,
    pub elapsed_micros: u64,
}

/// Counts frames between reports: every update counts one frame, and once
/// more than a second has passed since the last report, the tally comes
/// back and the counter restarts.
pub struct FrameCounter {
    pub last_printed_micros: u64,
    pub frame_count: u32,
}

/// How much time must pass between two frame-rate reports, in microseconds.
pub const REPORT_INTERVAL_MICROS: u64 = 1_000_000;

impl FrameCounter {
    /// A counter that starts its first reporting interval at `now_micros`.
    pub fn new(now_micros: u64) -> (r: FrameCounter)
        ensures
            r.last_printed_micros == now_micros,
            r.frame_count == 0,
    {
        FrameCounter { last_printed_micros: now_micros, frame_count: 0 }
    }

    /// Counts one frame at `now_micros`.  Once more than a second has
    /// passed since the last report, returns the tally — the just-counted
    /// frame included — and restarts the interval; otherwise only the count
    /// grows.  The clock must not run backwards, and the count must not be
    /// saturated.
    pub fn update(&mut self, now_micros: u64) -> (r: Option<FrameStats>)
        requires
            now_micros >= old(self).last_printed_micros,
            old(self).frame_count < u32::MAX,
        ensures
            ({
                let elapsed = now_micros - old(self).last_printed_micros;
                if elapsed > REPORT_INTERVAL_MICROS {
                    &&& r == Some(
                        FrameStats {
                            frames: (old(self).frame_count + 1) as u32,
                            elapsed_micros: elapsed as u64,
                        },
                    )
                    &&& final(self).last_printed_micros == now_micros
                    &&& final(self).frame_count == 0
                } else {
                    &&& r is None
                    &&& final(self).last_printed_micros == old(self).last_printed_micros
                    &&& final(self).frame_count == old(self).frame_count + 1
                }
            }),
    {
        self.frame_count = self.frame_count + 1;
        let elapsed = now_micros - self.last_printed_micros;
        if elapsed > REPORT_INTERVAL_MICROS {
            let stats = FrameStats { frames: self.frame_count, elapsed_micros: elapsed };
            self.last_printed_micros = now_micros;
            self.frame_count = 0;
            Some(stats)
        } else {
            None
        }
    }
}

} // verus!
