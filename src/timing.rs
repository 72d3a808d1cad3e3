use vstd::prelude::*;

verus! {

/// Seconds between two performance reports.
pub const REPORT_INTERVAL_SECS: u64 = 2;

/// Running sums of the time spent in each phase of the frames since the last
/// report, in microseconds, and the number of those frames. They feed the
/// diagnostic output only; no scheduling decision reads them.
#[derive(Debug, Clone, Copy, PartialEq, Eq, Structural)]
pub struct FrameTimers {
    pub frames: u64,
    pub event_us: u64,
    pub render_us: u64,
    pub draw_us: u64,
}

/// Averages over the frames of one reporting interval, in microseconds.
#[derive(Debug, Clone, Copy, PartialEq, Eq, Structural)]
pub struct FrameReport {
    pub frames: u64,
    pub avg_event_us: u64,
    pub avg_render_us: u64,
    pub avg_draw_us: u64,
}

impl FrameTimers {
    pub open spec fn is_zero(self) -> bool {
        self == (FrameTimers { frames: 0, event_us: 0, render_us: 0, draw_us: 0 })
    }

    /// All sums start at zero.
    pub fn new() -> (r: FrameTimers)
        ensures
            r.is_zero(),
    {
        FrameTimers { frames: 0, event_us: 0, render_us: 0, draw_us: 0 }
    }

    /// Whether `record` can add these durations without overflow.
    pub fn can_record(&self, event_us: u64, render_us: u64, draw_us: u64) -> (r: bool)
        ensures
            r == (self.frames + 1 <= u64::MAX && self.event_us + event_us <= u64::MAX
                && self.render_us + render_us <= u64::MAX && self.draw_us + draw_us <= u64::MAX),
    {
        self.frames < u64::MAX && self.event_us.checked_add(event_us).is_some()
            && self.render_us.checked_add(render_us).is_some()
            && self.draw_us.checked_add(draw_us).is_some()
    }

    /// Adds one frame's phase durations to the sums and counts the frame.
    pub fn record(&mut self, event_us: u64, render_us: u64, draw_us: u64)
        requires
            old(self).frames + 1 <= u64::MAX,
            old(self).event_us + event_us <= u64::MAX,
            old(self).render_us + render_us <= u64::MAX,
            old(self).draw_us + draw_us <= u64::MAX,
        ensures
            final(self).frames == old(self).frames + 1,
            final(self).event_us == old(self).event_us + event_us,
            final(self).render_us == old(self).render_us + render_us,
            final(self).draw_us == old(self).draw_us + draw_us,
    {
        self.frames = self.frames + 1;
        self.event_us = self.event_us + event_us;
        self.render_us = self.render_us + render_us;
        self.draw_us = self.draw_us + draw_us;
    }

    /// Whether a report is due, `elapsed_secs` whole seconds after the last.
    pub fn report_due(elapsed_secs: u64) -> (r: bool)
        ensures
            r == (elapsed_secs >= REPORT_INTERVAL_SECS),
    {
        elapsed_secs >= REPORT_INTERVAL_SECS
    }

    /// The per-frame averages of the interval (rounded down), after which all
    /// sums start again from zero.
    pub fn take_report(&mut self) -> (r: FrameReport)
        requires
            old(self).frames > 0,
        ensures
            r == (FrameReport {
                frames: old(self).frames,
                avg_event_us: old(self).event_us / old(self).frames,
                avg_render_us: old(self).render_us / old(self).frames,
                avg_draw_us: old(self).draw_us / old(self).frames,
            }),
            final(self).is_zero(),
    {
        let r = FrameReport {
            frames: self.frames,
            avg_event_us: self.event_us / self.frames,
            avg_render_us: self.render_us / self.frames,
            avg_draw_us: self.draw_us / self.frames,
        };
        *self = FrameTimers::new();
        r
    }
}

} // verus!
