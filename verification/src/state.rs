//! The tick-driven animator/sampler loop, as a state machine over plain
//! values. The surrounding program wakes the machine at a short fixed
//! resolution, hands it the wall-clock time in milliseconds, the latest CPU
//! utilization reading in hundredths of a percent, and at most one pending
//! menu event and one pending tray event; the machine answers with what to
//! push to the tray, whether to refresh the CPU sample, and whether to stop.

use vstd::prelude::*;

use crate::color::ColorMode;
use crate::event::TrayEvent;
use crate::event::is_left_down;
use crate::event::is_quit;
use crate::event::left_down;
use crate::frame::FRAME_COUNT;
use crate::frame::advance;
use crate::frame::next_index;
use crate::frame::shown_frame;
use crate::speed::BASE_INTERVAL_US;
use crate::speed::MIN_INTERVAL_US;
use crate::speed::interval_us_from_usage;
use crate::speed::interval_us_spec;
use crate::tooltip::tooltip_chars;
use crate::tooltip::tooltip_text;

verus! {

/// The CPU sample is refreshed when more than this many milliseconds have
/// passed since the last refresh.
pub const CPU_REFRESH_MS: u64 = 3000;

/// The largest timestamp the loop accepts, in milliseconds: the elapsed time
/// must be convertible to microseconds within a 64-bit word.
pub const MAX_TIME_MS: u64 = 0xFFFF_FFFF_FFFF_FFFF / 1000;

/// A frame advance is due when strictly more than the current interval has
/// passed since the last one, compared at millisecond granularity.
pub open spec fn frame_due(last_ms: u64, now_ms: u64, interval_us: u64) -> bool {
    (now_ms - last_ms) * 1000 > interval_us
}

/// A CPU refresh is due when strictly more than `CPU_REFRESH_MS` has passed
/// since the last one.
pub open spec fn cpu_refresh_due(last_ms: u64, now_ms: u64) -> bool {
    now_ms - last_ms > CPU_REFRESH_MS
}

/// The icon to push on a qualifying tick: a color variant and a frame index
/// below `FRAME_COUNT`.
#[derive(Clone, Copy, Debug, PartialEq, Eq, Structural)]
pub struct FrameIcon {
    pub color: ColorMode,
    pub index: usize,
}

/// What one tick asks the surrounding program to do.
pub struct TickOutput {
    /// The icon to push to the tray, when a frame advance was due.
    pub icon: Option<FrameIcon>,
    /// The tooltip text to push to the tray, when a frame advance was due.
    pub tooltip: Option<String>,
    /// Whether to refresh the CPU utilization sample before the next tick.
    pub refresh_cpu: bool,
    /// Whether the loop has terminated: set on the tick that sees the quit
    /// event and on every tick thereafter.
    pub quit: bool,
}

/// The whole state the loop owns between ticks.
#[derive(Clone, Copy, Debug, PartialEq, Eq, Structural)]
pub struct LoopState {
    /// Stored frame index, in `0..=FRAME_COUNT`; it may rest at `FRAME_COUNT`
    /// for one tick before the wrap check pulls it back to 0.
    pub frame_index: usize,
    /// When the frame was last advanced, in milliseconds.
    pub last_frame_update_ms: u64,
    /// Current animation interval in microseconds, within
    /// `MIN_INTERVAL_US..=BASE_INTERVAL_US`.
    pub interval_us: u64,
    /// When the CPU sample was last refreshed, in milliseconds.
    pub last_cpu_sample_ms: u64,
    /// The color variant the next icon push uses.
    pub color: ColorMode,
    /// The identity token of the quit menu item.
    pub quit_id: u64,
    /// Whether the quit event has been observed; once set, ticks do nothing.
    pub exited: bool,
}

impl LoopState {
    /// The state's invariant: the frame index has at most reached the wrap
    /// point and the interval lies between the fastest and slowest rate.
    pub open spec fn wf(self) -> bool {
        &&& self.frame_index <= FRAME_COUNT
        &&& MIN_INTERVAL_US <= self.interval_us <= BASE_INTERVAL_US
    }

    /// The initial state: frame 0, dark variant, the slowest interval, both
    /// timers anchored at `start_ms`, not exited.
    pub fn new(start_ms: u64, quit_id: u64) -> (s: LoopState)
        ensures
            s.wf(),
            s.frame_index == 0,
            s.last_frame_update_ms == start_ms,
            s.interval_us == BASE_INTERVAL_US,
            s.last_cpu_sample_ms == start_ms,
            s.color == ColorMode::Dark,
            s.quit_id == quit_id,
            !s.exited,
    {
        LoopState {
            frame_index: 0,
            last_frame_update_ms: start_ms,
            interval_us: BASE_INTERVAL_US,
            last_cpu_sample_ms: start_ms,
            color: ColorMode::Dark,
            quit_id,
            exited: false,
        }
    }

    /// One scheduler tick.
    ///
    /// While running: if a frame advance is due, the output carries the frame
    /// shown for the pre-tick index in the pre-tick color, the tooltip text
    /// for the given utilization reading, and the state takes the advanced
    /// index, the interval derived from that reading, and the new timestamp;
    /// otherwise icon and tooltip stay empty and those fields keep their
    /// values. A CPU refresh is requested exactly when its own period has
    /// elapsed. The state exits exactly when the menu event carries the quit
    /// identity, and the output's `quit` says so on that same tick. The color
    /// flips exactly when the tray event is a left-button press.
    ///
    /// Once exited, a tick changes nothing and asks for nothing but to quit.
    pub fn tick(
        &mut self,
        now_ms: u64,
        usage_centi: u32,
        menu_event: Option<u64>,
        tray_event: Option<TrayEvent>,
    ) -> (out: TickOutput)
        requires
            old(self).wf(),
            old(self).last_frame_update_ms <= now_ms,
            old(self).last_cpu_sample_ms <= now_ms,
            now_ms <= MAX_TIME_MS,
        ensures
            final(self).wf(),
            final(self).quit_id == old(self).quit_id,
            out.quit == final(self).exited,
            out.icon matches Some(icon) ==> icon.index < FRAME_COUNT,
            old(self).exited ==> {
                &&& *final(self) == *old(self)
                &&& out.icon is None
                &&& out.tooltip is None
                &&& !out.refresh_cpu
            },
            !old(self).exited ==> {
                let due = frame_due(old(self).last_frame_update_ms, now_ms, old(self).interval_us);
                let refresh = cpu_refresh_due(old(self).last_cpu_sample_ms, now_ms);
                &&& due ==> {
                    &&& out.icon matches Some(icon) && icon.color == old(self).color
                        && icon.index == shown_frame(old(self).frame_index as nat)
                    &&& out.tooltip matches Some(t) && t@ == tooltip_chars(usage_centi as nat)
                    &&& final(self).frame_index == next_index(old(self).frame_index as nat)
                    &&& final(self).interval_us == interval_us_spec(usage_centi as nat)
                    &&& final(self).last_frame_update_ms == now_ms
                }
                &&& !due ==> {
                    &&& out.icon is None
                    &&& out.tooltip is None
                    &&& final(self).frame_index == old(self).frame_index
                    &&& final(self).interval_us == old(self).interval_us
                    &&& final(self).last_frame_update_ms == old(self).last_frame_update_ms
                }
                &&& out.refresh_cpu == refresh
                &&& final(self).last_cpu_sample_ms == if refresh {
                    now_ms
                } else {
                    old(self).last_cpu_sample_ms
                }
                &&& final(self).exited == is_quit(menu_event, old(self).quit_id)
                &&& final(self).color == if is_left_down(tray_event) {
                    old(self).color.flipped()
                } else {
                    old(self).color
                }
            },
    {
        let mut out = TickOutput { icon: None, tooltip: None, refresh_cpu: false, quit: false };
        if self.exited {
            out.quit = true;
            return out;
        }

        let elapsed_ms = now_ms - self.last_frame_update_ms;
        if elapsed_ms * 1000 > self.interval_us {
            let shown = advance(&mut self.frame_index);
            out.icon = Some(FrameIcon { color: self.color, index: shown });
            out.tooltip = Some(tooltip_text(usage_centi));
            self.interval_us = interval_us_from_usage(usage_centi);
            self.last_frame_update_ms = now_ms;
        }

        let cpu_elapsed_ms = now_ms - self.last_cpu_sample_ms;
        if cpu_elapsed_ms > CPU_REFRESH_MS {
            out.refresh_cpu = true;
            self.last_cpu_sample_ms = now_ms;
        }

        if let Some(id) = menu_event {
            if id == self.quit_id {
                self.exited = true;
                out.quit = true;
            }
        }

        if left_down(&tray_event) {
            self.color = self.color.toggle();
        }

        out
    }
}

} // verus!
