//! Core of a system-tray CPU animation: a tick-driven state machine that
//! derives an animation interval from CPU utilization, cycles through icon
//! frames, toggles a light/dark color variant on left click, and stops on a
//! quit request. All timing and utilization values are integers: CPU usage in
//! hundredths of a percent, intervals in microseconds, timestamps in
//! milliseconds.

pub mod color;
pub mod event;
pub mod frame;
pub mod icon;
pub mod speed;
pub mod state;
pub mod tooltip;
