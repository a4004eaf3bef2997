//! Frame pacing: when the next frame is due, and whether to wait for it.
//!
//! Time is measured in whole nanoseconds since an origin that the caller
//! picks on a monotonic clock, so an instant and a duration are both `u64`
//! counts of nanoseconds. The pacer waits, then reschedules: each deadline is
//! computed from the time at which the caller woke up, not from the previous
//! deadline. A late frame therefore does not shorten the ones after it, and
//! the cadence drifts by as much as each frame runs late.

use vstd::prelude::*;

verus! {

/// Nanoseconds per frame for 60 FPS.
///
/// The true period is 16.666... ms; the constant rounds it to whole
/// nanoseconds, so the cadence is not exactly 60 Hz over long runs.
pub const SIXTY_FPS_FRAME_TIME: u64 = 16_666_667;

/// What the event loop is to do once a frame has been presented.
#[derive(Clone, Copy, Debug, PartialEq, Eq)]
pub enum FrameFlow {
    /// Suspend until the given instant, or until an event arrives before it.
    WaitUntil(u64),
    /// Leave the loop.
    Exit,
}

/// Returns the instant that lies `interval` nanoseconds after `now`.
///
/// The sum has to be representable. With the clock's origin at program start
/// and an interval of milliseconds that leaves room for centuries.
pub fn next_deadline(now: u64, interval: u64) -> (deadline: u64)
    requires
        now + interval <= u64::MAX,
    ensures
        deadline == now + interval,
        interval > 0 ==> deadline > now,
{
    now + interval
}

/// Returns an instant describing when the next frame should be shown.
///
/// This is one [`SIXTY_FPS_FRAME_TIME`] after `now`.
pub fn next_frame_time(now: u64) -> (deadline: u64)
    requires
        now + SIXTY_FPS_FRAME_TIME <= u64::MAX,
    ensures
        deadline == now + SIXTY_FPS_FRAME_TIME,
        deadline > now,
{
    next_deadline(now, SIXTY_FPS_FRAME_TIME)
}

/// Decides what the event loop does after the frame presented at `now`: it
/// leaves where the host has asked for the window to be closed, and waits
/// for the next frame time otherwise.
pub fn frame_flow(close_requested: bool, now: u64) -> (flow: FrameFlow)
    requires
        now + SIXTY_FPS_FRAME_TIME <= u64::MAX,
    ensures
        close_requested ==> flow == FrameFlow::Exit,
        !close_requested ==> flow == FrameFlow::WaitUntil((now + SIXTY_FPS_FRAME_TIME) as u64),
{
    let deadline: u64 = next_frame_time(now);
    if close_requested {
        FrameFlow::Exit
    } else {
        FrameFlow::WaitUntil(deadline)
    }
}

} // verus!
