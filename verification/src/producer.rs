//! The frame producer: renders one frame per tick at a target rate and
//! publishes each result to the latest-value channel.  The timing loop that
//! actually sleeps lives outside the library; everything it decides — the
//! frame index, the display-duration hint, the length of each sleep, and
//! what gets published — is verified here.

use vstd::prelude::*;

use crate::channel::{Channel, SlotValue};
use crate::frame::FrameResult;
use crate::render::{pattern_byte, Renderer};

verus! {

/// Target frame rate of the live stream, in frames per second.
pub const FPS: usize = 25;

/// The producer's own state: the index of the next frame to render.
/// The index is content only, not identity, so it wraps rather than halting
/// the stream.
#[derive(Clone, Copy, PartialEq, Eq, Structural, Debug)]
pub struct ProducerState {
    pub next_index: u64,
}

impl ProducerState {
    /// The index after one tick: one more, wrapping at the top.
    pub open spec fn spec_advanced(self) -> u64 {
        if self.next_index == u64::MAX {
            0
        } else {
            (self.next_index + 1) as u64
        }
    }

    /// Starts at frame zero.
    pub fn new() -> (s: ProducerState)
        ensures
            s.next_index == 0,
    {
        ProducerState { next_index: 0 }
    }

    /// Moves on to the next frame index, wrapping at the top.
    pub fn advance(&mut self)
        ensures
            final(self).next_index == old(self).spec_advanced(),
    {
        if self.next_index == u64::MAX {
            self.next_index = 0;
        } else {
            self.next_index = self.next_index + 1;
        }
    }
}

/// The target interval between ticks, in milliseconds.
pub fn target_period_ms(fps: u64) -> (r: u64)
    requires
        fps >= 1,
    ensures
        r == 1000 as int / fps as int,
{
    1000 / fps
}

/// The display-duration hint stored in each frame, in units of 10 ms,
/// derived from the target frame rate.
pub fn frame_delay_units(fps: u16) -> (r: u16)
    requires
        fps >= 1,
    ensures
        r == (1000 as int / fps as int) / 10,
{
    (1000 / fps) / 10
}

/// How long to sleep after a tick that took `elapsed_ms`: the remainder of
/// the target period, or nothing when the tick overran it.  An overrunning
/// producer drifts; it never tries to catch up with a burst.
pub fn tick_sleep_ms(target_period_ms: u64, elapsed_ms: u64) -> (r: u64)
    ensures
        elapsed_ms >= target_period_ms ==> r == 0,
        elapsed_ms < target_period_ms ==> r == target_period_ms - elapsed_ms,
{
    if elapsed_ms >= target_period_ms {
        0
    } else {
        target_period_ms - elapsed_ms
    }
}

/// One producer tick, minus the sleep: renders the next frame and publishes
/// it, advancing the frame index.  The caller measures the elapsed time and
/// sleeps for [`tick_sleep_ms`] afterwards.
pub fn produce_tick(ch: &mut Channel, st: &mut ProducerState, r: &Renderer, delay: u16)
    requires
        old(ch).wf(),
        old(ch).generation < u64::MAX,
        r.wf(),
    ensures
        final(ch).wf(),
        final(ch).generation == old(ch).generation + 1,
        final(st).next_index == old(st).spec_advanced(),
        final(ch).slot matches SlotValue::Published(p)
            && p matches FrameResult::Frame(f)
            && f.wf()
            && f.width == r.width
            && f.height == r.height
            && f.delay == delay
            && (forall|i: int| 0 <= i < f.rgba@.len()
                ==> f.rgba@[i] == pattern_byte(r.pattern, old(st).next_index, i)),
{
    let frame = r.render(st.next_index, delay);
    st.advance();
    ch.publish(FrameResult::Frame(frame));
}

} // verus!
