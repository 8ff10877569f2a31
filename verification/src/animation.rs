//! The decisions of the driving loop.
//!
//! The loop itself belongs to the firmware: it reads the timer, draws from
//! the entropy source, hands each frame to the transmitter and waits. What
//! it has to decide on every pass is here: whether the fade is due for a
//! step, what the colours are afterwards, and which frame goes out.

use crate::color::{drawn, RGB};
use crate::fade::{needs_target, step, stepped};
use crate::pulse::{encoded, LedSerializable};
use vstd::prelude::*;

verus! {

/// The fade takes a step once the biased elapsed time exceeds this many
/// milliseconds.
pub const UPDATE_THRESHOLD_MS: u64 = 20;

/// Added to the measured time since the last step, so that the elapsed
/// time is never taken to be zero.
pub const ELAPSED_BIAS_MS: u64 = 1;

/// Pause after each frame, in microseconds: the LED latches the colour
/// while the line rests.
pub const FRAME_GAP_MICROS: u32 = 100;

/// The elapsed time that the threshold is held against: the measured
/// milliseconds since the last step, plus the bias.
pub open spec fn biased_elapsed(elapsed_ms: u64) -> int {
    elapsed_ms + ELAPSED_BIAS_MS
}

/// Whether the fade is due for a step after the given measured time.
pub open spec fn update_due(elapsed_ms: u64) -> bool {
    biased_elapsed(elapsed_ms) > UPDATE_THRESHOLD_MS
}

/// Whether the fade is due for a step, `elapsed_ms` milliseconds after the
/// last one.
pub fn is_due(elapsed_ms: u64) -> (due: bool)
    ensures
        due == update_due(elapsed_ms),
{
    elapsed_ms > UPDATE_THRESHOLD_MS - ELAPSED_BIAS_MS
}

/// The colours that the loop carries from one pass to the next.
#[derive(PartialEq, Eq, Structural, Clone, Copy, Debug)]
pub struct Animation {
    /// The colour that the LED shows.
    pub current: RGB,
    /// The colour that the fade moves towards.
    pub target: RGB,
}

/// What one pass of the loop has decided.
#[derive(Clone, Copy, Debug)]
pub struct Tick {
    /// Whether the fade took a step, so that the loop restarts its timer.
    pub updated: bool,
    /// The frame to transmit.
    pub frame: [u32; 25],
}

impl Animation {
    /// Whether both colours lie in the range that draws produce.
    pub open spec fn in_range(self) -> bool {
        self.current.drawable() && self.target.drawable()
    }

    /// The colours after a pass that measured `elapsed_ms` and would adopt
    /// `fresh` as a new target: one step further if the fade is due, else
    /// unchanged.
    pub open spec fn ticked(self, elapsed_ms: u64, fresh: RGB) -> Animation {
        if update_due(elapsed_ms) {
            let next = stepped(self.current, self.target, fresh);
            Animation { current: next.0, target: next.1 }
        } else {
            self
        }
    }

    /// Starts an animation at `current`, fading towards `target`.
    pub fn new(current: RGB, target: RGB) -> (animation: Animation)
        ensures
            animation.current == current,
            animation.target == target,
    {
        Animation { current, target }
    }

    /// The packed word of the colour that the LED shows.
    pub fn color(&self) -> (word: u32)
        ensures
            word == self.current.packed(),
    {
        self.current.to_u32()
    }

    /// Whether a pass that measured `elapsed_ms` will read its three
    /// draws: the fade is due and has reached its target. On any other
    /// pass the entropy source need not be asked.
    pub fn wants_draw(&self, elapsed_ms: u64) -> (wanted: bool)
        ensures
            wanted == (update_due(elapsed_ms) && self.current == self.target),
    {
        is_due(elapsed_ms) && needs_target(self.current, self.target)
    }

    /// One pass of the loop. `elapsed_ms` is the measured time since the
    /// last step in milliseconds; the three draws come from the entropy
    /// source and are read only if [`Animation::wants_draw`] holds.
    ///
    /// If the fade is due, it takes exactly one step; otherwise both
    /// colours stay as they are. Either way the frame of the current
    /// colour is returned for transmission.
    pub fn tick(&mut self, elapsed_ms: u64, green_draw: u32, red_draw: u32, blue_draw: u32) -> (out:
        Tick)
        ensures
            out.updated == update_due(elapsed_ms),
            *final(self) == old(self).ticked(elapsed_ms, drawn(green_draw, red_draw, blue_draw)),
            !update_due(elapsed_ms) ==> *final(self) == *old(self),
            out.frame@ == encoded(final(self).current.packed() as u32),
            old(self).in_range() ==> final(self).in_range(),
    {
        let updated = is_due(elapsed_ms);
        if updated {
            let next = step(self.current, self.target, green_draw, red_draw, blue_draw);
            self.current = next.0;
            self.target = next.1;
        }
        Tick { updated, frame: self.color().to_color() }
    }
}

/// A pass that does not read its draws comes out the same whatever they
/// are.
pub proof fn lemma_draws_unread(animation: Animation, elapsed_ms: u64, fresh: RGB, other: RGB)
    requires
        !(update_due(elapsed_ms) && animation.current == animation.target),
    ensures
        animation.ticked(elapsed_ms, fresh) == animation.ticked(elapsed_ms, other),
{
}

/// While the measured time plus the bias does not exceed the threshold,
/// a pass changes nothing, however often it is repeated: the same frame
/// goes out again.
pub proof fn lemma_threshold_gating(animation: Animation, elapsed_ms: u64, fresh: RGB)
    requires
        biased_elapsed(elapsed_ms) <= UPDATE_THRESHOLD_MS,
    ensures
        animation.ticked(elapsed_ms, fresh) == animation,
        encoded(animation.ticked(elapsed_ms, fresh).current.packed() as u32) == encoded(
            animation.current.packed() as u32,
        ),
{
}

} // verus!
