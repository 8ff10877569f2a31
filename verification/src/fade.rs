//! The fade controller: one step moves every channel of the current colour
//! one unit towards the target, and a target that has been reached is
//! replaced by a freshly drawn one before the step is taken.

use crate::color::{drawn, RGB};
use vstd::prelude::*;

verus! {

/// A channel after one step towards its target: one unit closer, or
/// unchanged once it is there.
pub open spec fn nudged_channel(current: u8, target: u8) -> u8 {
    if current < target {
        (current + 1) as u8
    } else if current > target {
        (current - 1) as u8
    } else {
        current
    }
}

/// A colour after one step towards a target, channel by channel.
pub open spec fn nudged(current: RGB, target: RGB) -> RGB {
    RGB {
        green: nudged_channel(current.green, target.green),
        red: nudged_channel(current.red, target.red),
        blue: nudged_channel(current.blue, target.blue),
    }
}

/// The target that a step works towards: the fresh colour if the old
/// target has been reached, else the old target.
pub open spec fn retargeted(current: RGB, target: RGB, fresh: RGB) -> RGB {
    if current == target {
        fresh
    } else {
        target
    }
}

/// One step of the fade: the new current colour and the target it moved
/// towards.
pub open spec fn stepped(current: RGB, target: RGB, fresh: RGB) -> (RGB, RGB) {
    let goal = retargeted(current, target, fresh);
    (nudged(current, goal), goal)
}

/// Moves one channel one unit towards its target.
pub fn nudge_channel(current: u8, target: u8) -> (next: u8)
    ensures
        next == nudged_channel(current, target),
{
    if current < target {
        current + 1
    } else if current > target {
        current - 1
    } else {
        current
    }
}

/// Moves every channel of `current` one unit towards `target`.
pub fn nudge(current: RGB, target: RGB) -> (next: RGB)
    ensures
        next == nudged(current, target),
{
    RGB {
        green: nudge_channel(current.green, target.green),
        red: nudge_channel(current.red, target.red),
        blue: nudge_channel(current.blue, target.blue),
    }
}

/// Whether the target has been reached, so that the next step draws a new
/// one and reads its three draws.
pub fn needs_target(current: RGB, target: RGB) -> (reached: bool)
    ensures
        reached == (current == target),
{
    current == target
}

/// Takes one step of the fade and returns the new current colour and the
/// target, in this order.
///
/// If `current` equals `target`, a new target is built from the three
/// draws, each reduced modulo 255; otherwise the draws are not looked at
/// and the target stays. The current colour then moves one unit per
/// channel towards that target. A new target that happens to equal the
/// current colour leaves it where it is.
pub fn step(current: RGB, target: RGB, green_draw: u32, red_draw: u32, blue_draw: u32) -> (next: (
    RGB,
    RGB,
))
    ensures
        next == stepped(current, target, drawn(green_draw, red_draw, blue_draw)),
        current == target ==> next.1 == drawn(green_draw, red_draw, blue_draw)
            && next.1.drawable(),
        current != target ==> next.1 == target,
        next.0 == nudged(current, next.1),
        next.1 == current ==> next.0 == current,
        current.drawable() && target.drawable() ==> next.0.drawable() && next.1.drawable(),
{
    let goal = if needs_target(current, target) {
        RGB::new(green_draw, red_draw, blue_draw)
    } else {
        target
    };
    (nudge(current, goal), goal)
}

/// Distance between a channel and its target.
pub open spec fn channel_gap(current: u8, target: u8) -> int {
    if current < target {
        target - current
    } else {
        current - target
    }
}

/// Distance between a colour and its target: the largest channel distance.
pub open spec fn gap(current: RGB, target: RGB) -> int {
    let green = channel_gap(current.green, target.green);
    let red = channel_gap(current.red, target.red);
    let blue = channel_gap(current.blue, target.blue);
    if green >= red && green >= blue {
        green
    } else if red >= blue {
        red
    } else {
        blue
    }
}

/// A colour after the given number of steps towards a fixed target.
pub open spec fn nudged_by(current: RGB, target: RGB, steps: nat) -> RGB
    decreases steps,
{
    if steps == 0 {
        current
    } else {
        nudged_by(nudged(current, target), target, (steps - 1) as nat)
    }
}

/// A step never moves a channel away from its target nor past it, and
/// shortens a distance that is not yet zero by exactly one.
pub proof fn lemma_nudge_approaches(current: u8, target: u8)
    ensures
        current <= target ==> current <= nudged_channel(current, target) <= target,
        current >= target ==> current >= nudged_channel(current, target) >= target,
        current == target ==> nudged_channel(current, target) == current,
        current != target ==> channel_gap(nudged_channel(current, target), target)
            == channel_gap(current, target) - 1,
{
}

/// After `steps` steps towards a fixed target every channel has closed its
/// distance by `steps`, or reached the target if that was nearer; a
/// channel that starts on its target stays there. So the target is
/// reached after exactly as many steps as the largest channel distance.
pub proof fn lemma_fade_converges(current: RGB, target: RGB, steps: nat)
    ensures
        ({
            let after = nudged_by(current, target, steps);
            &&& channel_gap(after.green, target.green) == if steps <= channel_gap(
                current.green,
                target.green,
            ) {
                channel_gap(current.green, target.green) - steps
            } else {
                0
            }
            &&& channel_gap(after.red, target.red) == if steps <= channel_gap(
                current.red,
                target.red,
            ) {
                channel_gap(current.red, target.red) - steps
            } else {
                0
            }
            &&& channel_gap(after.blue, target.blue) == if steps <= channel_gap(
                current.blue,
                target.blue,
            ) {
                channel_gap(current.blue, target.blue) - steps
            } else {
                0
            }
            &&& current.green <= target.green ==> current.green <= after.green <= target.green
            &&& current.green >= target.green ==> current.green >= after.green >= target.green
            &&& current.red <= target.red ==> current.red <= after.red <= target.red
            &&& current.red >= target.red ==> current.red >= after.red >= target.red
            &&& current.blue <= target.blue ==> current.blue <= after.blue <= target.blue
            &&& current.blue >= target.blue ==> current.blue >= after.blue >= target.blue
            &&& (after == target) == (steps >= gap(current, target))
        }),
    decreases steps,
{
    if steps > 0 {
        lemma_fade_converges(nudged(current, target), target, (steps - 1) as nat);
    }
}

/// On the target, a step adopts the colour that the three draws stand for,
/// whose channels all lie in `0..=254`, and moves towards it; if that
/// colour is the current one again, the current colour stays as it is.
/// Off the target, a step keeps the target, whatever the draws are.
pub proof fn lemma_retarget_on_match(
    current: RGB,
    target: RGB,
    green_draw: u32,
    red_draw: u32,
    blue_draw: u32,
)
    ensures
        ({
            let fresh = drawn(green_draw, red_draw, blue_draw);
            let next = stepped(current, target, fresh);
            &&& fresh.green <= 254 && fresh.red <= 254 && fresh.blue <= 254
            &&& current == target ==> next.1 == fresh && next.0 == nudged(current, fresh)
            &&& current == target && fresh == current ==> next.0 == current
            &&& current != target ==> next == (nudged(current, target), target)
        }),
{
}

} // verus!
