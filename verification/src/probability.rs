//! Geometric probability engine: Manhattan distance on the grid and the
//! proximity-derived pass-interception and shot-blocking decisions.
//!
//! Each decision draws one fresh uniform value per call. The draw is modelled
//! as an integer in `0..DRAW_SCALE` (a per-mille fraction of certainty), so
//! that every threshold is exact: a probability of 0.20 is the 200 draws
//! below `200` out of `DRAW_SCALE`. The deterministic part of each decision
//! stands in a function of its own that takes the draw as an argument and is
//! specified exactly; the drawing function states what holds of every
//! possible outcome.

use vstd::prelude::*;
use crate::game_logic::Player;
use rand::Rng;

verus! {

/// Number of equally likely draws; one draw unit stands for 1/1000 of
/// probability.
pub const DRAW_SCALE: u32 = 1000;

/// Per-mille chance that a defender at the given distance intercepts a pass:
/// never when closer than 2; exactly 0.20 at distance 2; for longer distances
/// the formula `0.20 - 0.10 * distance` has already decayed below zero and
/// clamps to never.
pub open spec fn spec_interception_chance(distance: int) -> int {
    if distance == 2 {
        200
    } else {
        0
    }
}

/// Per-mille chance that a shot from the given distance is blocked before
/// the goal: `0.366 * (distance - 1)`, saturating at 0.95.
pub open spec fn spec_block_chance(distance: int) -> int {
    if distance == 0 {
        0
    } else if 366 * (distance - 1) >= 950 {
        950
    } else {
        366 * (distance - 1)
    }
}

/// Uniform draw from `0..n`.
///
/// Relies on `rand::thread_rng` and `rand::Rng::gen_range`: for a non-empty
/// integer range the sampled value lies in the range (`gen_range` panics only
/// on an empty range). Which value comes back is random; nothing more is
/// stated.
#[verifier::external_body]
pub(crate) fn draw_below(n: u32) -> (r: u32)
    requires
        0 < n,
    ensures
        r < n,
{
    rand::thread_rng().gen_range(0..n)
}

/// The deterministic part of the interception decision: given the draw, a
/// pass is intercepted exactly when the defender stands at distance 2 and the
/// draw falls under the 0.20 threshold.
pub fn is_pass_interrupted_with(distance_to_target: u8, draw: u32) -> (b: bool)
    requires
        draw < DRAW_SCALE,
    ensures
        b == (distance_to_target == 2 && draw < spec_interception_chance(
            distance_to_target as int,
        )),
{
    if distance_to_target < 2 {
        return false;
    }
    let chance: u32 = if 100 * (distance_to_target as u32) >= 200 {
        0
    } else {
        200 - 100 * (distance_to_target as u32)
    };
    if distance_to_target == 2 {
        return draw < 200;
    }
    draw < chance
}

/// Whether a defender at the given distance from passer or receiver
/// intercepts the pass, drawing one fresh uniform value.
///
/// At any distance other than 2 the derived probability clamps to 0, so the
/// result can only be true at distance exactly 2.
pub fn is_pass_interrupted(distance_to_target: u8) -> (b: bool)
    ensures
        distance_to_target != 2 ==> !b,
{
    if distance_to_target < 2 {
        return false;
    }
    let draw = draw_below(DRAW_SCALE);
    is_pass_interrupted_with(distance_to_target, draw)
}

/// The deterministic part of the shot decision: given the draw, the shot
/// reaches the goal exactly when the shooter overlaps the keeper (distance 0)
/// or the draw escapes the blocking chance `min(0.366 * (distance - 1), 0.95)`.
pub fn does_shot_get_to_goal_with(distance_to_goal: u8, draw: u32) -> (b: bool)
    requires
        draw < DRAW_SCALE,
    ensures
        b == (distance_to_goal == 0 || draw >= spec_block_chance(distance_to_goal as int)),
{
    if distance_to_goal == 0 {
        return true;
    }
    let scaled: u32 = 366 * (distance_to_goal as u32 - 1);
    let chance: u32 = if scaled >= 950 {
        950
    } else {
        scaled
    };
    draw >= chance
}

/// Whether a shot from the given distance to the opposing goalkeeper reaches
/// the goal, drawing one fresh uniform value.
///
/// From distance 0 the shot always reaches; the blocking chance saturates at
/// 0.95, so from any distance a chance of scoring remains.
pub fn does_shot_get_to_goal(distance_to_goal: u8) -> (b: bool)
    ensures
        distance_to_goal == 0 ==> b,
{
    if distance_to_goal == 0 {
        return true;
    }
    let draw = draw_below(DRAW_SCALE);
    does_shot_get_to_goal_with(distance_to_goal, draw)
}

/// Manhattan distance between two board positions.
pub open spec fn spec_distance(p1: Player, p2: Player) -> int {
    (if p1.pos_x_axis >= p2.pos_x_axis {
        p1.pos_x_axis - p2.pos_x_axis
    } else {
        p2.pos_x_axis - p1.pos_x_axis
    }) + (if p1.pos_y_axis >= p2.pos_y_axis {
        p1.pos_y_axis - p2.pos_y_axis
    } else {
        p2.pos_y_axis - p1.pos_y_axis
    })
}

/// Manhattan distance between two players on the grid.
pub fn distance_between_players(p1: &Player, p2: &Player) -> (d: u8)
    requires
        p1.wf(),
        p2.wf(),
    ensures
        d == spec_distance(*p1, *p2),
{
    let dx: u8 = if p1.pos_x_axis >= p2.pos_x_axis {
        p1.pos_x_axis - p2.pos_x_axis
    } else {
        p2.pos_x_axis - p1.pos_x_axis
    };
    let dy: u8 = if p1.pos_y_axis >= p2.pos_y_axis {
        p1.pos_y_axis - p2.pos_y_axis
    } else {
        p2.pos_y_axis - p1.pos_y_axis
    };
    dx + dy
}

} // verus!
