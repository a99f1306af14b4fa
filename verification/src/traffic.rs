//! Traffic and pedestrians: spawn draws, AI cars turning at intersections,
//! and keeping the pedestrian population topped up.
use vstd::prelude::*;
use crate::city::{BLOCK, GRID, SIDEWALK_OFFSET, SIDEWALK_W, block_center_spec, grid_line_spec};
use crate::geometry::{abs, bounded, line_mm, near_intersection};
use crate::rng::{coin_flip, random_below, random_ratio};

verus! {

/// Number of AI cars in the city.
pub const CAR_COUNT: usize = 14;
/// Number of pedestrians the city keeps.
pub const PED_COUNT: usize = 22;
/// Fresh pedestrians appear at least this far from the player, mm.
pub const RESPAWN_MIN_DIST_MM: i64 = 40_000;

/// The axis a car drives along.
#[derive(Clone, Copy, PartialEq, Eq, Structural)]
pub enum Axis {
    X,
    Z,
}

/// The other axis.
pub open spec fn other_axis(a: Axis) -> Axis {
    match a {
        Axis::X => Axis::Z,
        Axis::Z => Axis::X,
    }
}

/// How an AI car is placed, as drawn.
pub struct CarSpawnPlan {
    pub color_idx: usize,
    pub axis: Axis,
    /// Road line index, 0..=GRID.
    pub lane: usize,
    /// Drive in the lane on the positive side of the road line.
    pub lane_side_positive: bool,
    /// Drive toward increasing coordinates.
    pub dir_positive: bool,
}

/// Draws an AI car's colour (one of `n_colors`), axis, road line, lane
/// side and direction, each side with even odds.
pub fn plan_car_spawn(rng: &mut rand::rngs::ThreadRng, n_colors: usize) -> (p: CarSpawnPlan)
    requires
        n_colors > 0,
    ensures
        p.color_idx < n_colors,
        p.lane <= GRID,
{
    let color_idx = random_below(rng, n_colors);
    let axis = if coin_flip(rng) { Axis::X } else { Axis::Z };
    let lane = random_below(rng, GRID + 1);
    let lane_side_positive = coin_flip(rng);
    let dir_positive = coin_flip(rng);
    CarSpawnPlan { color_idx, axis, lane, lane_side_positive, dir_positive }
}

/// A turn onto the crossing road.
pub struct TurnPlan {
    pub new_axis: Axis,
    /// The road line the car snaps onto (its coordinate along the old axis).
    pub line: usize,
    pub dir_positive: bool,
}

/// An AI car at `(x, z)` (mm) driving along `axis` may turn: with
/// probability 6/1000 per frame it considers it, and if it is within 1.5 m
/// of a crossing road line it turns onto it at even odds, in a direction
/// drawn at even odds.
pub fn ai_turn(rng: &mut rand::rngs::ThreadRng, axis: Axis, x: i64, z: i64) -> (t: Option<TurnPlan>)
    requires
        bounded(x as int),
        bounded(z as int),
    ensures
        ({
            let p = if axis == Axis::X { x } else { z };
            &&& t matches Some(plan) ==> {
                &&& plan.new_axis == other_axis(axis)
                &&& plan.line <= GRID
                &&& abs(p - line_mm(plan.line as int)) < 1500
            }
            &&& (forall|i: int| 0 <= i <= GRID ==> abs(p - line_mm(i)) >= 1500) ==> t is None
        }),
{
    if !random_ratio(rng, 6, 1000) {
        return None;
    }
    let p = match axis {
        Axis::X => x,
        Axis::Z => z,
    };
    let near = near_intersection(p);
    if near.is_some() {
        let accept = coin_flip(rng);
        let dir_positive = if accept { coin_flip(rng) } else { false };
        turn_plan(axis, near, accept, dir_positive)
    } else {
        None
    }
}

/// The turn a considering AI car makes, given the road line it is near
/// (if any) and the two even-odds draws: whether it takes the turn and
/// which way it then drives. No line or a declined turn means no turn.
pub fn turn_plan(axis: Axis, near: Option<usize>, accept: bool, dir_positive: bool) -> (t: Option<TurnPlan>)
    ensures
        near is None || !accept ==> t is None,
        near is Some && accept ==> (t matches Some(plan)
            && plan.new_axis == other_axis(axis) && plan.new_axis != axis
            && near == Some(plan.line) && plan.dir_positive == dir_positive),
{
    match near {
        Some(line) => {
            if accept {
                let new_axis = match axis {
                    Axis::X => Axis::Z,
                    Axis::Z => Axis::X,
                };
                Some(TurnPlan { new_axis, line, dir_positive })
            } else {
                None
            }
        },
        None => None,
    }
}

/// Which way a pedestrian faces.
#[derive(Clone, Copy, PartialEq, Eq, Structural)]
pub enum Heading {
    PosZ,
    NegZ,
    PosX,
    NegX,
}

/// How a pedestrian is placed, as drawn.
pub struct PedSpawnPlan {
    /// Road line index, 0..=GRID.
    pub lane: usize,
    /// Walk on the sidewalk on the positive side of the road line.
    pub side_positive: bool,
    /// Placed along a road parallel to X (fixed Z); otherwise parallel to Z.
    pub along_x: bool,
    pub heading: Heading,
}

/// The heading a pedestrian gets from its road's direction and a coin: on
/// a road along X it faces +Z or -Z, on a road along Z it faces +X or -X.
pub open spec fn ped_heading(along_x: bool, coin: bool) -> Heading {
    if along_x {
        if coin { Heading::PosZ } else { Heading::NegZ }
    } else {
        if coin { Heading::PosX } else { Heading::NegX }
    }
}

/// Draws a pedestrian's road line and, among the sides of that line that
/// border a block, its sidewalk side (the outermost lines have a block on
/// one side only; the others have both, drawn at even odds); then the road
/// direction and the heading, each at even odds.
pub fn plan_ped_spawn(rng: &mut rand::rngs::ThreadRng) -> (p: PedSpawnPlan)
    ensures
        p.lane <= GRID,
        p.lane == 0 ==> p.side_positive,
        p.lane == GRID ==> !p.side_positive,
        exists|coin: bool| p.heading == #[trigger] ped_heading(p.along_x, coin),
{
    let lane = random_below(rng, GRID + 1);
    let side_positive = if lane == 0 {
        true
    } else if lane == GRID {
        false
    } else {
        coin_flip(rng)
    };
    let along_x = coin_flip(rng);
    let coin = coin_flip(rng);
    let heading = if along_x {
        if coin { Heading::PosZ } else { Heading::NegZ }
    } else {
        if coin { Heading::PosX } else { Heading::NegX }
    };
    let p = PedSpawnPlan { lane, side_positive, along_x, heading };
    assert(p.heading == ped_heading(p.along_x, coin));
    p
}

/// Law: pedestrians spawn on a sidewalk. The path beside the drawn road
/// line, on the drawn side, runs across the sidewalk pad of a block: it
/// lies within `BLOCK / 2 + SIDEWALK_W` of that block's centre.
pub proof fn ped_spawn_on_sidewalk(p: PedSpawnPlan)
    requires
        p.lane <= GRID,
        p.lane == 0 ==> p.side_positive,
        p.lane == GRID ==> !p.side_positive,
    ensures
        exists|ib: int| 0 <= ib < GRID && {
            let c = grid_line_spec(p.lane as int)
                + if p.side_positive { SIDEWALK_OFFSET as int } else { -SIDEWALK_OFFSET };
            -(BLOCK / 2 + SIDEWALK_W) <= c - #[trigger] block_center_spec(ib) <= BLOCK / 2 + SIDEWALK_W
        },
{
    let ib: int = if p.side_positive { p.lane as int } else { p.lane - 1 };
    assert(0 <= ib < GRID);
    let c = grid_line_spec(p.lane as int)
        + if p.side_positive { SIDEWALK_OFFSET as int } else { -SIDEWALK_OFFSET };
    assert(-(BLOCK / 2 + SIDEWALK_W) <= c - block_center_spec(ib) <= BLOCK / 2 + SIDEWALK_W);
}

/// How many pedestrians to spawn so that `alive` of them become
/// `population` again; none when the city is full.
pub fn ped_respawn_count(alive: usize, population: usize) -> (n: usize)
    ensures
        alive < population ==> alive + n == population,
        alive >= population ==> n == 0,
{
    if alive < population { population - alive } else { 0 }
}

} // verus!
