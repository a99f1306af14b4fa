//! City grid geometry: road lines, blocks, lanes, street lamps and road
//! markings in whole metres; building lots as drawn; and the position
//! tests (building footprints, nearest sidewalk) in millimetres.
use vstd::prelude::*;
use crate::rng::{random_below, random_ratio};

verus! {

/// Side of a city block, m.
pub const BLOCK: i32 = 36;
/// Road width, m.
pub const ROAD_W: i32 = 10;
/// Blocks per side of the city.
pub const GRID: usize = 6;
/// Sidewalk width, m.
pub const SIDEWALK_W: i32 = 2;
/// Distance between neighbouring road lines, m.
pub const STEP: i32 = 46;
/// Half the city's extent, m: `(BLOCK + ROAD_W) * GRID / 2`.
pub const CITY_HALF: i32 = 138;
/// Offset of a car lane from its road line, m.
pub const LANE_OFFSET: i32 = 2;
/// Offset of a sidewalk path from its road line, m (`ROAD_W / 2 + 1`).
pub const SIDEWALK_OFFSET: i32 = 6;
/// Offset of a street lamp from its block's centre along each axis, m.
pub const LAMP_INSET: i32 = 19;
/// Length of the dash pattern along a road's centre line, m.
pub const DASH_PERIOD: i32 = 6;
/// Number of dashes along one road.
pub const DASHES_PER_ROAD: usize = 46;

/// Coordinate of road line `i`, m.
pub open spec fn grid_line_spec(i: int) -> int {
    -CITY_HALF + i * STEP
}

/// Centre coordinate of block `i` along an axis, m.
pub open spec fn block_center_spec(i: int) -> int {
    -CITY_HALF + ROAD_W / 2 + i * STEP + BLOCK / 2
}

/// Position of street lamp `k`: four per block (corners in the order
/// (-,-), (+,-), (-,+), (+,+)), blocks ordered by x index then z index.
pub open spec fn lamp_spec(k: int) -> (int, int) {
    let ix = k / 24;
    let iz = (k / 4) % 6;
    let c = k % 4;
    let sx = if c % 2 == 0 { -1int } else { 1int };
    let sz = if c < 2 { -1int } else { 1int };
    (block_center_spec(ix) + sx * LAMP_INSET, block_center_spec(iz) + sz * LAMP_INSET)
}

/// Coordinate of road line `i` (0..=GRID), m.
pub fn grid_line(i: usize) -> (c: i32)
    requires
        i <= GRID,
    ensures
        c == grid_line_spec(i as int),
{
    -CITY_HALF + (i as i32) * STEP
}

/// Centre of block `i` (0..GRID) along an axis, m.
pub fn block_center(i: usize) -> (c: i32)
    requires
        i < GRID,
    ensures
        c == block_center_spec(i as int),
{
    -CITY_HALF + ROAD_W / 2 + (i as i32) * STEP + BLOCK / 2
}

/// Centre line of the car lane beside road line `i`, m.
pub fn lane_center(i: usize, positive_side: bool) -> (c: i32)
    requires
        i <= GRID,
    ensures
        c == grid_line_spec(i as int) + if positive_side { LANE_OFFSET as int } else { -LANE_OFFSET },
{
    let line = grid_line(i);
    if positive_side { line + LANE_OFFSET } else { line - LANE_OFFSET }
}

/// Path along the sidewalk beside road line `i`, m.
pub fn sidewalk_center(i: usize, positive_side: bool) -> (c: i32)
    requires
        i <= GRID,
    ensures
        c == grid_line_spec(i as int) + if positive_side { SIDEWALK_OFFSET as int } else { -SIDEWALK_OFFSET },
{
    let line = grid_line(i);
    if positive_side { line + SIDEWALK_OFFSET } else { line - SIDEWALK_OFFSET }
}

/// Positions of all street lamps: one on each corner of every block's
/// sidewalk pad.
pub fn street_lamp_positions() -> (v: Vec<(i32, i32)>)
    ensures
        v@.len() == GRID * GRID * 4,
        forall|k: int| 0 <= k < v@.len() ==> (#[trigger] v@[k]).0 == lamp_spec(k).0 && v@[k].1 == lamp_spec(k).1,
{
    let mut v: Vec<(i32, i32)> = Vec::new();
    let mut k: usize = 0;
    while k < GRID * GRID * 4
        invariant
            k <= GRID * GRID * 4,
            v@.len() == k,
            forall|j: int| 0 <= j < k ==> (#[trigger] v@[j]).0 == lamp_spec(j).0 && v@[j].1 == lamp_spec(j).1,
        decreases GRID * GRID * 4 - k,
    {
        let ix = k / 24;
        let iz = (k / 4) % 6;
        let c = k % 4;
        let cx = block_center(ix);
        let cz = block_center(iz);
        let x = if c % 2 == 0 { cx - LAMP_INSET } else { cx + LAMP_INSET };
        let z = if c < 2 { cz - LAMP_INSET } else { cz + LAMP_INSET };
        v.push((x, z));
        k = k + 1;
    }
    v
}

/// Start of each dash along a road's centre line (the dash covers
/// `DASH_PERIOD / 2` m from there), m: every `DASH_PERIOD` m from one city
/// edge up to the other.
pub fn road_dash_starts() -> (v: Vec<i32>)
    ensures
        v@.len() == DASHES_PER_ROAD,
        forall|k: int| 0 <= k < v@.len() ==> #[trigger] v@[k] == -CITY_HALF + k * DASH_PERIOD,
        forall|k: int| 0 <= k < v@.len() ==> #[trigger] v@[k] < CITY_HALF,
{
    let mut v: Vec<i32> = Vec::new();
    let mut x: i32 = -CITY_HALF;
    while x < CITY_HALF
        invariant
            -CITY_HALF <= x <= CITY_HALF,
            x == -CITY_HALF + v@.len() * DASH_PERIOD,
            forall|k: int| 0 <= k < v@.len() ==> #[trigger] v@[k] == -CITY_HALF + k * DASH_PERIOD,
        decreases CITY_HALF - x,
    {
        v.push(x);
        x = x + DASH_PERIOD;
    }
    v
}

/// One building lot in a block: its grid cell and colour.
pub struct Lot {
    pub bx: usize,
    pub bz: usize,
    pub color_idx: usize,
}

/// How a block is divided and which lots get a building.
pub struct BlockPlan {
    /// Lots per side, 1..=3.
    pub subdivs: usize,
    /// Built lots, in cell order (by `bx`, then `bz`).
    pub lots: Vec<Lot>,
}

/// Order index of a lot's cell.
pub open spec fn lot_rank(l: Lot, subdivs: usize) -> int {
    l.bx * subdivs + l.bz
}

/// The lot in cell `k` of a block divided `subdivs` times per side (cells
/// in row-major order: `bx = k / subdivs`, `bz = k % subdivs`).
pub open spec fn lot_at(subdivs: usize, k: int, color: usize) -> Lot {
    Lot { bx: (k / (subdivs as int)) as usize, bz: (k % (subdivs as int)) as usize, color_idx: color }
}

/// The built lots among the first `k` cells: each cell whose `empty` draw is
/// false, in cell order, with its drawn colour.
pub open spec fn planned_prefix(subdivs: usize, empty: Seq<bool>, colors: Seq<usize>, k: nat) -> Seq<Lot>
    decreases k,
{
    if k == 0 {
        Seq::empty()
    } else {
        let prev = planned_prefix(subdivs, empty, colors, (k - 1) as nat);
        if empty[k - 1] { prev } else { prev.push(lot_at(subdivs, k - 1, colors[k - 1])) }
    }
}

/// The built lots of a block, from the per-cell draws.
pub open spec fn planned_lots(subdivs: usize, empty: Seq<bool>, colors: Seq<usize>) -> Seq<Lot> {
    planned_prefix(subdivs, empty, colors, empty.len())
}

/// Lots within the grid, in strictly increasing cell order, with colours in
/// range, at most `k` of them, all in the first `k` cells.
pub open spec fn lots_ok(lots: Seq<Lot>, subdivs: usize, n_colors: usize, k: int) -> bool {
    &&& lots.len() <= k
    &&& forall|i: int| 0 <= i < lots.len() ==> {
        &&& (#[trigger] lots[i]).bx < subdivs
        &&& lots[i].bz < subdivs
        &&& lots[i].color_idx < n_colors
        &&& lot_rank(lots[i], subdivs) < k
    }
    &&& forall|i: int, j: int| 0 <= i < j < lots.len() ==>
        lot_rank(#[trigger] lots[i], subdivs) < lot_rank(#[trigger] lots[j], subdivs)
}

proof fn lemma_cell(subdivs: usize, k: int)
    requires
        1 <= subdivs,
        0 <= k < subdivs * subdivs,
    ensures
        0 <= k / (subdivs as int) < subdivs,
        0 <= k % (subdivs as int) < subdivs,
        lot_rank(lot_at(subdivs, k, 0), subdivs) == k,
{
    let s = subdivs as int;
    vstd::arithmetic::div_mod::lemma_fundamental_div_mod(k, s);
    let q = k / s;
    let r = k % s;
    assert(0 <= r < s) by {
        vstd::arithmetic::div_mod::lemma_mod_bound(k, s);
    }
    assert(0 <= q < s) by (nonlinear_arith)
        requires k == s * q + r, 0 <= r < s, 0 <= k < s * s, s >= 1;
    assert(q * s == s * q) by (nonlinear_arith);
}

proof fn lemma_planned_prefix(subdivs: usize, empty: Seq<bool>, colors: Seq<usize>, n_colors: usize, k: nat)
    requires
        1 <= subdivs,
        k <= empty.len(),
        empty.len() == colors.len(),
        k <= subdivs * subdivs,
        forall|i: int| 0 <= i < colors.len() ==> #[trigger] colors[i] < n_colors,
    ensures
        lots_ok(planned_prefix(subdivs, empty, colors, k), subdivs, n_colors, k as int),
    decreases k,
{
    if k > 0 {
        lemma_planned_prefix(subdivs, empty, colors, n_colors, (k - 1) as nat);
        lemma_cell(subdivs, k - 1);
        assert(lot_rank(lot_at(subdivs, k - 1, colors[k - 1]), subdivs)
            == lot_rank(lot_at(subdivs, k - 1, 0), subdivs));
    }
}

proof fn lemma_prefix_cells(subdivs: usize, empty: Seq<bool>, colors: Seq<usize>, k: nat)
    requires
        k <= empty.len(),
        empty.len() == colors.len(),
    ensures
        forall|j: int| 0 <= j < k && !#[trigger] empty[j] ==>
            exists|i: int| 0 <= i < planned_prefix(subdivs, empty, colors, k).len()
                && #[trigger] planned_prefix(subdivs, empty, colors, k)[i] == lot_at(subdivs, j, colors[j]),
        forall|i: int| 0 <= i < planned_prefix(subdivs, empty, colors, k).len() ==>
            exists|j: int| 0 <= j < k && !empty[j]
                && #[trigger] planned_prefix(subdivs, empty, colors, k)[i] == #[trigger] lot_at(subdivs, j, colors[j]),
    decreases k,
{
    if k > 0 {
        lemma_prefix_cells(subdivs, empty, colors, (k - 1) as nat);
        let prev = planned_prefix(subdivs, empty, colors, (k - 1) as nat);
        let cur = planned_prefix(subdivs, empty, colors, k);
        assert forall|j: int| 0 <= j < k && !#[trigger] empty[j] implies
            exists|i: int| 0 <= i < cur.len() && #[trigger] cur[i] == lot_at(subdivs, j, colors[j]) by {
            if j == k - 1 {
                assert(cur[cur.len() - 1] == lot_at(subdivs, j, colors[j]));
            } else {
                let i = choose|i: int| 0 <= i < prev.len() && #[trigger] prev[i] == lot_at(subdivs, j, colors[j]);
                assert(cur[i] == prev[i]);
            }
        }
        assert forall|i: int| 0 <= i < cur.len() implies
            exists|j: int| 0 <= j < k && !empty[j] && #[trigger] cur[i] == #[trigger] lot_at(subdivs, j, colors[j]) by {
            if i < prev.len() {
                assert(cur[i] == prev[i]);
                let j = choose|j: int| 0 <= j < k - 1 && !empty[j]
                    && #[trigger] prev[i] == #[trigger] lot_at(subdivs, j, colors[j]);
                assert(cur[i] == lot_at(subdivs, j, colors[j]));
            } else {
                assert(cur[i] == lot_at(subdivs, k - 1, colors[k - 1]));
            }
        }
    }
}

/// Lot `l` stands in cell `k` (row `k / subdivs`, column `k % subdivs`)
/// with colour `color`.
pub open spec fn in_cell(l: Lot, subdivs: usize, k: int, color: usize) -> bool {
    &&& l.bx == k / (subdivs as int)
    &&& l.bz == k % (subdivs as int)
    &&& l.color_idx == color
}

proof fn lemma_cells_built(subdivs: usize, empty: Seq<bool>, colors: Seq<usize>)
    requires
        1 <= subdivs <= 3,
        empty.len() == subdivs * subdivs,
        colors.len() == empty.len(),
    ensures
        forall|k: int| #![trigger empty[k]] 0 <= k < empty.len() && !empty[k] ==>
            exists|i: int| #![trigger planned_lots(subdivs, empty, colors)[i]]
                0 <= i < planned_lots(subdivs, empty, colors).len()
                && in_cell(planned_lots(subdivs, empty, colors)[i], subdivs, k, colors[k]),
{
    lemma_prefix_cells(subdivs, empty, colors, empty.len());
    let lots = planned_lots(subdivs, empty, colors);
    assert forall|k: int| #![trigger empty[k]] 0 <= k < empty.len() && !empty[k] implies
        exists|i: int| #![trigger lots[i]] 0 <= i < lots.len() && in_cell(lots[i], subdivs, k, colors[k]) by {
        lemma_cell(subdivs, k);
        let i = choose|i: int| 0 <= i < lots.len() && #[trigger] lots[i] == lot_at(subdivs, k, colors[k]);
        assert(in_cell(lots[i], subdivs, k, colors[k]));
    }
}

proof fn lemma_lot_on_cell(subdivs: usize, empty: Seq<bool>, colors: Seq<usize>, i: int)
    requires
        1 <= subdivs <= 3,
        empty.len() == subdivs * subdivs,
        colors.len() == empty.len(),
        0 <= i < planned_lots(subdivs, empty, colors).len(),
    ensures
        exists|k: int| #![trigger empty[k]] 0 <= k < empty.len() && !empty[k]
            && in_cell(planned_lots(subdivs, empty, colors)[i], subdivs, k, colors[k]),
{
    lemma_prefix_cells(subdivs, empty, colors, empty.len());
    let pre = planned_prefix(subdivs, empty, colors, empty.len());
    let k = choose|j: int| 0 <= j < empty.len() && !empty[j]
        && #[trigger] pre[i] == #[trigger] lot_at(subdivs, j, colors[j]);
    lemma_cell(subdivs, k);
    assert(!empty[k]);
    assert(in_cell(pre[i], subdivs, k, colors[k]));
}

/// Law: a block is built on exactly its non-empty cells. Every cell whose
/// draw says "not empty" gets a building in row `k / subdivs`, column
/// `k % subdivs`, with the colour drawn for it, and every building stands
/// on such a cell.
pub proof fn buildings_on_nonempty_cells(subdivs: usize, empty: Seq<bool>, colors: Seq<usize>)
    requires
        1 <= subdivs <= 3,
        empty.len() == subdivs * subdivs,
        colors.len() == empty.len(),
    ensures
        forall|k: int| #![trigger empty[k]] 0 <= k < empty.len() && !empty[k] ==>
            exists|i: int| #![trigger planned_lots(subdivs, empty, colors)[i]]
                0 <= i < planned_lots(subdivs, empty, colors).len()
                && in_cell(planned_lots(subdivs, empty, colors)[i], subdivs, k, colors[k]),
        forall|i: int| #![trigger planned_lots(subdivs, empty, colors)[i]]
            0 <= i < planned_lots(subdivs, empty, colors).len() ==>
            exists|k: int| #![trigger empty[k]] 0 <= k < empty.len() && !empty[k]
                && in_cell(planned_lots(subdivs, empty, colors)[i], subdivs, k, colors[k]),
{
    lemma_cells_built(subdivs, empty, colors);
    assert forall|i: int| #![trigger planned_lots(subdivs, empty, colors)[i]]
        0 <= i < planned_lots(subdivs, empty, colors).len() implies
        exists|k: int| #![trigger empty[k]] 0 <= k < empty.len() && !empty[k]
            && in_cell(planned_lots(subdivs, empty, colors)[i], subdivs, k, colors[k]) by {
        lemma_lot_on_cell(subdivs, empty, colors, i);
    }
}

/// Lays out a block from its draws: `subdivs` lots per side, and for each
/// cell in row-major order whether it stays empty and the colour of its
/// building. The plan holds the built cells in that order.
pub fn block_plan_from_draws(subdivs: usize, empty: &Vec<bool>, colors: &Vec<usize>, n_colors: usize) -> (p: BlockPlan)
    requires
        1 <= subdivs <= 3,
        empty@.len() == subdivs * subdivs,
        colors@.len() == subdivs * subdivs,
        forall|i: int| 0 <= i < colors@.len() ==> #[trigger] colors@[i] < n_colors,
    ensures
        p.subdivs == subdivs,
        p.lots@ == planned_lots(subdivs, empty@, colors@),
        lots_ok(p.lots@, subdivs, n_colors, (subdivs * subdivs) as int),
{
    let n: usize = if subdivs == 1 { 1 } else if subdivs == 2 { 4 } else { 9 };
    assert(n == subdivs * subdivs);
    let mut lots: Vec<Lot> = Vec::new();
    let mut k: usize = 0;
    let mut bx: usize = 0;
    let mut bz: usize = 0;
    while k < n
        invariant
            1 <= subdivs <= 3,
            n == subdivs * subdivs,
            empty@.len() == n,
            colors@.len() == n,
            k <= n,
            bz < subdivs,
            k == bx * subdivs + bz,
            lots@ == planned_prefix(subdivs, empty@, colors@, k as nat),
        decreases n - k,
    {
        proof {
            vstd::arithmetic::div_mod::lemma_fundamental_div_mod_converse(k as int, subdivs as int, bx as int, bz as int);
        }
        assert(bx < 3) by (nonlinear_arith)
            requires k == bx * subdivs + bz, k < n, n == subdivs * subdivs, 1 <= subdivs <= 3, bz < subdivs;
        if !empty[k] {
            lots.push(Lot { bx, bz, color_idx: colors[k] });
        }
        assert(lots@ == planned_prefix(subdivs, empty@, colors@, (k + 1) as nat));
        let ghost k0 = k;
        let ghost bx0 = bx;
        let ghost bz0 = bz;
        k = k + 1;
        if bz + 1 == subdivs {
            bz = 0;
            bx = bx + 1;
            assert(k == bx * subdivs + bz) by (nonlinear_arith)
                requires k == k0 + 1, k0 == bx0 * subdivs + bz0, bz0 + 1 == subdivs, bx == bx0 + 1, bz == 0;
        } else {
            bz = bz + 1;
        }
    }
    proof {
        lemma_planned_prefix(subdivs, empty@, colors@, n_colors, n as nat);
    }
    BlockPlan { subdivs, lots }
}

/// Draws a block's layout: 1 to 3 lots per side, then for each cell in
/// row-major order whether it stays empty (probability 3/20) and, if not,
/// its building's colour among `n_colors`; `block_plan_from_draws` turns
/// the draws into the plan.
pub fn plan_block(rng: &mut rand::rngs::ThreadRng, n_colors: usize) -> (p: BlockPlan)
    requires
        n_colors > 0,
    ensures
        1 <= p.subdivs <= 3,
        p.lots@.len() <= p.subdivs * p.subdivs,
        forall|i: int| 0 <= i < p.lots@.len() ==> {
            &&& (#[trigger] p.lots@[i]).bx < p.subdivs
            &&& p.lots@[i].bz < p.subdivs
            &&& p.lots@[i].color_idx < n_colors
        },
        forall|i: int, j: int| 0 <= i < j < p.lots@.len() ==>
            lot_rank(#[trigger] p.lots@[i], p.subdivs) < lot_rank(#[trigger] p.lots@[j], p.subdivs),
{
    let subdivs = 1 + random_below(rng, 3);
    let n: usize = if subdivs == 1 { 1 } else if subdivs == 2 { 4 } else { 9 };
    assert(n == subdivs * subdivs) by (nonlinear_arith)
        requires
            1 <= subdivs <= 3,
            subdivs == 1 ==> n == 1,
            subdivs == 2 ==> n == 4,
            subdivs == 3 ==> n == 9;
    let mut empty: Vec<bool> = Vec::new();
    let mut colors: Vec<usize> = Vec::new();
    let mut k: usize = 0;
    while k < n
        invariant
            k <= n,
            n_colors > 0,
            empty@.len() == k,
            colors@.len() == k,
            forall|i: int| 0 <= i < colors@.len() ==> #[trigger] colors@[i] < n_colors,
        decreases n - k,
    {
        let e = random_ratio(rng, 3, 20);
        let c = if e { 0 } else { random_below(rng, n_colors) };
        empty.push(e);
        colors.push(c);
        k = k + 1;
    }
    block_plan_from_draws(subdivs, &empty, &colors, n_colors)
}

/// Centre of lot `b` of a block divided `subdivs` times, along one axis, m:
/// the block's lots are `BLOCK / subdivs` wide (exact for 1, 2 and 3).
pub fn lot_center(block_center: i32, subdivs: usize, b: usize) -> (c: i32)
    requires
        1 <= subdivs <= 3,
        b < subdivs,
        -1000 <= block_center <= 1000,
    ensures
        c == block_center - BLOCK / 2 + ((BLOCK as int) / (subdivs as int)) / 2 + b * ((BLOCK as int) / (subdivs as int)),
{
    let sub: i32 = if subdivs == 1 { 36 } else if subdivs == 2 { 18 } else { 12 };
    assert(sub == (BLOCK as int) / (subdivs as int));
    let offset: i32 = if b == 0 { 0 } else if b == 1 { sub } else { 2 * sub };
    assert(offset == b * sub);
    block_center - BLOCK / 2 + sub / 2 + offset
}

} // verus!
