//! Position tests in millimetres: building footprints, the nearest road
//! line for sidewalk walkers, intersections for turning cars, and the wrap
//! of cars leaving the map.
use vstd::prelude::*;
use crate::city::{CITY_HALF, GRID, grid_line_spec};

verus! {

/// Bound on coordinates and sizes handled here, mm (about 10^9 m).
pub const POS_BOUND: i64 = 1_099_511_627_776;

/// Millimetres per metre.
pub const MM: i64 = 1000;

/// A building's ground footprint, mm.
pub struct Footprint {
    pub cx: i64,
    pub cz: i64,
    /// Half the width along X.
    pub half_w: i64,
    /// Half the depth along Z.
    pub half_d: i64,
}

pub open spec fn abs(x: int) -> int {
    if x < 0 { -x } else { x }
}

pub open spec fn bounded(x: int) -> bool {
    -POS_BOUND <= x <= POS_BOUND
}

impl Footprint {
    pub open spec fn wf(self) -> bool {
        &&& bounded(self.cx as int)
        &&& bounded(self.cz as int)
        &&& 0 <= self.half_w <= POS_BOUND
        &&& 0 <= self.half_d <= POS_BOUND
    }

    /// A disc of radius `r` at `(x, z)` overlaps the footprint grown by `r`.
    pub open spec fn hits(self, x: int, z: int, r: int) -> bool {
        abs(x - self.cx) < self.half_w + r && abs(z - self.cz) < self.half_d + r
    }
}

pub open spec fn all_wf(bs: Seq<Footprint>) -> bool {
    forall|i: int| 0 <= i < bs.len() ==> (#[trigger] bs[i]).wf()
}

/// Whether a disc of radius `r` at `(x, z)` touches any building.
pub fn collides_at(x: i64, z: i64, r: i64, buildings: &Vec<Footprint>) -> (hit: bool)
    requires
        bounded(x as int),
        bounded(z as int),
        0 <= r <= POS_BOUND,
        all_wf(buildings@),
    ensures
        hit <==> exists|i: int| 0 <= i < buildings@.len() && (#[trigger] buildings@[i]).hits(x as int, z as int, r as int),
{
    let mut i: usize = 0;
    while i < buildings.len()
        invariant
            i <= buildings@.len(),
            bounded(x as int),
            bounded(z as int),
            0 <= r <= POS_BOUND,
            all_wf(buildings@),
            forall|j: int| 0 <= j < i ==> !(#[trigger] buildings@[j]).hits(x as int, z as int, r as int),
        decreases buildings@.len() - i,
    {
        let b = &buildings[i];
        assert(b.wf());
        let dx = if x >= b.cx { x - b.cx } else { b.cx - x };
        let dz = if z >= b.cz { z - b.cz } else { b.cz - z };
        if dx < b.half_w + r && dz < b.half_d + r {
            assert(buildings@[i as int].hits(x as int, z as int, r as int));
            return true;
        }
        i = i + 1;
    }
    false
}

/// Whether a disc of radius `r` at `(x, z)` touches any building.
pub open spec fn blocked(x: int, z: int, r: int, bs: Seq<Footprint>) -> bool {
    exists|i: int| 0 <= i < bs.len() && (#[trigger] bs[i]).hits(x, z, r)
}

/// Moves a chasing car from `(x, z)` toward `(nx, nz)` (mm) among the
/// buildings: the full step when it is free, otherwise the X part alone,
/// otherwise the Z part alone (sliding along the wall), otherwise nowhere.
pub fn slide_move(x: i64, z: i64, nx: i64, nz: i64, r: i64, buildings: &Vec<Footprint>) -> (p: (i64, i64))
    requires
        bounded(x as int),
        bounded(z as int),
        bounded(nx as int),
        bounded(nz as int),
        0 <= r <= POS_BOUND,
        all_wf(buildings@),
    ensures
        !blocked(nx as int, nz as int, r as int, buildings@) ==> p == (nx, nz),
        blocked(nx as int, nz as int, r as int, buildings@) && !blocked(nx as int, z as int, r as int, buildings@)
            ==> p == (nx, z),
        blocked(nx as int, nz as int, r as int, buildings@) && blocked(nx as int, z as int, r as int, buildings@)
            && !blocked(x as int, nz as int, r as int, buildings@) ==> p == (x, nz),
        blocked(nx as int, nz as int, r as int, buildings@) && blocked(nx as int, z as int, r as int, buildings@)
            && blocked(x as int, nz as int, r as int, buildings@) ==> p == (x, z),
        !blocked(x as int, z as int, r as int, buildings@) ==> !blocked(p.0 as int, p.1 as int, r as int, buildings@),
{
    if !collides_at(nx, nz, r, buildings) {
        (nx, nz)
    } else if !collides_at(nx, z, r, buildings) {
        (nx, z)
    } else if !collides_at(x, nz, r, buildings) {
        (x, nz)
    } else {
        (x, z)
    }
}

/// Sign of `d` with zero counted as positive.
pub open spec fn side(d: int) -> int {
    if d < 0 { -1 } else { 1 }
}

/// A position after being pushed out of one building along the axis of
/// least penetration (ties go to Z), onto the grown footprint's edge.
pub open spec fn push_one(p: (int, int), r: int, b: Footprint) -> (int, int) {
    let hw = b.half_w + r;
    let hd = b.half_d + r;
    let dx = abs(p.0 - b.cx);
    let dz = abs(p.1 - b.cz);
    if dx < hw && dz < hd {
        if hw - dx < hd - dz {
            (b.cx + side(p.0 - b.cx) * hw, p.1)
        } else {
            (p.0, b.cz + side(p.1 - b.cz) * hd)
        }
    } else {
        p
    }
}

/// Law: a position inside a building (grown by `r`) leaves it along the
/// axis of least penetration, by exactly that penetration, with the other
/// coordinate unchanged (on a tie it leaves along Z). A position outside
/// stays where it is.
pub proof fn push_leaves_by_least_penetration(p: (int, int), r: int, b: Footprint)
    ensures
        ({
            let q = push_one(p, r, b);
            let pen_x = b.half_w + r - abs(p.0 - b.cx);
            let pen_z = b.half_d + r - abs(p.1 - b.cz);
            &&& (pen_x > 0 && pen_z > 0 && pen_x < pen_z) ==> q.1 == p.1 && abs(q.0 - p.0) == pen_x
                && abs(q.0 - b.cx) == b.half_w + r
            &&& (pen_x > 0 && pen_z > 0 && pen_x >= pen_z) ==> q.0 == p.0 && abs(q.1 - p.1) == pen_z
                && abs(q.1 - b.cz) == b.half_d + r
            &&& (pen_x <= 0 || pen_z <= 0) ==> q == p
        }),
{
}

/// A position after being pushed out of each building in turn.
pub open spec fn push_all(p: (int, int), r: int, bs: Seq<Footprint>) -> (int, int)
    decreases bs.len(),
{
    if bs.len() == 0 {
        p
    } else {
        push_one(push_all(p, r, bs.drop_last()), r, bs.last())
    }
}

/// Pushes a disc of radius `r` out of each building it overlaps, one
/// building after another, along the axis of least penetration.
pub fn push_out(x: i64, z: i64, r: i64, buildings: &Vec<Footprint>) -> (p: (i64, i64))
    requires
        bounded(x as int),
        bounded(z as int),
        0 <= r <= POS_BOUND,
        all_wf(buildings@),
    ensures
        (p.0 as int, p.1 as int) == push_all((x as int, z as int), r as int, buildings@),
        buildings@.len() == 1 ==> ({
            let b = buildings@[0];
            let pen_x = b.half_w + r - abs(x - b.cx);
            let pen_z = b.half_d + r - abs(z - b.cz);
            &&& (pen_x > 0 && pen_z > 0 && pen_x < pen_z) ==> p.1 == z && abs(p.0 - x) == pen_x
            &&& (pen_x > 0 && pen_z > 0 && pen_x >= pen_z) ==> p.0 == x && abs(p.1 - z) == pen_z
            &&& (pen_x <= 0 || pen_z <= 0) ==> p == (x, z)
        }),
{
    let mut px = x;
    let mut pz = z;
    let mut i: usize = 0;
    while i < buildings.len()
        invariant
            i <= buildings@.len(),
            -3 * POS_BOUND <= px <= 3 * POS_BOUND,
            -3 * POS_BOUND <= pz <= 3 * POS_BOUND,
            0 <= r <= POS_BOUND,
            all_wf(buildings@),
            (px as int, pz as int) == push_all((x as int, z as int), r as int, buildings@.take(i as int)),
        decreases buildings@.len() - i,
    {
        let b = &buildings[i];
        assert(b.wf());
        let ghost before = (px as int, pz as int);
        let hw = b.half_w + r;
        let hd = b.half_d + r;
        let dx = if px >= b.cx { px - b.cx } else { b.cx - px };
        let dz = if pz >= b.cz { pz - b.cz } else { b.cz - pz };
        assert(dx == abs(before.0 - b.cx) && dz == abs(before.1 - b.cz));
        assert(hw == b.half_w + r && hd == b.half_d + r);
        if dx < hw && dz < hd {
            if hw - dx < hd - dz {
                px = if px - b.cx < 0 { b.cx - hw } else { b.cx + hw };
                assert(px == b.cx + side(before.0 - b.cx) * hw);
            } else {
                pz = if pz - b.cz < 0 { b.cz - hd } else { b.cz + hd };
                assert(pz == b.cz + side(before.1 - b.cz) * hd);
            }
        }
        assert(buildings@.take(i + 1).drop_last() =~= buildings@.take(i as int));
        assert((px as int, pz as int) == push_one(before, r as int, buildings@[i as int]));
        i = i + 1;
    }
    assert(buildings@.take(buildings@.len() as int) =~= buildings@);
    proof {
        if buildings@.len() == 1 {
            assert(buildings@.drop_last() =~= Seq::<Footprint>::empty());
            push_leaves_by_least_penetration((x as int, z as int), r as int, buildings@[0]);
        }
    }
    (px, pz)
}

/// Two footprints grown by `r` do not overlap: they are apart along X or
/// along Z (they may touch).
pub open spec fn apart(a: Footprint, b: Footprint, r: int) -> bool {
    ||| abs(a.cx - b.cx) >= (a.half_w + r) + (b.half_w + r)
    ||| abs(a.cz - b.cz) >= (a.half_d + r) + (b.half_d + r)
}

/// No two of the footprints, grown by `r`, overlap.
pub open spec fn pairwise_apart(bs: Seq<Footprint>, r: int) -> bool {
    forall|i: int, j: int| 0 <= i < bs.len() && 0 <= j < bs.len() && i != j ==> apart(#[trigger] bs[i], #[trigger] bs[j], r)
}

proof fn lemma_push_one_clears(q: (int, int), r: int, b: Footprint)
    requires
        r >= 0,
        b.wf(),
    ensures
        !b.hits(push_one(q, r, b).0, push_one(q, r, b).1, r),
{
}

proof fn lemma_push_one_keeps_clear(q: (int, int), r: int, b: Footprint, a: Footprint)
    requires
        r >= 0,
        a.wf(),
        b.wf(),
        apart(a, b, r),
        !a.hits(q.0, q.1, r),
    ensures
        !a.hits(push_one(q, r, b).0, push_one(q, r, b).1, r),
{
}

/// Law: once pushed out, the player stands clear of every building. When no
/// two footprints grown by `r` overlap, the position that `push_out` gives
/// lies in no footprint grown by `r`, whatever the starting position.
pub proof fn push_out_clears_buildings(p: (int, int), r: int, bs: Seq<Footprint>)
    requires
        r >= 0,
        all_wf(bs),
        pairwise_apart(bs, r),
    ensures
        forall|i: int| 0 <= i < bs.len() ==> !(#[trigger] bs[i]).hits(push_all(p, r, bs).0, push_all(p, r, bs).1, r),
    decreases bs.len(),
{
    if bs.len() > 0 {
        let init = bs.drop_last();
        let b = bs.last();
        assert(all_wf(init)) by {
            assert forall|i: int| 0 <= i < init.len() implies (#[trigger] init[i]).wf() by {
                assert(init[i] == bs[i]);
            }
        }
        assert(pairwise_apart(init, r)) by {
            assert forall|i: int, j: int| 0 <= i < init.len() && 0 <= j < init.len() && i != j
                implies apart(#[trigger] init[i], #[trigger] init[j], r) by {
                assert(init[i] == bs[i] && init[j] == bs[j]);
            }
        }
        push_out_clears_buildings(p, r, init);
        let q = push_all(p, r, init);
        assert(bs[bs.len() - 1] == b);
        assert(b.wf());
        lemma_push_one_clears(q, r, b);
        assert forall|i: int| 0 <= i < bs.len() implies !(#[trigger] bs[i]).hits(push_all(p, r, bs).0, push_all(p, r, bs).1, r) by {
            if i < bs.len() - 1 {
                assert(bs[i] == init[i]);
                assert(!init[i].hits(q.0, q.1, r));
                assert(apart(bs[i], bs[bs.len() - 1], r));
                lemma_push_one_keeps_clear(q, r, b, bs[i]);
            }
        }
    }
}

/// Road line `i` in mm.
pub open spec fn line_mm(i: int) -> int {
    grid_line_spec(i) * MM
}

/// Candidate `k` of the nearest-line search: even candidates measure the
/// X distance to line `k / 2`, odd ones the Z distance.
pub open spec fn line_dist(x: int, z: int, k: int) -> int {
    if k % 2 == 0 { abs(x - line_mm(k / 2)) } else { abs(z - line_mm(k / 2)) }
}

/// Candidate `k` is the first of the closest among all `2 * (GRID + 1)`.
pub open spec fn is_first_closest(x: int, z: int, k: int) -> bool {
    &&& 0 <= k < 2 * (GRID + 1)
    &&& forall|j: int| 0 <= j < 2 * (GRID + 1) ==> line_dist(x, z, k) <= #[trigger] line_dist(x, z, j)
    &&& forall|j: int| 0 <= j < k ==> line_dist(x, z, k) < #[trigger] line_dist(x, z, j)
}

/// Which sidewalk a walker is pulled toward: the road line closest to its
/// position (along X or Z), and on which side of it the walker is.
pub struct SidewalkTarget {
    /// The closest line runs along Z (fixed X); otherwise along X.
    pub across_x: bool,
    pub line: usize,
    /// The walker is on the positive side of the line.
    pub positive_side: bool,
}

/// Finds the road line closest to `(x, z)` (mm): lines are tried in order,
/// each first by its X distance then by its Z distance, and the first of
/// the closest wins.
pub fn nearest_sidewalk(x: i64, z: i64) -> (t: SidewalkTarget)
    requires
        bounded(x as int),
        bounded(z as int),
    ensures
        t.line <= GRID,
        is_first_closest(x as int, z as int, 2 * t.line + if t.across_x { 0int } else { 1 }),
        t.positive_side == if t.across_x { x > line_mm(t.line as int) } else { z > line_mm(t.line as int) },
{
    let mut best_k: usize = 0;
    let mut best_d: i64 = i64::MAX;
    let mut k: usize = 0;
    while k < 2 * (GRID + 1)
        invariant
            k <= 2 * (GRID + 1),
            bounded(x as int),
            bounded(z as int),
            k == 0 ==> best_d == i64::MAX && best_k == 0,
            k > 0 ==> best_k < k && best_d == line_dist(x as int, z as int, best_k as int),
            forall|j: int| 0 <= j < k ==> best_d <= #[trigger] line_dist(x as int, z as int, j),
            forall|j: int| 0 <= j < best_k ==> best_d < #[trigger] line_dist(x as int, z as int, j),
        decreases 2 * (GRID + 1) - k,
    {
        let i = k / 2;
        assert(i <= GRID);
        let c: i64 = (-138 + (i as i64) * 46) * 1000;
        assert(c == line_mm(i as int));
        let d = if k % 2 == 0 {
            if x >= c { x - c } else { c - x }
        } else {
            if z >= c { z - c } else { c - z }
        };
        assert(d == line_dist(x as int, z as int, k as int));
        if d < best_d {
            best_d = d;
            best_k = k;
        }
        k = k + 1;
    }
    let line = best_k / 2;
    let across_x = best_k % 2 == 0;
    assert(line <= GRID);
    let c: i64 = (-138 + (line as i64) * 46) * 1000;
    assert(c == line_mm(line as int));
    let positive_side = if across_x { x > c } else { z > c };
    SidewalkTarget { across_x, line, positive_side }
}

/// Road line within 1.5 m of coordinate `p` (mm), where a car may turn.
/// Lines are 46 m apart, so there is at most one.
pub fn near_intersection(p: i64) -> (r: Option<usize>)
    requires
        bounded(p as int),
    ensures
        r matches Some(i) ==> i <= GRID && abs(p - line_mm(i as int)) < 1500,
        r is None ==> forall|i: int| 0 <= i <= GRID ==> abs(p - line_mm(i)) >= 1500,
{
    let mut i: usize = 0;
    while i <= GRID
        invariant
            i <= GRID + 1,
            bounded(p as int),
            forall|j: int| 0 <= j < i ==> abs(p - line_mm(j)) >= 1500,
        decreases GRID + 1 - i,
    {
        let c: i64 = (-138 + (i as i64) * 46) * 1000;
        assert(c == line_mm(i as int));
        let d = if p >= c { p - c } else { c - p };
        if d < 1500 {
            return Some(i);
        }
        i = i + 1;
    }
    None
}

/// Whether `(ax, az)` and `(bx, bz)` (mm) are at least `min` mm apart.
pub fn at_least_apart(ax: i64, az: i64, bx: i64, bz: i64, min: i64) -> (r: bool)
    requires
        bounded(ax as int),
        bounded(az as int),
        bounded(bx as int),
        bounded(bz as int),
        0 <= min <= POS_BOUND,
    ensures
        r == ((ax - bx) * (ax - bx) + (az - bz) * (az - bz) >= min * min),
{
    let dx = (ax as i128) - (bx as i128);
    let dz = (az as i128) - (bz as i128);
    let m = min as i128;
    assert(dx * dx <= 0x10_0000_0000_0000_0000_0000 && dz * dz <= 0x10_0000_0000_0000_0000_0000
        && m * m <= 0x10_0000_0000_0000_0000_0000) by (nonlinear_arith)
        requires
            -2 * POS_BOUND <= dx <= 2 * POS_BOUND,
            -2 * POS_BOUND <= dz <= 2 * POS_BOUND,
            0 <= m <= POS_BOUND;
    assert(dx * dx >= 0 && dz * dz >= 0) by (nonlinear_arith);
    dx * dx + dz * dz >= m * m
}

/// Squared distance between two points, mm².
pub open spec fn dist2(ax: int, az: int, bx: int, bz: int) -> int {
    (ax - bx) * (ax - bx) + (az - bz) * (az - bz)
}

/// Every point lies within the coordinate bound.
pub open spec fn all_bounded(points: Seq<(i64, i64)>) -> bool {
    forall|i: int| 0 <= i < points.len() ==> bounded((#[trigger] points[i]).0 as int) && bounded(points[i].1 as int)
}

/// How many of the first `k` points lie closer than `r` to `(px, pz)`.
pub open spec fn count_closer(points: Seq<(i64, i64)>, px: int, pz: int, r: int, k: nat) -> nat
    decreases k,
{
    if k == 0 {
        0
    } else {
        count_closer(points, px, pz, r, (k - 1) as nat)
            + if dist2(points[k - 1].0 as int, points[k - 1].1 as int, px, pz) < r * r { 1nat } else { 0nat }
    }
}

/// Law: a cop counts as touching only when strictly closer than the
/// radius. None of the first `k` counts when all are at least `r` away;
/// all count when all are closer; the count never exceeds `k`; and one
/// more point adds one exactly when it is closer than `r`.
pub proof fn contact_count_is_strict(points: Seq<(i64, i64)>, px: int, pz: int, r: int, k: nat)
    requires
        k <= points.len(),
    ensures
        count_closer(points, px, pz, r, k) <= k,
        (forall|i: int| 0 <= i < k ==> dist2((#[trigger] points[i]).0 as int, points[i].1 as int, px, pz) >= r * r)
            ==> count_closer(points, px, pz, r, k) == 0,
        (forall|i: int| 0 <= i < k ==> dist2((#[trigger] points[i]).0 as int, points[i].1 as int, px, pz) < r * r)
            ==> count_closer(points, px, pz, r, k) == k,
        k < points.len() ==> count_closer(points, px, pz, r, k + 1) == count_closer(points, px, pz, r, k)
            + if dist2(points[k as int].0 as int, points[k as int].1 as int, px, pz) < r * r { 1int } else { 0 },
    decreases k,
{
    if k > 0 {
        contact_count_is_strict(points, px, pz, r, (k - 1) as nat);
    }
}

fn dist2_exec(ax: i64, az: i64, bx: i64, bz: i64) -> (d: i128)
    requires
        bounded(ax as int),
        bounded(az as int),
        bounded(bx as int),
        bounded(bz as int),
    ensures
        d == dist2(ax as int, az as int, bx as int, bz as int),
        0 <= d <= 0x20_0000_0000_0000_0000_0000,
{
    let dx = (ax as i128) - (bx as i128);
    let dz = (az as i128) - (bz as i128);
    assert(0 <= dx * dx <= 0x10_0000_0000_0000_0000_0000 && 0 <= dz * dz <= 0x10_0000_0000_0000_0000_0000)
        by (nonlinear_arith)
        requires
            -2 * POS_BOUND <= dx <= 2 * POS_BOUND,
            -2 * POS_BOUND <= dz <= 2 * POS_BOUND;
    dx * dx + dz * dz
}

/// Counts the points (cop cars, mm) closer than `r` to `(px, pz)`: the cops
/// in contact with the player.
pub fn count_within(points: &Vec<(i64, i64)>, px: i64, pz: i64, r: i64) -> (n: usize)
    requires
        all_bounded(points@),
        bounded(px as int),
        bounded(pz as int),
        0 <= r <= POS_BOUND,
    ensures
        n == count_closer(points@, px as int, pz as int, r as int, points@.len()),
{
    assert(r * r <= 0x10_0000_0000_0000_0000_0000) by (nonlinear_arith)
        requires 0 <= r <= POS_BOUND;
    let rr = (r as i128) * (r as i128);
    let mut n: usize = 0;
    let mut i: usize = 0;
    while i < points.len()
        invariant
            i <= points@.len(),
            all_bounded(points@),
            bounded(px as int),
            bounded(pz as int),
            rr == r * r,
            n == count_closer(points@, px as int, pz as int, r as int, i as nat),
            n <= i,
        decreases points@.len() - i,
    {
        let (x, z) = points[i];
        assert(bounded(points@[i as int].0 as int));
        let d = dist2_exec(x, z, px, pz);
        if d < rr {
            n = n + 1;
        }
        i = i + 1;
    }
    n
}

/// Whether any point (a cop car, mm) lies within `r` of `(px, pz)`, the
/// edge included: a cop near the player.
pub fn any_within(points: &Vec<(i64, i64)>, px: i64, pz: i64, r: i64) -> (b: bool)
    requires
        all_bounded(points@),
        bounded(px as int),
        bounded(pz as int),
        0 <= r <= POS_BOUND,
    ensures
        b <==> exists|i: int| 0 <= i < points@.len()
            && dist2((#[trigger] points@[i]).0 as int, points@[i].1 as int, px as int, pz as int) <= r * r,
{
    assert(r * r <= 0x10_0000_0000_0000_0000_0000) by (nonlinear_arith)
        requires 0 <= r <= POS_BOUND;
    let rr = (r as i128) * (r as i128);
    let mut i: usize = 0;
    while i < points.len()
        invariant
            i <= points@.len(),
            all_bounded(points@),
            bounded(px as int),
            bounded(pz as int),
            rr == r * r,
            forall|j: int| 0 <= j < i ==>
                dist2((#[trigger] points@[j]).0 as int, points@[j].1 as int, px as int, pz as int) > r * r,
        decreases points@.len() - i,
    {
        let (x, z) = points[i];
        assert(bounded(points@[i as int].0 as int));
        let d = dist2_exec(x, z, px, pz);
        if d <= rr {
            return true;
        }
        i = i + 1;
    }
    false
}

/// Margin beyond the city edge where cars wrap around, mm.
pub const WRAP_MARGIN_MM: i64 = 5000;

/// A car's coordinate after the wrap-around at the map's edges: past one
/// edge (by more than the margin) it reappears at the other.
pub fn wrap_coordinate(p: i64) -> (q: i64)
    ensures
        p > (CITY_HALF as int) * MM + WRAP_MARGIN_MM ==> q == -((CITY_HALF as int) * MM + WRAP_MARGIN_MM),
        p < -((CITY_HALF as int) * MM + WRAP_MARGIN_MM) ==> q == (CITY_HALF as int) * MM + WRAP_MARGIN_MM,
        -((CITY_HALF as int) * MM + WRAP_MARGIN_MM) <= p <= (CITY_HALF as int) * MM + WRAP_MARGIN_MM ==> q == p,
{
    let edge: i64 = (CITY_HALF as i64) * MM + WRAP_MARGIN_MM;
    if p > edge {
        -edge
    } else if p < -edge {
        edge
    } else {
        p
    }
}

} // verus!
