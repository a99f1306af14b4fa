//! Police: how many cop cars chase the player, spawn placement draws,
//! light-bar flashing, contact damage and getting busted.
use vstd::prelude::*;
use crate::city::{CITY_HALF, GRID, LANE_OFFSET, grid_line_spec, lane_center};
use crate::geometry::{MM, POS_BOUND, abs, bounded};
use crate::rng::{coin_flip, random_below};
use crate::rules::{MAX_HP_MILLI, TOAST_MS, PoliceRules};
use crate::state::GameState;
use crate::text::{signed_dec, signed_decimal};

verus! {

/// Number of cop cars that should be on the streets: none at zero stars,
/// otherwise `cars_per_star` per star up to the cap.
pub open spec fn police_target_spec(wanted: u32, cars_per_star: usize, max_cars: usize) -> int {
    if wanted == 0 {
        0
    } else if wanted * cars_per_star <= max_cars {
        wanted * cars_per_star
    } else {
        max_cars as int
    }
}

/// What to do with the cop cars this frame.
pub enum PoliceAction {
    /// The count is right.
    Keep,
    /// Spawn this many new cop cars.
    Spawn(usize),
    /// Remove this many cop cars.
    Despawn(usize),
}

/// The number of cop cars after carrying out `action` on `current` cars.
pub open spec fn count_after(current: int, action: PoliceAction) -> int {
    match action {
        PoliceAction::Keep => current,
        PoliceAction::Spawn(k) => current + k,
        PoliceAction::Despawn(k) => current - k,
    }
}

/// Number of cop cars that the wanted level calls for.
pub fn police_target(wanted: u32, rules: &PoliceRules) -> (n: usize)
    requires
        wanted * rules.cars_per_star <= usize::MAX,
    ensures
        n == police_target_spec(wanted, rules.cars_per_star, rules.max_cars),
        wanted == 0 ==> n == 0,
        wanted > 0 && wanted * rules.cars_per_star <= rules.max_cars ==> n == wanted * rules.cars_per_star,
        wanted * rules.cars_per_star > rules.max_cars ==> n == rules.max_cars,
{
    if wanted == 0 {
        0
    } else {
        let want = (wanted as usize) * rules.cars_per_star;
        if want <= rules.max_cars { want } else { rules.max_cars }
    }
}

/// Keeps the number of live cop cars in sync with the wanted level: spawns
/// the missing ones or removes the surplus.
pub fn police_dispatch(current: usize, wanted: u32, rules: &PoliceRules) -> (a: PoliceAction)
    requires
        wanted * rules.cars_per_star <= usize::MAX,
    ensures
        count_after(current as int, a) == police_target_spec(wanted, rules.cars_per_star, rules.max_cars),
        a is Keep <==> current == police_target_spec(wanted, rules.cars_per_star, rules.max_cars),
        a matches PoliceAction::Spawn(k) ==> k > 0,
        a matches PoliceAction::Despawn(k) ==> k > 0,
{
    let target = police_target(wanted, rules);
    if current > target {
        PoliceAction::Despawn(current - target)
    } else if current < target {
        PoliceAction::Spawn(target - current)
    } else {
        PoliceAction::Keep
    }
}

/// Law: more stars never bring fewer cops. The number of cop cars called
/// for grows with the wanted level and never passes the cap.
pub proof fn more_stars_more_cops(w1: u32, w2: u32, cars_per_star: usize, max_cars: usize)
    requires
        w1 <= w2,
    ensures
        police_target_spec(w1, cars_per_star, max_cars) <= police_target_spec(w2, cars_per_star, max_cars),
        0 <= police_target_spec(w2, cars_per_star, max_cars) <= max_cars,
{
    assert(w1 * cars_per_star <= w2 * cars_per_star) by (nonlinear_arith)
        requires w1 <= w2;
    assert(w1 * cars_per_star >= 0) by (nonlinear_arith);
}

/// Law: the police presence follows the wanted level. After a dispatch is
/// carried out there are exactly as many cop cars as the level calls for:
/// none at zero stars, never more than the cap, and at least one at any
/// positive level when stars bring cars and the cap allows one.
pub proof fn police_follow_wanted(current: usize, wanted: u32, rules: PoliceRules, a: PoliceAction)
    requires
        wanted * rules.cars_per_star <= usize::MAX,
        count_after(current as int, a) == police_target_spec(wanted, rules.cars_per_star, rules.max_cars),
    ensures
        wanted == 0 ==> count_after(current as int, a) == 0,
        0 <= count_after(current as int, a) <= rules.max_cars,
        wanted > 0 && rules.cars_per_star > 0 && rules.max_cars > 0 ==> count_after(current as int, a) >= 1,
        count_after(current as int, a) <= wanted * rules.cars_per_star,
{
    if wanted > 0 && rules.cars_per_star > 0 {
        assert(wanted * rules.cars_per_star >= 1) by (nonlinear_arith)
            requires wanted > 0, rules.cars_per_star > 0;
    }
    assert(wanted * rules.cars_per_star >= 0) by (nonlinear_arith);
}

/// Where a new cop car appears, as drawn: the road line, the lane side, on
/// which side of the player, and along which axis.
pub struct PoliceSpawnPlan {
    /// Road line index, 0..=GRID.
    pub lane: usize,
    /// Drive in the lane on the positive side of the line.
    pub lane_side_positive: bool,
    /// Appear `spawn_distance` ahead (positive) or behind (negative).
    pub ahead: bool,
    /// Place along the X axis (on a road parallel to X).
    pub along_x: bool,
}

/// Draws where the next cop car spawns.
pub fn plan_police_spawn(rng: &mut rand::rngs::ThreadRng) -> (p: PoliceSpawnPlan)
    ensures
        p.lane <= GRID,
{
    let lane = random_below(rng, GRID + 1);
    let lane_side_positive = coin_flip(rng);
    let ahead = coin_flip(rng);
    let along_x = coin_flip(rng);
    PoliceSpawnPlan { lane, lane_side_positive, ahead, along_x }
}

/// Where a planned cop car appears, mm: on its lane, `dist` ahead of or
/// behind the player (`(px, pz)`, mm) along the plan's axis, kept within
/// the city's edges.
pub open spec fn police_spawn_spec(px: int, pz: int, plan: PoliceSpawnPlan, dist: int) -> (int, int) {
    let lane = (grid_line_spec(plan.lane as int)
        + if plan.lane_side_positive { LANE_OFFSET as int } else { -LANE_OFFSET }) * MM;
    let d = if plan.ahead { dist } else { -dist };
    let edge = CITY_HALF * MM;
    if plan.along_x {
        (if px + d < -edge { -edge } else if px + d > edge { edge } else { px + d }, lane)
    } else {
        (lane, if pz + d < -edge { -edge } else if pz + d > edge { edge } else { pz + d })
    }
}

/// Places a planned cop car relative to the player at `(px, pz)` (mm), `dist`
/// mm away along the plan's axis and clamped to the city. Where the clamp
/// does not bite, the car is exactly `dist` away along that axis, so at
/// least `dist` away in all.
pub fn police_spawn_point(px: i64, pz: i64, plan: &PoliceSpawnPlan, dist: i64) -> (p: (i64, i64))
    requires
        bounded(px as int),
        bounded(pz as int),
        0 <= dist <= POS_BOUND,
        plan.lane <= GRID,
    ensures
        (p.0 as int, p.1 as int) == police_spawn_spec(px as int, pz as int, *plan, dist as int),
        plan.along_x && -CITY_HALF * MM <= px + (if plan.ahead { dist as int } else { -dist }) <= CITY_HALF * MM
            ==> abs(p.0 - px) == dist,
        !plan.along_x && -CITY_HALF * MM <= pz + (if plan.ahead { dist as int } else { -dist }) <= CITY_HALF * MM
            ==> abs(p.1 - pz) == dist,
        plan.along_x && -CITY_HALF * MM <= px + (if plan.ahead { dist as int } else { -dist }) <= CITY_HALF * MM
            ==> (p.0 - px) * (p.0 - px) + (p.1 - pz) * (p.1 - pz) >= dist * dist,
        !plan.along_x && -CITY_HALF * MM <= pz + (if plan.ahead { dist as int } else { -dist }) <= CITY_HALF * MM
            ==> (p.0 - px) * (p.0 - px) + (p.1 - pz) * (p.1 - pz) >= dist * dist,
        plan.along_x && -CITY_HALF * MM <= px + (if plan.ahead { dist as int } else { -dist }) <= CITY_HALF * MM
            ==> p.0 == px + (if plan.ahead { dist as int } else { -dist }),
        !plan.along_x && -CITY_HALF * MM <= pz + (if plan.ahead { dist as int } else { -dist }) <= CITY_HALF * MM
            ==> p.1 == pz + (if plan.ahead { dist as int } else { -dist }),
        plan.along_x ==> -CITY_HALF * MM <= p.0 <= CITY_HALF * MM,
        !plan.along_x ==> -CITY_HALF * MM <= p.1 <= CITY_HALF * MM,
        plan.along_x ==> abs(p.1 - grid_line_spec(plan.lane as int) * MM) == LANE_OFFSET * MM
            && (p.1 > grid_line_spec(plan.lane as int) * MM) == plan.lane_side_positive,
        !plan.along_x ==> abs(p.0 - grid_line_spec(plan.lane as int) * MM) == LANE_OFFSET * MM
            && (p.0 > grid_line_spec(plan.lane as int) * MM) == plan.lane_side_positive,
{
    let lane: i64 = (lane_center(plan.lane, plan.lane_side_positive) as i64) * 1000;
    let d: i64 = if plan.ahead { dist } else { -dist };
    let edge: i64 = 138_000;
    let p = if plan.along_x {
        let a = px + d;
        (if a < -edge { -edge } else if a > edge { edge } else { a }, lane)
    } else {
        let a = pz + d;
        (lane, if a < -edge { -edge } else if a > edge { edge } else { a })
    };
    proof {
        let dx = p.0 - px;
        let dz = p.1 - pz;
        assert(dx * dx >= 0 && dz * dz >= 0) by (nonlinear_arith);
        assert(dist * dist == (-dist) * (-dist)) by (nonlinear_arith);
    }
    p
}

/// Red/blue light bar of a cop car.
pub struct FlashTimer {
    pub timer_ms: u32,
    pub red_phase: bool,
}

impl FlashTimer {
    /// A light bar that starts on red.
    pub fn new() -> (f: FlashTimer)
        ensures
            f.timer_ms == 0,
            f.red_phase,
    {
        FlashTimer { timer_ms: 0, red_phase: true }
    }

    /// The light bar after `dt` ms, and whether its colours swapped: once a
    /// full period has passed they swap and the timer restarts.
    pub open spec fn ticked(self, dt: u32, period: u32) -> (FlashTimer, bool) {
        if self.timer_ms + dt >= period {
            (FlashTimer { timer_ms: 0, red_phase: !self.red_phase }, true)
        } else {
            (FlashTimer { timer_ms: (self.timer_ms + dt) as u32, red_phase: self.red_phase }, false)
        }
    }

    /// Advances the light bar by `dt_ms`; once a full period has passed the
    /// colours swap and the timer restarts. Returns whether they swapped.
    pub fn tick(&mut self, dt_ms: u32, period_ms: u32) -> (swapped: bool)
        ensures
            (*final(self), swapped) == old(self).ticked(dt_ms, period_ms),
            old(self).timer_ms + dt_ms >= period_ms ==> swapped && final(self).timer_ms == 0
                && final(self).red_phase == !old(self).red_phase,
            old(self).timer_ms + dt_ms < period_ms ==> !swapped && final(self).timer_ms == old(self).timer_ms + dt_ms
                && final(self).red_phase == old(self).red_phase,
    {
        let t: u64 = self.timer_ms as u64 + dt_ms as u64;
        if t >= period_ms as u64 {
            self.timer_ms = 0;
            self.red_phase = !self.red_phase;
            true
        } else {
            self.timer_ms = t as u32;
            false
        }
    }
}

/// The fine for being busted: `percent` of the cash, rounded toward zero.
pub open spec fn fine_spec(cash: int, percent: int) -> int {
    if cash >= 0 { (cash * percent) / 100 } else { -(((-cash) * percent) / 100) }
}

/// Health after `contacts` cops drained it for `dt_ms` each, never below 0.
pub open spec fn drained_hp(hp: u32, contacts: u32, dps: u32, dt_ms: u32) -> u32 {
    if contacts * dps * dt_ms >= hp { 0 } else { (hp - contacts * dps * dt_ms) as u32 }
}

/// The busted notification.
pub open spec fn busted_msg(fine: int) -> Seq<char> {
    "🚔 ЗАДЕРЖАН! Штраф $"@ + signed_dec(fine)
}

/// Computes the fine for being busted.
pub fn busted_fine(cash: i32, percent: u32) -> (fine: i32)
    requires
        percent <= 100,
    ensures
        fine == fine_spec(cash as int, percent as int),
        cash >= 0 ==> 0 <= fine <= cash,
        cash < 0 ==> cash <= fine <= 0,
{
    if cash >= 0 {
        let c = cash as u64;
        assert(c * (percent as u64) <= c * 100) by (nonlinear_arith)
            requires percent <= 100;
        let f = c * (percent as u64) / 100;
        assert(f <= c) by (nonlinear_arith)
            requires f == c * (percent as u64) / 100, c * (percent as u64) <= c * 100;
        f as i32
    } else {
        let c: u64 = ((-(cash as i64)) as u64);
        assert(c * (percent as u64) <= c * 100) by (nonlinear_arith)
            requires percent <= 100;
        let f = c * (percent as u64) / 100;
        assert(f <= c) by (nonlinear_arith)
            requires f == c * (percent as u64) / 100, c * (percent as u64) <= c * 100;
        -(f as i64) as i32
    }
}

impl GameState {
    /// Cops in contact with the player drain `contact_damage_per_sec` HP per
    /// second each. When health runs out the player is busted: fined,
    /// healed, wanted level cleared, thrown out of any car, and told so.
    /// Returns the fine when busted.
    pub fn apply_police_contact(&mut self, contacts: u32, dt_ms: u32, rules: &PoliceRules) -> (fine: Option<i32>)
        requires
            rules.busted_fine_percent <= 100,
        ensures
            old(self).wf() ==> final(self).wf(),
            contacts == 0 ==> fine is None && final(self).hp_milli == old(self).hp_milli
                && final(self).wanted == old(self).wanted && final(self).cash == old(self).cash,
            contacts > 0 && contacts * rules.contact_damage_per_sec * dt_ms < old(self).hp_milli ==> fine is None
                && final(self).hp_milli == old(self).hp_milli - contacts * rules.contact_damage_per_sec * dt_ms,
            contacts > 0 && contacts * rules.contact_damage_per_sec * dt_ms >= old(self).hp_milli ==> fine is Some
                && final(self).hp_milli == MAX_HP_MILLI && final(self).wanted == 0
                && final(self).in_vehicle is None,
            ({
                let hp = drained_hp(old(self).hp_milli, contacts, rules.contact_damage_per_sec, dt_ms);
                let busted = contacts > 0 && hp == 0;
                &&& fine is Some <==> busted
                &&& busted ==> {
                    let f = fine_spec(old(self).cash as int, rules.busted_fine_percent as int);
                    &&& fine == Some(f as i32)
                    &&& final(self).cash == old(self).cash - f
                    &&& final(self).hp_milli == MAX_HP_MILLI
                    &&& final(self).wanted == 0
                    &&& final(self).wanted_decay_ms == 0
                    &&& final(self).in_vehicle is None
                    &&& final(self).toast matches Some((msg, t)) && msg@ == busted_msg(f) && t == TOAST_MS
                }
                &&& !busted ==> {
                    &&& final(self).hp_milli == hp
                    &&& final(self).cash == old(self).cash
                    &&& final(self).wanted == old(self).wanted
                    &&& final(self).wanted_decay_ms == old(self).wanted_decay_ms
                    &&& final(self).in_vehicle == old(self).in_vehicle
                    &&& final(self).toast == old(self).toast
                }
            }),
            final(self).started == old(self).started,
            final(self).last_speed_kmh == old(self).last_speed_kmh,
    {
        let c = contacts as u64;
        let d = rules.contact_damage_per_sec as u64;
        assert(c * d <= 0xffff_ffff * 0xffff_ffffu64) by (nonlinear_arith)
            requires c <= 0xffff_ffff, d <= 0xffff_ffff;
        let drain: u64 = c * d;
        let dt = dt_ms as u128;
        assert((drain as u128) * dt <= 0xffff_ffff_ffff_ffff * 0xffff_ffffu128) by (nonlinear_arith)
            requires drain <= 0xffff_ffff_ffff_ffff, dt <= 0xffff_ffff;
        let total: u128 = (drain as u128) * dt;
        assert(total as int == contacts * rules.contact_damage_per_sec * dt_ms) by (nonlinear_arith)
            requires total == (drain as u128) * dt, drain == c * d, c == contacts, d == rules.contact_damage_per_sec, dt == dt_ms;
        assert(contacts == 0 ==> total == 0) by (nonlinear_arith)
            requires total as int == contacts * rules.contact_damage_per_sec * dt_ms;
        if total >= self.hp_milli as u128 {
            self.hp_milli = 0;
        } else {
            self.hp_milli = self.hp_milli - total as u32;
        }
        if contacts > 0 && self.hp_milli == 0 {
            let fine = busted_fine(self.cash, rules.busted_fine_percent);
            self.cash = self.cash - fine;
            self.hp_milli = MAX_HP_MILLI;
            self.wanted = 0;
            self.wanted_decay_ms = 0;
            self.in_vehicle = None;
            let mut msg = String::from_str("🚔 ЗАДЕРЖАН! Штраф $");
            let amount = signed_decimal(fine as i64);
            msg.append(amount.as_str());
            self.show_toast(msg);
            Some(fine)
        } else {
            None
        }
    }
}

/// Law: being busted never drives non-negative cash below zero, and the
/// fine never exceeds what the player had.
pub proof fn busted_keeps_cash(cash: i32, percent: u32)
    requires
        cash >= 0,
        percent <= 100,
    ensures
        0 <= cash - fine_spec(cash as int, percent as int) <= cash,
{
    assert(cash * percent <= cash * 100) by (nonlinear_arith)
        requires cash >= 0, percent <= 100;
    assert((cash * percent) / 100 <= cash) by (nonlinear_arith)
        requires cash * percent <= cash * 100, cash >= 0;
    assert((cash * percent) / 100 >= 0) by (nonlinear_arith)
        requires cash >= 0, percent >= 0;
}

/// Law: the fine is `percent` of the cash rounded toward zero: a hundred
/// fines are at most `percent` times the cash and within one hundred of it,
/// with the sign of the cash.
pub proof fn fine_is_percent_toward_zero(cash: int, percent: int)
    requires
        0 <= percent <= 100,
    ensures
        cash >= 0 ==> fine_spec(cash, percent) * 100 <= cash * percent
            < fine_spec(cash, percent) * 100 + 100,
        cash < 0 ==> -fine_spec(cash, percent) * 100 <= -cash * percent
            < -fine_spec(cash, percent) * 100 + 100,
        percent == 0 ==> fine_spec(cash, percent) == 0,
        percent == 100 ==> fine_spec(cash, percent) == cash,
{
    let m = if cash >= 0 { cash * percent } else { (-cash) * percent };
    vstd::arithmetic::div_mod::lemma_fundamental_div_mod(m, 100);
    vstd::arithmetic::div_mod::lemma_mod_bound(m, 100);
    assert((-cash) * percent == -cash * percent) by (nonlinear_arith);
    if percent == 0 {
        assert(m == 0) by (nonlinear_arith) requires percent == 0, m == if cash >= 0 { cash * percent } else { (-cash) * percent };
    }
    if percent == 100 {
        assert(m == if cash >= 0 { cash * 100 } else { (-cash) * 100 });
    }
}

} // verus!
