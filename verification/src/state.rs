//! The player's global game state: health, cash, wanted level, the car the
//! player sits in, the on-screen notification.
use vstd::prelude::*;
use crate::rules::{MAX_HP_MILLI, MAX_WANTED, TOAST_MS, PoliceRules};

verus! {

/// Global game state. `in_vehicle` holds the id of the car being driven.
pub struct GameState {
    /// Health, milli-HP.
    pub hp_milli: u32,
    pub cash: i32,
    /// Wanted level, 0..=5 stars.
    pub wanted: u32,
    /// Good behaviour accumulated toward the next star decay, ms.
    pub wanted_decay_ms: u32,
    pub in_vehicle: Option<u64>,
    /// Notification text and its remaining display time, ms.
    pub toast: Option<(String, u32)>,
    pub started: bool,
    pub last_speed_kmh: u32,
}

/// The wanted level after raising it by `n`: capped at five stars.
pub open spec fn raised_wanted(wanted: u32, n: u32) -> u32 {
    if wanted + n <= MAX_WANTED { (wanted + n) as u32 } else { MAX_WANTED }
}

/// Law: each crime adds its stars on top of those already earned, up to
/// five. A level below five rises by `n` (or to five), never falls, and
/// the result is exactly `min(wanted + n, 5)`.
pub proof fn crimes_add_stars(wanted: u32, n: u32)
    requires
        wanted + n <= u32::MAX,
    ensures
        raised_wanted(wanted, n) == if wanted + n < MAX_WANTED { wanted + n } else { MAX_WANTED as int },
        raised_wanted(wanted, n) >= wanted || wanted > MAX_WANTED,
        wanted < MAX_WANTED && n > 0 ==> raised_wanted(wanted, n) > wanted,
        raised_wanted(wanted, n) <= MAX_WANTED,
        wanted + n <= MAX_WANTED ==> raised_wanted(wanted, n) - wanted == n,
{
}

/// A notification after `dt` ms: gone once its time has run out.
pub open spec fn toast_after(toast: Option<(String, u32)>, dt: u32) -> Option<(String, u32)> {
    match toast {
        Some((msg, t)) => if t <= dt { None } else { Some((msg, (t - dt) as u32)) },
        None => None,
    }
}

/// Timer addition that stops at `u32::MAX` instead of wrapping.
pub open spec fn sat_add(a: u32, b: u32) -> u32 {
    if a + b <= u32::MAX { (a + b) as u32 } else { u32::MAX }
}

/// Wanted level and decay timer after `dt` ms: the timer only runs while
/// the player is wanted and no cop is near; once it passes the decay
/// period one star is dropped and the timer restarts.
pub open spec fn decay_after(wanted: u32, timer: u32, dt: u32, cop_near: bool, decay_ms: u32) -> (u32, u32) {
    if wanted > 0 && !cop_near {
        let t = sat_add(timer, dt);
        if t > decay_ms { ((wanted - 1) as u32, 0) } else { (wanted, t) }
    } else {
        (wanted, timer)
    }
}

/// Wanted level and timer after `k` frames of `dt` ms each.
pub open spec fn decay_iter(wanted: u32, timer: u32, dt: u32, cop_near: bool, decay_ms: u32, k: nat) -> (u32, u32)
    decreases k,
{
    if k == 0 {
        (wanted, timer)
    } else {
        let prev = decay_iter(wanted, timer, dt, cop_near, decay_ms, (k - 1) as nat);
        decay_after(prev.0, prev.1, dt, cop_near, decay_ms)
    }
}

proof fn lemma_decay_split(wanted: u32, timer: u32, dt: u32, cop_near: bool, decay_ms: u32, a: nat, b: nat)
    ensures
        ({
            let mid = decay_iter(wanted, timer, dt, cop_near, decay_ms, a);
            decay_iter(wanted, timer, dt, cop_near, decay_ms, a + b)
                == decay_iter(mid.0, mid.1, dt, cop_near, decay_ms, b)
        }),
    decreases b,
{
    if b > 0 {
        lemma_decay_split(wanted, timer, dt, cop_near, decay_ms, a, (b - 1) as nat);
        assert((a + b - 1) as nat == a + (b - 1) as nat);
    }
}

/// Frames of `dt` ms it takes to drop one star from a fresh timer.
pub open spec fn frames_per_star(dt: u32, decay_ms: u32) -> nat {
    (decay_ms / dt + 1) as nat
}

proof fn lemma_timer_runs(wanted: u32, dt: u32, decay_ms: u32, j: nat)
    requires
        wanted > 0,
        dt > 0,
        j < frames_per_star(dt, decay_ms),
    ensures
        decay_iter(wanted, 0, dt, false, decay_ms, j) == (wanted, (j * dt) as u32),
        j * dt <= decay_ms,
    decreases j,
{
    let q = decay_ms / dt;
    vstd::arithmetic::div_mod::lemma_fundamental_div_mod(decay_ms as int, dt as int);
    assert(j * dt <= decay_ms) by (nonlinear_arith)
        requires j <= q, decay_ms == dt * q + decay_ms % dt, decay_ms % dt >= 0, dt > 0;
    if j > 0 {
        lemma_timer_runs(wanted, dt, decay_ms, (j - 1) as nat);
        let t0 = ((j - 1) * dt) as u32;
        assert((j - 1) * dt + dt == j * dt) by (nonlinear_arith);
        assert(t0 + dt == j * dt);
        assert(sat_add(t0, dt) == (j * dt) as u32);
        assert(decay_iter(wanted, 0, dt, false, decay_ms, j) == decay_after(wanted, t0, dt, false, decay_ms));
    } else {
        assert(j * dt == 0) by (nonlinear_arith) requires j == 0;
    }
}

proof fn lemma_one_star(wanted: u32, dt: u32, decay_ms: u32)
    requires
        wanted > 0,
        dt > 0,
        decay_ms < u32::MAX,
    ensures
        decay_iter(wanted, 0, dt, false, decay_ms, frames_per_star(dt, decay_ms)) == ((wanted - 1) as u32, 0u32),
{
    let m = frames_per_star(dt, decay_ms);
    lemma_timer_runs(wanted, dt, decay_ms, (m - 1) as nat);
    let q = decay_ms / dt;
    vstd::arithmetic::div_mod::lemma_fundamental_div_mod(decay_ms as int, dt as int);
    vstd::arithmetic::div_mod::lemma_mod_bound(decay_ms as int, dt as int);
    assert((m - 1) * dt + dt > decay_ms) by (nonlinear_arith)
        requires m - 1 == q, decay_ms == dt * q + decay_ms % dt, decay_ms % dt < dt;
}

/// Law: good behaviour clears the wanted level. With no cop near and any
/// frame length, starting from a fresh decay timer, each star falls after
/// `decay_ms / dt + 1` frames, so after that many frames per star the
/// level is zero. (A decay period of `u32::MAX` ms would never end: the
/// timer stops at that value.)
pub proof fn decay_clears_wanted(wanted: u32, dt: u32, decay_ms: u32)
    requires
        dt > 0,
        decay_ms < u32::MAX,
    ensures
        decay_iter(wanted, 0, dt, false, decay_ms, (wanted * frames_per_star(dt, decay_ms)) as nat).0 == 0,
    decreases wanted,
{
    let m = frames_per_star(dt, decay_ms);
    if wanted > 0 {
        lemma_one_star(wanted, dt, decay_ms);
        let w1 = (wanted - 1) as u32;
        assert(wanted * m == m + w1 * m && w1 * m >= 0) by (nonlinear_arith)
            requires w1 == wanted - 1, w1 >= 0, m >= 0;
        let rest = (w1 * m) as nat;
        assert((wanted * m) as nat == m + rest);
        lemma_decay_split(wanted, 0, dt, false, decay_ms, m, rest);
        assert(decay_iter(wanted, 0, dt, false, decay_ms, m) == (w1, 0u32));
        decay_clears_wanted(w1, dt, decay_ms);
        assert(decay_iter(w1, 0, dt, false, decay_ms, rest).0 == 0);
    } else {
        assert(wanted * m == 0) by (nonlinear_arith) requires wanted == 0;
    }
}

/// Law: stars don't decay while a cop is near; the level and the decay
/// timer stay as they are however many frames pass.
pub proof fn cop_near_holds_wanted(wanted: u32, timer: u32, dt: u32, decay_ms: u32, k: nat)
    ensures
        decay_iter(wanted, timer, dt, true, decay_ms, k) == (wanted, timer),
    decreases k,
{
    if k > 0 {
        cop_near_holds_wanted(wanted, timer, dt, decay_ms, (k - 1) as nat);
    }
}

/// Law: a notification stays on screen for `TOAST_MS` in all, whatever the
/// frames it is split into.
pub proof fn toast_lifetime(msg: String, dt1: u32, dt2: u32)
    ensures
        toast_after(toast_after(Some((msg, TOAST_MS)), dt1), dt2) is Some <==> dt1 + dt2 < TOAST_MS,
        toast_after(toast_after(Some((msg, TOAST_MS)), dt1), dt2) matches Some((m, t)) ==>
            m == msg && t == TOAST_MS - dt1 - dt2,
{
}

impl GameState {
    /// The state's invariant: at most five stars, health above zero and at
    /// most full, and a shown notification has time left.
    pub open spec fn wf(&self) -> bool {
        &&& self.wanted <= MAX_WANTED
        &&& 0 < self.hp_milli <= MAX_HP_MILLI
        &&& (self.toast matches Some((_, t)) ==> t > 0)
    }

    /// Everything but the notification is the same in `self` and `other`.
    pub open spec fn same_but_toast(&self, other: &GameState) -> bool {
        &&& self.hp_milli == other.hp_milli
        &&& self.cash == other.cash
        &&& self.wanted == other.wanted
        &&& self.wanted_decay_ms == other.wanted_decay_ms
        &&& self.in_vehicle == other.in_vehicle
        &&& self.started == other.started
        &&& self.last_speed_kmh == other.last_speed_kmh
    }

    /// Shows `msg` for `TOAST_MS`.
    pub fn show_toast(&mut self, msg: String)
        ensures
            old(self).wf() ==> final(self).wf(),
            final(self).toast == Some((msg, TOAST_MS)),
            final(self).same_but_toast(old(self)),
    {
        self.toast = Some((msg, TOAST_MS));
    }

    /// Raises the wanted level by `n` stars (at most five) and restarts the
    /// decay timer.
    pub fn add_wanted(&mut self, n: u32)
        requires
            old(self).wanted + n <= u32::MAX,
        ensures
            old(self).wf() ==> final(self).wf(),
            final(self).wanted == raised_wanted(old(self).wanted, n),
            old(self).wanted + n <= MAX_WANTED ==> final(self).wanted == old(self).wanted + n,
            old(self).wanted + n > MAX_WANTED ==> final(self).wanted == MAX_WANTED,
            final(self).wanted_decay_ms == 0,
            final(self).hp_milli == old(self).hp_milli,
            final(self).cash == old(self).cash,
            final(self).in_vehicle == old(self).in_vehicle,
            final(self).toast == old(self).toast,
            final(self).started == old(self).started,
            final(self).last_speed_kmh == old(self).last_speed_kmh,
    {
        let w = self.wanted + n;
        self.wanted = if w < MAX_WANTED { w } else { MAX_WANTED };
        self.wanted_decay_ms = 0;
    }

    /// Per-frame bookkeeping: the notification's time runs down, and the
    /// wanted level decays by one star after `rules.wanted_decay_ms` of good
    /// behaviour. The decay timer does not run while a cop is near.
    pub fn update_wanted_decay(&mut self, dt_ms: u32, cop_near: bool, rules: &PoliceRules)
        ensures
            old(self).wf() ==> final(self).wf(),
            final(self).toast == toast_after(old(self).toast, dt_ms),
            (final(self).wanted, final(self).wanted_decay_ms) == decay_after(
                old(self).wanted, old(self).wanted_decay_ms, dt_ms, cop_near, rules.wanted_decay_ms),
            cop_near || old(self).wanted == 0 ==> final(self).wanted == old(self).wanted
                && final(self).wanted_decay_ms == old(self).wanted_decay_ms,
            !cop_near && old(self).wanted > 0 && old(self).wanted_decay_ms + dt_ms <= rules.wanted_decay_ms
                ==> final(self).wanted == old(self).wanted
                && final(self).wanted_decay_ms == old(self).wanted_decay_ms + dt_ms,
            !cop_near && old(self).wanted > 0 && old(self).wanted_decay_ms + dt_ms > rules.wanted_decay_ms
                && rules.wanted_decay_ms < u32::MAX
                ==> final(self).wanted == old(self).wanted - 1 && final(self).wanted_decay_ms == 0,
            final(self).wanted <= old(self).wanted,
            final(self).wanted + 1 >= old(self).wanted,
            old(self).toast is None ==> final(self).toast is None,
            old(self).toast matches Some((m, t)) ==> (t > dt_ms ==> final(self).toast == Some((m, (t - dt_ms) as u32)))
                && (t <= dt_ms ==> final(self).toast is None),
            final(self).hp_milli == old(self).hp_milli,
            final(self).cash == old(self).cash,
            final(self).in_vehicle == old(self).in_vehicle,
            final(self).started == old(self).started,
            final(self).last_speed_kmh == old(self).last_speed_kmh,
    {
        let toast = self.toast.take();
        self.toast = match toast {
            Some((msg, t)) => if t <= dt_ms { None } else { Some((msg, t - dt_ms)) },
            None => None,
        };
        if self.wanted > 0 && !cop_near {
            let t = self.wanted_decay_ms.saturating_add(dt_ms);
            if t > rules.wanted_decay_ms {
                self.wanted = self.wanted - 1;
                self.wanted_decay_ms = 0;
            } else {
                self.wanted_decay_ms = t;
            }
        }
    }
}

impl Default for GameState {
    fn default() -> (s: Self)
        ensures
            s.hp_milli == MAX_HP_MILLI,
            s.cash == 0,
            s.wanted == 0,
            s.wanted_decay_ms == 0,
            s.in_vehicle is None,
            s.toast is None,
            !s.started,
            s.last_speed_kmh == 0,
            s.wf(),
    {
        GameState {
            hp_milli: MAX_HP_MILLI,
            cash: 0,
            wanted: 0,
            wanted_decay_ms: 0,
            in_vehicle: None,
            toast: None,
            started: false,
            last_speed_kmh: 0,
        }
    }
}

} // verus!
