//! Weapons: fists and a pistol with a magazine, fire cooldown, automatic
//! reload and aiming; damage to targets and the rewards for kills.
use vstd::prelude::*;
use crate::rules::{MAX_WANTED, TOAST_MS, WeaponRules};
use crate::state::{GameState, raised_wanted};
use crate::text::{signed_dec, signed_decimal};

verus! {

/// Current weapon, ammo, reload and aim state.
pub struct WeaponState {
    pub pistol_equipped: bool,
    pub ammo: u32,
    pub reloading: bool,
    /// Reload time left, ms.
    pub reload_timer_ms: u32,
    /// Time until the next shot is allowed, ms.
    pub fire_cooldown_ms: u32,
    pub aiming: bool,
}

/// Weapon controls read this frame.
pub struct WeaponInput {
    /// The fists key went down this frame.
    pub fists_pressed: bool,
    /// The pistol key went down this frame.
    pub pistol_pressed: bool,
    /// The aim button is held.
    pub aim_held: bool,
}

/// Timer subtraction that stops at zero.
pub open spec fn sat_sub(a: u32, b: u32) -> u32 {
    if a >= b { (a - b) as u32 } else { 0 }
}

/// Toast shown when switching to fists.
pub open spec fn fists_msg() -> Seq<char> {
    "👊 Кулаки"@
}

/// Toast shown when drawing the pistol.
pub open spec fn pistol_msg() -> Seq<char> {
    "🔫 Пистолет"@
}

/// Toast shown for a kill.
pub open spec fn kill_msg(cash: int) -> Seq<char> {
    "💀 +$"@ + signed_dec(cash)
}

/// Toast shown when a cop car is destroyed.
pub open spec fn cop_destroyed_msg() -> Seq<char> {
    "💥 Патруль уничтожен!"@
}

impl WeaponState {
    /// The weapon state after the cooldown and reload timers ran `dt` ms:
    /// a finished reload refills the magazine.
    pub open spec fn timers_after(self, dt: u32, magazine: u32) -> WeaponState {
        let cd = sat_sub(self.fire_cooldown_ms, dt);
        if self.reloading {
            let t = sat_sub(self.reload_timer_ms, dt);
            if t == 0 {
                WeaponState { fire_cooldown_ms: cd, reload_timer_ms: t, reloading: false, ammo: magazine, ..self }
            } else {
                WeaponState { fire_cooldown_ms: cd, reload_timer_ms: t, ..self }
            }
        } else {
            WeaponState { fire_cooldown_ms: cd, ..self }
        }
    }

    /// Ammo never exceeds the magazine, and a reload only runs on an
    /// empty magazine.
    pub open spec fn ammo_ok(self, magazine: u32) -> bool {
        &&& self.ammo <= magazine
        &&& self.reloading ==> self.ammo == 0
    }

    /// Whether the pistol can fire now, given the game and controls.
    pub open spec fn can_fire(self, game: &GameState, trigger_held: bool, cursor_locked: bool) -> bool {
        &&& game.started
        &&& cursor_locked
        &&& self.pistol_equipped
        &&& game.in_vehicle is None
        &&& !self.reloading
        &&& self.fire_cooldown_ms == 0
        &&& trigger_held
    }

    /// Per-frame weapon bookkeeping: cooldown and reload timers run down
    /// (a finished reload refills the magazine); once the game runs with
    /// the cursor captured, the number keys switch between fists and pistol
    /// (with a notification) and holding the aim button aims the pistol on
    /// foot. Otherwise aiming stops.
    pub fn weapon_input(&mut self, game: &mut GameState, input: &WeaponInput, cursor_locked: bool,
        dt_ms: u32, rules: &WeaponRules)
        ensures
            old(game).wf() ==> final(game).wf(),
            !old(self).reloading ==> final(self).ammo == old(self).ammo && !final(self).reloading
                && final(self).reload_timer_ms == old(self).reload_timer_ms,
            old(self).reloading && dt_ms < old(self).reload_timer_ms ==> final(self).ammo == old(self).ammo
                && final(self).reloading && final(self).reload_timer_ms == old(self).reload_timer_ms - dt_ms,
            old(self).reloading && dt_ms >= old(self).reload_timer_ms ==> final(self).ammo == rules.magazine
                && !final(self).reloading && final(self).reload_timer_ms == 0,
            final(self).fire_cooldown_ms == if old(self).fire_cooldown_ms >= dt_ms {
                old(self).fire_cooldown_ms - dt_ms } else { 0 },
            ({
                let t = old(self).timers_after(dt_ms, rules.magazine);
                if !old(game).started || !cursor_locked {
                    &&& *final(self) == WeaponState { aiming: false, ..t }
                    &&& *final(game) == *old(game)
                } else {
                    let to_fists = t.pistol_equipped && input.fists_pressed;
                    let e1 = if to_fists { false } else { t.pistol_equipped };
                    let to_pistol = !e1 && input.pistol_pressed;
                    let e2 = if to_pistol { true } else { e1 };
                    &&& *final(self) == WeaponState {
                        pistol_equipped: e2,
                        aiming: e2 && old(game).in_vehicle is None && input.aim_held,
                        ..t
                    }
                    &&& final(game).same_but_toast(old(game))
                    &&& to_pistol ==> (final(game).toast matches Some((m, ms)) && m@ == pistol_msg() && ms == TOAST_MS)
                    &&& !to_pistol && to_fists ==> (final(game).toast matches Some((m, ms)) && m@ == fists_msg() && ms == TOAST_MS)
                    &&& !to_pistol && !to_fists ==> final(game).toast == old(game).toast
                }
            }),
    {
        self.fire_cooldown_ms = self.fire_cooldown_ms.saturating_sub(dt_ms);
        if self.reloading {
            self.reload_timer_ms = self.reload_timer_ms.saturating_sub(dt_ms);
            if self.reload_timer_ms == 0 {
                self.reloading = false;
                self.ammo = rules.magazine;
            }
        }
        if !game.started || !cursor_locked {
            self.aiming = false;
            return;
        }
        if input.fists_pressed && self.pistol_equipped {
            self.pistol_equipped = false;
            game.show_toast(String::from_str("👊 Кулаки"));
        }
        if input.pistol_pressed && !self.pistol_equipped {
            self.pistol_equipped = true;
            game.show_toast(String::from_str("🔫 Пистолет"));
        }
        self.aiming = self.pistol_equipped && game.in_vehicle.is_none() && input.aim_held;
    }

    /// Pulls the trigger. A shot needs the game running with the cursor
    /// captured, the pistol out on foot, no reload and no cooldown, and the
    /// trigger held; an empty magazine starts a reload instead; `aim_ready`
    /// says whether the shot can be aimed (camera and player exist). A shot
    /// uses one round and starts the cooldown; the last round starts the
    /// reload. Returns whether a shot was fired.
    pub fn fire_pistol(&mut self, game: &GameState, trigger_held: bool, cursor_locked: bool,
        aim_ready: bool, rules: &WeaponRules) -> (fired: bool)
        ensures
            fired <==> old(self).can_fire(game, trigger_held, cursor_locked) && old(self).ammo > 0 && aim_ready,
            !old(self).can_fire(game, trigger_held, cursor_locked) ==> *final(self) == *old(self),
            old(self).can_fire(game, trigger_held, cursor_locked) && old(self).ammo == 0 ==>
                *final(self) == (WeaponState { reloading: true, reload_timer_ms: rules.reload_ms, ..*old(self) }),
            old(self).can_fire(game, trigger_held, cursor_locked) && old(self).ammo > 0 && !aim_ready ==>
                *final(self) == *old(self),
            fired ==> {
                let a = (old(self).ammo - 1) as u32;
                &&& final(self).ammo == a
                &&& final(self).fire_cooldown_ms == rules.fire_cooldown_ms
                &&& final(self).reloading == (a == 0)
                &&& final(self).reload_timer_ms == if a == 0 { rules.reload_ms } else { old(self).reload_timer_ms }
                &&& final(self).pistol_equipped == old(self).pistol_equipped
                &&& final(self).aiming == old(self).aiming
            },
    {
        if !game.started || !cursor_locked || !self.pistol_equipped || game.in_vehicle.is_some()
            || self.reloading || self.fire_cooldown_ms > 0 || !trigger_held {
            return false;
        }
        if self.ammo == 0 {
            self.reloading = true;
            self.reload_timer_ms = rules.reload_ms;
            return false;
        }
        if !aim_ready {
            return false;
        }
        self.ammo = self.ammo - 1;
        self.fire_cooldown_ms = rules.fire_cooldown_ms;
        if self.ammo == 0 {
            self.reloading = true;
            self.reload_timer_ms = rules.reload_ms;
        }
        true
    }
}

impl Default for WeaponState {
    fn default() -> (w: Self)
        ensures
            !w.pistol_equipped,
            w.ammo == 12,
            !w.reloading,
            w.reload_timer_ms == 0,
            w.fire_cooldown_ms == 0,
            !w.aiming,
    {
        WeaponState {
            pistol_equipped: false,
            ammo: 12,
            reloading: false,
            reload_timer_ms: 0,
            fire_cooldown_ms: 0,
            aiming: false,
        }
    }
}

/// Law: the magazine bookkeeping holds across every weapon operation: ammo
/// never exceeds the magazine and a reload only runs on an empty magazine.
pub proof fn magazine_invariant(w: WeaponState, dt: u32, magazine: u32)
    requires
        w.ammo_ok(magazine),
    ensures
        w.timers_after(dt, magazine).ammo_ok(magazine),
        (WeaponState { aiming: false, ..w.timers_after(dt, magazine) }).ammo_ok(magazine),
        w.ammo == 0 ==> (WeaponState { reloading: true, ..w }).ammo_ok(magazine),
        w.ammo > 0 ==> (WeaponState { ammo: (w.ammo - 1) as u32, reloading: w.ammo == 1, ..w }).ammo_ok(magazine),
{
}

/// Law: only a finished reload refills the magazine. Outside a reload a
/// frame leaves the ammo and the reload state as they are and only runs
/// the fire cooldown down by `dt` (to zero at most); a frame never adds
/// rounds to a partly used magazine.
pub proof fn ammo_only_changes_by_reload(w: WeaponState, dt: u32, magazine: u32)
    ensures
        !w.reloading ==> w.timers_after(dt, magazine).ammo == w.ammo
            && !w.timers_after(dt, magazine).reloading
            && w.timers_after(dt, magazine).reload_timer_ms == w.reload_timer_ms,
        w.timers_after(dt, magazine).fire_cooldown_ms
            == if w.fire_cooldown_ms >= dt { w.fire_cooldown_ms - dt } else { 0 },
        w.timers_after(dt, magazine).ammo != w.ammo ==> w.reloading && dt >= w.reload_timer_ms
            && w.timers_after(dt, magazine).ammo == magazine,
        w.timers_after(dt, magazine).pistol_equipped == w.pistol_equipped,
{
}

/// Law: the automatic reload. Once the last round is gone, a frame that
/// covers the remaining reload time refills the magazine and ends the
/// reload; a shorter frame keeps it reloading.
pub proof fn reload_refills(w: WeaponState, dt: u32, magazine: u32)
    requires
        w.reloading,
    ensures
        dt >= w.reload_timer_ms ==> w.timers_after(dt, magazine).ammo == magazine
            && !w.timers_after(dt, magazine).reloading,
        dt < w.reload_timer_ms ==> w.timers_after(dt, magazine).reloading
            && w.timers_after(dt, magazine).ammo == w.ammo,
{
}

/// Health after a hit of `damage`, and whether the target went down:
/// a target is down once its health reaches zero.
pub fn apply_damage(hp_milli: u32, damage_milli: u32) -> (r: (u32, bool))
    ensures
        r.1 <==> damage_milli >= hp_milli,
        r.0 == if damage_milli >= hp_milli { 0 } else { (hp_milli - damage_milli) as u32 },
{
    if damage_milli >= hp_milli {
        (0, true)
    } else {
        (hp_milli - damage_milli, false)
    }
}

/// Remaining life of a short-lived effect (tracer, explosion, corpse)
/// after `dt_ms`; `None` once it has run out. A frame with no time passing
/// (the game is paused) changes nothing.
pub fn tick_effect(life_ms: u32, dt_ms: u32) -> (r: Option<u32>)
    ensures
        dt_ms == 0 ==> r == Some(life_ms),
        dt_ms > 0 && life_ms <= dt_ms ==> r is None,
        dt_ms > 0 && life_ms > dt_ms ==> r == Some((life_ms - dt_ms) as u32),
{
    if dt_ms == 0 {
        Some(life_ms)
    } else if life_ms <= dt_ms {
        None
    } else {
        Some(life_ms - dt_ms)
    }
}

/// What a bullet can hit.
pub enum ShotTarget {
    Ped(u64),
    Cop(u64),
    Wall,
}

/// `i` is the first of the nearest candidates.
pub open spec fn first_nearest(c: Seq<(ShotTarget, u32)>, i: int) -> bool {
    &&& 0 <= i < c.len()
    &&& forall|j: int| 0 <= j < c.len() ==> c[i].1 <= (#[trigger] c[j]).1
    &&& forall|j: int| 0 <= j < i ==> c[i].1 < (#[trigger] c[j]).1
}

/// Resolves a shot. `candidates` are the pedestrians, then the cop cars,
/// that the ray passes close enough to, each with its distance along the
/// ray (mm); `wall` is the first point along the ray inside a building, if
/// any. The nearest candidate is hit (the first of equally near ones)
/// unless a wall comes before it; with no candidate a wall closer than the
/// range stops the bullet; otherwise the bullet flies its full range.
pub fn resolve_shot(candidates: &Vec<(ShotTarget, u32)>, wall: Option<u32>, range: u32) -> (r: Option<(ShotTarget, u32)>)
    ensures
        candidates@.len() == 0 ==> match wall {
            Some(w) => if w < range { r == Some((ShotTarget::Wall, w)) } else { r is None },
            None => r is None,
        },
        candidates@.len() > 0 ==> exists|i: int| #[trigger] first_nearest(candidates@, i) && match wall {
            Some(w) => if w < candidates@[i].1 { r == Some((ShotTarget::Wall, w)) } else { r == Some(candidates@[i]) },
            None => r == Some(candidates@[i]),
        },
{
    let mut best: Option<usize> = None;
    let mut i: usize = 0;
    while i < candidates.len()
        invariant
            i <= candidates@.len(),
            i == 0 <==> best is None,
            best matches Some(b) ==> {
                &&& b < i
                &&& forall|j: int| 0 <= j < i ==> candidates@[b as int].1 <= (#[trigger] candidates@[j]).1
                &&& forall|j: int| 0 <= j < b ==> candidates@[b as int].1 < (#[trigger] candidates@[j]).1
            },
        decreases candidates@.len() - i,
    {
        match best {
            None => { best = Some(i); },
            Some(b) => {
                if candidates[i].1 < candidates[b].1 {
                    best = Some(i);
                }
            },
        }
        i = i + 1;
    }
    let max_t = match best {
        Some(b) => candidates[b].1,
        None => range,
    };
    match wall {
        Some(w) => {
            if w < max_t {
                proof {
                    if best is Some {
                        assert(first_nearest(candidates@, best->0 as int));
                    }
                }
                return Some((ShotTarget::Wall, w));
            }
        },
        None => {},
    }
    match best {
        Some(b) => {
            let t = candidates[b].1;
            let target = match &candidates[b].0 {
                ShotTarget::Ped(e) => ShotTarget::Ped(*e),
                ShotTarget::Cop(e) => ShotTarget::Cop(*e),
                ShotTarget::Wall => ShotTarget::Wall,
            };
            assert(first_nearest(candidates@, b as int));
            Some((target, t))
        },
        None => None,
    }
}

/// How the pistol and the shooting arm are shown.
pub struct PistolPose {
    /// The pistol is visible in the hand.
    pub show: bool,
    /// Aiming: the player faces the camera's direction with the arm raised.
    pub aim: bool,
    /// The relaxed "gun ready" arm pose.
    pub ready: bool,
}

/// The pistol is shown while equipped on foot in a running game; aiming
/// (with the cursor captured) raises the arm, otherwise a shown pistol is
/// held ready.
pub fn pistol_pose(weapon: &WeaponState, game: &GameState, cursor_locked: bool) -> (p: PistolPose)
    ensures
        p.show == (weapon.pistol_equipped && game.in_vehicle is None && game.started),
        p.aim == (game.started && weapon.aiming && game.in_vehicle is None && cursor_locked),
        p.ready == (game.started && !p.aim && p.show),
{
    let on_foot = game.in_vehicle.is_none();
    let show = weapon.pistol_equipped && on_foot && game.started;
    let aim = game.started && weapon.aiming && on_foot && cursor_locked;
    PistolPose { show, aim, ready: game.started && !aim && show }
}

impl GameState {
    /// A pedestrian was killed: the kill pays `cash_per_kill`, raises the
    /// wanted level by one star, and is announced.
    pub fn reward_kill(&mut self, rules: &WeaponRules)
        requires
            old(self).wanted <= MAX_WANTED,
            i32::MIN <= old(self).cash + rules.cash_per_kill <= i32::MAX,
        ensures
            old(self).wf() ==> final(self).wf(),
            final(self).cash == old(self).cash + rules.cash_per_kill,
            final(self).wanted == raised_wanted(old(self).wanted, 1),
            final(self).wanted == if old(self).wanted < MAX_WANTED { old(self).wanted + 1 } else { MAX_WANTED as int },
            final(self).wanted_decay_ms == 0,
            final(self).toast matches Some((m, t)) && m@ == kill_msg(rules.cash_per_kill as int) && t == TOAST_MS,
            final(self).hp_milli == old(self).hp_milli,
            final(self).in_vehicle == old(self).in_vehicle,
            final(self).started == old(self).started,
            final(self).last_speed_kmh == old(self).last_speed_kmh,
    {
        self.cash = self.cash + rules.cash_per_kill;
        self.add_wanted(1);
        let mut msg = String::from_str("💀 +$");
        let amount = signed_decimal(rules.cash_per_kill as i64);
        msg.append(amount.as_str());
        self.show_toast(msg);
    }

    /// A cop car was destroyed: the wanted level rises by one star and the
    /// destruction is announced.
    pub fn cop_destroyed(&mut self)
        requires
            old(self).wanted <= MAX_WANTED,
        ensures
            old(self).wf() ==> final(self).wf(),
            final(self).wanted == raised_wanted(old(self).wanted, 1),
            final(self).wanted == if old(self).wanted < MAX_WANTED { old(self).wanted + 1 } else { MAX_WANTED as int },
            final(self).wanted_decay_ms == 0,
            final(self).toast matches Some((m, t)) && m@ == cop_destroyed_msg() && t == TOAST_MS,
            final(self).hp_milli == old(self).hp_milli,
            final(self).cash == old(self).cash,
            final(self).in_vehicle == old(self).in_vehicle,
            final(self).started == old(self).started,
            final(self).last_speed_kmh == old(self).last_speed_kmh,
    {
        self.add_wanted(1);
        self.show_toast(String::from_str("💥 Патруль уничтожен!"));
    }
}

} // verus!
