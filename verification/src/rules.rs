//! Gameplay tunables that the rules read, in integer units: milliseconds,
//! milli-HP (1 HP = 1000 milli-HP), whole dollars and counts.
use vstd::prelude::*;

verus! {

/// Highest wanted level (five stars).
pub const MAX_WANTED: u32 = 5;
/// Full player health, milli-HP (100 HP).
pub const MAX_HP_MILLI: u32 = 100_000;
/// How long a notification stays on screen, ms.
pub const TOAST_MS: u32 = 1800;
/// Radius within which the player can steal a car, mm.
pub const ENTER_CAR_RADIUS_MM: u32 = 4000;

/// Player tunables.
pub struct PlayerRules {
    /// Cash for each pedestrian hit by a punch.
    pub cash_per_punch: i32,
}

/// Police and wanted-level tunables.
pub struct PoliceRules {
    /// Cop cars per wanted star.
    pub cars_per_star: usize,
    /// Hard cap on simultaneous cop cars.
    pub max_cars: usize,
    /// HP drained per second by each cop in contact with the player.
    pub contact_damage_per_sec: u32,
    /// Percentage of the cash taken as a fine when busted.
    pub busted_fine_percent: u32,
    /// Time between red/blue swaps of the light bar, ms.
    pub flash_period_ms: u32,
    /// Good behaviour needed for one wanted star to decay, ms.
    pub wanted_decay_ms: u32,
}

/// Weapon and combat tunables.
pub struct WeaponRules {
    /// Damage per pistol bullet, milli-HP.
    pub pistol_damage_milli: u32,
    /// Time between shots, ms.
    pub fire_cooldown_ms: u32,
    /// Magazine size.
    pub magazine: u32,
    /// Reload time, ms.
    pub reload_ms: u32,
    /// Pedestrian health, milli-HP.
    pub ped_hp_milli: u32,
    /// Police car health, milli-HP.
    pub police_car_hp_milli: u32,
    /// Cash per kill.
    pub cash_per_kill: i32,
    /// Time before a body disappears, ms.
    pub corpse_ms: u32,
}

/// All gameplay tunables.
pub struct Rules {
    pub player: PlayerRules,
    pub police: PoliceRules,
    pub weapons: WeaponRules,
}

impl Default for PlayerRules {
    fn default() -> (r: Self)
        ensures
            r.cash_per_punch == 5,
    {
        PlayerRules { cash_per_punch: 5 }
    }
}

impl Default for PoliceRules {
    fn default() -> (r: Self)
        ensures
            r.cars_per_star == 1,
            r.max_cars == 4,
            r.contact_damage_per_sec == 30,
            r.busted_fine_percent == 50,
            r.flash_period_ms == 200,
            r.wanted_decay_ms == 18_000,
    {
        PoliceRules {
            cars_per_star: 1,
            max_cars: 4,
            contact_damage_per_sec: 30,
            busted_fine_percent: 50,
            flash_period_ms: 200,
            wanted_decay_ms: 18_000,
        }
    }
}

impl Default for WeaponRules {
    fn default() -> (r: Self)
        ensures
            r.pistol_damage_milli == 25_000,
            r.fire_cooldown_ms == 220,
            r.magazine == 12,
            r.reload_ms == 1100,
            r.ped_hp_milli == 50_000,
            r.police_car_hp_milli == 75_000,
            r.cash_per_kill == 20,
            r.corpse_ms == 20_000,
    {
        WeaponRules {
            pistol_damage_milli: 25_000,
            fire_cooldown_ms: 220,
            magazine: 12,
            reload_ms: 1100,
            ped_hp_milli: 50_000,
            police_car_hp_milli: 75_000,
            cash_per_kill: 20,
            corpse_ms: 20_000,
        }
    }
}

impl Default for Rules {
    fn default() -> (r: Self)
        ensures
            r.player.cash_per_punch == 5,
            r.police.cars_per_star == 1,
            r.police.max_cars == 4,
            r.police.contact_damage_per_sec == 30,
            r.police.busted_fine_percent == 50,
            r.police.flash_period_ms == 200,
            r.police.wanted_decay_ms == 18_000,
            r.weapons.pistol_damage_milli == 25_000,
            r.weapons.fire_cooldown_ms == 220,
            r.weapons.magazine == 12,
            r.weapons.reload_ms == 1100,
            r.weapons.ped_hp_milli == 50_000,
            r.weapons.police_car_hp_milli == 75_000,
            r.weapons.cash_per_kill == 20,
            r.weapons.corpse_ms == 20_000,
    {
        Rules {
            player: PlayerRules::default(),
            police: PoliceRules::default(),
            weapons: WeaponRules::default(),
        }
    }
}

} // verus!
