//! The player's discrete actions: stealing and leaving cars, resetting the
//! position, and punching pedestrians.
use vstd::prelude::*;
use crate::rules::{ENTER_CAR_RADIUS_MM, MAX_WANTED, TOAST_MS, PlayerRules};
use crate::state::{GameState, raised_wanted};
use crate::text::{signed_dec, signed_decimal};
use crate::weapons::WeaponState;

verus! {

/// `i` is the first car, in order, among the closest cars within reach.
pub open spec fn is_nearest(dists: Seq<u32>, i: int) -> bool {
    &&& 0 <= i < dists.len()
    &&& dists[i] < ENTER_CAR_RADIUS_MM
    &&& forall|j: int| 0 <= j < dists.len() && dists[j] < ENTER_CAR_RADIUS_MM ==> dists[i] <= #[trigger] dists[j]
    &&& forall|j: int| 0 <= j < i && dists[j] < ENTER_CAR_RADIUS_MM ==> dists[i] < #[trigger] dists[j]
}

/// Some car is within reach.
pub open spec fn any_in_reach(dists: Seq<u32>) -> bool {
    exists|j: int| 0 <= j < dists.len() && #[trigger] dists[j] < ENTER_CAR_RADIUS_MM
}

/// Distances of the candidate cars.
pub open spec fn car_dists(cars: Seq<(u64, u32)>) -> Seq<u32> {
    cars.map_values(|c: (u64, u32)| c.1)
}

/// Toast shown when leaving a car.
pub open spec fn exit_msg() -> Seq<char> {
    "Вы вышли из машины"@
}

/// Toast shown when stealing a car.
pub open spec fn stolen_msg() -> Seq<char> {
    "Машина угнана!"@
}

/// Toast shown when no car is within reach.
pub open spec fn no_car_msg() -> Seq<char> {
    "Рядом нет машин"@
}

/// Toast shown after a position reset.
pub open spec fn reset_msg() -> Seq<char> {
    "Позиция сброшена"@
}

/// Toast shown for punch earnings.
pub open spec fn punch_msg(amount: int) -> Seq<char> {
    "+$"@ + signed_dec(amount)
}

/// Index of the car to steal: among the cars closer than the reach
/// (distances in mm, in query order), the first of the closest.
pub fn nearest_car(dists: &Vec<u32>) -> (r: Option<usize>)
    ensures
        r is None <==> !any_in_reach(dists@),
        r matches Some(i) ==> is_nearest(dists@, i as int),
{
    let mut best: Option<usize> = None;
    let mut i: usize = 0;
    while i < dists.len()
        invariant
            i <= dists.len(),
            best is None <==> !(exists|j: int| 0 <= j < i && #[trigger] dists@[j] < ENTER_CAR_RADIUS_MM),
            best matches Some(b) ==> {
                &&& b < i
                &&& dists@[b as int] < ENTER_CAR_RADIUS_MM
                &&& forall|j: int| 0 <= j < i && dists@[j] < ENTER_CAR_RADIUS_MM ==> dists@[b as int] <= #[trigger] dists@[j]
                &&& forall|j: int| 0 <= j < b && dists@[j] < ENTER_CAR_RADIUS_MM ==> dists@[b as int] < #[trigger] dists@[j]
            },
        decreases dists.len() - i,
    {
        let d = dists[i];
        if d < ENTER_CAR_RADIUS_MM {
            match best {
                None => { best = Some(i); },
                Some(b) => {
                    if d < dists[b] {
                        best = Some(i);
                    }
                },
            }
        }
        i = i + 1;
    }
    best
}

/// What pressing the enter/exit key did.
pub enum VehicleEvent {
    /// The player left this car.
    Exited(u64),
    /// The player stole this car.
    Entered(u64),
    /// No car was within reach.
    NoCarNearby,
}

impl GameState {
    /// The enter/exit key: leaves the current car, or else steals the
    /// nearest car within reach (which raises the wanted level by a star),
    /// or reports that none is near. `cars` holds each car's id and its
    /// distance from the player, mm.
    pub fn toggle_vehicle(&mut self, cars: &Vec<(u64, u32)>) -> (e: VehicleEvent)
        requires
            old(self).wanted <= MAX_WANTED,
        ensures
            old(self).wf() ==> final(self).wf(),
            ({
                let ds = car_dists(cars@);
                match old(self).in_vehicle {
                    Some(id) => {
                        &&& e == VehicleEvent::Exited(id)
                        &&& final(self).in_vehicle is None
                        &&& final(self).toast matches Some((m, t)) && m@ == exit_msg() && t == TOAST_MS
                        &&& final(self).wanted == old(self).wanted
                        &&& final(self).wanted_decay_ms == old(self).wanted_decay_ms
                    },
                    None => if any_in_reach(ds) {
                        &&& exists|i: int| #[trigger] is_nearest(ds, i)
                            && e == VehicleEvent::Entered(cars@[i].0)
                            && final(self).in_vehicle == Some(cars@[i].0)
                        &&& final(self).toast matches Some((m, t)) && m@ == stolen_msg() && t == TOAST_MS
                        &&& final(self).wanted == raised_wanted(old(self).wanted, 1)
                        &&& final(self).wanted == if old(self).wanted < MAX_WANTED { old(self).wanted + 1 } else { MAX_WANTED as int }
                        &&& final(self).wanted_decay_ms == 0
                    } else {
                        &&& e == VehicleEvent::NoCarNearby
                        &&& final(self).in_vehicle is None
                        &&& final(self).toast matches Some((m, t)) && m@ == no_car_msg() && t == TOAST_MS
                        &&& final(self).wanted == old(self).wanted
                        &&& final(self).wanted_decay_ms == old(self).wanted_decay_ms
                    },
                }
            }),
            final(self).hp_milli == old(self).hp_milli,
            final(self).cash == old(self).cash,
            final(self).started == old(self).started,
            final(self).last_speed_kmh == old(self).last_speed_kmh,
    {
        if let Some(id) = self.in_vehicle {
            self.in_vehicle = None;
            self.show_toast(String::from_str("Вы вышли из машины"));
            return VehicleEvent::Exited(id);
        }
        let mut dists: Vec<u32> = Vec::new();
        let mut k: usize = 0;
        while k < cars.len()
            invariant
                k <= cars.len(),
                dists@.len() == k,
                forall|j: int| 0 <= j < k ==> #[trigger] dists@[j] == cars@[j].1,
            decreases cars.len() - k,
        {
            dists.push(cars[k].1);
            k = k + 1;
        }
        assert(dists@ =~= car_dists(cars@));
        match nearest_car(&dists) {
            Some(i) => {
                let id = cars[i].0;
                self.in_vehicle = Some(id);
                self.add_wanted(1);
                self.show_toast(String::from_str("Машина угнана!"));
                assert(is_nearest(car_dists(cars@), i as int));
                VehicleEvent::Entered(id)
            },
            None => {
                self.show_toast(String::from_str("Рядом нет машин"));
                VehicleEvent::NoCarNearby
            },
        }
    }

    /// The reset key: the player leaves any car (returned, so that the
    /// engine can remove it) and is told the position was reset.
    pub fn reset_position(&mut self) -> (car: Option<u64>)
        ensures
            old(self).wf() ==> final(self).wf(),
            car == old(self).in_vehicle,
            final(self).in_vehicle is None,
            final(self).toast matches Some((m, t)) && m@ == reset_msg() && t == TOAST_MS,
            final(self).hp_milli == old(self).hp_milli,
            final(self).cash == old(self).cash,
            final(self).wanted == old(self).wanted,
            final(self).wanted_decay_ms == old(self).wanted_decay_ms,
            final(self).started == old(self).started,
            final(self).last_speed_kmh == old(self).last_speed_kmh,
    {
        let car = self.in_vehicle.take();
        self.show_toast(String::from_str("Позиция сброшена"));
        car
    }

    /// Pays for `hits` pedestrians hit by a punch and announces the
    /// earnings; no hit changes nothing.
    pub fn reward_punch(&mut self, hits: i32, rules: &PlayerRules)
        requires
            hits > 0 ==> i32::MIN <= rules.cash_per_punch * hits <= i32::MAX,
            hits > 0 ==> i32::MIN <= old(self).cash + rules.cash_per_punch * hits <= i32::MAX,
        ensures
            old(self).wf() ==> final(self).wf(),
            hits <= 0 ==> *final(self) == *old(self),
            hits > 0 ==> {
                &&& final(self).cash == old(self).cash + rules.cash_per_punch * hits
                &&& final(self).toast matches Some((m, t))
                    && m@ == punch_msg(rules.cash_per_punch * hits) && t == TOAST_MS
                &&& final(self).same_but_toast_and_cash(old(self))
            },
    {
        if hits > 0 {
            let amount = rules.cash_per_punch * hits;
            self.cash = self.cash + amount;
            let mut msg = String::from_str("+$");
            let digits = signed_decimal(amount as i64);
            msg.append(digits.as_str());
            self.show_toast(msg);
        }
    }

    /// Everything but the notification and the cash is the same.
    pub open spec fn same_but_toast_and_cash(&self, other: &GameState) -> bool {
        &&& self.hp_milli == other.hp_milli
        &&& self.wanted == other.wanted
        &&& self.wanted_decay_ms == other.wanted_decay_ms
        &&& self.in_vehicle == other.in_vehicle
        &&& self.started == other.started
        &&& self.last_speed_kmh == other.last_speed_kmh
    }
}

/// A click punches only on foot with bare fists; the pistol fires instead.
pub fn punch_allowed(game: &GameState, weapon: &WeaponState, clicked: bool) -> (r: bool)
    ensures
        r == (clicked && game.in_vehicle is None && !weapon.pistol_equipped),
{
    clicked && game.in_vehicle.is_none() && !weapon.pistol_equipped
}

} // verus!
