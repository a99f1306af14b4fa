//! What the HUD shows and the text it shows.
use vstd::prelude::*;
use crate::rules::MAX_WANTED;
use crate::state::GameState;
use crate::text::{dec_digits, decimal, pad2, signed_dec, signed_decimal, two_digits};
use crate::weapons::WeaponState;

verus! {

/// The wanted level as five stars: filled for each wanted star, hollow
/// for the rest.
pub open spec fn stars_spec(wanted: nat) -> Seq<char> {
    Seq::new(wanted, |i: int| '★') + Seq::new((5 - wanted) as nat, |i: int| '☆')
}

/// Law: the star row always has five stars, and star `i` is filled exactly
/// when `i` is below the wanted level.
pub proof fn stars_show_wanted(wanted: nat)
    requires
        wanted <= 5,
    ensures
        stars_spec(wanted).len() == 5,
        forall|i: int| 0 <= i < 5 ==> (#[trigger] stars_spec(wanted)[i] == '★') == (i < wanted),
        forall|i: int| 0 <= i < 5 ==> (stars_spec(wanted)[i] == '★' || #[trigger] stars_spec(wanted)[i] == '☆'),
{
}

/// Writes the wanted level as a row of five stars.
pub fn wanted_stars(wanted: u32) -> (s: String)
    requires
        wanted <= MAX_WANTED,
    ensures
        s@ == stars_spec(wanted as nat),
{
    proof {
        reveal_strlit("★");
        reveal_strlit("☆");
    }
    let mut s = String::new();
    let mut i: u32 = 0;
    while i < 5
        invariant
            i <= 5,
            wanted <= 5,
            i <= wanted ==> s@ =~= Seq::new(i as nat, |j: int| '★'),
            i > wanted ==> s@ =~= Seq::new(wanted as nat, |j: int| '★') + Seq::new((i - wanted) as nat, |j: int| '☆'),
        decreases 5 - i,
    {
        proof {
            reveal_strlit("★");
            reveal_strlit("☆");
        }
        let ghost before = s@;
        if i < wanted {
            s.append("★");
            assert(s@ =~= before.push('★'));
        } else {
            s.append("☆");
            assert(s@ =~= before.push('☆'));
        }
        i = i + 1;
    }
    s
}

/// The HUD clock, `HH:MM`.
pub fn clock_text(hour: u32, minute: u32) -> (s: String)
    ensures
        s@ == pad2(hour as nat) + ":"@ + pad2(minute as nat),
{
    let mut s = two_digits(hour as u64);
    s.append(":");
    let m = two_digits(minute as u64);
    s.append(m.as_str());
    s
}

/// Health in whole HP, rounded down.
pub fn hp_text(hp_milli: u32) -> (s: String)
    ensures
        s@ == dec_digits((hp_milli / 1000) as nat),
{
    decimal((hp_milli / 1000) as u64)
}

/// Cash with a dollar sign.
pub fn cash_text(cash: i32) -> (s: String)
    ensures
        s@ == "$"@ + signed_dec(cash as int),
{
    let mut s = String::from_str("$");
    let d = signed_decimal(cash as i64);
    s.append(d.as_str());
    s
}

/// Driving or on foot.
pub fn mode_text(in_vehicle: bool) -> (s: String)
    ensures
        s@ == if in_vehicle { "ЗА РУЛЁМ"@ } else { "ПЕШКОМ"@ },
{
    if in_vehicle { String::from_str("ЗА РУЛЁМ") } else { String::from_str("ПЕШКОМ") }
}

/// The speedometer reading, km/h.
pub fn speed_text(kmh: u32) -> (s: String)
    ensures
        s@ == dec_digits(kmh as nat),
{
    decimal(kmh as u64)
}

/// The ammo counter: a reload notice, or the rounds left of an endless
/// supply.
pub fn ammo_text(weapon: &WeaponState) -> (s: String)
    ensures
        weapon.reloading ==> s@ == "ПЕРЕЗАРЯДКА…"@,
        !weapon.reloading ==> s@ == dec_digits(weapon.ammo as nat) + " / ∞"@,
{
    if weapon.reloading {
        String::from_str("ПЕРЕЗАРЯДКА…")
    } else {
        let mut s = decimal(weapon.ammo as u64);
        s.append(" / ∞");
        s
    }
}

/// Which HUD panels are drawn.
pub struct HudLayout {
    /// The title screen with the play button (nothing else is drawn).
    pub start_overlay: bool,
    /// Health, cash, mode, clock.
    pub info: bool,
    pub wanted_stars: bool,
    pub minimap: bool,
    pub speedometer: bool,
    pub ammo: bool,
    pub crosshair: bool,
    pub toast: bool,
    /// The pause and settings menu.
    pub pause_menu: bool,
}

/// Decides which HUD panels are drawn: the title screen alone before the
/// game starts; afterwards the info panel and minimap, the stars while
/// wanted, the speedometer while driving, the ammo counter with the pistol
/// out on foot (and the crosshair while the cursor is captured), the
/// notification while there is one, and the pause menu while the cursor is
/// free.
pub fn hud_layout(game: &GameState, weapon: &WeaponState, cursor_locked: bool) -> (l: HudLayout)
    ensures
        l.start_overlay == !game.started,
        l.info == game.started,
        l.minimap == game.started,
        l.wanted_stars == (game.started && game.wanted > 0),
        l.speedometer == (game.started && game.in_vehicle is Some),
        l.ammo == (game.started && game.in_vehicle is None && weapon.pistol_equipped),
        l.crosshair == (game.started && game.in_vehicle is None && weapon.pistol_equipped && cursor_locked),
        l.toast == (game.started && game.toast is Some),
        l.pause_menu == (game.started && !cursor_locked),
{
    let s = game.started;
    let on_foot = game.in_vehicle.is_none();
    HudLayout {
        start_overlay: !s,
        info: s,
        wanted_stars: s && game.wanted > 0,
        minimap: s,
        speedometer: s && !on_foot,
        ammo: s && on_foot && weapon.pistol_equipped,
        crosshair: s && on_foot && weapon.pistol_equipped && cursor_locked,
        toast: s && game.toast.is_some(),
        pause_menu: s && !cursor_locked,
    }
}

impl GameState {
    /// The play button: the game starts.
    pub fn start(&mut self)
        ensures
            old(self).wf() ==> final(self).wf(),
            final(self).started,
            final(self).hp_milli == old(self).hp_milli,
            final(self).cash == old(self).cash,
            final(self).wanted == old(self).wanted,
            final(self).wanted_decay_ms == old(self).wanted_decay_ms,
            final(self).in_vehicle == old(self).in_vehicle,
            final(self).toast == old(self).toast,
            final(self).last_speed_kmh == old(self).last_speed_kmh,
    {
        self.started = true;
    }
}

} // verus!
