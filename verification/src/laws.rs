//! Laws that span several parts of the game.
use vstd::prelude::*;
use crate::police::{FlashTimer, drained_hp};
use crate::rules::Rules;
use crate::state::{GameState, decay_after, toast_after};
use crate::weapons::WeaponState;

verus! {

/// Law: the pause is a true pause. A frame in which no time passes leaves
/// the notification, the wanted level and its decay timer, the weapon's
/// cooldown, reload and ammo, the light bars and the player's health
/// unchanged (cops cannot bust a paused player), and with the cursor freed
/// for the menu the pistol cannot fire.
pub proof fn pause_freezes_game(game: GameState, weapon: WeaponState, flash: FlashTimer, rules: Rules,
    cop_near: bool, contacts: u32, trigger_held: bool)
    requires
        game.wf(),
        game.wanted_decay_ms <= rules.police.wanted_decay_ms,
        weapon.reloading ==> weapon.reload_timer_ms > 0,
        flash.timer_ms < rules.police.flash_period_ms,
    ensures
        toast_after(game.toast, 0) == game.toast,
        decay_after(game.wanted, game.wanted_decay_ms, 0, cop_near, rules.police.wanted_decay_ms)
            == (game.wanted, game.wanted_decay_ms),
        weapon.timers_after(0, rules.weapons.magazine) == weapon,
        flash.ticked(0, rules.police.flash_period_ms) == (flash, false),
        drained_hp(game.hp_milli, contacts, rules.police.contact_damage_per_sec, 0) == game.hp_milli,
        !weapon.can_fire(&game, trigger_held, false),
{
    assert(contacts * rules.police.contact_damage_per_sec * 0 == 0) by (nonlinear_arith);
}

} // verus!
