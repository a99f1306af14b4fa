use mini_gta::hud::{ammo_text, hud_layout};
use mini_gta::player::{nearest_car, punch_allowed, VehicleEvent};
use mini_gta::rules::{PlayerRules, WeaponRules, TOAST_MS};
use mini_gta::state::GameState;
use mini_gta::weapons::{
    apply_damage, pistol_pose, resolve_shot, tick_effect, ShotTarget, WeaponInput, WeaponState,
};

fn running() -> GameState {
    let mut g = GameState::default();
    g.start();
    g
}

fn toast_text(g: &GameState) -> Option<String> {
    g.toast.as_ref().map(|(m, _)| m.clone())
}

fn no_keys() -> WeaponInput {
    WeaponInput { fists_pressed: false, pistol_pressed: false, aim_held: false }
}

#[test]
fn weapon_starts_with_fists_and_full_magazine() {
    let w = WeaponState::default();
    assert!(!w.pistol_equipped);
    assert_eq!(w.ammo, 12);
    assert!(!w.reloading);
}

#[test]
fn number_keys_switch_weapons_with_toast() {
    let r = WeaponRules::default();
    let mut g = running();
    let mut w = WeaponState::default();
    let keys = WeaponInput { fists_pressed: false, pistol_pressed: true, aim_held: false };
    w.weapon_input(&mut g, &keys, true, 16, &r);
    assert!(w.pistol_equipped);
    assert_eq!(toast_text(&g), Some("🔫 Пистолет".to_string()));
    let keys = WeaponInput { fists_pressed: true, pistol_pressed: false, aim_held: false };
    w.weapon_input(&mut g, &keys, true, 16, &r);
    assert!(!w.pistol_equipped);
    assert_eq!(toast_text(&g), Some("👊 Кулаки".to_string()));
}

#[test]
fn switching_ignored_before_start_or_when_paused() {
    let r = WeaponRules::default();
    let mut g = GameState::default();
    let mut w = WeaponState::default();
    let keys = WeaponInput { fists_pressed: false, pistol_pressed: true, aim_held: true };
    w.weapon_input(&mut g, &keys, true, 16, &r);
    assert!(!w.pistol_equipped);
    let mut g = running();
    w.weapon_input(&mut g, &keys, false, 16, &r);
    assert!(!w.pistol_equipped);
    assert!(!w.aiming);
    assert!(g.toast.is_none());
}

#[test]
fn aiming_needs_pistol_on_foot() {
    let r = WeaponRules::default();
    let mut g = running();
    let mut w = WeaponState { pistol_equipped: true, ..WeaponState::default() };
    let keys = WeaponInput { fists_pressed: false, pistol_pressed: false, aim_held: true };
    w.weapon_input(&mut g, &keys, true, 16, &r);
    assert!(w.aiming);
    g.in_vehicle = Some(3);
    w.weapon_input(&mut g, &keys, true, 16, &r);
    assert!(!w.aiming);
}

#[test]
fn firing_uses_a_round_and_starts_cooldown() {
    let r = WeaponRules::default();
    let g = running();
    let mut w = WeaponState { pistol_equipped: true, ..WeaponState::default() };
    assert!(w.fire_pistol(&g, true, true, true, &r));
    assert_eq!(w.ammo, 11);
    assert_eq!(w.fire_cooldown_ms, 220);
    assert!(!w.fire_pistol(&g, true, true, true, &r));
    assert_eq!(w.ammo, 11);
}

#[test]
fn cooldown_runs_down_before_next_shot() {
    let r = WeaponRules::default();
    let mut g = running();
    let mut w = WeaponState { pistol_equipped: true, ..WeaponState::default() };
    assert!(w.fire_pistol(&g, true, true, true, &r));
    w.weapon_input(&mut g, &no_keys(), true, 200, &r);
    assert_eq!(w.fire_cooldown_ms, 20);
    assert!(!w.fire_pistol(&g, true, true, true, &r));
    w.weapon_input(&mut g, &no_keys(), true, 20, &r);
    assert!(w.fire_pistol(&g, true, true, true, &r));
}

#[test]
fn last_round_starts_auto_reload_that_refills() {
    let r = WeaponRules::default();
    let mut g = running();
    let mut w = WeaponState { pistol_equipped: true, ammo: 1, ..WeaponState::default() };
    assert!(w.fire_pistol(&g, true, true, true, &r));
    assert_eq!(w.ammo, 0);
    assert!(w.reloading);
    assert_eq!(w.reload_timer_ms, 1100);
    w.weapon_input(&mut g, &no_keys(), true, 1000, &r);
    assert!(w.reloading);
    assert!(!w.fire_pistol(&g, true, true, true, &r));
    w.weapon_input(&mut g, &no_keys(), true, 100, &r);
    assert!(!w.reloading);
    assert_eq!(w.ammo, 12);
}

#[test]
fn empty_magazine_starts_reload_instead_of_shot() {
    let r = WeaponRules::default();
    let g = running();
    let mut w = WeaponState { pistol_equipped: true, ammo: 0, ..WeaponState::default() };
    assert!(!w.fire_pistol(&g, true, true, true, &r));
    assert!(w.reloading);
    assert_eq!(w.reload_timer_ms, 1100);
}

#[test]
fn no_shot_without_pistol_or_in_car_or_trigger() {
    let r = WeaponRules::default();
    let mut g = running();
    let mut w = WeaponState::default();
    assert!(!w.fire_pistol(&g, true, true, true, &r));
    w.pistol_equipped = true;
    assert!(!w.fire_pistol(&g, false, true, true, &r));
    assert!(!w.fire_pistol(&g, true, false, true, &r));
    assert!(!w.fire_pistol(&g, true, true, false, &r));
    assert_eq!(w.ammo, 12);
    g.in_vehicle = Some(1);
    assert!(!w.fire_pistol(&g, true, true, true, &r));
}

#[test]
fn two_bullets_down_a_pedestrian_three_a_cop_car() {
    let r = WeaponRules::default();
    let (hp, down) = apply_damage(r.ped_hp_milli, r.pistol_damage_milli);
    assert_eq!((hp, down), (25_000, false));
    assert_eq!(apply_damage(hp, r.pistol_damage_milli), (0, true));
    let (hp, _) = apply_damage(r.police_car_hp_milli, r.pistol_damage_milli);
    let (hp, down) = apply_damage(hp, r.pistol_damage_milli);
    assert!(!down);
    assert_eq!(apply_damage(hp, r.pistol_damage_milli), (0, true));
}

#[test]
fn kill_pays_and_raises_wanted() {
    let r = WeaponRules::default();
    let mut g = running();
    g.reward_kill(&r);
    assert_eq!(g.cash, 20);
    assert_eq!(g.wanted, 1);
    assert_eq!(toast_text(&g), Some("💀 +$20".to_string()));
}

#[test]
fn destroyed_cop_car_raises_wanted() {
    let mut g = running();
    g.add_wanted(5);
    g.cop_destroyed();
    assert_eq!(g.wanted, 5);
    assert_eq!(toast_text(&g), Some("💥 Патруль уничтожен!".to_string()));
    assert_eq!(g.toast.as_ref().map(|t| t.1), Some(TOAST_MS));
}

#[test]
fn effects_expire_and_freeze_when_paused() {
    assert_eq!(tick_effect(70, 16), Some(54));
    assert_eq!(tick_effect(16, 16), None);
    assert_eq!(tick_effect(0, 0), Some(0));
    assert_eq!(tick_effect(70, 0), Some(70));
}

#[test]
fn shot_hits_nearest_then_first_of_equals() {
    let c = vec![(ShotTarget::Ped(1), 9000), (ShotTarget::Cop(7), 4000), (ShotTarget::Ped(2), 4000)];
    match resolve_shot(&c, None, 60_000) {
        Some((ShotTarget::Cop(7), 4000)) => {}
        _ => panic!("wrong target"),
    }
}

#[test]
fn wall_stops_bullet_before_target() {
    let c = vec![(ShotTarget::Ped(1), 9000)];
    assert!(matches!(resolve_shot(&c, Some(3400), 60_000), Some((ShotTarget::Wall, 3400))));
    assert!(matches!(resolve_shot(&c, Some(9000), 60_000), Some((ShotTarget::Ped(1), 9000))));
    let none: Vec<(ShotTarget, u32)> = Vec::new();
    assert!(matches!(resolve_shot(&none, Some(1000), 60_000), Some((ShotTarget::Wall, 1000))));
    assert!(resolve_shot(&none, Some(60_000), 60_000).is_none());
    assert!(resolve_shot(&none, None, 60_000).is_none());
}

#[test]
fn pistol_pose_follows_state() {
    let g = running();
    let w = WeaponState { pistol_equipped: true, aiming: true, ..WeaponState::default() };
    let p = pistol_pose(&w, &g, true);
    assert!(p.show && p.aim && !p.ready);
    let p = pistol_pose(&w, &g, false);
    assert!(p.show && !p.aim && p.ready);
    let p = pistol_pose(&WeaponState::default(), &g, true);
    assert!(!p.show && !p.aim && !p.ready);
}

#[test]
fn nearest_car_within_four_metres_first_of_equals() {
    assert_eq!(nearest_car(&vec![5000, 3000, 2000, 2000]), Some(2));
    assert_eq!(nearest_car(&vec![4000, 7000]), None);
    assert_eq!(nearest_car(&vec![]), None);
    assert_eq!(nearest_car(&vec![3999]), Some(0));
}

#[test]
fn stealing_a_car_raises_wanted() {
    let mut g = running();
    let e = g.toggle_vehicle(&vec![(10, 6000), (11, 2500), (12, 3000)]);
    assert!(matches!(e, VehicleEvent::Entered(11)));
    assert_eq!(g.in_vehicle, Some(11));
    assert_eq!(g.wanted, 1);
    assert_eq!(toast_text(&g), Some("Машина угнана!".to_string()));
}

#[test]
fn leaving_a_car() {
    let mut g = running();
    g.in_vehicle = Some(11);
    g.add_wanted(1);
    let e = g.toggle_vehicle(&vec![(10, 100)]);
    assert!(matches!(e, VehicleEvent::Exited(11)));
    assert!(g.in_vehicle.is_none());
    assert_eq!(g.wanted, 1);
    assert_eq!(toast_text(&g), Some("Вы вышли из машины".to_string()));
}

#[test]
fn no_car_nearby() {
    let mut g = running();
    let e = g.toggle_vehicle(&vec![(10, 4000)]);
    assert!(matches!(e, VehicleEvent::NoCarNearby));
    assert_eq!(g.wanted, 0);
    assert_eq!(toast_text(&g), Some("Рядом нет машин".to_string()));
}

#[test]
fn reset_leaves_the_car() {
    let mut g = running();
    g.in_vehicle = Some(5);
    assert_eq!(g.reset_position(), Some(5));
    assert!(g.in_vehicle.is_none());
    assert_eq!(toast_text(&g), Some("Позиция сброшена".to_string()));
    assert_eq!(g.reset_position(), None);
}

#[test]
fn punch_pays_five_per_hit() {
    let r = PlayerRules::default();
    let mut g = running();
    g.reward_punch(2, &r);
    assert_eq!(g.cash, 10);
    assert_eq!(toast_text(&g), Some("+$10".to_string()));
    g.reward_punch(0, &r);
    assert_eq!(g.cash, 10);
}

#[test]
fn punch_only_on_foot_with_fists() {
    let mut g = running();
    let w = WeaponState::default();
    assert!(punch_allowed(&g, &w, true));
    assert!(!punch_allowed(&g, &w, false));
    let armed = WeaponState { pistol_equipped: true, ..WeaponState::default() };
    assert!(!punch_allowed(&g, &armed, true));
    g.in_vehicle = Some(1);
    assert!(!punch_allowed(&g, &w, true));
}

#[test]
fn ammo_counter_text() {
    let w = WeaponState { ammo: 7, ..WeaponState::default() };
    assert_eq!(ammo_text(&w), "7 / ∞");
    let w = WeaponState { reloading: true, ammo: 0, ..WeaponState::default() };
    assert_eq!(ammo_text(&w), "ПЕРЕЗАРЯДКА…");
}

#[test]
fn hud_layout_title_screen_then_panels() {
    let g = GameState::default();
    let w = WeaponState::default();
    let l = hud_layout(&g, &w, false);
    assert!(l.start_overlay && !l.info && !l.pause_menu);
    let mut g = running();
    g.add_wanted(2);
    g.in_vehicle = Some(4);
    let l = hud_layout(&g, &w, true);
    assert!(!l.start_overlay && l.info && l.wanted_stars && l.speedometer && !l.ammo && !l.pause_menu);
    g.in_vehicle = None;
    let armed = WeaponState { pistol_equipped: true, ..WeaponState::default() };
    let l = hud_layout(&g, &armed, false);
    assert!(l.ammo && !l.crosshair && l.pause_menu && !l.speedometer);
}
