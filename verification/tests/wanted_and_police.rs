use mini_gta::police::{
    busted_fine, plan_police_spawn, police_dispatch, police_spawn_point, police_target, FlashTimer,
    PoliceAction, PoliceSpawnPlan,
};
use mini_gta::rng::new_rng;
use mini_gta::rules::{PoliceRules, Rules, MAX_HP_MILLI, TOAST_MS};
use mini_gta::state::GameState;
use mini_gta::weapons::{WeaponInput, WeaponState};

fn toast_text(g: &GameState) -> Option<String> {
    g.toast.as_ref().map(|(m, _)| m.clone())
}

#[test]
fn default_state_matches_new_game() {
    let g = GameState::default();
    assert_eq!(g.hp_milli, 100_000);
    assert_eq!(g.cash, 0);
    assert_eq!(g.wanted, 0);
    assert!(g.in_vehicle.is_none());
    assert!(g.toast.is_none());
    assert!(!g.started);
}

#[test]
fn default_rules_match_config() {
    let r = Rules::default();
    assert_eq!(r.player.cash_per_punch, 5);
    assert_eq!(r.police.cars_per_star, 1);
    assert_eq!(r.police.max_cars, 4);
    assert_eq!(r.police.wanted_decay_ms, 18_000);
    assert_eq!(r.police.busted_fine_percent, 50);
    assert_eq!(r.weapons.magazine, 12);
    assert_eq!(r.weapons.reload_ms, 1100);
    assert_eq!(r.weapons.pistol_damage_milli, 25_000);
    assert_eq!(r.weapons.ped_hp_milli, 50_000);
    assert_eq!(r.weapons.police_car_hp_milli, 75_000);
    assert_eq!(r.weapons.cash_per_kill, 20);
}

#[test]
fn add_wanted_caps_at_five_and_resets_timer() {
    let mut g = GameState::default();
    g.wanted_decay_ms = 500;
    g.add_wanted(1);
    assert_eq!(g.wanted, 1);
    assert_eq!(g.wanted_decay_ms, 0);
    g.add_wanted(10);
    assert_eq!(g.wanted, 5);
}

#[test]
fn show_toast_lasts_one_point_eight_seconds() {
    let mut g = GameState::default();
    g.show_toast("hello".to_string());
    assert_eq!(g.toast, Some(("hello".to_string(), TOAST_MS)));
    let r = PoliceRules::default();
    g.update_wanted_decay(1000, false, &r);
    assert_eq!(g.toast, Some(("hello".to_string(), 800)));
    g.update_wanted_decay(799, false, &r);
    assert!(g.toast.is_some());
    g.update_wanted_decay(1, false, &r);
    assert!(g.toast.is_none());
}

#[test]
fn wanted_decays_after_eighteen_seconds_of_good_behaviour() {
    let r = PoliceRules::default();
    let mut g = GameState::default();
    g.add_wanted(2);
    g.update_wanted_decay(18_000, false, &r);
    assert_eq!(g.wanted, 2);
    assert_eq!(g.wanted_decay_ms, 18_000);
    g.update_wanted_decay(1, false, &r);
    assert_eq!(g.wanted, 1);
    assert_eq!(g.wanted_decay_ms, 0);
    for _ in 0..19 {
        g.update_wanted_decay(1000, false, &r);
    }
    assert_eq!(g.wanted, 0);
}

#[test]
fn stars_do_not_decay_while_a_cop_is_near() {
    let r = PoliceRules::default();
    let mut g = GameState::default();
    g.add_wanted(3);
    for _ in 0..100 {
        g.update_wanted_decay(1000, true, &r);
    }
    assert_eq!(g.wanted, 3);
    assert_eq!(g.wanted_decay_ms, 0);
}

#[test]
fn decay_timer_does_not_run_without_stars() {
    let r = PoliceRules::default();
    let mut g = GameState::default();
    g.update_wanted_decay(5000, false, &r);
    assert_eq!(g.wanted_decay_ms, 0);
}

#[test]
fn police_target_follows_stars_with_cap() {
    let r = PoliceRules::default();
    assert_eq!(police_target(0, &r), 0);
    assert_eq!(police_target(1, &r), 1);
    assert_eq!(police_target(4, &r), 4);
    assert_eq!(police_target(5, &r), 4);
    let r2 = PoliceRules { cars_per_star: 2, max_cars: 8, ..PoliceRules::default() };
    assert_eq!(police_target(3, &r2), 6);
}

#[test]
fn police_dispatch_spawns_and_despawns_to_target() {
    let r = PoliceRules::default();
    assert!(matches!(police_dispatch(0, 3, &r), PoliceAction::Spawn(3)));
    assert!(matches!(police_dispatch(4, 1, &r), PoliceAction::Despawn(3)));
    assert!(matches!(police_dispatch(2, 0, &r), PoliceAction::Despawn(2)));
    assert!(matches!(police_dispatch(4, 5, &r), PoliceAction::Keep));
    assert!(matches!(police_dispatch(0, 0, &r), PoliceAction::Keep));
}

#[test]
fn police_spawn_plan_uses_a_road_line() {
    let mut rng = new_rng();
    for _ in 0..200 {
        let p = plan_police_spawn(&mut rng);
        assert!(p.lane <= 6);
    }
}

#[test]
fn police_spawn_plan_varies() {
    let mut rng = new_rng();
    let lanes: std::collections::HashSet<usize> = (0..300).map(|_| plan_police_spawn(&mut rng).lane).collect();
    assert!(lanes.len() > 1);
}

#[test]
fn light_bar_swaps_every_period() {
    let mut f = FlashTimer::new();
    assert!(f.red_phase);
    assert!(!f.tick(150, 200));
    assert_eq!(f.timer_ms, 150);
    assert!(f.tick(50, 200));
    assert!(!f.red_phase);
    assert_eq!(f.timer_ms, 0);
    assert!(f.tick(250, 200));
    assert!(f.red_phase);
}

#[test]
fn busted_fine_is_half_the_cash_rounded_toward_zero() {
    assert_eq!(busted_fine(101, 50), 50);
    assert_eq!(busted_fine(100, 50), 50);
    assert_eq!(busted_fine(0, 50), 0);
    assert_eq!(busted_fine(-101, 50), -50);
    assert_eq!(busted_fine(999, 100), 999);
    assert_eq!(busted_fine(i32::MAX, 50), 1_073_741_823);
}

#[test]
fn contact_drains_health_without_bust() {
    let r = PoliceRules::default();
    let mut g = GameState::default();
    g.add_wanted(2);
    let out = g.apply_police_contact(1, 1000, &r);
    assert_eq!(out, None);
    assert_eq!(g.hp_milli, 70_000);
    let out = g.apply_police_contact(2, 500, &r);
    assert_eq!(out, None);
    assert_eq!(g.hp_milli, 40_000);
    assert_eq!(g.wanted, 2);
}

#[test]
fn no_contact_no_damage() {
    let r = PoliceRules::default();
    let mut g = GameState::default();
    assert_eq!(g.apply_police_contact(0, 10_000, &r), None);
    assert_eq!(g.hp_milli, MAX_HP_MILLI);
}

#[test]
fn cornered_player_is_busted_fined_and_reset() {
    let r = PoliceRules::default();
    let mut g = GameState::default();
    g.cash = 81;
    g.add_wanted(3);
    g.in_vehicle = Some(42);
    let out = g.apply_police_contact(1, 4000, &r);
    assert_eq!(out, Some(40));
    assert_eq!(g.cash, 41);
    assert_eq!(g.hp_milli, 100_000);
    assert_eq!(g.wanted, 0);
    assert_eq!(g.wanted_decay_ms, 0);
    assert!(g.in_vehicle.is_none());
    assert_eq!(toast_text(&g), Some("🚔 ЗАДЕРЖАН! Штраф $40".to_string()));
}

#[test]
fn paused_frame_changes_nothing() {
    let rules = Rules::default();
    let mut g = GameState::default();
    g.start();
    g.add_wanted(2);
    g.update_wanted_decay(5000, false, &rules.police);
    g.show_toast("x".to_string());
    let before = (g.wanted, g.wanted_decay_ms, g.toast.clone(), g.hp_milli);
    g.update_wanted_decay(0, false, &rules.police);
    assert_eq!(g.apply_police_contact(3, 0, &rules.police), None);
    assert_eq!((g.wanted, g.wanted_decay_ms, g.toast.clone(), g.hp_milli), before);
    let mut w = WeaponState { pistol_equipped: true, reloading: true, ammo: 0, reload_timer_ms: 500, fire_cooldown_ms: 100, aiming: false };
    let keys = WeaponInput { fists_pressed: false, pistol_pressed: false, aim_held: false };
    w.weapon_input(&mut g, &keys, false, 0, &rules.weapons);
    assert_eq!((w.reload_timer_ms, w.fire_cooldown_ms, w.ammo, w.reloading), (500, 100, 0, true));
    let mut f = FlashTimer::new();
    assert!(!f.tick(0, 200));
    assert_eq!(f.timer_ms, 0);
}

#[test]
fn city_population_constants() {
    assert_eq!(mini_gta::traffic::CAR_COUNT, 14);
    assert_eq!(mini_gta::traffic::PED_COUNT, 22);
    assert_eq!(mini_gta::city::GRID, 6);
}

#[test]
fn cop_spawns_spawn_distance_away_on_a_lane() {
    let plan = PoliceSpawnPlan { lane: 0, lane_side_positive: true, ahead: true, along_x: true };
    assert_eq!(police_spawn_point(0, 0, &plan, 50_000), (50_000, -136_000));
    let plan = PoliceSpawnPlan { lane: 3, lane_side_positive: false, ahead: false, along_x: false };
    assert_eq!(police_spawn_point(7_000, 10_000, &plan, 50_000), (-2_000, -40_000));
}

#[test]
fn cop_spawn_is_clamped_to_the_city_edge() {
    let plan = PoliceSpawnPlan { lane: 6, lane_side_positive: false, ahead: true, along_x: true };
    assert_eq!(police_spawn_point(120_000, 0, &plan, 50_000), (138_000, 136_000));
    let plan = PoliceSpawnPlan { lane: 6, lane_side_positive: true, ahead: false, along_x: false };
    assert_eq!(police_spawn_point(0, -100_000, &plan, 50_000), (140_000, -138_000));
}

#[test]
fn every_star_falls_after_decay_period_frames() {
    let rules = Rules::default();
    let mut g = GameState::default();
    g.start();
    g.add_wanted(2);
    let per_star = rules.police.wanted_decay_ms / 1000 + 1;
    for _ in 0..(2 * per_star - 1) {
        g.update_wanted_decay(1000, false, &rules.police);
    }
    assert_eq!(g.wanted, 1);
    g.update_wanted_decay(1000, false, &rules.police);
    assert_eq!(g.wanted, 0);
}

#[test]
fn zero_length_flash_tick_changes_nothing() {
    let mut f = FlashTimer::new();
    assert!(!f.tick(130, 200));
    let before = (f.timer_ms, f.red_phase);
    assert!(!f.tick(0, 200));
    assert_eq!((f.timer_ms, f.red_phase), before);
}
