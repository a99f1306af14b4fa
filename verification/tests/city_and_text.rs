use mini_gta::city::{
    block_center, block_plan_from_draws, grid_line, lane_center, lot_center, plan_block, road_dash_starts,
    sidewalk_center, street_lamp_positions, CITY_HALF, GRID, STEP,
};
use mini_gta::geometry::{
    any_within, at_least_apart, collides_at, count_within, slide_move, near_intersection, nearest_sidewalk, push_out, wrap_coordinate, Footprint,
};
use mini_gta::hud::{cash_text, clock_text, hp_text, mode_text, speed_text, wanted_stars};
use mini_gta::input::{capture_input, manage_cursor_lock, mouse_look_enabled, EdgeMemory, HeldKeys};
use mini_gta::rng::{coin_flip, new_rng, random_below, random_ratio};
use mini_gta::text::{decimal, signed_decimal, two_digits};
use mini_gta::traffic::{ai_turn, turn_plan, ped_respawn_count, plan_car_spawn, plan_ped_spawn, Axis, Heading};

fn held(f: bool) -> HeldKeys {
    HeldKeys { w: true, a: false, s: false, d: true, shift_left: false, shift_right: true, space: false, f, r: false, e: false }
}

#[test]
fn grid_lines_and_blocks() {
    assert_eq!(CITY_HALF, 138);
    assert_eq!(STEP, 46);
    assert_eq!(grid_line(0), -138);
    assert_eq!(grid_line(3), 0);
    assert_eq!(grid_line(GRID), 138);
    assert_eq!(block_center(0), -115);
    assert_eq!(block_center(5), 115);
    assert_eq!(lane_center(3, true), 2);
    assert_eq!(lane_center(0, false), -140);
    assert_eq!(sidewalk_center(3, false), -6);
}

#[test]
fn street_lamps_on_every_block_corner() {
    let v = street_lamp_positions();
    assert_eq!(v.len(), 144);
    assert_eq!(v[0], (-134, -134));
    assert_eq!(v[1], (-96, -134));
    assert_eq!(v[2], (-134, -96));
    assert_eq!(v[3], (-96, -96));
    assert_eq!(v[4], (-134, -88));
    assert_eq!(v[143], (134, 134));
}

#[test]
fn road_dashes_cover_the_road() {
    let v = road_dash_starts();
    assert_eq!(v.len(), 46);
    assert_eq!(v[0], -138);
    assert_eq!(v[45], 132);
}

#[test]
fn block_plan_has_one_to_three_lots_per_side() {
    let mut rng = new_rng();
    let mut sizes = std::collections::HashSet::new();
    for _ in 0..300 {
        let p = plan_block(&mut rng, 8);
        assert!((1..=3).contains(&p.subdivs));
        assert!(p.lots.len() <= p.subdivs * p.subdivs);
        for l in &p.lots {
            assert!(l.bx < p.subdivs && l.bz < p.subdivs && l.color_idx < 8);
        }
        sizes.insert(p.subdivs);
    }
    assert!(sizes.len() > 1);
}

#[test]
fn lot_centres_split_the_block() {
    assert_eq!(lot_center(-115, 1, 0), -115);
    assert_eq!(lot_center(0, 2, 0), -9);
    assert_eq!(lot_center(0, 2, 1), 9);
    assert_eq!(lot_center(0, 3, 0), -12);
    assert_eq!(lot_center(0, 3, 2), 12);
}

#[test]
fn building_footprint_collision() {
    let b = vec![Footprint { cx: 10_000, cz: 0, half_w: 3000, half_d: 2000 }];
    assert!(collides_at(7_500, 0, 1500, &b));
    assert!(!collides_at(5_500, 0, 1500, &b));
    assert!(!collides_at(10_000, 3500, 1500, &b));
    assert!(collides_at(10_000, 3499, 1500, &b));
    assert!(!collides_at(0, 0, 0, &vec![]));
}

#[test]
fn push_out_along_least_penetration() {
    let b = vec![Footprint { cx: 0, cz: 0, half_w: 5000, half_d: 5000 }];
    assert_eq!(push_out(4000, 1000, 600, &b), (5600, 1000));
    assert_eq!(push_out(-1000, -4500, 600, &b), (-1000, -5600));
    assert_eq!(push_out(0, 0, 600, &b), (0, 5600));
    assert_eq!(push_out(9000, 0, 600, &b), (9000, 0));
}

#[test]
fn nearest_sidewalk_line() {
    let t = nearest_sidewalk(1000, 30_000);
    assert!(t.across_x && t.line == 3 && t.positive_side);
    let t = nearest_sidewalk(20_000, -45_000);
    assert!(!t.across_x && t.line == 2 && t.positive_side);
    let t = nearest_sidewalk(-138_000, -138_000);
    assert!(t.across_x && t.line == 0 && !t.positive_side);
}

#[test]
fn intersections_within_one_and_a_half_metres() {
    assert_eq!(near_intersection(46_000 + 1499), Some(4));
    assert_eq!(near_intersection(46_000 - 1500), None);
    assert_eq!(near_intersection(-138_000), Some(0));
}

#[test]
fn cars_wrap_at_the_edges() {
    assert_eq!(wrap_coordinate(143_001), -143_000);
    assert_eq!(wrap_coordinate(-143_001), 143_000);
    assert_eq!(wrap_coordinate(143_000), 143_000);
    assert_eq!(wrap_coordinate(12), 12);
}

#[test]
fn car_and_ped_spawn_plans() {
    let mut rng = new_rng();
    let mut axes = std::collections::HashSet::new();
    for _ in 0..200 {
        let c = plan_car_spawn(&mut rng, 8);
        assert!(c.color_idx < 8 && c.lane <= 6);
        axes.insert(c.axis == Axis::X);
        let p = plan_ped_spawn(&mut rng);
        assert!(p.lane <= 6);
        if p.along_x {
            assert!(p.heading == Heading::PosZ || p.heading == Heading::NegZ);
        } else {
            assert!(p.heading == Heading::PosX || p.heading == Heading::NegX);
        }
    }
    assert_eq!(axes.len(), 2);
}

#[test]
fn ai_turns_only_at_intersections() {
    let mut rng = new_rng();
    let mut turned = 0;
    for _ in 0..20_000 {
        if let Some(t) = ai_turn(&mut rng, Axis::X, 500, 20_000) {
            assert!(t.new_axis == Axis::Z && t.line == 3);
            turned += 1;
        }
        assert!(ai_turn(&mut rng, Axis::X, 20_000, 0).is_none());
    }
    assert!(turned > 0);
}

#[test]
fn pedestrian_population_is_refilled() {
    assert_eq!(ped_respawn_count(19, 22), 3);
    assert_eq!(ped_respawn_count(22, 22), 0);
    assert_eq!(ped_respawn_count(25, 22), 0);
}

#[test]
fn random_draws_respect_bounds() {
    let mut rng = new_rng();
    let mut seen = [false; 5];
    for _ in 0..1000 {
        let r = random_below(&mut rng, 5);
        assert!(r < 5);
        seen[r] = true;
        assert!(!random_ratio(&mut rng, 0, 7));
        assert!(random_ratio(&mut rng, 7, 7));
    }
    assert!(seen.iter().all(|s| *s));
    let heads = (0..1000).filter(|_| coin_flip(&mut rng)).count();
    assert!(heads > 300 && heads < 700);
}

#[test]
fn decimal_formatting() {
    assert_eq!(decimal(0), "0");
    assert_eq!(decimal(1234), "1234");
    assert_eq!(decimal(u64::MAX), u64::MAX.to_string());
    assert_eq!(signed_decimal(-40), "-40");
    assert_eq!(signed_decimal(i64::MIN), i64::MIN.to_string());
    assert_eq!(two_digits(7), "07");
    assert_eq!(two_digits(123), "123");
}

#[test]
fn hud_texts() {
    assert_eq!(wanted_stars(0), "☆☆☆☆☆");
    assert_eq!(wanted_stars(2), "★★☆☆☆");
    assert_eq!(wanted_stars(5), "★★★★★");
    assert_eq!(clock_text(9, 30), "09:30");
    assert_eq!(clock_text(23, 5), "23:05");
    assert_eq!(hp_text(99_999), "99");
    assert_eq!(cash_text(-7), "$-7");
    assert_eq!(cash_text(125), "$125");
    assert_eq!(mode_text(true), "ЗА РУЛЁМ");
    assert_eq!(mode_text(false), "ПЕШКОМ");
    assert_eq!(speed_text(101), "101");
}

#[test]
fn action_keys_fire_once_per_press() {
    let mut mem = EdgeMemory { f: false, r: false, e: false };
    let k = capture_input(&held(true), &mut mem);
    assert!(k.f_pressed && k.w && k.d && k.shift && !k.a);
    let k = capture_input(&held(true), &mut mem);
    assert!(!k.f_pressed);
    let k = capture_input(&held(false), &mut mem);
    assert!(!k.f_pressed);
    let k = capture_input(&held(true), &mut mem);
    assert!(k.f_pressed);
}

#[test]
fn cursor_capture_rules() {
    let u = manage_cursor_lock(true, true, false, true);
    assert!(u.release && !u.grab && !u.locked);
    let u = manage_cursor_lock(false, false, true, true);
    assert!(!u.release && u.grab && u.locked);
    let u = manage_cursor_lock(false, false, true, false);
    assert!(!u.grab && !u.locked);
    let u = manage_cursor_lock(true, false, true, true);
    assert!(!u.grab && u.locked);
    assert!(mouse_look_enabled(true, true));
    assert!(!mouse_look_enabled(true, false));
}

#[test]
fn chasing_car_slides_along_walls() {
    let b = vec![Footprint { cx: 10_000, cz: 0, half_w: 2000, half_d: 50_000 }];
    assert_eq!(slide_move(0, 0, 1000, 1000, 1400, &b), (1000, 1000));
    assert_eq!(slide_move(6000, 0, 7000, 1000, 1400, &b), (6000, 1000));
    let corner = vec![
        Footprint { cx: 10_000, cz: 0, half_w: 2000, half_d: 50_000 },
        Footprint { cx: 0, cz: 10_000, half_w: 50_000, half_d: 2000 },
    ];
    assert_eq!(slide_move(6000, 6000, 7000, 7000, 1400, &corner), (6000, 6000));
    let wall_z = vec![Footprint { cx: 0, cz: 10_000, half_w: 50_000, half_d: 2000 }];
    assert_eq!(slide_move(0, 6000, 1000, 7000, 1400, &wall_z), (1000, 6000));
}

#[test]
fn turn_plan_from_draws() {
    let t = turn_plan(Axis::X, Some(3), true, false).unwrap();
    assert!(t.new_axis == Axis::Z && t.line == 3 && !t.dir_positive);
    let t = turn_plan(Axis::Z, Some(0), true, true).unwrap();
    assert!(t.new_axis == Axis::X && t.line == 0 && t.dir_positive);
    assert!(turn_plan(Axis::X, Some(3), false, true).is_none());
    assert!(turn_plan(Axis::X, None, true, true).is_none());
}

#[test]
fn block_plan_builds_the_non_empty_cells_in_order() {
    let p = block_plan_from_draws(2, &vec![false, true, false, false], &vec![1, 0, 2, 3], 8);
    assert_eq!(p.subdivs, 2);
    let cells: Vec<(usize, usize, usize)> = p.lots.iter().map(|l| (l.bx, l.bz, l.color_idx)).collect();
    assert_eq!(cells, vec![(0, 0, 1), (1, 0, 2), (1, 1, 3)]);
    let p = block_plan_from_draws(3, &vec![true; 9], &vec![0; 9], 1);
    assert!(p.lots.is_empty());
    let p = block_plan_from_draws(1, &vec![false], &vec![5], 8);
    assert_eq!(p.lots.len(), 1);
    assert_eq!((p.lots[0].bx, p.lots[0].bz, p.lots[0].color_idx), (0, 0, 5));
}

#[test]
fn pedestrians_spawn_beside_a_block() {
    let mut rng = new_rng();
    for _ in 0..500 {
        let p = plan_ped_spawn(&mut rng);
        if p.lane == 0 {
            assert!(p.side_positive);
        }
        if p.lane == GRID {
            assert!(!p.side_positive);
        }
        let c = sidewalk_center(p.lane, p.side_positive);
        assert!((0..GRID).any(|ib| (c - block_center(ib)).abs() <= 20));
    }
}

#[test]
fn distance_test_for_respawn() {
    assert!(at_least_apart(0, 0, 30_000, 40_000, 50_000));
    assert!(!at_least_apart(0, 0, 30_000, 39_999, 50_000));
    assert!(at_least_apart(5, 5, 5, 5, 0));
}

#[test]
fn pushed_out_position_is_clear_of_all_buildings() {
    let b = vec![
        Footprint { cx: 0, cz: 0, half_w: 4000, half_d: 4000 },
        Footprint { cx: 9200, cz: 0, half_w: 4000, half_d: 4000 },
    ];
    let (x, z) = push_out(4300, 100, 600, &b);
    for f in &b {
        assert!(!((x - f.cx).abs() < f.half_w + 600 && (z - f.cz).abs() < f.half_d + 600));
    }
    assert!(!collides_at(x, z, 600, &b));
}

#[test]
fn cops_in_contact_are_strictly_inside_the_radius() {
    let cops = vec![(0, 0), (3_000, 4_000), (6_000, 8_000), (-1_000, 0)];
    assert_eq!(count_within(&cops, 0, 0, 5_000), 2);
    assert_eq!(count_within(&cops, 0, 0, 5_001), 3);
    assert_eq!(count_within(&cops, 100_000, 0, 5_000), 0);
    assert_eq!(count_within(&vec![], 0, 0, 5_000), 0);
}

#[test]
fn cop_near_within_escape_distance() {
    let cops = vec![(3_000, 4_000), (60_000, 0)];
    assert!(any_within(&cops, 0, 0, 5_000));
    assert!(!any_within(&cops, 0, 0, 4_999));
    assert!(any_within(&cops, 55_000, 0, 5_000));
    assert!(!any_within(&vec![], 0, 0, 5_000));
}
