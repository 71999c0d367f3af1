use zone_actor::character::{Character, ItemRecord};
use zone_actor::clock::{day_before, DAY_SECONDS};
use zone_actor::commands::{Command, Outcome};
use zone_actor::coords::{direction_from_mode, direction_from_roll, perturb, Coords, Direction};
use zone_actor::entity::{
    record_of, CreatureRecord, Npc, Sighting, SpawnTemplate, ZoneTemplate, FIXED_FACING,
};
use zone_actor::player::{Player, WarpEffect, WarpSession};
use zone_actor::population::populate;
use zone_actor::respawn::{is_due, keeps_searching, PLACEMENT_BOUND};
use zone_actor::zone::Zone;

fn at(x: i32, y: i32) -> Coords {
    Coords { x, y }
}

fn spawn(id: i32, x: i32, y: i32, amount: i32, spawn_time: i32, spawn_type: i32) -> SpawnTemplate {
    SpawnTemplate { id, coords: at(x, y), amount, spawn_time, spawn_type }
}

fn zone_of(npcs: Vec<SpawnTemplate>, walls: Vec<Coords>, instant_spawn: bool) -> Zone {
    let template = ZoneTemplate { width: 20, height: 20, hash: 1, size: 2, npcs, walls };
    Zone::new(template, vec![CreatureRecord { hp: 10 }, CreatureRecord { hp: 25 }], instant_spawn)
}

fn walls_around(x: i32, y: i32) -> Vec<Coords> {
    let mut walls = Vec::new();
    for dx in -2..=2 {
        for dy in -2..=2 {
            walls.push(at(x + dx, y + dy));
        }
    }
    walls
}

fn in_window(c: Coords, origin: Coords) -> bool {
    (c.x - origin.x).abs() <= 2 && (c.y - origin.y).abs() <= 2
}

fn count_referencing(npcs: &[Npc], t: usize) -> usize {
    npcs.iter().filter(|n| n.spawn_index == t).count()
}

#[test]
fn perturb_moves_and_clamps() {
    assert_eq!(perturb(at(10, 10), 2, -2, 100, 100), at(12, 8));
    assert_eq!(perturb(at(10, 10), 0, 0, 100, 100), at(10, 10));
    assert_eq!(perturb(at(1, 0), -2, -1, 100, 100), at(0, 0));
    assert_eq!(perturb(at(99, 100), 2, 1, 100, 100), at(100, 100));
    assert_eq!(perturb(at(5, 5), 1, 1, -3, 4), at(0, 4));
    assert_eq!(perturb(at(i32::MAX, i32::MIN), 2, -2, i32::MAX, 7), at(i32::MAX, 0));
}

#[test]
fn direction_follows_the_value_modulo_four() {
    assert_eq!(direction_from_roll(0), Direction::Down);
    assert_eq!(direction_from_roll(1), Direction::Left);
    assert_eq!(direction_from_roll(2), Direction::Up);
    assert_eq!(direction_from_roll(3), Direction::Right);
    assert_eq!(direction_from_roll(4), Direction::Down);
    assert_eq!(direction_from_roll(255), Direction::Right);
    assert_eq!(direction_from_mode(FIXED_FACING), Direction::Right);
    assert_eq!(direction_from_mode(6), Direction::Up);
    assert_eq!(direction_from_mode(-1), Direction::Right);
}

#[test]
fn day_before_is_a_day_earlier_and_saturates() {
    assert_eq!(DAY_SECONDS, 86_400);
    assert_eq!(day_before(100_000), 13_600);
    assert_eq!(day_before(0), -86_400);
    assert_eq!(day_before(i64::MIN + 86_400), i64::MIN);
    assert_eq!(day_before(i64::MIN + 10), i64::MIN);
    assert_eq!(day_before(i64::MAX), i64::MAX - 86_400);
}

#[test]
fn due_when_dead_and_the_delay_has_passed() {
    let mut npc = Npc {
        id: 1,
        coords: at(0, 0),
        direction: Direction::Down,
        spawn_index: 0,
        alive: false,
        dead_since: 1000,
        hp: 0,
        max_hp: 10,
    };
    let t = spawn(1, 0, 0, 1, 5, 0);
    assert!(!is_due(&npc, &t, 1004));
    assert!(is_due(&npc, &t, 1005));
    assert!(is_due(&npc, &t, 2000));
    assert!(!is_due(&npc, &t, 0));
    npc.alive = true;
    assert!(!is_due(&npc, &t, 2000));
    npc.alive = false;
    npc.dead_since = i64::MIN;
    assert!(is_due(&npc, &t, i64::MAX));
    npc.dead_since = i64::MAX;
    assert!(!is_due(&npc, &t, i64::MIN));
}

#[test]
fn search_goes_on_unless_the_tile_is_walkable_and_free() {
    assert_eq!(PLACEMENT_BOUND, 200);
    assert!(!keeps_searching(true, false));
    assert!(keeps_searching(true, true));
    assert!(keeps_searching(false, false));
    assert!(keeps_searching(false, true));
}

#[test]
fn record_lookup_counts_from_one() {
    let db = vec![CreatureRecord { hp: 10 }, CreatureRecord { hp: 25 }];
    assert_eq!(record_of(&db, 1), Some(CreatureRecord { hp: 10 }));
    assert_eq!(record_of(&db, 2), Some(CreatureRecord { hp: 25 }));
    assert_eq!(record_of(&db, 0), None);
    assert_eq!(record_of(&db, 3), None);
    assert_eq!(record_of(&db, -1), None);
}

#[test]
fn population_follows_the_templates_and_skips_unknown_types() {
    let db = vec![CreatureRecord { hp: 10 }, CreatureRecord { hp: 25 }];
    let ts = vec![
        spawn(2, 1, 1, 2, 5, 0),
        spawn(9, 2, 2, 3, 5, 0),
        spawn(1, 3, 3, 0, 5, 0),
        spawn(1, 4, 4, -4, 5, 0),
        spawn(1, 5, 5, 1, 5, 7),
    ];
    let npcs = populate(&ts, &db, 777);
    let fresh = |id: i32, spawn_index: usize, hp: i32| Npc {
        id,
        coords: at(0, 0),
        direction: Direction::Down,
        spawn_index,
        alive: false,
        dead_since: 777,
        hp,
        max_hp: hp,
    };
    assert_eq!(npcs, vec![fresh(2, 0, 25), fresh(2, 0, 25), fresh(1, 4, 10)]);
    assert_eq!(count_referencing(&npcs, 0), 2);
    assert_eq!(count_referencing(&npcs, 1), 0);
    assert_eq!(count_referencing(&npcs, 4), 1);
    assert!(populate(&Vec::new(), &db, 0).is_empty());
}

#[test]
fn wandering_creature_is_dead_until_its_delay_has_passed() {
    let mut zone = zone_of(vec![spawn(1, 10, 10, 1, 5, 0)], Vec::new(), false);
    let _ = zone.handle_command(Command::Enter { player_id: 1 }, &Vec::new());
    let sightings = vec![Sighting { player_id: 1, coords: Some(at(10, 10)) }];
    assert_eq!(zone.spawn_npcs_at(1000, &sightings), vec![None]);
    assert_eq!(zone.npcs.len(), 1);
    assert!(!zone.npcs[0].alive);
    assert_eq!(zone.npcs[0].dead_since, 1000);
    match zone.handle_command(Command::GetNearbyInfo { player_id: 1 }, &sightings) {
        Ok(Outcome::Nearby { info }) => assert!(info.npcs.is_empty()),
        other => panic!("unexpected: {:?}", other),
    }
    assert_eq!(zone.spawn_npcs_at(1004, &sightings), vec![None]);
    assert!(!zone.npcs[0].alive);
    let report = zone.spawn_npcs_at(1005, &sightings);
    assert!(matches!(report[..], [Some(attempts)] if attempts < 200));
    let npc = zone.npcs[0];
    assert_ne!(npc.coords, at(10, 10));
    assert!(npc.alive);
    assert_eq!(npc.hp, 10);
    assert_eq!(npc.max_hp, 10);
    assert_eq!(npc.dead_since, 1000);
    assert!(in_window(npc.coords, at(10, 10)));
    match zone.handle_command(Command::GetNearbyInfo { player_id: 1 }, &sightings) {
        Ok(Outcome::Nearby { info }) => {
            assert_eq!(info.npcs.len(), 1);
            assert_eq!(info.npcs[0].index, 0);
            assert_eq!(info.npcs[0].npc, npc);
        }
        other => panic!("unexpected: {:?}", other),
    }
    assert_eq!(zone.spawn_npcs_at(5000, &sightings), vec![None]);
    assert_eq!(zone.npcs[0], npc);
}

#[test]
fn placement_stays_inside_the_zone() {
    for _ in 0..50 {
        let mut zone = zone_of(vec![spawn(1, 0, 20, 4, 0, 0)], Vec::new(), false);
        zone.spawn_npcs_at(10, &Vec::new());
        assert_eq!(zone.npcs.len(), 4);
        for npc in zone.npcs.iter() {
            assert!(npc.alive);
            assert!(0 <= npc.coords.x && npc.coords.x <= 2);
            assert!(18 <= npc.coords.y && npc.coords.y <= 20);
        }
    }
}

#[test]
fn wandering_creatures_do_not_all_land_on_one_tile() {
    let zone = zone_of(Vec::new(), Vec::new(), false);
    let wandering = spawn(1, 10, 10, 1, 0, 0);
    let first = zone.place(&Vec::new(), &wandering).0;
    let mut other_x = false;
    let mut other_y = false;
    for _ in 0..400 {
        let c = zone.place(&Vec::new(), &wandering).0;
        assert!(in_window(c, at(10, 10)));
        other_x = other_x || c.x != first.x;
        other_y = other_y || c.y != first.y;
    }
    assert!(other_x && other_y);
}

#[test]
fn wandering_creatures_face_more_than_one_way() {
    let mut zone = zone_of(vec![spawn(1, 10, 10, 200, 0, 0)], Vec::new(), false);
    zone.spawn_npcs_at(1, &Vec::new());
    assert_eq!(zone.npcs.len(), 200);
    let first = zone.npcs[0].direction;
    assert!(zone.npcs.iter().any(|n| n.direction != first));
}

#[test]
fn instant_spawn_revives_on_the_first_tick() {
    let mut zone = zone_of(vec![spawn(2, 5, 5, 3, 3600, 0)], Vec::new(), true);
    zone.spawn_npcs_at(1_000_000, &Vec::new());
    assert_eq!(zone.npcs.len(), 3);
    for npc in zone.npcs.iter() {
        assert!(npc.alive);
        assert_eq!(npc.hp, 25);
        assert_eq!(npc.dead_since, 1_000_000 - 86_400);
        assert!(in_window(npc.coords, at(5, 5)));
    }
}

#[test]
fn fixed_creature_stands_at_its_origin_and_faces_right() {
    let mut zone = zone_of(vec![spawn(1, 7, 9, 1, 0, FIXED_FACING)], vec![at(7, 9)], false);
    assert_eq!(zone.spawn_npcs_at(50, &Vec::new()), vec![Some(0)]);
    let npc = zone.npcs[0];
    assert!(npc.alive);
    assert_eq!(npc.coords, at(7, 9));
    assert_eq!(npc.direction, Direction::Right);
}

#[test]
fn placement_gives_up_after_the_bound() {
    let zone = zone_of(Vec::new(), walls_around(10, 10), false);
    let wandering = spawn(1, 10, 10, 1, 0, 0);
    let (coords, attempts) = zone.place(&Vec::new(), &wandering);
    assert_eq!(attempts, 200);
    assert!(in_window(coords, at(10, 10)));
}

#[test]
fn fixed_creature_is_placed_at_its_origin_whatever_stands_there() {
    let mut zone = zone_of(Vec::new(), walls_around(10, 10), false);
    let _ = zone.handle_command(Command::Enter { player_id: 1 }, &Vec::new());
    let sightings = vec![Sighting { player_id: 1, coords: Some(at(3, 4)) }];
    let walled = spawn(1, 10, 10, 1, 0, FIXED_FACING);
    assert_eq!(zone.place(&sightings, &walled), (at(10, 10), 0));
    assert_eq!(zone.place_from(&sightings, &walled, (1, 1), &vec![(1, 0), (2, 2)]), (at(10, 10), 0));
    let occupied = spawn(1, 3, 4, 1, 0, FIXED_FACING);
    assert_eq!(zone.place(&sightings, &occupied), (at(3, 4), 0));
    let outside = spawn(1, 50, -3, 1, 0, FIXED_FACING);
    assert_eq!(zone.place(&sightings, &outside), (at(50, -3), 0));
    assert!(!zone.goes_on(&sightings, &walled, at(10, 10), 0));
}

#[test]
fn placement_takes_a_walkable_free_tile_at_once() {
    let zone = zone_of(Vec::new(), Vec::new(), false);
    let (coords, attempts) = zone.place(&Vec::new(), &spawn(1, 10, 10, 1, 0, 0));
    assert_eq!(attempts, 0);
    assert!(in_window(coords, at(10, 10)));
}

#[test]
fn placement_avoids_walls_and_occupied_tiles_before_the_bound() {
    let mut walls = walls_around(10, 10);
    walls.retain(|c| *c != at(9, 9) && *c != at(11, 12));
    let mut zone = zone_of(Vec::new(), walls, false);
    let _ = zone.handle_command(Command::Enter { player_id: 1 }, &Vec::new());
    let sightings = vec![Sighting { player_id: 1, coords: Some(at(9, 9)) }];
    assert!(zone.is_tile_occupied(&sightings, at(9, 9)));
    assert!(zone.is_tile_walkable_npc(at(9, 9)));
    assert!(!zone.is_tile_occupied(&sightings, at(10, 11)));
    assert!(!zone.is_tile_walkable_npc(at(10, 10)));
    let wandering = spawn(1, 10, 10, 1, 0, 0);
    for _ in 0..20 {
        let (coords, attempts) = zone.place(&sightings, &wandering);
        if attempts < 200 {
            assert_eq!(coords, at(11, 12));
        } else {
            assert!(in_window(coords, at(10, 10)));
        }
    }
}

#[test]
fn tiles_outside_the_zone_and_walls_are_not_walkable() {
    let zone = zone_of(Vec::new(), vec![at(3, 3)], false);
    assert!(zone.is_tile_walkable_npc(at(0, 0)));
    assert!(zone.is_tile_walkable_npc(at(20, 20)));
    assert!(!zone.is_tile_walkable_npc(at(21, 0)));
    assert!(!zone.is_tile_walkable_npc(at(0, -1)));
    assert!(!zone.is_tile_walkable_npc(at(3, 3)));
}

#[test]
fn living_creatures_occupy_their_tile() {
    let mut zone = zone_of(vec![spawn(1, 7, 9, 1, 0, FIXED_FACING)], Vec::new(), false);
    zone.spawn_npcs_at(50, &Vec::new());
    assert!(zone.is_tile_occupied(&Vec::new(), at(7, 9)));
    assert!(!zone.is_tile_occupied(&Vec::new(), at(0, 0)));
}

#[test]
fn every_template_keeps_its_count_across_ticks() {
    let ts = vec![spawn(1, 5, 5, 3, 10, 0), spawn(7, 1, 1, 2, 0, 0), spawn(2, 9, 9, 2, 0, 7)];
    let mut zone = zone_of(ts, Vec::new(), false);
    for now in [100, 101, 110, 500] {
        zone.spawn_npcs_at(now, &Vec::new());
        assert_eq!(count_referencing(&zone.npcs, 0), 3);
        assert_eq!(count_referencing(&zone.npcs, 1), 0);
        assert_eq!(count_referencing(&zone.npcs, 2), 2);
        assert_eq!(zone.npcs.len(), 5);
    }
    assert!(zone.npcs.iter().all(|n| n.alive && n.hp == n.max_hp));
}

#[test]
fn zone_without_templates_stays_empty() {
    let mut zone = zone_of(Vec::new(), Vec::new(), true);
    zone.spawn_npcs_at(100, &Vec::new());
    assert!(zone.npcs.is_empty());
}

#[test]
fn tick_at_the_current_time_returns_it() {
    let mut zone = zone_of(vec![spawn(1, 5, 5, 2, 0, 0)], Vec::new(), false);
    let (now, report) = zone.spawn_npcs(&Vec::new());
    assert!(report.iter().all(|entry| matches!(entry, Some(a) if *a < 200)));
    assert!(now > 1_500_000_000);
    assert_eq!(zone.npcs.len(), 2);
    for npc in zone.npcs.iter() {
        assert!(npc.alive);
        assert_eq!(npc.dead_since, now);
    }
}

#[test]
fn can_hold_divides_the_weight_that_is_left() {
    let items = vec![ItemRecord { weight: 3 }, ItemRecord { weight: 0 }];
    let c = Character { weight: 10, max_weight: 30 };
    assert_eq!(c.can_hold(&items, 1, 100), 6);
    assert_eq!(c.can_hold(&items, 1, 4), 4);
    assert_eq!(c.can_hold(&items, 2, 100), 100);
    assert_eq!(c.can_hold(&items, 3, 100), 100);
    assert_eq!(c.can_hold(&items, 0, 100), 100);
    let full = Character { weight: 30, max_weight: 30 };
    assert_eq!(full.can_hold(&items, 1, 100), 0);
    let over = Character { weight: 31, max_weight: 30 };
    assert_eq!(over.can_hold(&items, 2, 100), 0);
}

#[test]
fn cancel_trade_resets_the_trade_and_names_the_partner() {
    let mut p = Player { interact_player_id: Some(42), trading: true, trade_accepted: true };
    assert_eq!(p.cancel_trade(), Some(42));
    assert_eq!(p, Player { interact_player_id: None, trading: false, trade_accepted: false });
    let mut idle = Player { interact_player_id: None, trading: true, trade_accepted: false };
    assert_eq!(idle.cancel_trade(), None);
    assert_eq!(idle, Player { interact_player_id: None, trading: true, trade_accepted: false });
}

#[test]
fn warp_session_is_plain_data() {
    let w = WarpSession { map_id: 5, coords: at(1, 2), local: true, animation: Some(WarpEffect::Admin) };
    assert_eq!(w.clone(), w);
    assert_ne!(WarpEffect::Plain, WarpEffect::Scroll);
}

#[test]
fn well_formedness_is_decided_from_the_tables() {
    let ts = vec![spawn(1, 5, 5, 2, 10, 0), spawn(2, 9, 9, 1, 0, 7)];
    let mut zone = zone_of(ts, Vec::new(), false);
    assert!(zone.is_well_formed());
    zone.spawn_npcs_at(100, &Vec::new());
    assert!(zone.is_well_formed());
    zone.players = vec![1, 2, 3];
    assert!(zone.is_well_formed());
    zone.players = vec![1, 2, 1];
    assert!(!zone.is_well_formed());
    zone.players = Vec::new();
    let extra = zone.npcs[0];
    zone.npcs.push(extra);
    assert!(!zone.is_well_formed());
    zone.npcs.pop();
    zone.npcs[0].spawn_index = 1;
    assert!(!zone.is_well_formed());
    zone.npcs[0].spawn_index = 0;
    assert!(zone.is_well_formed());
}

#[test]
fn search_on_given_draws_stops_at_the_first_accepted_candidate() {
    let walls = vec![at(10, 10), at(11, 10), at(12, 12)];
    let mut zone = zone_of(Vec::new(), walls, false);
    let _ = zone.handle_command(Command::Enter { player_id: 1 }, &Vec::new());
    let seen = vec![Sighting { player_id: 1, coords: Some(at(9, 12)) }];
    let t = spawn(1, 10, 10, 1, 0, 0);
    let none = Vec::new();
    assert_eq!(zone.place_from(&none, &t, (0, 0), &Vec::new()), (at(10, 10), 0));
    assert_eq!(zone.place_from(&none, &t, (-1, -1), &vec![(1, 1)]), (at(9, 9), 0));
    let draws = vec![(1, 0), (2, 2), (-1, 2), (0, 0), (2, 1)];
    assert_eq!(zone.place_from(&none, &t, (0, 0), &draws), (at(9, 12), 3));
    assert_eq!(zone.place_from(&seen, &t, (0, 0), &draws), (at(12, 11), 5));
    assert_eq!(zone.place_from(&none, &t, (0, 0), &vec![(1, 0), (2, 2)]), (at(12, 12), 2));
    assert_eq!(zone.first_candidate(&t, (2, -2)), at(12, 8));
    assert!(zone.goes_on(&none, &t, at(12, 12), 2));
    assert!(!zone.goes_on(&none, &t, at(9, 12), 3));
    assert!(zone.goes_on(&seen, &t, at(9, 12), 3));
    assert!(!zone.goes_on(&none, &t, at(12, 12), 200));
}

#[test]
fn search_on_given_draws_ends_at_the_bound() {
    let zone = zone_of(Vec::new(), walls_around(10, 10), false);
    let t = spawn(1, 10, 10, 1, 0, 0);
    let mut draws = vec![(1, 1); 250];
    draws[199] = (-2, 2);
    draws[200] = (2, -2);
    assert_eq!(zone.place_from(&Vec::new(), &t, (0, 0), &draws), (at(8, 12), 200));
    assert_eq!(zone.place_from(&Vec::new(), &t, (0, 0), &draws[..150].to_vec()), (at(11, 11), 150));
}

#[test]
fn a_creature_already_revived_in_a_tick_keeps_its_tile() {
    for _ in 0..20 {
        let mut zone = zone_of(vec![spawn(1, 10, 10, 10, 0, 0)], Vec::new(), false);
        zone.spawn_npcs_at(5, &Vec::new());
        for a in 0..zone.npcs.len() {
            for b in 0..a {
                assert_ne!(zone.npcs[a].coords, zone.npcs[b].coords);
            }
        }
    }
}

#[test]
fn instant_spawn_at_the_current_time_revives_at_once() {
    let mut zone = zone_of(vec![spawn(2, 5, 5, 3, 86_400, 0)], Vec::new(), true);
    let (now, report) = zone.spawn_npcs(&Vec::new());
    assert!(report.iter().all(|entry| matches!(entry, Some(a) if *a < 200)));
    assert!(now >= 0);
    assert_eq!(zone.npcs.len(), 3);
    for npc in zone.npcs.iter() {
        assert!(npc.alive);
        assert_eq!(npc.hp, 25);
        assert_eq!(npc.dead_since, now - 86_400);
    }
}

#[test]
fn tick_reports_the_bound_for_a_creature_that_is_walled_in() {
    let ts = vec![spawn(1, 10, 10, 1, 0, 0), spawn(1, 2, 2, 1, 100, 0), spawn(1, 3, 3, 1, 0, 0)];
    let mut zone = zone_of(ts, walls_around(10, 10), false);
    let report = zone.spawn_npcs_at(7, &Vec::new());
    assert_eq!(report.len(), 3);
    assert_eq!(report[0], Some(200));
    assert_eq!(report[1], None);
    assert!(matches!(report[2], Some(attempts) if attempts < 200));
    assert!(zone.npcs[0].alive && !zone.npcs[1].alive && zone.npcs[2].alive);
    assert!(in_window(zone.npcs[0].coords, at(10, 10)));
    assert!(zone.is_tile_walkable_npc(zone.npcs[2].coords));
}
