use shmup_core::collision::DamageEvent;
use shmup_core::geometry::Coord2D;
use shmup_core::leveling::{
    collect_pellet, run_level_ups, xp_required_for_level, Level, Xp, XpWorth,
};
use shmup_core::overshield::Overshield;
use shmup_core::power_ups::{
    all_power_up_types, choice_pool, choose_up_to, pickup_overlaps, should_drop_pickup,
    PowerUpType, Powerup, Powerups,
};
use shmup_core::rng::{chance, sample_inclusive};
use shmup_core::stats::{
    collect_damage_done, count_deaths, reset_stats, EnemiesStillAlive, TotalBulletsFired,
    TotalDamageDone, TotalEnemiesKilled,
};

#[test]
fn xp_curve_values() {
    assert_eq!(xp_required_for_level(&Level(0)).0, 190);
    assert_eq!(xp_required_for_level(&Level(1)).0, 261);
    assert_eq!(xp_required_for_level(&Level(2)).0, 475);
    assert_eq!(xp_required_for_level(&Level(10)).0, 7332);
}

#[test]
fn leveling_spends_the_required_xp() {
    let mut level = Level(1);
    let mut xp = Xp(300);
    assert!(run_level_ups(&mut level, &mut xp));
    assert_eq!(level.0, 2);
    assert_eq!(xp.0, 39);
    // Not enough for the next level: nothing moves.
    assert!(!run_level_ups(&mut level, &mut xp));
    assert_eq!(level.0, 2);
    assert_eq!(xp.0, 39);
}

#[test]
fn pellets_are_collected_by_overlap() {
    let player = Coord2D::new(0, 0);
    let near = Coord2D::new(10, 10);
    let mut xp = Xp(5);
    let mut worth = XpWorth(10);
    assert!(collect_pellet(&player, &near, &mut xp, &mut worth));
    assert_eq!(xp.0, 15);
    assert_eq!(worth.0, 0);

    let far = Coord2D::new(100, 0);
    let mut other = XpWorth(10);
    assert!(!collect_pellet(&player, &far, &mut xp, &mut other));
    assert_eq!(xp.0, 15);
    assert_eq!(other.0, 10);
}

#[test]
fn inventory_starts_empty() {
    let p = Powerups::default();
    assert_eq!(p.unused_slots(), 6);
    assert!(p.current_powerups().is_empty());
    assert_eq!(p.get_unused_powerup_types().len(), 6);
}

#[test]
fn adding_a_new_kind_takes_the_first_free_slot() {
    let mut p = Powerups::default();
    p.add_powerup(PowerUpType::Sniper);
    assert_eq!(p.0[0], Some(Powerup { power: PowerUpType::Sniper, level: 1 }));
    assert_eq!(p.unused_slots(), 5);
    p.add_powerup(PowerUpType::Overshield);
    assert_eq!(p.0[1], Some(Powerup { power: PowerUpType::Overshield, level: 1 }));
}

#[test]
fn adding_a_carried_kind_levels_it_up_in_place() {
    let mut p = Powerups::default();
    p.add_powerup(PowerUpType::Sniper);
    p.add_powerup(PowerUpType::Overshield);
    p.add_powerup(PowerUpType::Sniper);
    assert_eq!(p.0[0], Some(Powerup { power: PowerUpType::Sniper, level: 2 }));
    assert_eq!(p.0[1], Some(Powerup { power: PowerUpType::Overshield, level: 1 }));
    assert_eq!(p.unused_slots(), 4);
    let found = p.get_powerup(PowerUpType::Sniper).expect("carried");
    assert_eq!(found.level, 2);
    assert!(p.get_powerup(PowerUpType::Bile).is_none());
}

#[test]
fn full_inventory_without_the_kind_stays_unchanged() {
    let slot = Some(Powerup { power: PowerUpType::PeaShooter, level: 1 });
    let mut p = Powerups([slot, slot, slot, slot, slot, slot]);
    p.add_powerup(PowerUpType::MachineGun);
    for i in 0usize..6 {
        assert_eq!(p.0[i], slot);
    }
}

#[test]
fn carried_and_unused_kinds_are_reported_in_order() {
    let mut p = Powerups::default();
    p.add_powerup(PowerUpType::Overshield);
    p.add_powerup(PowerUpType::PeaShooter);
    assert_eq!(
        p.current_powerups(),
        vec![PowerUpType::Overshield, PowerUpType::PeaShooter]
    );
    assert_eq!(
        p.get_unused_powerup_types(),
        vec![
            PowerUpType::MachineGun,
            PowerUpType::Sniper,
            PowerUpType::Bile,
            PowerUpType::SpecialMunitions,
        ]
    );
    let grants = p.grants();
    assert_eq!(grants.len(), 2);
    assert_eq!(grants[0], Powerup { power: PowerUpType::Overshield, level: 1 });
    assert_eq!(grants[1], Powerup { power: PowerUpType::PeaShooter, level: 1 });
}

#[test]
fn all_kinds_listed_in_declaration_order() {
    assert_eq!(
        all_power_up_types(),
        vec![
            PowerUpType::PeaShooter,
            PowerUpType::MachineGun,
            PowerUpType::Sniper,
            PowerUpType::Bile,
            PowerUpType::Overshield,
            PowerUpType::SpecialMunitions,
        ]
    );
}

#[test]
fn choice_pool_weighs_fresh_kinds_by_free_slots() {
    let mut p = Powerups::default();
    p.add_powerup(PowerUpType::PeaShooter);
    let pool = choice_pool(&p);
    // One carried kind, then the five unused kinds once per free slot.
    assert_eq!(pool.len(), 1 + 5 * 5);
    assert_eq!(pool[0], PowerUpType::PeaShooter);
    assert_eq!(
        pool.iter().filter(|t| **t == PowerUpType::Sniper).count(),
        5
    );
    assert_eq!(
        pool.iter().filter(|t| **t == PowerUpType::PeaShooter).count(),
        1
    );
}

#[test]
fn full_inventory_offers_only_what_is_carried() {
    let mut p = Powerups::default();
    for kind in all_power_up_types() {
        p.add_powerup(kind);
    }
    let pool = choice_pool(&p);
    assert_eq!(pool, all_power_up_types());
}

#[test]
fn menu_draw_is_bounded_and_comes_from_the_pool() {
    let options = vec![PowerUpType::PeaShooter, PowerUpType::Sniper];
    let drawn = choose_up_to(&options, 3);
    assert_eq!(drawn.len(), 2);
    for t in &drawn {
        assert!(options.contains(t));
    }
    let one = choose_up_to(&options, 1);
    assert_eq!(one.len(), 1);
    assert!(options.contains(&one[0]));
}

#[test]
fn pickup_overlap_uses_the_squared_radius() {
    let player = Coord2D::new(0, 0);
    assert!(pickup_overlaps(&player, &Coord2D::new(10, 10)));
    assert!(!pickup_overlaps(&player, &Coord2D::new(32, 0)));
}

#[test]
fn no_pickup_from_a_vanished_body() {
    assert!(!should_drop_pickup(false));
}

#[test]
fn random_bounds_hold() {
    assert_eq!(sample_inclusive(500, 500), 500);
    for _ in 0u32..16 {
        let d = sample_inclusive(10, 20);
        assert!((10..=20).contains(&d));
    }
    assert!(!chance(0, 10));
    assert!(chance(10, 10));
}

#[test]
fn overshield_powerup_keeps_its_level() {
    assert_eq!(Overshield::new(4).0, 4);
}

#[test]
fn damage_totals_accumulate() {
    let mut total = TotalDamageDone(5);
    let events = vec![
        DamageEvent { damaged_by: 1, applied_to: 2, amount: 3 },
        DamageEvent { damaged_by: 1, applied_to: 3, amount: 4 },
    ];
    collect_damage_done(&mut total, &events);
    assert_eq!(total.0, 12);
}

#[test]
fn only_enemy_deaths_count_as_kills() {
    let mut total = TotalEnemiesKilled(1);
    count_deaths(&mut total, &vec![true, false, true]);
    assert_eq!(total.0, 3);
}

#[test]
fn stats_reset_to_zero() {
    let mut damage = TotalDamageDone(10);
    let mut kills = TotalEnemiesKilled(4);
    let mut alive = EnemiesStillAlive(7);
    let mut bullets = TotalBulletsFired(100);
    reset_stats(&mut damage, &mut kills, &mut alive, &mut bullets);
    assert_eq!(damage.0, 0);
    assert_eq!(kills.0, 0);
    assert_eq!(alive.0, 0);
    assert_eq!(bullets.0, 0);
}

#[test]
fn player_starting_loadout() {
    let start = shmup_core::player::player_start();
    assert_eq!(start.health.0, 100);
    assert_eq!(start.max_health.0, 100);
    assert_eq!(start.velocity, (0, 100));
    assert_eq!(start.vmax, 200);
    assert_eq!(start.xp.0, 0);
    assert_eq!(start.level.0, 1);
}

#[test]
fn movement_intent_from_direction_keys() {
    let mut actions = shmup_core::actions::Actions {
        player_movement: None,
        touch_detected: false,
    };
    shmup_core::actions::set_movement_actions(&mut actions, false, true, false, false);
    assert_eq!(actions.player_movement, Some((1, 0)));
    shmup_core::actions::set_movement_actions(&mut actions, true, false, false, true);
    assert_eq!(actions.player_movement, Some((-1, -1)));
    // Opposite keys cancel out to no intent at all.
    shmup_core::actions::set_movement_actions(&mut actions, true, true, true, true);
    assert_eq!(actions.player_movement, None);
    shmup_core::actions::set_movement_actions(&mut actions, false, false, false, false);
    assert_eq!(actions.player_movement, None);
    assert!(!actions.touch_detected);
}

#[test]
fn enemy_deaths_leave_one_pellet_each() {
    let found = shmup_core::leveling::pellet_for_death(Some((Coord2D::new(7, -3), XpWorth(10))));
    let pellet = found.expect("a pellet");
    assert_eq!(pellet.pos, Coord2D::new(7, -3));
    assert_eq!(pellet.worth.0, 10);
    assert_eq!(pellet.velocity, (0, 100));
    assert_eq!(pellet.acceleration, 1);
    assert!(shmup_core::leveling::pellet_for_death(None).is_none());
}
