use shmup_core::collision::{collide_bullet, BulletState, Projectile};
use shmup_core::geometry::Coord2D;
use shmup_core::health::{apply_damage, check_dead, DespawnTimer, Health};
use shmup_core::overshield::{sync_overshield_state, OvershieldState};

fn test_bullet() -> BulletState {
    BulletState {
        id: 100,
        pos: Coord2D::new(0, 0),
        projectile: Projectile { fired_by: 1, damage_amount: 7, size: 40 },
        health: 2,
        last_hit: None,
    }
}

#[test]
fn bullet_strikes_first_qualifying_target() {
    let mut bullet = test_bullet();
    let others = vec![
        (1u64, Coord2D::new(0, 0)),     // the firer: skipped
        (100u64, Coord2D::new(0, 0)),   // the bullet itself: skipped
        (2u64, Coord2D::new(100, 100)), // out of radius
        (3u64, Coord2D::new(10, 10)),   // first hit
        (4u64, Coord2D::new(0, 0)),     // would also hit, but comes later
    ];
    let outcome = collide_bullet(&mut bullet, &others);
    let event = outcome.damage.expect("a damage event");
    assert_eq!(event.damaged_by, 1);
    assert_eq!(event.applied_to, 3);
    assert_eq!(event.amount, 7);
    assert_eq!(bullet.health, 1);
    assert!(!outcome.despawn_bullet);
    assert_eq!(bullet.last_hit, Some(3));
    assert_eq!(outcome.impact_at, Some(Coord2D::new(0, 0)));
}

#[test]
fn bullet_counter_decreases_until_removal() {
    // A pass-through round: its counter strictly decreases on each
    // qualifying collision, and it is removed exactly at zero.
    let mut bullet = test_bullet();
    let others = vec![(3u64, Coord2D::new(10, 10)), (4u64, Coord2D::new(0, 0))];
    let first = collide_bullet(&mut bullet, &others);
    assert_eq!(bullet.health, 1);
    assert!(!first.despawn_bullet);
    // The last-hit marker keeps target 3 safe; target 4 is struck next.
    let second = collide_bullet(&mut bullet, &others);
    assert_eq!(second.damage.expect("second strike").applied_to, 4);
    assert_eq!(bullet.health, 0);
    assert!(second.despawn_bullet);
    assert_eq!(bullet.last_hit, Some(3));
}

#[test]
fn bullet_misses_leave_everything_unchanged() {
    let mut bullet = test_bullet();
    let others = vec![(2u64, Coord2D::new(500, 0)), (1u64, Coord2D::new(0, 0))];
    let outcome = collide_bullet(&mut bullet, &others);
    assert!(outcome.damage.is_none());
    assert!(!outcome.despawn_bullet);
    assert!(outcome.impact_at.is_none());
    assert_eq!(bullet.health, 2);
    assert_eq!(bullet.last_hit, None);
}

#[test]
fn bullet_hit_radius_is_exclusive() {
    let mut bullet = test_bullet();
    // Exactly at the radius: 40 units away, squared distance 1600 is
    // not strictly inside the squared radius 1600.
    let others = vec![(3u64, Coord2D::new(40, 0))];
    let outcome = collide_bullet(&mut bullet, &others);
    assert!(outcome.damage.is_none());
    assert_eq!(bullet.health, 2);
}

#[test]
fn shield_absorbs_damage_up_to_charge() {
    let mut health = Health(80);
    let mut shield = Some(OvershieldState {
        max_overshield: 100,
        current_overshield: 50,
        ms_until_recharge: 0,
    });
    apply_damage(&mut health, &mut shield, 30);
    let s = shield.expect("shield stays");
    assert_eq!(s.current_overshield, 20);
    assert_eq!(s.ms_until_recharge, 2000);
    assert_eq!(health.0, 80);
}

#[test]
fn shield_overflow_reaches_health() {
    let mut health = Health(80);
    let mut shield = Some(OvershieldState {
        max_overshield: 100,
        current_overshield: 50,
        ms_until_recharge: 0,
    });
    apply_damage(&mut health, &mut shield, 70);
    let s = shield.expect("shield stays");
    assert_eq!(s.current_overshield, 0);
    assert_eq!(health.0, 60);
}

#[test]
fn damage_exactly_at_charge_empties_shield_only() {
    let mut health = Health(80);
    let mut shield = Some(OvershieldState {
        max_overshield: 100,
        current_overshield: 50,
        ms_until_recharge: 0,
    });
    apply_damage(&mut health, &mut shield, 50);
    assert_eq!(shield.expect("shield stays").current_overshield, 0);
    assert_eq!(health.0, 80);
}

#[test]
fn unshielded_damage_hits_health_whole() {
    let mut health = Health(80);
    let mut shield: Option<OvershieldState> = None;
    apply_damage(&mut health, &mut shield, 30);
    assert_eq!(health.0, 50);
    assert!(shield.is_none());
}

#[test]
fn one_death_event_per_entity() {
    // Two damage events land in the same tick; the death check still
    // announces the death exactly once.
    let mut health = Health(10);
    let mut shield: Option<OvershieldState> = None;
    apply_damage(&mut health, &mut shield, 6);
    apply_damage(&mut health, &mut shield, 7);
    assert_eq!(health.0, -3);
    let first = check_dead(&health, false);
    assert!(first.emit_death);
    assert!(first.now_dead);
    assert_eq!(first.attach_despawn, Some(DespawnTimer(10_000)));
    let second = check_dead(&health, first.now_dead);
    assert!(!second.emit_death);
    assert!(second.now_dead);
    assert_eq!(second.attach_despawn, None);
}

#[test]
fn live_entity_is_not_declared_dead() {
    let r = check_dead(&Health(1), false);
    assert!(!r.emit_death);
    assert!(!r.now_dead);
    assert_eq!(r.attach_despawn, None);
}

#[test]
fn despawn_timer_runs_out() {
    let mut t = DespawnTimer(500);
    assert!(!t.tick(200));
    assert_eq!(t.0, 300);
    assert!(t.tick(300));
    assert_eq!(t.0, 0);
}

#[test]
fn shield_recharge_waits_out_the_delay() {
    // After damage the delay stands at 2000 ms of calm; no charge
    // returns before it has fully elapsed.
    let mut health = Health(80);
    let mut shield = Some(OvershieldState {
        max_overshield: 100,
        current_overshield: 50,
        ms_until_recharge: 0,
    });
    apply_damage(&mut health, &mut shield, 10);
    let mut s = shield.expect("shield stays");
    assert_eq!(s.ms_until_recharge, 2000);
    s.recharge_step(1000);
    assert_eq!(s.current_overshield, 40);
    assert_eq!(s.ms_until_recharge, 1000);
    s.recharge_step(999);
    assert_eq!(s.current_overshield, 40);
    s.recharge_step(1);
    assert_eq!(s.current_overshield, 41);
    assert_eq!(s.ms_until_recharge, 100);
}

#[test]
fn shield_recharges_in_fixed_steps_until_full() {
    let mut s = OvershieldState {
        max_overshield: 100,
        current_overshield: 98,
        ms_until_recharge: 100,
    };
    s.recharge_step(100);
    assert_eq!(s.current_overshield, 99);
    assert_eq!(s.ms_until_recharge, 100);
    s.recharge_step(100);
    assert_eq!(s.current_overshield, 100);
    // Full: further calm changes nothing.
    s.recharge_step(1000);
    assert_eq!(s.current_overshield, 100);
    assert_eq!(s.max_overshield, 100);
}

#[test]
fn overshield_state_follows_the_powerup_level() {
    let mut state: Option<OvershieldState> = None;
    sync_overshield_state(2, &mut state);
    let s = state.expect("state attached");
    assert_eq!(s.max_overshield, 200);
    assert_eq!(s.current_overshield, 200);
    assert_eq!(s.ms_until_recharge, 0);

    // A drained shield at the same level is left alone.
    let mut unchanged = Some(OvershieldState {
        max_overshield: 200,
        current_overshield: 10,
        ms_until_recharge: 700,
    });
    sync_overshield_state(2, &mut unchanged);
    assert_eq!(unchanged.expect("kept").current_overshield, 10);

    // A level change re-derives capacity and refills.
    let mut leveled = Some(OvershieldState {
        max_overshield: 200,
        current_overshield: 10,
        ms_until_recharge: 700,
    });
    sync_overshield_state(3, &mut leveled);
    let l = leveled.expect("kept");
    assert_eq!(l.max_overshield, 300);
    assert_eq!(l.current_overshield, 300);
    assert_eq!(l.ms_until_recharge, 700);
}
