use shmup_core::geometry::Coord2D;
use shmup_core::targeting::TargetVector;
use shmup_core::weapon::{
    fire_step, BasicGun, Bile, MachineGun, PeaShooter, SpecialMunitions, Sniper, Team,
};

#[test]
fn machine_gun_tables() {
    assert_eq!(MachineGun::new(0).cooldown(), 500);
    assert_eq!(MachineGun::new(1).cooldown(), 500);
    assert_eq!(MachineGun::new(2).cooldown(), 400);
    assert_eq!(MachineGun::new(3).cooldown(), 300);
    assert_eq!(MachineGun::new(4).cooldown(), 200);
    assert_eq!(MachineGun::new(5).cooldown(), 100);
    assert_eq!(MachineGun::new(9).cooldown(), 50);
    assert_eq!(MachineGun::new(2).damage(), 2);
    assert_eq!(MachineGun::new(3).damage(), 5);
    assert_eq!(MachineGun::new(6).damage(), 6);
    let gun = MachineGun::new(0);
    assert_eq!(gun.projectile_velocity(), 150);
    assert_eq!(gun.health(), 1);
    assert_eq!(gun.bullet_lifespan(), 10_000);
    assert_eq!(gun.cooldown_remaining(), 500);
}

#[test]
fn pea_shooter_tables() {
    assert_eq!(PeaShooter::new(0).cooldown(), 2500);
    assert_eq!(PeaShooter::new(1).cooldown(), 1000);
    assert_eq!(PeaShooter::new(5).cooldown(), 600);
    assert_eq!(PeaShooter::new(7).cooldown(), 500);
    assert_eq!(PeaShooter::new(2).damage(), 5);
    assert_eq!(PeaShooter::new(4).damage(), 10);
    assert_eq!(PeaShooter::new(6).damage(), 6);
    let gun = PeaShooter::new(0);
    assert_eq!(gun.projectile_velocity(), 200);
    assert_eq!(gun.health(), 2);
    assert_eq!(gun.bullet_lifespan(), 10_000);
}

#[test]
fn sniper_tables() {
    assert_eq!(Sniper::new(0).cooldown(), 5000);
    assert_eq!(Sniper::new(3).cooldown(), 5000);
    assert_eq!(Sniper::new(4).cooldown(), 4000);
    assert_eq!(Sniper::new(5).cooldown(), 3000);
    assert_eq!(Sniper::new(8).cooldown(), 2000);
    assert_eq!(Sniper::new(5).damage(), 100);
    assert_eq!(Sniper::new(6).damage(), 6);
    let gun = Sniper::new(0);
    assert_eq!(gun.projectile_velocity(), 500);
    assert_eq!(gun.health(), 10);
}

#[test]
fn bile_tables() {
    assert_eq!(Bile::new(0).cooldown(), 200);
    assert_eq!(Bile::new(1).cooldown(), 150);
    assert_eq!(Bile::new(2).cooldown(), 150);
    assert_eq!(Bile::new(3).cooldown(), 120);
    assert_eq!(Bile::new(4).cooldown(), 100);
    assert_eq!(Bile::new(9).cooldown(), 100);
    let gun = Bile::new(0);
    assert_eq!(gun.damage(), 1);
    assert_eq!(gun.projectile_velocity(), 100);
    assert_eq!(gun.health(), 1);
    assert_eq!(gun.bullet_lifespan(), 500);
    assert_eq!(gun.cooldown_remaining(), 100);
}

#[test]
fn weapon_fires_only_when_aimed_and_cooled() {
    let mut gun = MachineGun::new(3);
    let pos = Coord2D::new(0, 0);
    let aimed = TargetVector(Some((1, 0)));
    let unaimed = TargetVector(None);

    // No aim: no shot, but the countdown still counts down each tick.
    assert!(fire_step(&mut gun, &unaimed, pos, 1, Team::Friendly, None, 200).is_none());
    assert_eq!(gun.cooldown_remaining, 300);

    // Aimed but cooling down: the countdown counts the tick off,
    // stopping at zero.
    assert!(fire_step(&mut gun, &aimed, pos, 1, Team::Friendly, None, 400).is_none());
    assert_eq!(gun.cooldown_remaining, 0);

    // Fully cooled but unaimed: still no shot.
    assert!(fire_step(&mut gun, &unaimed, pos, 1, Team::Friendly, None, 50).is_none());
    assert_eq!(gun.cooldown_remaining, 0);

    // Cooled down and aimed: fire, and re-arm at the level's cooldown.
    let spawn = fire_step(&mut gun, &aimed, pos, 1, Team::Friendly, None, 16).expect("fires");
    assert_eq!(gun.cooldown_remaining, 300);
    assert_eq!(spawn.projectile.fired_by, 1);
    assert_eq!(spawn.projectile.damage_amount, 5);
    assert_eq!(spawn.projectile.size, 40);
    assert_eq!(spawn.aim, (1, 0));
    assert_eq!(spawn.speed, 150);
    assert_eq!(spawn.bullet_health, 1);
    assert_eq!(spawn.lifespan.0, 10_000);
    assert!(matches!(spawn.team, Team::Friendly));
}

#[test]
fn no_second_shot_within_the_cooldown_window() {
    let mut gun = MachineGun::new(3);
    let pos = Coord2D::new(0, 0);
    let aimed = TargetVector(Some((0, 1)));
    gun.cooldown_remaining = 0;
    assert!(fire_step(&mut gun, &aimed, pos, 1, Team::Friendly, None, 16).is_some());

    // Its cooldown at level 3 is 300 ms: ticks summing to 299 ms can
    // never produce another shot.
    let mut elapsed: u32 = 0;
    while elapsed < 299 {
        let r = fire_step(&mut gun, &aimed, pos, 1, Team::Friendly, None, 13);
        elapsed += 13;
        assert!(r.is_none(), "fired after only {} ms", elapsed);
    }
    // One more tick takes the total past the cooldown; the shot comes
    // on the first fully cooled-down tick after that.
    assert!(fire_step(&mut gun, &aimed, pos, 1, Team::Friendly, None, 13).is_none());
    assert_eq!(gun.cooldown_remaining, 0);
    assert!(fire_step(&mut gun, &aimed, pos, 1, Team::Friendly, None, 13).is_some());
}

#[test]
fn special_munitions_scale_damage_at_creation() {
    let mut gun = PeaShooter::new(4);
    gun.cooldown_remaining = 0;
    let aimed = TargetVector(Some((1, 1)));
    let munitions = SpecialMunitions::new(3);
    assert_eq!(munitions.damage_mult(), 3);
    let spawn = fire_step(
        &mut gun,
        &aimed,
        Coord2D::new(5, 5),
        2,
        Team::Hostile,
        Some(&munitions),
        16,
    )
    .expect("fires");
    assert_eq!(spawn.projectile.damage_amount, 30);
    assert!(matches!(spawn.team, Team::Hostile));
}
