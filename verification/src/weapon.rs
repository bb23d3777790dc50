//! Weapons: per-archetype stat tables, the cooldown state machine that
//! decides when a projectile is spawned, and the law that a weapon never
//! fires twice within its cooldown window.
//!
//! Cooldowns are milliseconds. The countdown counts down on every tick,
//! aimed or not; a weapon fires only when its aiming vector is resolved
//! and its countdown has reached zero, and firing re-arms the countdown
//! at the weapon's level-dependent cooldown.

use vstd::prelude::*;

verus! {

use crate::collision::Projectile;
use crate::geometry::Coord2D;
use crate::health::DespawnTimer;
use crate::targeting::TargetVector;

/// Which side an entity fights on; a bullet only strikes the other side.
#[derive(Clone, Copy, PartialEq, Eq, Structural, Debug)]
pub enum Team {
    Friendly,
    Hostile,
}

/// Radius inside which every projectile strikes.
pub const HIT_RADIUS: u32 = 40;

/// Everything needed to create one projectile entity.
pub struct ProjectileSpawn {
    /// The payload the bullet will carry through collision checks.
    pub projectile: Projectile,
    /// Where the bullet starts: the firer's position.
    pub pos: Coord2D,
    /// The unnormalized aiming direction; the bullet flies along it.
    pub aim: (i64, i64),
    /// Speed of the bullet, world units per second.
    pub speed: u32,
    /// How many strikes the bullet survives.
    pub bullet_health: i32,
    /// The bullet is removed when this runs out.
    pub lifespan: DespawnTimer,
    /// The firer's side, stamped onto the bullet.
    pub team: Team,
}

/// A weapon archetype: level-dependent stat tables plus the live
/// cooldown countdown. Implementations are the closed set of concrete
/// gun types below.
pub trait BasicGun: Sized {
    /// Milliseconds between shots at the current level.
    spec fn spec_cooldown(&self) -> u32;

    /// Damage per bullet at the current level.
    spec fn spec_damage(&self) -> i32;

    /// Bullet speed, world units per second.
    spec fn spec_projectile_speed(&self) -> u32;

    /// Strikes a bullet survives.
    spec fn spec_bullet_health(&self) -> i32;

    /// Milliseconds a bullet lives.
    spec fn spec_bullet_lifespan(&self) -> u32;

    /// Milliseconds left until the weapon may fire again.
    spec fn spec_cooldown_left(&self) -> u32;

    /// Every archetype's tables stay inside these bounds, whatever the
    /// level.
    proof fn stats_bounded(&self)
        ensures
            0 < self.spec_cooldown(),
            0 < self.spec_damage() <= 1000,
            0 < self.spec_bullet_health(),
        ;

    fn cooldown(&self) -> (r: u32)
        ensures
            r == self.spec_cooldown(),
    ;

    fn damage(&self) -> (r: i32)
        ensures
            r == self.spec_damage(),
    ;

    fn projectile_velocity(&self) -> (r: u32)
        ensures
            r == self.spec_projectile_speed(),
    ;

    fn health(&self) -> (r: i32)
        ensures
            r == self.spec_bullet_health(),
    ;

    fn bullet_lifespan(&self) -> (r: u32)
        ensures
            r == self.spec_bullet_lifespan(),
    ;

    fn cooldown_remaining(&self) -> (r: u32)
        ensures
            r == self.spec_cooldown_left(),
    ;

    fn set_cooldown_remaining(&mut self, v: u32)
        ensures
            final(self).spec_cooldown_left() == v,
            final(self).spec_cooldown() == old(self).spec_cooldown(),
            final(self).spec_damage() == old(self).spec_damage(),
            final(self).spec_projectile_speed() == old(self).spec_projectile_speed(),
            final(self).spec_bullet_health() == old(self).spec_bullet_health(),
            final(self).spec_bullet_lifespan() == old(self).spec_bullet_lifespan(),
    ;
}

/// Damage multiplier from the special-munitions power-up: every bullet's
/// damage is scaled by the power-up's level at projectile-creation time.
pub struct SpecialMunitions(pub u8);

impl SpecialMunitions {
    pub fn new(level: u8) -> (r: Self)
        ensures
            r.0 == level,
    {
        Self(level)
    }

    pub fn damage_mult(&self) -> (r: i32)
        ensures
            r == self.0 as i32,
    {
        self.0 as i32
    }
}

/// The multiplier a (possibly absent) special-munitions power-up applies.
pub open spec fn munitions_mult(m: Option<SpecialMunitions>) -> int {
    match m {
        None => 1,
        Some(s) => s.0 as int,
    }
}

/// Rapid-fire gun: short cooldown, light damage.
pub struct MachineGun {
    pub level: u8,
    pub cooldown_remaining: u32,
}

/// Cooldown table of the machine gun, by level.
pub open spec fn machine_gun_cooldown(level: u8) -> u32 {
    if level <= 1 {
        500u32
    } else if level == 2 {
        400u32
    } else if level == 3 {
        300u32
    } else if level == 4 {
        200u32
    } else if level == 5 {
        100u32
    } else {
        50u32
    }
}

/// Damage table of the machine gun, by level.
pub open spec fn machine_gun_damage(level: u8) -> i32 {
    if level <= 2 {
        2i32
    } else if level <= 5 {
        5i32
    } else {
        6i32
    }
}

impl MachineGun {
    pub fn new(level: u8) -> (r: Self)
        ensures
            r.level == level,
            r.cooldown_remaining == 500,
    {
        MachineGun { level, cooldown_remaining: 500 }
    }
}

impl BasicGun for MachineGun {
    open spec fn spec_cooldown(&self) -> u32 {
        machine_gun_cooldown(self.level)
    }

    open spec fn spec_damage(&self) -> i32 {
        machine_gun_damage(self.level)
    }

    open spec fn spec_projectile_speed(&self) -> u32 {
        150
    }

    open spec fn spec_bullet_health(&self) -> i32 {
        1
    }

    open spec fn spec_bullet_lifespan(&self) -> u32 {
        10_000
    }

    open spec fn spec_cooldown_left(&self) -> u32 {
        self.cooldown_remaining
    }

    proof fn stats_bounded(&self) {
    }

    fn cooldown(&self) -> u32 {
        if self.level == 0 {
            500
        } else if self.level == 1 {
            500
        } else if self.level == 2 {
            400
        } else if self.level == 3 {
            300
        } else if self.level == 4 {
            200
        } else if self.level == 5 {
            100
        } else {
            50
        }
    }

    fn damage(&self) -> i32 {
        if self.level <= 2 {
            2
        } else if self.level <= 5 {
            5
        } else {
            6
        }
    }

    fn projectile_velocity(&self) -> u32 {
        150
    }

    fn health(&self) -> i32 {
        1
    }

    fn bullet_lifespan(&self) -> u32 {
        10_000
    }

    fn cooldown_remaining(&self) -> u32 {
        self.cooldown_remaining
    }

    fn set_cooldown_remaining(&mut self, v: u32) {
        self.cooldown_remaining = v;
    }
}

/// Single-shot gun: slow, heavier hits; its bullets survive two strikes.
pub struct PeaShooter {
    pub level: u8,
    pub cooldown_remaining: u32,
}

/// Cooldown table of the pea shooter, by level.
pub open spec fn pea_shooter_cooldown(level: u8) -> u32 {
    if level == 0 {
        2500u32
    } else if level == 1 {
        1000u32
    } else if level == 2 {
        900u32
    } else if level == 3 {
        800u32
    } else if level == 4 {
        700u32
    } else if level == 5 {
        600u32
    } else {
        500u32
    }
}

/// Damage table of the pea shooter, by level.
pub open spec fn pea_shooter_damage(level: u8) -> i32 {
    if level <= 2 {
        5i32
    } else if level <= 5 {
        10i32
    } else {
        6i32
    }
}

impl PeaShooter {
    pub fn new(level: u8) -> (r: Self)
        ensures
            r.level == level,
            r.cooldown_remaining == 500,
    {
        PeaShooter { level, cooldown_remaining: 500 }
    }
}

impl BasicGun for PeaShooter {
    open spec fn spec_cooldown(&self) -> u32 {
        pea_shooter_cooldown(self.level)
    }

    open spec fn spec_damage(&self) -> i32 {
        pea_shooter_damage(self.level)
    }

    open spec fn spec_projectile_speed(&self) -> u32 {
        200
    }

    open spec fn spec_bullet_health(&self) -> i32 {
        2
    }

    open spec fn spec_bullet_lifespan(&self) -> u32 {
        10_000
    }

    open spec fn spec_cooldown_left(&self) -> u32 {
        self.cooldown_remaining
    }

    proof fn stats_bounded(&self) {
    }

    fn cooldown(&self) -> u32 {
        if self.level == 0 {
            2500
        } else if self.level == 1 {
            1000
        } else if self.level == 2 {
            900
        } else if self.level == 3 {
            800
        } else if self.level == 4 {
            700
        } else if self.level == 5 {
            600
        } else {
            500
        }
    }

    fn damage(&self) -> i32 {
        if self.level <= 2 {
            5
        } else if self.level <= 5 {
            10
        } else {
            6
        }
    }

    fn projectile_velocity(&self) -> u32 {
        200
    }

    fn health(&self) -> i32 {
        2
    }

    fn bullet_lifespan(&self) -> u32 {
        10_000
    }

    fn cooldown_remaining(&self) -> u32 {
        self.cooldown_remaining
    }

    fn set_cooldown_remaining(&mut self, v: u32) {
        self.cooldown_remaining = v;
    }
}

/// Long-range gun: very slow, very heavy hits; its bullets pass through
/// many targets.
pub struct Sniper {
    pub level: u8,
    pub cooldown_remaining: u32,
}

/// Cooldown table of the sniper, by level.
pub open spec fn sniper_cooldown(level: u8) -> u32 {
    if level <= 3 {
        5000u32
    } else if level == 4 {
        4000u32
    } else if level == 5 {
        3000u32
    } else {
        2000u32
    }
}

/// Damage table of the sniper, by level.
pub open spec fn sniper_damage(level: u8) -> i32 {
    if level <= 5 {
        100i32
    } else {
        6i32
    }
}

impl Sniper {
    pub fn new(level: u8) -> (r: Self)
        ensures
            r.level == level,
            r.cooldown_remaining == 500,
    {
        Sniper { level, cooldown_remaining: 500 }
    }
}

impl BasicGun for Sniper {
    open spec fn spec_cooldown(&self) -> u32 {
        sniper_cooldown(self.level)
    }

    open spec fn spec_damage(&self) -> i32 {
        sniper_damage(self.level)
    }

    open spec fn spec_projectile_speed(&self) -> u32 {
        500
    }

    open spec fn spec_bullet_health(&self) -> i32 {
        10
    }

    open spec fn spec_bullet_lifespan(&self) -> u32 {
        10_000
    }

    open spec fn spec_cooldown_left(&self) -> u32 {
        self.cooldown_remaining
    }

    proof fn stats_bounded(&self) {
    }

    fn cooldown(&self) -> u32 {
        if self.level <= 3 {
            5000
        } else if self.level == 4 {
            4000
        } else if self.level == 5 {
            3000
        } else {
            2000
        }
    }

    fn damage(&self) -> i32 {
        if self.level <= 5 {
            100
        } else {
            6
        }
    }

    fn projectile_velocity(&self) -> u32 {
        500
    }

    fn health(&self) -> i32 {
        10
    }

    fn bullet_lifespan(&self) -> u32 {
        10_000
    }

    fn cooldown_remaining(&self) -> u32 {
        self.cooldown_remaining
    }

    fn set_cooldown_remaining(&mut self, v: u32) {
        self.cooldown_remaining = v;
    }
}

/// Spray gun used by enemies: a constant drizzle of weak, short-lived
/// shots.
pub struct Bile {
    pub level: u8,
    pub cooldown_remaining: u32,
}

/// Cooldown table of the bile spray, by level.
pub open spec fn bile_cooldown(level: u8) -> u32 {
    if level == 0 {
        200u32
    } else if level == 1 {
        150u32
    } else if level == 2 {
        150u32
    } else if level == 3 {
        120u32
    } else {
        100u32
    }
}

impl Bile {
    pub fn new(level: u8) -> (r: Self)
        ensures
            r.level == level,
            r.cooldown_remaining == 100,
    {
        Bile { level, cooldown_remaining: 100 }
    }
}

impl BasicGun for Bile {
    open spec fn spec_cooldown(&self) -> u32 {
        bile_cooldown(self.level)
    }

    open spec fn spec_damage(&self) -> i32 {
        1
    }

    open spec fn spec_projectile_speed(&self) -> u32 {
        100
    }

    open spec fn spec_bullet_health(&self) -> i32 {
        1
    }

    open spec fn spec_bullet_lifespan(&self) -> u32 {
        500
    }

    open spec fn spec_cooldown_left(&self) -> u32 {
        self.cooldown_remaining
    }

    proof fn stats_bounded(&self) {
    }

    fn cooldown(&self) -> u32 {
        if self.level == 0 {
            200
        } else if self.level == 1 {
            150
        } else if self.level == 2 {
            150
        } else if self.level == 3 {
            120
        } else {
            100
        }
    }

    fn damage(&self) -> i32 {
        1
    }

    fn projectile_velocity(&self) -> u32 {
        100
    }

    fn health(&self) -> i32 {
        1
    }

    fn bullet_lifespan(&self) -> u32 {
        500
    }

    fn cooldown_remaining(&self) -> u32 {
        self.cooldown_remaining
    }

    fn set_cooldown_remaining(&mut self, v: u32) {
        self.cooldown_remaining = v;
    }
}

/// One weapon's turn in the fixed-tick firing pass.
///
/// The weapon fires exactly when its aiming vector is resolved and its
/// countdown has reached zero: the countdown is re-armed at the
/// level-dependent cooldown and the returned spawn describes the new
/// projectile — aimed along the vector, damage scaled by munitions,
/// carrying the archetype's bullet health and lifespan. On every other
/// tick, aimed or not, the countdown counts the elapsed time off,
/// stopping at zero.
pub fn fire_step<T: BasicGun>(
    gun: &mut T,
    vector: &TargetVector,
    pos: Coord2D,
    fired_by: u64,
    team: Team,
    munitions: Option<&SpecialMunitions>,
    dt_ms: u32,
) -> (r: Option<ProjectileSpawn>)
    ensures
        final(gun).spec_cooldown() == old(gun).spec_cooldown(),
        final(gun).spec_damage() == old(gun).spec_damage(),
        final(gun).spec_projectile_speed() == old(gun).spec_projectile_speed(),
        final(gun).spec_bullet_health() == old(gun).spec_bullet_health(),
        final(gun).spec_bullet_lifespan() == old(gun).spec_bullet_lifespan(),
        r.is_some() <==> vector.0.is_some() && old(gun).spec_cooldown_left() == 0,
        vector.0.is_some() && old(gun).spec_cooldown_left() == 0 ==> {
            &&& final(gun).spec_cooldown_left() == old(gun).spec_cooldown()
            &&& r matches Some(s)
                && s.projectile.fired_by == fired_by
                && s.projectile.damage_amount == old(gun).spec_damage() * munitions_mult(
                    match munitions {
                        None => None,
                        Some(m) => Some(*m),
                    },
                )
                && s.projectile.size == HIT_RADIUS
                && s.pos == pos
                && Some(s.aim) == vector.0
                && s.speed == old(gun).spec_projectile_speed()
                && s.bullet_health == old(gun).spec_bullet_health()
                && s.lifespan == DespawnTimer(old(gun).spec_bullet_lifespan())
                && s.team == team
        },
        r.is_none()
            ==> final(gun).spec_cooldown_left() == if dt_ms >= old(gun).spec_cooldown_left() {
                0
            } else {
                old(gun).spec_cooldown_left() - dt_ms
            },
        final(gun).spec_cooldown_left() == gun_step(
            old(gun).spec_cooldown_left() as nat,
            old(gun).spec_cooldown() as nat,
            AimTick { dt: dt_ms as nat, aimed: vector.0.is_some() },
        ),
        r.is_some() == gun_fires(
            old(gun).spec_cooldown_left() as nat,
            AimTick { dt: dt_ms as nat, aimed: vector.0.is_some() },
        ),
{
    let left: u32 = gun.cooldown_remaining();
    let aim: (i64, i64) = match vector.0 {
        Some(a) => a,
        None => {
            if dt_ms >= left {
                gun.set_cooldown_remaining(0);
            } else {
                gun.set_cooldown_remaining(left - dt_ms);
            }
            return None;
        },
    };
    if left == 0 {
        let cd: u32 = gun.cooldown();
        gun.set_cooldown_remaining(cd);
        let mult: i32 = match munitions {
            Some(m) => m.damage_mult(),
            None => 1,
        };
        proof {
            gun.stats_bounded();
            assert(gun.spec_damage() * mult <= 1000 * 255 && gun.spec_damage() * mult
                >= -1000 * 255) by (nonlinear_arith)
                requires
                    0 < gun.spec_damage() <= 1000,
                    0 <= mult <= 255,
            ;
        }
        let damage: i32 = gun.damage() * mult;
        Some(ProjectileSpawn {
            projectile: Projectile {
                fired_by,
                damage_amount: damage,
                size: HIT_RADIUS,
            },
            pos,
            aim,
            speed: gun.projectile_velocity(),
            bullet_health: gun.health(),
            lifespan: DespawnTimer(gun.bullet_lifespan()),
            team,
        })
    } else {
        if dt_ms >= left {
            gun.set_cooldown_remaining(0);
        } else {
            gun.set_cooldown_remaining(left - dt_ms);
        }
        None
    }
}

/// One fixed tick as the cooldown law sees it: how much time passed and
/// whether the weapon had an aiming vector.
pub struct AimTick {
    pub dt: nat,
    pub aimed: bool,
}

/// Whether a weapon with `cd` milliseconds of countdown left fires on a
/// tick: only when aimed and fully cooled down — the mirror of
/// `fire_step`'s firing condition.
pub open spec fn gun_fires(cd: nat, tick: AimTick) -> bool {
    tick.aimed && cd == 0
}

/// The countdown after one tick: firing re-arms it at `cooldown`; every
/// other tick, aimed or not, counts `dt` off it, stopping at zero — the
/// mirror of `fire_step`'s countdown updates.
pub open spec fn gun_step(cd: nat, cooldown: nat, tick: AimTick) -> nat {
    if gun_fires(cd, tick) {
        cooldown
    } else if tick.dt >= cd {
        0
    } else {
        (cd - tick.dt) as nat
    }
}

/// The countdown left after a run of ticks.
pub open spec fn gun_run(cd: nat, cooldown: nat, ticks: Seq<AimTick>) -> nat
    decreases ticks.len(),
{
    if ticks.len() == 0 {
        cd
    } else {
        gun_run(gun_step(cd, cooldown, ticks[0]), cooldown, ticks.skip(1))
    }
}

/// The countdown at the start of tick `j`.
pub open spec fn cd_before(cd: nat, cooldown: nat, ticks: Seq<AimTick>, j: int) -> nat {
    gun_run(cd, cooldown, ticks.take(j))
}

/// Whether the weapon fires on tick `j` of the run.
pub open spec fn fires_at(cd: nat, cooldown: nat, ticks: Seq<AimTick>, j: int) -> bool {
    gun_fires(cd_before(cd, cooldown, ticks, j), ticks[j])
}

/// Total milliseconds elapsed over a run of ticks.
pub open spec fn total_dt(ticks: Seq<AimTick>) -> int
    decreases ticks.len(),
{
    if ticks.len() == 0 {
        0
    } else {
        ticks[0].dt + total_dt(ticks.skip(1))
    }
}

/// Dropping the first tick of a run moves every later tick's countdown
/// back by one position.
proof fn lemma_cd_before_shift(cd: nat, cooldown: nat, ticks: Seq<AimTick>, i: int)
    requires
        1 <= ticks.len(),
        0 <= i <= ticks.len() - 1,
    ensures
        cd_before(gun_step(cd, cooldown, ticks[0]), cooldown, ticks.skip(1), i)
            == cd_before(cd, cooldown, ticks, i + 1),
{
    assert(ticks.take(i + 1).skip(1) =~= ticks.skip(1).take(i));
    assert(ticks.take(i + 1)[0] == ticks[0]);
}

/// The countdown moves tick by tick: the countdown at `k + 1` is one
/// step from the countdown at `k`.
proof fn lemma_cd_before_succ(cd: nat, cooldown: nat, ticks: Seq<AimTick>, k: int)
    requires
        0 <= k < ticks.len(),
    ensures
        cd_before(cd, cooldown, ticks, k + 1)
            == gun_step(cd_before(cd, cooldown, ticks, k), cooldown, ticks[k]),
    decreases k,
{
    if k == 0 {
        assert(ticks.take(0) =~= Seq::<AimTick>::empty());
        assert(cd_before(cd, cooldown, ticks, 0) == cd);
        assert(ticks.take(1).skip(1) =~= Seq::<AimTick>::empty());
        assert(ticks.take(1)[0] == ticks[0]);
        assert(gun_run(cd, cooldown, ticks.take(1)) == gun_run(
            gun_step(cd, cooldown, ticks[0]),
            cooldown,
            ticks.take(1).skip(1),
        ));
        assert(cd_before(cd, cooldown, ticks, 1) == gun_step(cd, cooldown, ticks[0]));
    } else {
        let cd1 = gun_step(cd, cooldown, ticks[0]);
        lemma_cd_before_shift(cd, cooldown, ticks, k);
        lemma_cd_before_shift(cd, cooldown, ticks, k - 1);
        lemma_cd_before_succ(cd1, cooldown, ticks.skip(1), k - 1);
        assert(ticks.skip(1)[k - 1] == ticks[k]);
        assert(cd_before(cd1, cooldown, ticks.skip(1), k) == cd_before(cd, cooldown, ticks, k + 1));
        assert(cd_before(cd1, cooldown, ticks.skip(1), k - 1) == cd_before(cd, cooldown, ticks, k));
        assert(cd_before(cd1, cooldown, ticks.skip(1), k)
            == gun_step(cd_before(cd1, cooldown, ticks.skip(1), k - 1), cooldown, ticks.skip(1)[k - 1]));
    }
}

/// Until its first fire, a weapon's countdown has gone down by at most
/// the elapsed time.
proof fn lemma_first_fire_elapsed(cd: nat, cooldown: nat, ticks: Seq<AimTick>, j: int)
    requires
        0 <= j < ticks.len(),
        fires_at(cd, cooldown, ticks, j),
        forall|i: int| 0 <= i < j ==> !fires_at(cd, cooldown, ticks, i),
    ensures
        total_dt(ticks.take(j)) >= cd,
    decreases j,
{
    if j == 0 {
        assert(ticks.take(0) =~= Seq::<AimTick>::empty());
    } else {
        let cd1 = gun_step(cd, cooldown, ticks[0]);
        assert(ticks.take(0) =~= Seq::<AimTick>::empty());
        assert(!fires_at(cd, cooldown, ticks, 0));
        assert(cd1 >= cd - ticks[0].dt);
        assert forall|i: int| 0 <= i < j - 1 implies !fires_at(
            cd1,
            cooldown,
            ticks.skip(1),
            i,
        ) by {
            lemma_cd_before_shift(cd, cooldown, ticks, i);
            assert(!fires_at(cd, cooldown, ticks, i + 1));
            assert(ticks.skip(1)[i] == ticks[i + 1]);
        }
        lemma_cd_before_shift(cd, cooldown, ticks, j - 1);
        assert(ticks.skip(1)[j - 1] == ticks[j]);
        lemma_first_fire_elapsed(cd1, cooldown, ticks.skip(1), j - 1);
        assert(ticks.take(j).skip(1) =~= ticks.skip(1).take(j - 1));
        assert(ticks.take(j)[0] == ticks[0]);
        assert(total_dt(ticks.take(j)) == ticks[0].dt + total_dt(ticks.skip(1).take(j - 1)));
    }
}

/// A weapon never fires twice within its cooldown window: between any
/// two consecutive fires of the same weapon, the elapsed time is at
/// least the weapon's cooldown.
pub proof fn lemma_cooldown_respected(
    cd: nat,
    cooldown: nat,
    ticks: Seq<AimTick>,
    i: int,
    j: int,
)
    requires
        0 <= i < j < ticks.len(),
        fires_at(cd, cooldown, ticks, i),
        fires_at(cd, cooldown, ticks, j),
        forall|k: int| i < k < j ==> !fires_at(cd, cooldown, ticks, k),
    ensures
        total_dt(ticks.subrange(i + 1, j)) >= cooldown,
{
    lemma_cd_before_succ(cd, cooldown, ticks, i);
    let cd2 = cd_before(cd, cooldown, ticks, i + 1);
    assert(cd2 == cooldown);
    let rest = ticks.skip(i + 1);
    assert forall|m: int| 0 <= m <= ticks.len() - i - 1 implies cd_before(
        cd2,
        cooldown,
        rest,
        m,
    ) == cd_before(cd, cooldown, ticks, i + 1 + m) by {
        lemma_cd_before_split(cd, cooldown, ticks, i + 1, m);
    }
    assert(fires_at(cd2, cooldown, rest, j - i - 1)) by {
        assert(rest[j - i - 1] == ticks[j]);
    }
    assert forall|m: int| 0 <= m < j - i - 1 implies !fires_at(cd2, cooldown, rest, m) by {
        assert(rest[m] == ticks[i + 1 + m]);
        assert(!fires_at(cd, cooldown, ticks, i + 1 + m));
    }
    lemma_first_fire_elapsed(cd2, cooldown, rest, j - i - 1);
    assert(rest.take(j - i - 1) =~= ticks.subrange(i + 1, j));
}

/// The countdown partway through a run equals the countdown of the
/// suffix run started from the countdown at the split point.
proof fn lemma_cd_before_split(cd: nat, cooldown: nat, ticks: Seq<AimTick>, k: int, m: int)
    requires
        0 <= k <= ticks.len(),
        0 <= m <= ticks.len() - k,
    ensures
        cd_before(cd_before(cd, cooldown, ticks, k), cooldown, ticks.skip(k), m)
            == cd_before(cd, cooldown, ticks, k + m),
    decreases k,
{
    if k == 0 {
        assert(ticks.take(0) =~= Seq::<AimTick>::empty());
        assert(ticks.skip(0) =~= ticks);
    } else {
        let cd1 = gun_step(cd, cooldown, ticks[0]);
        lemma_cd_before_shift(cd, cooldown, ticks, k - 1);
        lemma_cd_before_split(cd1, cooldown, ticks.skip(1), k - 1, m);
        assert(ticks.skip(1).skip(k - 1) =~= ticks.skip(k));
        lemma_cd_before_shift(cd, cooldown, ticks, k + m - 1);
    }
}

} // verus!
