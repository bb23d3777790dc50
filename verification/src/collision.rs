//! Broad-phase projectile collision: each bullet scans the opposing
//! team's entities and strikes the first one in iteration order inside
//! its hit radius.

use vstd::prelude::*;

verus! {

use crate::geometry::{Coord2D, dist_sq};

/// Payload a bullet carries: who fired it, how much it hurts, and the
/// radius inside which it strikes.
#[derive(Clone, Copy)]
pub struct Projectile {
    pub fired_by: u64,
    pub damage_amount: i32,
    pub size: u32,
}

/// One application of damage, queued for the health pipeline.
#[derive(Clone, Copy, PartialEq, Eq, Structural, Debug)]
pub struct DamageEvent {
    pub damaged_by: u64,
    pub applied_to: u64,
    pub amount: i32,
}

/// The per-bullet state the collision pass reads and writes: the bullet's
/// own hit-point counter (pass-through rounds survive several strikes)
/// and the entity struck most recently, which is skipped until the two
/// have moved apart.
pub struct BulletState {
    pub id: u64,
    pub pos: Coord2D,
    pub projectile: Projectile,
    pub health: i32,
    pub last_hit: Option<u64>,
}

/// What one collision pass decided for one bullet.
pub struct CollisionOutcome {
    /// Damage to deliver, if the bullet struck someone.
    pub damage: Option<DamageEvent>,
    /// The bullet's hit points ran out: remove it.
    pub despawn_bullet: bool,
    /// Where to place the short-lived impact effect.
    pub impact_at: Option<Coord2D>,
}

/// Can this bullet strike candidate `c`? Never itself, never its firer,
/// never the entity it struck last, and only within its hit radius.
pub open spec fn qualifies(b: BulletState, c: (u64, Coord2D)) -> bool {
    &&& c.0 != b.id
    &&& c.0 != b.projectile.fired_by
    &&& b.last_hit != Some(c.0)
    &&& dist_sq(b.pos, c.1) < (b.projectile.size as int) * (b.projectile.size as int)
}

/// Collide one bullet against the opposing team's entities.
///
/// The first qualifying candidate in iteration order is struck: the
/// bullet's hit-point counter decreases by exactly one, a damage event
/// for the declared amount is produced, an impact effect is placed at the
/// bullet's position, and the bullet is removed exactly when its counter
/// reaches zero — otherwise the struck entity is recorded so it is not
/// struck again before they separate. With no qualifying candidate
/// nothing changes.
pub fn collide_bullet(bullet: &mut BulletState, others: &Vec<(u64, Coord2D)>) -> (r: CollisionOutcome)
    requires
        old(bullet).health > i32::MIN,
    ensures
        final(bullet).id == old(bullet).id,
        final(bullet).pos == old(bullet).pos,
        final(bullet).projectile == old(bullet).projectile,
        (forall|i: int| 0 <= i < others@.len() ==> !qualifies(*old(bullet), #[trigger] others@[i]))
            ==> (*final(bullet) == *old(bullet)
                && r.damage.is_none()
                && !r.despawn_bullet
                && r.impact_at.is_none()),
        (exists|i: int| 0 <= i < others@.len() && qualifies(*old(bullet), #[trigger] others@[i]))
            ==> exists|j: int| {
                &&& 0 <= j < others@.len()
                &&& qualifies(*old(bullet), #[trigger] others@[j])
                &&& forall|i: int| 0 <= i < j ==> !qualifies(*old(bullet), #[trigger] others@[i])
                &&& final(bullet).health == old(bullet).health - 1
                &&& r.damage == Some(DamageEvent {
                    damaged_by: old(bullet).projectile.fired_by,
                    applied_to: others@[j].0,
                    amount: old(bullet).projectile.damage_amount,
                })
                &&& r.impact_at == Some(old(bullet).pos)
                &&& r.despawn_bullet <==> final(bullet).health <= 0
                &&& if final(bullet).health <= 0 {
                    final(bullet).last_hit == old(bullet).last_hit
                } else {
                    final(bullet).last_hit == Some(others@[j].0)
                }
            },
        old(bullet).health >= 1
            && (exists|i: int| 0 <= i < others@.len() && qualifies(*old(bullet), #[trigger] others@[i]))
            ==> (r.despawn_bullet <==> final(bullet).health == 0),
{
    proof {
        assert((bullet.projectile.size as int) * (bullet.projectile.size as int)
            <= 0xffff_ffff * 0xffff_ffff) by (nonlinear_arith)
            requires 0 <= bullet.projectile.size <= 0xffff_ffffu32,
        ;
    }
    let size_sq: i128 = (bullet.projectile.size as i128) * (bullet.projectile.size as i128);
    let mut i: usize = 0;
    while i < others.len()
        invariant
            0 <= i <= others@.len(),
            size_sq == (bullet.projectile.size as int) * (bullet.projectile.size as int),
            *bullet == *old(bullet),
            old(bullet).health > i32::MIN,
            forall|k: int| 0 <= k < i ==> !qualifies(*old(bullet), #[trigger] others@[k]),
        decreases others@.len() - i,
    {
        let (other_id, other_pos): (u64, Coord2D) = others[i];
        let skip: bool = other_id == bullet.id
            || other_id == bullet.projectile.fired_by
            || (match bullet.last_hit {
                Some(last) => last == other_id,
                None => false,
            });
        if !skip {
            let d: i128 = bullet.pos.dist_sq_to(&other_pos);
            if d < size_sq {
                bullet.health = bullet.health - 1;
                let despawn: bool = bullet.health <= 0;
                if !despawn {
                    bullet.last_hit = Some(other_id);
                }
                return CollisionOutcome {
                    damage: Some(DamageEvent {
                        damaged_by: bullet.projectile.fired_by,
                        applied_to: other_id,
                        amount: bullet.projectile.damage_amount,
                    }),
                    despawn_bullet: despawn,
                    impact_at: Some(bullet.pos),
                };
            }
        }
        i = i + 1;
    }
    CollisionOutcome { damage: None, despawn_bullet: false, impact_at: None }
}

} // verus!
