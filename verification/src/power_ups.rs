//! Power-ups: the closed set of upgrades a ship can carry, the
//! six-slot inventory with its add/find rules, and the pickup and
//! choice-menu logic built on them.

use vstd::prelude::*;
use rand::seq::SliceRandom;

verus! {

use crate::geometry::{Coord2D, dist_sq};
use crate::rng::chance;

/// Every upgrade a ship (player or enemy) can carry.
#[derive(Clone, Copy, PartialEq, Eq, Structural, Debug)]
pub enum PowerUpType {
    /// Shoots a single blob.
    PeaShooter,
    /// Shoots a constant barrage of fire.
    MachineGun,
    /// Shoots a single high-power bullet.
    Sniper,
    /// Shoots a spray of green bile.
    Bile,
    /// Adds extra health on top of current health.
    Overshield,
    /// Increases the damage of all weapons.
    SpecialMunitions,
}

/// A carried power-up: its kind and its level.
#[derive(Clone, Copy, PartialEq, Eq, Structural, Debug)]
pub struct Powerup {
    pub power: PowerUpType,
    pub level: u8,
}

/// A ship's six power-up slots.
pub struct Powerups(pub [Option<Powerup>; 6]);

/// All power-up kinds, in declaration order.
pub open spec fn all_types() -> Seq<PowerUpType> {
    seq![
        PowerUpType::PeaShooter,
        PowerUpType::MachineGun,
        PowerUpType::Sniper,
        PowerUpType::Bile,
        PowerUpType::Overshield,
        PowerUpType::SpecialMunitions,
    ]
}

/// Does some slot hold a power-up of kind `t`?
pub open spec fn has_power(s: Seq<Option<Powerup>>, t: PowerUpType) -> bool {
    exists|i: int| 0 <= i < s.len() && slot_holds(s[i], t)
}

/// Does this slot hold a power-up of kind `t`?
pub open spec fn slot_holds(slot: Option<Powerup>, t: PowerUpType) -> bool {
    match slot {
        Some(p) => p.power == t,
        None => false,
    }
}

/// How many slots from `i` on are empty.
pub open spec fn empty_slots_from(s: Seq<Option<Powerup>>, i: int) -> int
    decreases s.len() - i,
{
    if i < 0 || i >= s.len() {
        0
    } else {
        (if s[i].is_none() { 1int } else { 0int }) + empty_slots_from(s, i + 1)
    }
}

/// The kinds held in the slots from `i` on, in slot order.
pub open spec fn powers_from(s: Seq<Option<Powerup>>, i: int) -> Seq<PowerUpType>
    decreases s.len() - i,
{
    if i < 0 || i >= s.len() {
        Seq::empty()
    } else {
        (match s[i] {
            Some(p) => seq![p.power],
            None => Seq::empty(),
        }) + powers_from(s, i + 1)
    }
}

/// The power-ups held in the slots from `i` on, in slot order.
pub open spec fn carried_from(s: Seq<Option<Powerup>>, i: int) -> Seq<Powerup>
    decreases s.len() - i,
{
    if i < 0 || i >= s.len() {
        Seq::empty()
    } else {
        (match s[i] {
            Some(p) => seq![p],
            None => Seq::empty(),
        }) + carried_from(s, i + 1)
    }
}

/// Of `types`, those kinds that no slot holds, in the order given.
pub open spec fn keep_unused(s: Seq<Option<Powerup>>, types: Seq<PowerUpType>) -> Seq<PowerUpType>
    decreases types.len(),
{
    if types.len() == 0 {
        Seq::empty()
    } else {
        (if has_power(s, types[0]) {
            Seq::empty()
        } else {
            seq![types[0]]
        }) + keep_unused(s, types.skip(1))
    }
}

impl Default for Powerups {
    /// A ship starts with every slot empty.
    fn default() -> (r: Self)
        ensures
            r.0@.len() == 6,
            forall|i: int| 0 <= i < 6 ==> #[trigger] r.0@[i].is_none(),
    {
        Powerups([None, None, None, None, None, None])
    }
}

impl Powerups {
    /// How many slots are still free.
    pub fn unused_slots(&self) -> (r: usize)
        ensures
            r == empty_slots_from(self.0@, 0),
    {
        let mut count: usize = 0;
        let mut i: usize = 0;
        while i < 6
            invariant
                0 <= i <= 6,
                self.0@.len() == 6,
                count <= i,
                count + empty_slots_from(self.0@, i as int) == empty_slots_from(self.0@, 0),
            decreases 6 - i,
        {
            if self.0[i].is_none() {
                count = count + 1;
            }
            i = i + 1;
        }
        count
    }

    /// The power-up of kind `t` this ship carries: the first slot
    /// holding that kind, or `None` when no slot does.
    pub fn get_powerup(&self, power_type: PowerUpType) -> (r: Option<Powerup>)
        ensures
            r.is_none() <==> !has_power(self.0@, power_type),
            r matches Some(p) ==> exists|j: int|
                0 <= j < self.0@.len()
                && self.0@[j] == Some(p)
                && slot_holds(#[trigger] self.0@[j], power_type)
                && forall|i: int| 0 <= i < j ==> !slot_holds(#[trigger] self.0@[i], power_type),
    {
        let mut i: usize = 0;
        while i < 6
            invariant
                0 <= i <= 6,
                self.0@.len() == 6,
                forall|k: int| 0 <= k < i ==> !slot_holds(#[trigger] self.0@[k], power_type),
            decreases 6 - i,
        {
            match self.0[i] {
                Some(p) => {
                    if p.power == power_type {
                        return Some(p);
                    }
                },
                None => {},
            }
            i = i + 1;
        }
        None
    }

    /// Take one more of kind `t`: a kind already carried levels up in
    /// place (in its first slot); a new kind fills the first free slot
    /// at level one; with every slot full and the kind not carried,
    /// nothing changes.
    pub fn add_powerup(&mut self, power_type: PowerUpType)
        requires
            forall|i: int| 0 <= i < old(self).0@.len()
                ==> (match #[trigger] old(self).0@[i] {
                    Some(p) => p.power == power_type ==> p.level < 255,
                    None => true,
                }),
        ensures
            final(self).0@.len() == old(self).0@.len(),
            has_power(old(self).0@, power_type) ==> exists|j: int|
                0 <= j < old(self).0@.len()
                && slot_holds(#[trigger] old(self).0@[j], power_type)
                && (forall|i: int| 0 <= i < j ==> !slot_holds(#[trigger] old(self).0@[i], power_type))
                && final(self).0@ == old(self).0@.update(j, Some(Powerup {
                    power: power_type,
                    level: (old(self).0@[j].unwrap().level + 1) as u8,
                })),
            !has_power(old(self).0@, power_type)
                && (exists|k: int| 0 <= k < old(self).0@.len() && old(self).0@[k].is_none())
                ==> exists|k: int|
                    0 <= k < old(self).0@.len()
                    && #[trigger] old(self).0@[k].is_none()
                    && (forall|i: int| 0 <= i < k ==> !old(self).0@[i].is_none())
                    && final(self).0@ == old(self).0@.update(k, Some(Powerup {
                        power: power_type,
                        level: 1,
                    })),
            !has_power(old(self).0@, power_type)
                && (forall|k: int| 0 <= k < old(self).0@.len()
                    ==> !(#[trigger] old(self).0@[k].is_none()))
                ==> final(self).0@ == old(self).0@,
    {
        let mut i: usize = 0;
        while i < 6
            invariant
                0 <= i <= 6,
                self.0@.len() == 6,
                *self == *old(self),
                forall|k: int| 0 <= k < i ==> !slot_holds(#[trigger] self.0@[k], power_type),
                forall|k: int| 0 <= k < old(self).0@.len()
                    ==> (match #[trigger] old(self).0@[k] {
                        Some(p) => p.power == power_type ==> p.level < 255,
                        None => true,
                    }),
            decreases 6 - i,
        {
            match self.0[i] {
                Some(p) => {
                    if p.power == power_type {
                        self.0[i] = Some(Powerup { power: p.power, level: p.level + 1 });
                        proof {
                            assert(slot_holds(old(self).0@[i as int], power_type));
                            assert(self.0@ =~= old(self).0@.update(i as int, Some(Powerup {
                                power: power_type,
                                level: (old(self).0@[i as int].unwrap().level + 1) as u8,
                            })));
                        }
                        return;
                    }
                },
                None => {},
            }
            i = i + 1;
        }
        let mut k: usize = 0;
        while k < 6
            invariant
                0 <= k <= 6,
                self.0@.len() == 6,
                *self == *old(self),
                !has_power(self.0@, power_type),
                forall|m: int| 0 <= m < k ==> !(#[trigger] self.0@[m].is_none()),
            decreases 6 - k,
        {
            if self.0[k].is_none() {
                self.0[k] = Some(Powerup { power: power_type, level: 1 });
                proof {
                    assert(self.0@ =~= old(self).0@.update(k as int, Some(Powerup {
                        power: power_type,
                        level: 1,
                    })));
                }
                return;
            }
            k = k + 1;
        }
    }

    /// The kinds this ship carries, in slot order.
    pub fn current_powerups(&self) -> (r: Vec<PowerUpType>)
        ensures
            r@ == powers_from(self.0@, 0),
    {
        let mut r: Vec<PowerUpType> = Vec::new();
        let mut i: usize = 0;
        while i < 6
            invariant
                0 <= i <= 6,
                self.0@.len() == 6,
                r@ + powers_from(self.0@, i as int) == powers_from(self.0@, 0),
            decreases 6 - i,
        {
            match self.0[i] {
                Some(p) => {
                    proof {
                        assert(r@.push(p.power) + powers_from(self.0@, i + 1)
                            =~= r@ + powers_from(self.0@, i as int));
                    }
                    r.push(p.power);
                },
                None => {
                    proof {
                        assert(r@ + powers_from(self.0@, i + 1)
                            =~= r@ + powers_from(self.0@, i as int));
                    }
                },
            }
            i = i + 1;
        }
        proof {
            assert(r@ + powers_from(self.0@, 6) =~= r@);
        }
        r
    }

    /// The power-ups this ship carries, with their levels, in slot
    /// order — what the manager walks to attach weapon components.
    pub fn grants(&self) -> (r: Vec<Powerup>)
        ensures
            r@ == carried_from(self.0@, 0),
    {
        let mut r: Vec<Powerup> = Vec::new();
        let mut i: usize = 0;
        while i < 6
            invariant
                0 <= i <= 6,
                self.0@.len() == 6,
                r@ + carried_from(self.0@, i as int) == carried_from(self.0@, 0),
            decreases 6 - i,
        {
            match self.0[i] {
                Some(p) => {
                    proof {
                        assert(r@.push(p) + carried_from(self.0@, i + 1)
                            =~= r@ + carried_from(self.0@, i as int));
                    }
                    r.push(p);
                },
                None => {
                    proof {
                        assert(r@ + carried_from(self.0@, i + 1)
                            =~= r@ + carried_from(self.0@, i as int));
                    }
                },
            }
            i = i + 1;
        }
        proof {
            assert(r@ + carried_from(self.0@, 6) =~= r@);
        }
        r
    }

    /// The kinds this ship does not carry yet, in declaration order.
    pub fn get_unused_powerup_types(&self) -> (r: Vec<PowerUpType>)
        ensures
            r@ == keep_unused(self.0@, all_types()),
    {
        let types: Vec<PowerUpType> = all_power_up_types();
        let mut r: Vec<PowerUpType> = Vec::new();
        proof {
            assert(types@.skip(0) =~= types@);
        }
        let mut i: usize = 0;
        while i < types.len()
            invariant
                0 <= i <= types@.len(),
                types@ == all_types(),
                self.0@.len() == 6,
                r@ + keep_unused(self.0@, types@.skip(i as int)) == keep_unused(self.0@, types@),
            decreases types@.len() - i,
        {
            proof {
                assert(types@.skip(i as int)[0] == types@[i as int]);
                assert(types@.skip(i as int).skip(1) =~= types@.skip(i + 1));
            }
            if self.get_powerup(types[i]).is_none() {
                proof {
                    assert(r@.push(types@[i as int]) + keep_unused(self.0@, types@.skip(i + 1))
                        =~= r@ + keep_unused(self.0@, types@.skip(i as int)));
                }
                r.push(types[i]);
            } else {
                proof {
                    assert(r@ + keep_unused(self.0@, types@.skip(i + 1))
                        =~= r@ + keep_unused(self.0@, types@.skip(i as int)));
                }
            }
            i = i + 1;
        }
        proof {
            assert(types@.skip(6) =~= Seq::<PowerUpType>::empty());
            assert(r@ + keep_unused(self.0@, types@.skip(6)) =~= r@);
        }
        r
    }
}

/// Every power-up kind, in declaration order.
pub fn all_power_up_types() -> (r: Vec<PowerUpType>)
    ensures
        r@ == all_types(),
{
    let mut r: Vec<PowerUpType> = Vec::new();
    r.push(PowerUpType::PeaShooter);
    r.push(PowerUpType::MachineGun);
    r.push(PowerUpType::Sniper);
    r.push(PowerUpType::Bile);
    r.push(PowerUpType::Overshield);
    r.push(PowerUpType::SpecialMunitions);
    proof {
        assert(r@ =~= all_types());
    }
    r
}

/// `base` repeated `n` times, one after another.
pub open spec fn repeated(base: Seq<PowerUpType>, n: nat) -> Seq<PowerUpType>
    decreases n,
{
    if n == 0 {
        Seq::empty()
    } else {
        base + repeated(base, (n - 1) as nat)
    }
}

/// The pool the choice menu draws from: the kinds already carried, then
/// — once for every free slot — every kind not carried yet. A full
/// inventory therefore only offers what the ship already has, while
/// free slots weigh fresh kinds in.
pub fn choice_pool(powerups: &Powerups) -> (r: Vec<PowerUpType>)
    ensures
        r@ == powers_from(powerups.0@, 0)
            + repeated(keep_unused(powerups.0@, all_types()), empty_slots_from(powerups.0@, 0) as nat),
{
    let mut r: Vec<PowerUpType> = powerups.current_powerups();
    let unused: Vec<PowerUpType> = powerups.get_unused_powerup_types();
    let slots: usize = powerups.unused_slots();
    let ghost base: Seq<PowerUpType> = keep_unused(powerups.0@, all_types());
    let mut n: usize = 0;
    while n < slots
        invariant
            0 <= n <= slots,
            unused@ == base,
            r@ == powers_from(powerups.0@, 0) + repeated(base, n as nat),
        decreases slots - n,
    {
        let mut j: usize = 0;
        while j < unused.len()
            invariant
                0 <= j <= unused@.len(),
                unused@ == base,
                r@ == powers_from(powerups.0@, 0) + repeated(base, n as nat) + base.take(j as int),
            decreases unused@.len() - j,
        {
            proof {
                assert(base.take(j + 1) =~= base.take(j as int).push(base[j as int]));
                assert((powers_from(powerups.0@, 0) + repeated(base, n as nat)
                    + base.take(j as int)).push(base[j as int])
                    =~= powers_from(powerups.0@, 0) + repeated(base, n as nat) + base.take(j + 1));
            }
            r.push(unused[j]);
            j = j + 1;
        }
        proof {
            assert(base.take(unused@.len() as int) =~= base);
            assert(repeated(base, (n + 1) as nat) == repeated(base, n as nat) + base)
                by {
                    lemma_repeated_snoc(base, n as nat);
                };
            assert(powers_from(powerups.0@, 0) + repeated(base, n as nat) + base
                =~= powers_from(powerups.0@, 0) + repeated(base, (n + 1) as nat));
        }
        n = n + 1;
    }
    proof {
        assert(r@ =~= powers_from(powerups.0@, 0) + repeated(base, slots as nat));
    }
    r
}

/// Repetition can grow at either end: `n + 1` copies are `n` copies
/// followed by one more.
proof fn lemma_repeated_snoc(base: Seq<PowerUpType>, n: nat)
    ensures
        repeated(base, n + 1) == repeated(base, n) + base,
    decreases n,
{
    if n == 0 {
        assert(repeated(base, 0) =~= Seq::<PowerUpType>::empty());
        assert(repeated(base, 1) =~= base);
        assert(repeated(base, 0) + base =~= base);
    } else {
        lemma_repeated_snoc(base, (n - 1) as nat);
        assert(repeated(base, n + 1) == base + repeated(base, n));
        assert(base + (repeated(base, (n - 1) as nat) + base)
            =~= (base + repeated(base, (n - 1) as nat)) + base);
    }
}

/// Relies on rand's `SliceRandom::choose_multiple`: it draws
/// `min(amount, len)` elements at distinct indices of the slice, in an
/// order nothing is promised about, and never panics. Nothing is
/// assumed about which elements come back, only that each is one of
/// the options.
#[verifier::external_body]
pub fn choose_up_to(options: &Vec<PowerUpType>, amount: usize) -> (r: Vec<PowerUpType>)
    ensures
        r@.len() == if amount <= options@.len() { amount as int } else { options@.len() as int },
        forall|i: int| 0 <= i < r@.len()
            ==> exists|j: int| 0 <= j < options@.len() && options@[j] == #[trigger] r@[i],
{
    options.choose_multiple(&mut rand::thread_rng(), amount).copied().collect()
}

/// Squared distance inside which the player scoops up a supply crate.
pub const PICKUP_RADIUS_SQ: i128 = 1000;

/// Does the player overlap this pickup?
pub fn pickup_overlaps(player: &Coord2D, pickup: &Coord2D) -> (r: bool)
    ensures
        r <==> dist_sq(*player, *pickup) < PICKUP_RADIUS_SQ,
{
    player.dist_sq_to(pickup) < PICKUP_RADIUS_SQ
}

/// Decide whether a dying enemy drops a supply crate: only an enemy
/// whose body was found can drop one, and then with a three-in-ten
/// roll.
pub fn should_drop_pickup(position_known: bool) -> (r: bool)
    ensures
        !position_known ==> !r,
{
    if position_known {
        chance(3, 10)
    } else {
        false
    }
}

} // verus!
