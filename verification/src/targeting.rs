//! Target acquisition and the per-tick aiming vector.
//!
//! Targets are ranked by Euclidean distance truncated to a whole number;
//! among equally ranked candidates the first in iteration order wins.

use vstd::prelude::*;

verus! {

use crate::geometry::{Coord2D, dist_sq, sqrt_floor};

/// The entity (by id) that a weapon is aiming at, if any.
pub struct Target(pub Option<u64>);

/// The unnormalized direction toward the current target, recomputed every
/// tick; `None` when there is no target, the target is gone, or it is out
/// of firing range. A weapon only fires while this is `Some`.
pub struct TargetVector(pub Option<(i64, i64)>);

/// Maximum distance at which this weapon's target vector resolves.
pub struct TargetDistance(pub u32);

/// Ranking key of candidate `i`: its truncated distance from `start`.
pub open spec fn target_key(start: Coord2D, s: Seq<(u64, Coord2D)>, i: int) -> nat {
    sqrt_floor(dist_sq(start, s[i].1) as nat)
}

/// Pick the closest of `candidates` (by truncated distance, first wins on
/// ties), or `None` when there are none. This is the whole-tick result of
/// player target selection; the caller stores it in `Target`.
pub fn select_target(start: &Coord2D, candidates: &Vec<(u64, Coord2D)>) -> (r: Option<u64>)
    ensures
        r.is_none() <==> candidates@.len() == 0,
        r matches Some(id) ==> exists|j: int|
            0 <= j < candidates@.len()
            && candidates@[j].0 == id
            && (forall|i: int| 0 <= i < candidates@.len()
                ==> #[trigger] target_key(*start, candidates@, i) >= target_key(*start, candidates@, j))
            && (forall|i: int| 0 <= i < j
                ==> #[trigger] target_key(*start, candidates@, i) > target_key(*start, candidates@, j)),
{
    if candidates.len() == 0 {
        return None;
    }
    let mut best: usize = 0;
    let mut best_key: u64 = start.trunc_dist_to(&candidates[0].1);
    let mut i: usize = 1;
    while i < candidates.len()
        invariant
            1 <= i <= candidates@.len(),
            0 <= best < i,
            best_key == target_key(*start, candidates@, best as int),
            forall|k: int| 0 <= k < i
                ==> #[trigger] target_key(*start, candidates@, k) >= best_key,
            forall|k: int| 0 <= k < best
                ==> #[trigger] target_key(*start, candidates@, k) > best_key,
        decreases candidates@.len() - i,
    {
        let key: u64 = start.trunc_dist_to(&candidates[i].1);
        if key < best_key {
            best = i;
            best_key = key;
        }
        i = i + 1;
    }
    Some(candidates[best].0)
}

/// Does the aiming range admit a target at squared distance
/// `dist_sq(s, t)`? With no configured range every distance is admitted;
/// a configured range admits strictly closer targets only.
pub open spec fn within_range(s: Coord2D, t: Coord2D, range: Option<TargetDistance>) -> bool {
    match range {
        None => true,
        Some(td) => (td.0 as int) * (td.0 as int) > dist_sq(s, t),
    }
}

/// Recompute the aiming vector for one entity from current positions.
///
/// A position of `None` means the entity was not found (despawned): the
/// vector then resolves to absent this tick, so a target that dangles
/// never leaves a stale aim behind. With both positions known the vector
/// is the planar difference `target - self`, gated by the firing range.
pub fn resolve_target_vector(
    target: &Target,
    self_pos: Option<&Coord2D>,
    target_pos: Option<&Coord2D>,
    range: Option<&TargetDistance>,
) -> (v: TargetVector)
    ensures
        target.0.is_none() ==> v.0.is_none(),
        target.0.is_some() ==> match (self_pos, target_pos) {
            (Some(s), Some(t)) => {
                let r = match range {
                    None => None,
                    Some(td) => Some(*td),
                };
                if within_range(*s, *t, r) {
                    v.0 == Some(((t.x as int - s.x as int) as i64, (t.y as int - s.y as int) as i64))
                } else {
                    v.0.is_none()
                }
            },
            _ => v.0.is_none(),
        },
{
    if target.0.is_none() {
        return TargetVector(None);
    }
    match (self_pos, target_pos) {
        (Some(s), Some(t)) => {
            let dx: i64 = (t.x as i64) - (s.x as i64);
            let dy: i64 = (t.y as i64) - (s.y as i64);
            let in_range: bool = match range {
                None => true,
                Some(td) => {
                    let d: i128 = s.dist_sq_to(t);
                    proof {
                        assert((td.0 as int) * (td.0 as int) <= 0xffff_ffff * 0xffff_ffff)
                            by (nonlinear_arith)
                            requires 0 <= td.0 <= 0xffff_ffffu32,
                        ;
                    }
                    (td.0 as i128) * (td.0 as i128) > d
                },
            };
            if in_range {
                TargetVector(Some((dx, dy)))
            } else {
                TargetVector(None)
            }
        },
        _ => TargetVector(None),
    }
}

} // verus!
