//! The global guarantees of the simulation, stated and proved once over
//! the specification functions the executable contracts use.
use vstd::prelude::*;

use crate::PLAYER_SIZE;
use crate::collide::landing_hit;
use crate::collide::lemma_resolve_seq_still;
use crate::collide::player_hits_platform;
use crate::collide::resolve_one;
use crate::collide::resolve_seq;
use crate::entities::CoinModel;
use crate::entities::PlatformModel;
use crate::entities::platform_wf;
use crate::player::PlayerModel;
use crate::world::WorldModel;
use crate::world::coin_kept;
use crate::world::collect_all;
use crate::world::collect_one;
use crate::world::keep_coins;
use crate::world::keep_platforms;
use crate::world::pickups;
use crate::world::plat_kept;

verus! {

/// A falling player that was above a platform's top lands on it: if no
/// earlier platform in the list overlaps, resolution leaves the player's
/// bottom exactly on that platform's top, with no vertical velocity and
/// the grounded flag set. Earlier overlapping platforms are excluded
/// because single-pass resolution lets a later platform override an
/// earlier landing; the spawner's gap bounds make that simultaneous
/// overlap the rare case.
pub proof fn lemma_landing_resolution(p: PlayerModel, qs: Seq<PlatformModel>, i: int)
    requires
        0 <= i < qs.len(),
        forall|j: int| 0 <= j < i ==> !player_hits_platform(p, #[trigger] qs[j]),
        landing_hit(p, qs[i]),
    ensures
        resolve_seq(p, qs).pos.y + PLAYER_SIZE as int == qs[i].y,
        resolve_seq(p, qs).vel.y == 0,
        resolve_seq(p, qs).on_ground,
    decreases i,
{
    if i == 0 {
        let landed = resolve_one(p, qs[0]);
        assert(landed.vel.y == 0);
        lemma_resolve_seq_still(landed, qs.drop_first());
    } else {
        assert(!player_hits_platform(p, qs[0]));
        assert(resolve_one(p, qs[0]) == p);
        let rest = qs.drop_first();
        assert forall|j: int| 0 <= j < i - 1 implies !player_hits_platform(
            p,
            #[trigger] rest[j],
        ) by {
            assert(rest[j] == qs[j + 1]);
        }
        assert(rest[i - 1] == qs[i]);
        lemma_landing_resolution(p, rest, i - 1);
    }
}

/// Every platform that survives pruning satisfies the keep condition.
pub proof fn lemma_keep_platforms_all_kept(s: Seq<PlatformModel>, cam: int)
    ensures
        forall|i: int|
            0 <= i < keep_platforms(s, cam).len() ==> plat_kept(
                #[trigger] keep_platforms(s, cam)[i],
                cam,
            ),
    decreases s.len(),
{
    if s.len() > 0 {
        lemma_keep_platforms_all_kept(s.drop_last(), cam);
        let prev = keep_platforms(s.drop_last(), cam);
        assert forall|i: int| 0 <= i < keep_platforms(s, cam).len() implies plat_kept(
            #[trigger] keep_platforms(s, cam)[i],
            cam,
        ) by {
            if plat_kept(s.last(), cam) && i == prev.len() {
                assert(keep_platforms(s, cam)[i] == s.last());
            } else {
                assert(keep_platforms(s, cam)[i] == prev[i]);
            }
        }
    }
}

/// Pruning a list whose platforms all satisfy the keep condition removes
/// nothing.
pub proof fn lemma_keep_platforms_of_kept(s: Seq<PlatformModel>, cam: int)
    requires
        forall|i: int| 0 <= i < s.len() ==> plat_kept(#[trigger] s[i], cam),
    ensures
        keep_platforms(s, cam) == s,
    decreases s.len(),
{
    if s.len() > 0 {
        assert forall|i: int| 0 <= i < s.drop_last().len() implies plat_kept(
            #[trigger] s.drop_last()[i],
            cam,
        ) by {
            assert(s.drop_last()[i] == s[i]);
        }
        lemma_keep_platforms_of_kept(s.drop_last(), cam);
        assert(plat_kept(s[s.len() - 1], cam));
        assert(keep_platforms(s, cam) =~= s);
    }
}

/// Every coin that survives pruning satisfies the keep condition.
pub proof fn lemma_keep_coins_all_kept(s: Seq<CoinModel>, cam: int)
    ensures
        forall|i: int|
            0 <= i < keep_coins(s, cam).len() ==> coin_kept(#[trigger] keep_coins(s, cam)[i], cam),
    decreases s.len(),
{
    if s.len() > 0 {
        lemma_keep_coins_all_kept(s.drop_last(), cam);
        let prev = keep_coins(s.drop_last(), cam);
        assert forall|i: int| 0 <= i < keep_coins(s, cam).len() implies coin_kept(
            #[trigger] keep_coins(s, cam)[i],
            cam,
        ) by {
            if coin_kept(s.last(), cam) && i == prev.len() {
                assert(keep_coins(s, cam)[i] == s.last());
            } else {
                assert(keep_coins(s, cam)[i] == prev[i]);
            }
        }
    }
}

/// Pruning a list whose coins all satisfy the keep condition removes
/// nothing.
pub proof fn lemma_keep_coins_of_kept(s: Seq<CoinModel>, cam: int)
    requires
        forall|i: int| 0 <= i < s.len() ==> coin_kept(#[trigger] s[i], cam),
    ensures
        keep_coins(s, cam) == s,
    decreases s.len(),
{
    if s.len() > 0 {
        assert forall|i: int| 0 <= i < s.drop_last().len() implies coin_kept(
            #[trigger] s.drop_last()[i],
            cam,
        ) by {
            assert(s.drop_last()[i] == s[i]);
        }
        lemma_keep_coins_of_kept(s.drop_last(), cam);
        assert(coin_kept(s[s.len() - 1], cam));
        assert(keep_coins(s, cam) =~= s);
    }
}

/// Pruning keeps only platforms of the given list, in order: shape
/// discipline carries over and the list cannot grow.
pub proof fn lemma_keep_platforms_wf(s: Seq<PlatformModel>, cam: int)
    requires
        forall|i: int| 0 <= i < s.len() ==> platform_wf(#[trigger] s[i]),
    ensures
        keep_platforms(s, cam).len() <= s.len(),
        forall|i: int|
            0 <= i < keep_platforms(s, cam).len() ==> platform_wf(
                #[trigger] keep_platforms(s, cam)[i],
            ),
    decreases s.len(),
{
    if s.len() > 0 {
        assert forall|i: int| 0 <= i < s.drop_last().len() implies platform_wf(
            #[trigger] s.drop_last()[i],
        ) by {
            assert(s.drop_last()[i] == s[i]);
        }
        lemma_keep_platforms_wf(s.drop_last(), cam);
        let prev = keep_platforms(s.drop_last(), cam);
        if plat_kept(s.last(), cam) {
            assert forall|i: int| 0 <= i < keep_platforms(s, cam).len() implies platform_wf(
                #[trigger] keep_platforms(s, cam)[i],
            ) by {
                if i < prev.len() {
                    assert(keep_platforms(s, cam)[i] == prev[i]);
                } else {
                    assert(keep_platforms(s, cam)[i] == s.last());
                    assert(platform_wf(s[s.len() - 1]));
                }
            }
        }
    }
}

/// Pruning is idempotent: with the camera unmoved, a second prune pass
/// over the platform and coin lists removes nothing.
pub proof fn lemma_prune_idempotent(w: WorldModel, cam: int)
    ensures
        keep_platforms(keep_platforms(w.platforms, cam), cam) == keep_platforms(w.platforms, cam),
        keep_coins(keep_coins(w.coins, cam), cam) == keep_coins(w.coins, cam),
{
    lemma_keep_platforms_all_kept(w.platforms, cam);
    lemma_keep_platforms_of_kept(keep_platforms(w.platforms, cam), cam);
    lemma_keep_coins_all_kept(w.coins, cam);
    lemma_keep_coins_of_kept(keep_coins(w.coins, cam), cam);
}

/// A coin collects at most once: a second pickup pass by the same player
/// changes no coin and scores nothing, so touching an already collected
/// coin never increments the score again.
pub proof fn lemma_collect_idempotent(s: Seq<CoinModel>, p: PlayerModel)
    ensures
        collect_all(collect_all(s, p), p) == collect_all(s, p),
        pickups(collect_all(s, p), p) == 0,
    decreases s.len(),
{
    assert forall|c: CoinModel| #[trigger] collect_one(collect_one(c, p), p) == collect_one(
        c,
        p,
    ) by {}
    assert(collect_all(collect_all(s, p), p) =~= collect_all(s, p));
    if s.len() > 0 {
        lemma_collect_idempotent(s.drop_last(), p);
        assert(collect_all(s, p).drop_last() =~= collect_all(s.drop_last(), p));
        assert(collect_all(s, p).last() == collect_one(s.last(), p));
        assert(pickups(collect_all(s, p), p) == pickups(collect_all(s.drop_last(), p), p));
    }
}

} // verus!
