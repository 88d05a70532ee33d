//! One-sided vertical collision resolution of the player against the
//! platform list: land on top when falling, bump the head when rising,
//! never resolve laterally. Platforms are processed once each, in list
//! order, without iterating to a fixpoint.
use vstd::prelude::*;

use crate::CALC_BOUND;
use crate::COIN_SIZE;
use crate::PLAYER_SIZE;
use crate::entities::Coin;
use crate::entities::CoinModel;
use crate::entities::Platform;
use crate::entities::PlatformModel;
use crate::entities::platform_wf;
use crate::entities::platform_within;
use crate::entities::platforms_model;
use crate::geom::rects_overlap;
use crate::geom::V2;
use crate::geom::within;
use crate::player::Player;
use crate::player::PlayerModel;
use crate::player::player_within;

verus! {

/// The player's hitbox shares area with the platform.
pub open spec fn player_hits_platform(p: PlayerModel, q: PlatformModel) -> bool {
    rects_overlap(p.pos.x, p.pos.y, PLAYER_SIZE as int, PLAYER_SIZE as int, q.x, q.y, q.w, q.h)
}

/// The player's hitbox shares area with the coin's.
pub open spec fn player_hits_coin(p: PlayerModel, c: CoinModel) -> bool {
    rects_overlap(
        p.pos.x, p.pos.y, PLAYER_SIZE as int, PLAYER_SIZE as int,
        c.x, c.y, COIN_SIZE as int, COIN_SIZE as int,
    )
}

/// A landing: the player overlaps while falling, and its bottom edge was
/// at or above the platform's top before this tick's displacement — a
/// swept test along the vertical axis only, which rules out tunneling
/// into a side collision.
pub open spec fn landing_hit(p: PlayerModel, q: PlatformModel) -> bool {
    &&& player_hits_platform(p, q)
    &&& p.vel.y > 0
    &&& p.pos.y + PLAYER_SIZE - p.vel.y <= q.y
}

/// A head bump: the player overlaps while rising, with its top at or
/// below the platform's underside.
pub open spec fn bump_hit(p: PlayerModel, q: PlatformModel) -> bool {
    &&& player_hits_platform(p, q)
    &&& p.vel.y < 0
    &&& p.pos.y >= q.y + q.h
}

/// Resolution against one platform: snap onto its top and ground the
/// player on a landing, snap under it on a bump, otherwise do nothing.
/// Purely horizontal overlap is deliberately left unresolved.
pub open spec fn resolve_one(p: PlayerModel, q: PlatformModel) -> PlayerModel {
    if landing_hit(p, q) {
        PlayerModel {
            pos: V2 { x: p.pos.x, y: q.y - PLAYER_SIZE },
            vel: V2 { x: p.vel.x, y: 0 },
            on_ground: true,
        }
    } else if bump_hit(p, q) {
        PlayerModel {
            pos: V2 { x: p.pos.x, y: q.y + q.h },
            vel: V2 { x: p.vel.x, y: 0 },
            ..p
        }
    } else {
        p
    }
}

/// Resolution against a whole list, in list order; a later platform sees
/// the player as already moved by the earlier ones.
pub open spec fn resolve_seq(p: PlayerModel, qs: Seq<PlatformModel>) -> PlayerModel
    decreases qs.len(),
{
    if qs.len() == 0 {
        p
    } else {
        resolve_seq(resolve_one(p, qs[0]), qs.drop_first())
    }
}

/// Appending one more platform resolves it last.
pub proof fn lemma_resolve_seq_push(p: PlayerModel, qs: Seq<PlatformModel>, q: PlatformModel)
    ensures
        resolve_seq(p, qs.push(q)) == resolve_one(resolve_seq(p, qs), q),
    decreases qs.len(),
{
    reveal_with_fuel(resolve_seq, 3);
    if qs.len() == 0 {
        assert(qs.push(q)[0] == q);
        assert(qs.push(q).drop_first() =~= qs);
    } else {
        assert(qs.push(q)[0] == qs[0]);
        assert(qs.push(q).drop_first() =~= qs.drop_first().push(q));
        lemma_resolve_seq_push(resolve_one(p, qs[0]), qs.drop_first(), q);
        assert(resolve_seq(p, qs.push(q))
            == resolve_seq(resolve_one(p, qs[0]), qs.drop_first().push(q)));
    }
}

/// A player with no vertical motion passes every platform untouched:
/// both resolution cases ask for a non-zero vertical velocity.
pub proof fn lemma_resolve_seq_still(p: PlayerModel, qs: Seq<PlatformModel>)
    requires
        p.vel.y == 0,
    ensures
        resolve_seq(p, qs) == p,
    decreases qs.len(),
{
    if qs.len() > 0 {
        lemma_resolve_seq_still(p, qs.drop_first());
    }
}

/// The same player with the grounded flag cleared, as each tick does
/// before re-deriving it from this tick's landings.
pub open spec fn ungrounded(p: PlayerModel) -> PlayerModel {
    PlayerModel { on_ground: false, ..p }
}

/// Player bounds loose enough to cover a body snapped onto any in-bounds
/// platform during resolution: a snap lands within one platform height
/// and one player height of the platform's own coordinate.
pub open spec fn resolve_bound() -> int {
    CALC_BOUND as int + 64_000
}

/// Resolution against one platform, on machine integers.
fn resolve_step(player: &mut Player, q: &Platform)
    requires
        within(old(player)@.pos.x, CALC_BOUND as int),
        within(old(player)@.pos.y, resolve_bound()),
        within(old(player)@.vel.x, CALC_BOUND as int),
        within(old(player)@.vel.y, CALC_BOUND as int),
        platform_wf(q@),
        platform_within(q@, CALC_BOUND as int),
    ensures
        final(player)@ == resolve_one(old(player)@, q@),
{
    let overlap = player.pos.x <= q.pos.x + q.size.x
        && player.pos.x + PLAYER_SIZE >= q.pos.x
        && player.pos.y <= q.pos.y + q.size.y
        && player.pos.y + PLAYER_SIZE >= q.pos.y;
    if overlap {
        if player.vel.y > 0 && player.pos.y + PLAYER_SIZE - player.vel.y <= q.pos.y {
            player.pos.y = q.pos.y - PLAYER_SIZE;
            player.vel.y = 0;
            player.on_ground = true;
        } else if player.vel.y < 0 && player.pos.y >= q.pos.y + q.size.y {
            player.pos.y = q.pos.y + q.size.y;
            player.vel.y = 0;
        }
    }
}

/// Clears the grounded flag, then resolves the player against every
/// platform in list order.
pub fn resolve_collisions(player: &mut Player, platforms: &Vec<Platform>)
    requires
        player_within(old(player)@, CALC_BOUND as int),
        forall|i: int| 0 <= i < platforms@.len() ==> platform_wf(#[trigger] platforms@[i]@),
        forall|i: int|
            0 <= i < platforms@.len() ==> platform_within(#[trigger] platforms@[i]@, CALC_BOUND as int),
    ensures
        final(player)@ == resolve_seq(ungrounded(old(player)@), platforms_model(platforms@)),
        final(player)@.pos.x == old(player)@.pos.x,
        final(player)@.vel.x == old(player)@.vel.x,
        within(final(player)@.pos.y, resolve_bound()),
        within(final(player)@.vel.y, CALC_BOUND as int),
{
    let mut cur: Player = *player;
    cur.on_ground = false;
    let ghost p0 = cur@;
    let ghost qs = platforms_model(platforms@);
    assert(qs.subrange(0, 0) =~= Seq::<PlatformModel>::empty());
    let mut i: usize = 0;
    while i < platforms.len()
        invariant
            0 <= i <= platforms@.len(),
            qs == platforms_model(platforms@),
            qs.len() == platforms@.len(),
            forall|j: int| 0 <= j < platforms@.len() ==> platform_wf(#[trigger] platforms@[j]@),
            forall|j: int|
                0 <= j < platforms@.len()
                    ==> platform_within(#[trigger] platforms@[j]@, CALC_BOUND as int),
            cur@ == resolve_seq(p0, qs.subrange(0, i as int)),
            cur@.pos.x == p0.pos.x,
            cur@.vel.x == p0.vel.x,
            p0.pos.x == old(player)@.pos.x,
            p0.vel.x == old(player)@.vel.x,
            within(cur@.pos.x, CALC_BOUND as int),
            within(cur@.pos.y, resolve_bound()),
            within(cur@.vel.x, CALC_BOUND as int),
            within(cur@.vel.y, CALC_BOUND as int),
        decreases platforms@.len() - i,
    {
        resolve_step(&mut cur, &platforms[i]);
        proof {
            assert(qs.subrange(0, i + 1) =~= qs.subrange(0, i as int).push(qs[i as int]));
            lemma_resolve_seq_push(p0, qs.subrange(0, i as int), qs[i as int]);
        }
        i = i + 1;
    }
    proof {
        assert(qs.subrange(0, qs.len() as int) =~= qs);
    }
    *player = cur;
}

} // verus!
