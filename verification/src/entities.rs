//! The static world entities: platforms in two widths, coins, and the
//! fixed seed layout every run starts from.
use vstd::prelude::*;

use crate::BAND_MAX;
use crate::BAND_MIN;
use crate::BIG_WIDTH;
use crate::PLATFORM_HEIGHT;
use crate::SMALL_WIDTH;
use crate::geom::Vec2;
use crate::geom::V2;
use crate::geom::within;

verus! {

/// The two platform widths the spawner chooses between.
#[derive(Clone, Copy, PartialEq, Eq, Structural, Debug)]
pub enum PlatformKind {
    Small,
    Big,
}

/// Pixel width (in thousandths) that each platform kind must have.
pub open spec fn width_of(kind: PlatformKind) -> int {
    match kind {
        PlatformKind::Small => SMALL_WIDTH as int,
        PlatformKind::Big => BIG_WIDTH as int,
    }
}

/// Mathematical value of a [`Platform`].
pub ghost struct PlatformModel {
    pub x: int,
    pub y: int,
    pub w: int,
    pub h: int,
    pub kind: PlatformKind,
}

/// A static, axis-aligned platform. `pos` is its top-left corner.
#[derive(Clone, Copy, PartialEq, Eq, Structural, Debug)]
pub struct Platform {
    pub pos: Vec2,
    pub size: Vec2,
    pub kind: PlatformKind,
}

impl View for Platform {
    type V = PlatformModel;

    open spec fn view(&self) -> PlatformModel {
        PlatformModel {
            x: self.pos.x as int,
            y: self.pos.y as int,
            w: self.size.x as int,
            h: self.size.y as int,
            kind: self.kind,
        }
    }
}

/// World-space x of the platform's right edge.
pub open spec fn right_edge(p: PlatformModel) -> int {
    p.x + p.w
}

/// Shape discipline every platform obeys: its size follows its kind, and
/// its top sits inside the playable vertical band.
pub open spec fn platform_wf(p: PlatformModel) -> bool {
    &&& p.w == width_of(p.kind)
    &&& p.h == PLATFORM_HEIGHT as int
    &&& BAND_MIN as int <= p.y <= BAND_MAX as int
}

/// The platform's coordinates within the given magnitude bound (its
/// extent is already fixed by [`platform_wf`]).
pub open spec fn platform_within(p: PlatformModel, bound: int) -> bool {
    within(p.x, bound) && within(p.y, bound)
}

/// Mathematical value of a [`Coin`].
pub ghost struct CoinModel {
    pub x: int,
    pub y: int,
    pub collected: bool,
}

/// A 16 by 16 pixel coin; once collected it never earns again.
#[derive(Clone, Copy, PartialEq, Eq, Structural, Debug)]
pub struct Coin {
    pub pos: Vec2,
    pub collected: bool,
}

impl View for Coin {
    type V = CoinModel;

    open spec fn view(&self) -> CoinModel {
        CoinModel { x: self.pos.x as int, y: self.pos.y as int, collected: self.collected }
    }
}

/// The coin's position within the given magnitude bound.
pub open spec fn coin_within(c: CoinModel, bound: int) -> bool {
    within(c.x, bound) && within(c.y, bound)
}

/// Views of a whole platform list.
pub open spec fn platforms_model(s: Seq<Platform>) -> Seq<PlatformModel> {
    s.map_values(|p: Platform| p@)
}

/// Views of a whole coin list.
pub open spec fn coins_model(s: Seq<Coin>) -> Seq<CoinModel> {
    s.map_values(|c: Coin| c@)
}

/// The fixed layout a run starts from: one big platform at ground level
/// and two small ones stepping up to the right.
pub open spec fn seed_platforms_spec() -> Seq<PlatformModel> {
    seq![
        PlatformModel { x: 0, y: 400_000, w: BIG_WIDTH as int, h: PLATFORM_HEIGHT as int, kind: PlatformKind::Big },
        PlatformModel { x: 300_000, y: 300_000, w: SMALL_WIDTH as int, h: PLATFORM_HEIGHT as int, kind: PlatformKind::Small },
        PlatformModel { x: 500_000, y: 200_000, w: SMALL_WIDTH as int, h: PLATFORM_HEIGHT as int, kind: PlatformKind::Small },
    ]
}

/// The two coins that accompany the seed layout, hovering over the two
/// small platforms.
pub open spec fn seed_coins_spec() -> Seq<CoinModel> {
    seq![
        CoinModel { x: 340_000, y: 284_000, collected: false },
        CoinModel { x: 540_000, y: 184_000, collected: false },
    ]
}

/// Builds the seed platform list.
pub fn seed_platforms() -> (v: Vec<Platform>)
    ensures
        platforms_model(v@) == seed_platforms_spec(),
{
    let mut v: Vec<Platform> = Vec::new();
    v.push(Platform {
        pos: Vec2 { x: 0, y: 400_000 },
        size: Vec2 { x: BIG_WIDTH, y: PLATFORM_HEIGHT },
        kind: PlatformKind::Big,
    });
    v.push(Platform {
        pos: Vec2 { x: 300_000, y: 300_000 },
        size: Vec2 { x: SMALL_WIDTH, y: PLATFORM_HEIGHT },
        kind: PlatformKind::Small,
    });
    v.push(Platform {
        pos: Vec2 { x: 500_000, y: 200_000 },
        size: Vec2 { x: SMALL_WIDTH, y: PLATFORM_HEIGHT },
        kind: PlatformKind::Small,
    });
    proof {
        assert(platforms_model(v@) =~= seed_platforms_spec());
    }
    v
}

/// Builds the seed coin list.
pub fn seed_coins() -> (v: Vec<Coin>)
    ensures
        coins_model(v@) == seed_coins_spec(),
{
    let mut v: Vec<Coin> = Vec::new();
    v.push(Coin { pos: Vec2 { x: 340_000, y: 284_000 }, collected: false });
    v.push(Coin { pos: Vec2 { x: 540_000, y: 184_000 }, collected: false });
    proof {
        assert(coins_model(v@) =~= seed_coins_spec());
    }
    v
}

} // verus!
