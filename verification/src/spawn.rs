//! Procedural platform generation: the next platform is placed a random
//! but always-reachable gap to the right of the last one, at a bounded
//! vertical step, clamped to the playable band. Reachability is enforced
//! purely through the jump-distance bound, never by pathfinding.
use vstd::prelude::*;

use crate::BAND_MAX;
use crate::BAND_MIN;
use crate::BIG_WIDTH;
use crate::CALC_BOUND;
use crate::GAP_CAP;
use crate::MIN_GAP;
use crate::PLATFORM_HEIGHT;
use crate::SMALL_WIDTH;
use crate::Y_STEP;
use crate::config::Config;
use crate::config::ConfigModel;
use crate::config::config_valid;
use crate::config::max_jump_distance;
use crate::entities::Platform;
use crate::entities::PlatformKind;
use crate::entities::PlatformModel;
use crate::entities::platform_wf;
use crate::entities::platform_within;
use crate::entities::right_edge;
use crate::geom::Vec2;

verus! {

/// The largest gap the spawner may leave: the jump reach, clamped to the
/// global cap.
pub open spec fn gap_upper(c: ConfigModel) -> int {
    if max_jump_distance(c) < (GAP_CAP as int) {
        max_jump_distance(c)
    } else {
        GAP_CAP as int
    }
}

/// Lowest top the next platform may get: one vertical step above the
/// last one, clamped to the playable band.
pub open spec fn y_low(last_y: int) -> int {
    if last_y - (Y_STEP as int) > (BAND_MIN as int) {
        last_y - (Y_STEP as int)
    } else {
        BAND_MIN as int
    }
}

/// Highest top the next platform may get, clamped likewise.
pub open spec fn y_high(last_y: int) -> int {
    if last_y + (Y_STEP as int) < (BAND_MAX as int) {
        last_y + (Y_STEP as int)
    } else {
        BAND_MAX as int
    }
}

/// Everything the spawner guarantees of a platform placed after `prev`:
/// well-formed, separated by a gap within the reachable window, and at a
/// vertical step of at most [`Y_STEP`] inside the band.
pub open spec fn chained(prev: PlatformModel, next: PlatformModel, c: ConfigModel) -> bool {
    &&& platform_wf(next)
    &&& MIN_GAP as int <= next.x - right_edge(prev) <= gap_upper(c)
    &&& y_low(prev.y) <= next.y <= y_high(prev.y)
}

/// Relies on `rand::random_range` over the inclusive range `lo..=hi`: the
/// sampled value lies within that range, and the range is non-empty, so
/// the call cannot panic. Nothing more is assumed of the draw.
#[verifier::external_body]
fn rand_in_range(lo: i64, hi: i64) -> (r: i64)
    requires
        lo <= hi,
    ensures
        lo <= r <= hi,
{
    rand::random_range(lo..=hi)
}

/// Places the next platform after `last`: a random reachable gap to its
/// right, a random kind, and a random top within one vertical step,
/// clamped to the band.
pub fn spawn_platform(last: &Platform, cfg: &Config) -> (p: Platform)
    requires
        config_valid(cfg@),
        platform_wf(last@),
        platform_within(last@, CALC_BOUND as int),
    ensures
        chained(last@, p@, cfg@),
{
    let mjd = cfg.max_jump_distance_exec();
    let max_gap = if mjd < GAP_CAP { mjd } else { GAP_CAP };
    let gap = rand_in_range(MIN_GAP, max_gap);

    let kind = if rand_in_range(0, 1) == 0 {
        PlatformKind::Small
    } else {
        PlatformKind::Big
    };
    let width = match kind {
        PlatformKind::Small => SMALL_WIDTH,
        PlatformKind::Big => BIG_WIDTH,
    };

    let lo = last.pos.y - Y_STEP;
    let min_y = if lo > BAND_MIN { lo } else { BAND_MIN };
    let hi = last.pos.y + Y_STEP;
    let max_y = if hi < BAND_MAX { hi } else { BAND_MAX };
    let y = rand_in_range(min_y, max_y);

    Platform {
        pos: Vec2 { x: last.pos.x + last.size.x + gap, y },
        size: Vec2 { x: width, y: PLATFORM_HEIGHT },
        kind,
    }
}

} // verus!
