//! The one moving actor: gravity integration, horizontal input, and the
//! edge-triggered jump with its coyote-time grace period.
use vstd::prelude::*;

use crate::CALC_BOUND;
use crate::geom::Vec2;
use crate::geom::V2;
use crate::geom::within;

verus! {

/// Mathematical value of a [`Player`].
pub ghost struct PlayerModel {
    pub pos: V2,
    pub vel: V2,
    pub on_ground: bool,
}

/// The player: a 32 by 32 pixel body with position, velocity and a
/// grounded flag. Mutated in place every tick; reset, not replaced, on
/// restart.
#[derive(Clone, Copy, PartialEq, Eq, Structural, Debug)]
pub struct Player {
    pub pos: Vec2,
    pub vel: Vec2,
    pub on_ground: bool,
}

impl View for Player {
    type V = PlayerModel;

    open spec fn view(&self) -> PlayerModel {
        PlayerModel { pos: self.pos@, vel: self.vel@, on_ground: self.on_ground }
    }
}

/// All four player components within the given magnitude bound.
pub open spec fn player_within(p: PlayerModel, bound: int) -> bool {
    &&& within(p.pos.x, bound)
    &&& within(p.pos.y, bound)
    &&& within(p.vel.x, bound)
    &&& within(p.vel.y, bound)
}

/// Horizontal velocity chosen from the held direction keys: left wins
/// over right, and no key means an instant stop (no drag model).
pub open spec fn input_vel_x(left: bool, right: bool, move_speed: int) -> int {
    if left {
        -move_speed
    } else if right {
        move_speed
    } else {
        0
    }
}

/// The coyote timer after one tick: refilled while grounded, otherwise
/// run down by the elapsed time, deliberately without a lower clamp.
pub open spec fn coyote_step(timer: int, on_ground: bool, dt_ms: int, max_ms: int) -> int {
    if on_ground {
        max_ms
    } else {
        timer - dt_ms
    }
}

/// The player after a successful jump: full upward impulse, airborne.
pub open spec fn jumped(p: PlayerModel, jump_force: int) -> PlayerModel {
    PlayerModel { vel: V2 { x: p.vel.x, y: jump_force }, on_ground: false, ..p }
}

/// Semi-implicit Euler: gravity first, then the new velocity moves the
/// position. Displacement is per tick, not scaled by elapsed time.
pub open spec fn integrated(p: PlayerModel, gravity: int) -> PlayerModel {
    let vy = p.vel.y + gravity;
    PlayerModel {
        pos: V2 { x: p.pos.x + p.vel.x, y: p.pos.y + vy },
        vel: V2 { x: p.vel.x, y: vy },
        ..p
    }
}

impl Player {
    /// The player as a run begins: at (50, 300), motionless, airborne.
    pub open spec fn initial_spec() -> PlayerModel {
        PlayerModel {
            pos: V2 { x: 50_000, y: 300_000 },
            vel: V2 { x: 0, y: 0 },
            on_ground: false,
        }
    }

    /// Builds the starting player.
    pub fn initial() -> (p: Player)
        ensures
            p@ == Player::initial_spec(),
    {
        Player {
            pos: Vec2 { x: 50_000, y: 300_000 },
            vel: Vec2 { x: 0, y: 0 },
            on_ground: false,
        }
    }

    /// Sets the horizontal velocity straight from the held keys.
    pub fn apply_input(&mut self, left: bool, right: bool, move_speed: i64)
        requires
            move_speed >= 0,
        ensures
            final(self)@ == (PlayerModel {
                vel: V2 {
                    x: input_vel_x(left, right, move_speed as int),
                    y: old(self)@.vel.y,
                },
                ..old(self)@
            }),
    {
        if left {
            self.vel.x = -move_speed;
        } else if right {
            self.vel.x = move_speed;
        } else {
            self.vel.x = 0;
        }
    }

    /// One tick of gravity and movement.
    pub fn integrate(&mut self, gravity: i64)
        requires
            player_within(old(self)@, CALC_BOUND as int),
            0 <= gravity <= CALC_BOUND,
        ensures
            final(self)@ == integrated(old(self)@, gravity as int),
    {
        self.vel.y = self.vel.y + gravity;
        self.pos.x = self.pos.x + self.vel.x;
        self.pos.y = self.pos.y + self.vel.y;
    }
}

/// Runs the grace-period clock for one tick.
pub fn update_coyote(timer: &mut i64, on_ground: bool, dt_ms: i64, max_ms: i64)
    requires
        within(*old(timer) as int, CALC_BOUND as int),
        0 <= dt_ms <= CALC_BOUND,
        0 <= max_ms <= CALC_BOUND,
    ensures
        *final(timer) as int == coyote_step(*old(timer) as int, on_ground, dt_ms as int, max_ms as int),
{
    if on_ground {
        *timer = max_ms;
    } else {
        *timer = *timer - dt_ms;
    }
}

/// Applies a just-pressed jump: it succeeds exactly when some grace time
/// is left, gives the full upward impulse, and consumes the whole grace
/// period so a second press cannot jump again off the residue.
pub fn try_jump(player: &mut Player, timer: &mut i64, jump_pressed: bool, jump_force: i64)
    ensures
        jump_pressed && *old(timer) > 0 ==> {
            &&& final(player)@ == jumped(old(player)@, jump_force as int)
            &&& *final(timer) == 0
        },
        !(jump_pressed && *old(timer) > 0) ==> {
            &&& *final(player) == *old(player)
            &&& *final(timer) == *old(timer)
        },
{
    if jump_pressed && *timer > 0 {
        player.vel.y = jump_force;
        player.on_ground = false;
        *timer = 0;
    }
}

} // verus!
