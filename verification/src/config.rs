//! Physics and window configuration, with the startup validation that
//! rejects constants under which the spawner could not place a reachable
//! platform.
use vstd::prelude::*;

use crate::MIN_GAP;
use crate::geom::within;

verus! {

/// Upper magnitude bound on every configuration field, so that the jump
/// reachability formula stays far from `i64` overflow.
pub const CONFIG_BOUND: i64 = 1_000_000;

/// Upper bound on the screen dimensions (10 000 px).
pub const SCREEN_BOUND: i64 = 10_000_000;

/// Mathematical value of a [`Config`].
pub ghost struct ConfigModel {
    pub gravity: int,
    pub jump_force: int,
    pub move_speed: int,
    pub coyote_max_ms: int,
    pub screen_w: int,
    pub screen_h: int,
}

/// Tuning constants of the simulation. Lengths and speeds are in
/// thousandths of a pixel (per tick for speeds); the grace period is in
/// milliseconds.
#[derive(Clone, Copy, PartialEq, Eq, Structural, Debug)]
pub struct Config {
    /// Downward velocity gained each tick; positive.
    pub gravity: i64,
    /// Vertical velocity set by a jump; negative (upwards).
    pub jump_force: i64,
    /// Horizontal speed while a direction key is held; non-negative.
    pub move_speed: i64,
    /// Length of the coyote-time grace period.
    pub coyote_max_ms: i64,
    /// Width of the visible window.
    pub screen_w: i64,
    /// Height of the visible window; falling past it loses the game.
    pub screen_h: i64,
}

impl View for Config {
    type V = ConfigModel;

    open spec fn view(&self) -> ConfigModel {
        ConfigModel {
            gravity: self.gravity as int,
            jump_force: self.jump_force as int,
            move_speed: self.move_speed as int,
            coyote_max_ms: self.coyote_max_ms as int,
            screen_w: self.screen_w as int,
            screen_h: self.screen_h as int,
        }
    }
}

/// Every field within its sane machine range: gravity strictly downward,
/// jump strictly upward, speeds and times non-negative, screen non-empty.
pub open spec fn config_in_range(c: ConfigModel) -> bool {
    &&& 1 <= c.gravity <= CONFIG_BOUND
    &&& -CONFIG_BOUND <= c.jump_force <= -1
    &&& 0 <= c.move_speed <= CONFIG_BOUND
    &&& 0 <= c.coyote_max_ms <= CONFIG_BOUND
    &&& 1 <= c.screen_w <= SCREEN_BOUND
    &&& 1 <= c.screen_h <= SCREEN_BOUND
}

/// Ticks from take-off to the apex of a jump.
pub open spec fn time_to_apex(c: ConfigModel) -> int {
    (-c.jump_force) / c.gravity
}

/// Horizontal reach of one full jump arc, with a ten-percent safety
/// margin: speed times the symmetric airtime, scaled by 9/10.
pub open spec fn max_jump_distance(c: ConfigModel) -> int {
    c.move_speed * (2 * time_to_apex(c)) * 9 / 10
}

/// A configuration the simulation accepts: in range, and with enough
/// jump reach that the smallest spawnable gap is always crossable.
pub open spec fn config_valid(c: ConfigModel) -> bool {
    config_in_range(c) && max_jump_distance(c) >= MIN_GAP
}

impl Config {
    /// Builds a configuration, rejecting exactly those constants that are
    /// out of machine range or whose jump physics cannot cross the
    /// smallest gap the spawner may emit.
    pub fn new(
        gravity: i64,
        jump_force: i64,
        move_speed: i64,
        coyote_max_ms: i64,
        screen_w: i64,
        screen_h: i64,
    ) -> (r: Option<Config>)
        ensures
            r is Some <==> config_valid(
                ConfigModel {
                    gravity: gravity as int,
                    jump_force: jump_force as int,
                    move_speed: move_speed as int,
                    coyote_max_ms: coyote_max_ms as int,
                    screen_w: screen_w as int,
                    screen_h: screen_h as int,
                },
            ),
            r is Some ==> (r->Some_0@ == (ConfigModel {
                gravity: gravity as int,
                jump_force: jump_force as int,
                move_speed: move_speed as int,
                coyote_max_ms: coyote_max_ms as int,
                screen_w: screen_w as int,
                screen_h: screen_h as int,
            })),
    {
        let in_range = 1 <= gravity && gravity <= CONFIG_BOUND
            && -CONFIG_BOUND <= jump_force && jump_force <= -1
            && 0 <= move_speed && move_speed <= CONFIG_BOUND
            && 0 <= coyote_max_ms && coyote_max_ms <= CONFIG_BOUND
            && 1 <= screen_w && screen_w <= SCREEN_BOUND
            && 1 <= screen_h && screen_h <= SCREEN_BOUND;
        if !in_range {
            return None;
        }
        let c = Config { gravity, jump_force, move_speed, coyote_max_ms, screen_w, screen_h };
        if c.max_jump_distance_exec() >= MIN_GAP {
            Some(c)
        } else {
            None
        }
    }

    /// The standard tuning of the game: half-pixel gravity, a 12-pixel
    /// jump impulse, 4 pixels per tick of run speed, a 150 ms grace
    /// period, on an 800 by 600 window.
    pub fn standard() -> (c: Config)
        ensures
            c@ == (ConfigModel {
                gravity: 500,
                jump_force: -12000,
                move_speed: 4000,
                coyote_max_ms: 150,
                screen_w: 800_000,
                screen_h: 600_000,
            }),
            config_valid(c@),
    {
        let c = Config {
            gravity: 500,
            jump_force: -12000,
            move_speed: 4000,
            coyote_max_ms: 150,
            screen_w: 800_000,
            screen_h: 600_000,
        };
        assert(config_valid(c@)) by {
            assert(time_to_apex(c@) == 24);
            assert(max_jump_distance(c@) == 172_800);
        }
        c
    }

    /// Whether this configuration passes startup validation: in range,
    /// with enough jump reach to cross the smallest spawnable gap.
    pub fn is_valid(&self) -> (r: bool)
        ensures
            r == config_valid(self@),
    {
        let in_range = 1 <= self.gravity && self.gravity <= CONFIG_BOUND
            && -CONFIG_BOUND <= self.jump_force && self.jump_force <= -1
            && 0 <= self.move_speed && self.move_speed <= CONFIG_BOUND
            && 0 <= self.coyote_max_ms && self.coyote_max_ms <= CONFIG_BOUND
            && 1 <= self.screen_w && self.screen_w <= SCREEN_BOUND
            && 1 <= self.screen_h && self.screen_h <= SCREEN_BOUND;
        if !in_range {
            return false;
        }
        self.max_jump_distance_exec() >= MIN_GAP
    }

    /// Computes [`max_jump_distance`] on machine integers.
    pub fn max_jump_distance_exec(&self) -> (r: i64)
        requires
            config_in_range(self@),
        ensures
            r as int == max_jump_distance(self@),
            0 <= r <= 2_000_000_000_000,
    {
        let t_up = (-self.jump_force) / self.gravity;
        assert(t_up as int == time_to_apex(self@)) by {
            assert(1 <= -self.jump_force <= CONFIG_BOUND);
        }
        assert(0 <= t_up <= CONFIG_BOUND) by {
            assert((-self.jump_force as int) / (self.gravity as int) >= 0) by (nonlinear_arith)
                requires
                    -self.jump_force as int >= 1,
                    self.gravity as int >= 1,
            ;
            assert((-self.jump_force as int) / (self.gravity as int) <= CONFIG_BOUND as int)
                by (nonlinear_arith)
                requires
                    1 <= -self.jump_force as int <= CONFIG_BOUND as int,
                    self.gravity as int >= 1,
            ;
        }
        let t_total = 2 * t_up;
        assert(0 <= self.move_speed as int * t_total as int
            <= CONFIG_BOUND as int * (2 * CONFIG_BOUND as int)) by (nonlinear_arith)
            requires
                0 <= self.move_speed as int <= CONFIG_BOUND as int,
                0 <= t_total as int <= 2 * CONFIG_BOUND as int,
        ;
        let reach = self.move_speed * t_total;
        reach * 9 / 10
    }
}

} // verus!
