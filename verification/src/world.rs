//! The owned aggregate of all game state, the scrolling window that
//! spawns and prunes entities around the camera, coin pickup, and the
//! game-flow state machine that gates which subsystems run each tick.
use vstd::prelude::*;

use crate::BAND_MAX;
use crate::BAND_MIN;
use crate::BIG_WIDTH;
use crate::CALC_BOUND;
use crate::COIN_RISE;
use crate::GAP_CAP;
use crate::COIN_SIZE;
use crate::PLATFORM_HEIGHT;
use crate::PLAYER_SIZE;
use crate::MIN_GAP;
use crate::PRUNE_MARGIN;
use crate::SMALL_WIDTH;
use crate::STATE_BOUND;
use crate::config::Config;
use crate::config::ConfigModel;
use crate::config::config_valid;
use crate::collide::player_hits_coin;
use crate::collide::resolve_seq;
use crate::collide::ungrounded;
use crate::collide::resolve_collisions;
use crate::entities::Coin;
use crate::entities::CoinModel;
use crate::entities::Platform;
use crate::entities::PlatformKind;
use crate::entities::PlatformModel;
use crate::entities::coin_within;
use crate::entities::coins_model;
use crate::entities::platform_wf;
use crate::entities::platform_within;
use crate::entities::platforms_model;
use crate::entities::right_edge;
use crate::entities::seed_coins;
use crate::entities::seed_coins_spec;
use crate::entities::seed_platforms;
use crate::entities::seed_platforms_spec;
use crate::geom::Vec2;
use crate::geom::V2;
use crate::geom::within;
use crate::player::Player;
use crate::player::PlayerModel;
use crate::player::coyote_step;
use crate::player::input_vel_x;
use crate::player::integrated;
use crate::player::jumped;
use crate::player::player_within;
use crate::player::update_coyote;
use crate::player::try_jump;
use crate::spawn::chained;
use crate::spawn::spawn_platform;

verus! {

/// The logical actions sampled from the keyboard once per tick.
#[derive(Clone, Copy, PartialEq, Eq, Structural, Debug)]
pub struct Input {
    /// Move-left key held.
    pub left: bool,
    /// Move-right key held.
    pub right: bool,
    /// Jump key pressed this tick.
    pub jump: bool,
    /// Restart key pressed this tick.
    pub restart: bool,
}

impl Input {
    /// A tick with no key held or pressed.
    pub fn none() -> (i: Input)
        ensures
            i == (Input { left: false, right: false, jump: false, restart: false }),
    {
        Input { left: false, right: false, jump: false, restart: false }
    }
}

/// The game-flow states. A procedural run starts on the title screen;
/// the fixed-layout variant starts straight in play and can also win.
#[derive(Clone, Copy, PartialEq, Eq, Structural, Debug)]
pub enum GameState {
    TitleScreen,
    Playing,
    Win,
    GameOver,
}

/// Which variant of the game flow is running: endless procedural
/// generation, or a fixed layout that is won by collecting every coin.
#[derive(Clone, Copy, PartialEq, Eq, Structural, Debug)]
pub enum GameMode {
    Procedural,
    Fixed,
}

/// Mathematical value of a [`World`].
#[verifier::ext_equal]
pub ghost struct WorldModel {
    pub config: ConfigModel,
    pub mode: GameMode,
    pub state: GameState,
    pub player: PlayerModel,
    pub platforms: Seq<PlatformModel>,
    pub coins: Seq<CoinModel>,
    pub coyote_ms: int,
    pub score: int,
    pub highscore: int,
}

/// Every piece of game state, owned by the simulation loop and passed by
/// exclusive reference into each subsystem; no subsystem keeps a copy.
pub struct World {
    pub config: Config,
    pub mode: GameMode,
    pub state: GameState,
    pub player: Player,
    pub platforms: Vec<Platform>,
    pub coins: Vec<Coin>,
    pub coyote_ms: i64,
    pub score: u64,
    pub highscore: u64,
}

impl View for World {
    type V = WorldModel;

    open spec fn view(&self) -> WorldModel {
        WorldModel {
            config: self.config@,
            mode: self.mode,
            state: self.state,
            player: self.player@,
            platforms: platforms_model(self.platforms@),
            coins: coins_model(self.coins@),
            coyote_ms: self.coyote_ms as int,
            score: self.score as int,
            highscore: self.highscore as int,
        }
    }
}

/// The camera keeps the player a third of the screen from the left edge.
pub open spec fn camera_of(player_x: int, screen_w: int) -> int {
    player_x - screen_w / 3
}

/// A platform survives pruning while its right edge is no further than
/// [`PRUNE_MARGIN`] behind the camera.
pub open spec fn plat_kept(q: PlatformModel, cam: int) -> bool {
    right_edge(q) > cam - PRUNE_MARGIN as int
}

/// A coin survives pruning while it trails the camera by no more than
/// the margin and has not been collected.
pub open spec fn coin_kept(c: CoinModel, cam: int) -> bool {
    c.x + COIN_SIZE as int > cam - PRUNE_MARGIN as int && !c.collected
}

/// The platform list after pruning: the kept platforms, in order.
pub open spec fn keep_platforms(s: Seq<PlatformModel>, cam: int) -> Seq<PlatformModel>
    decreases s.len(),
{
    if s.len() == 0 {
        Seq::empty()
    } else {
        let prev = keep_platforms(s.drop_last(), cam);
        if plat_kept(s.last(), cam) {
            prev.push(s.last())
        } else {
            prev
        }
    }
}

/// The coin list after pruning: the kept coins, in order.
pub open spec fn keep_coins(s: Seq<CoinModel>, cam: int) -> Seq<CoinModel>
    decreases s.len(),
{
    if s.len() == 0 {
        Seq::empty()
    } else {
        let prev = keep_coins(s.drop_last(), cam);
        if coin_kept(s.last(), cam) {
            prev.push(s.last())
        } else {
            prev
        }
    }
}

/// One coin against the player: an uncollected, touched coin flips to
/// collected; anything else is untouched.
pub open spec fn collect_one(c: CoinModel, p: PlayerModel) -> CoinModel {
    if !c.collected && player_hits_coin(p, c) {
        CoinModel { collected: true, ..c }
    } else {
        c
    }
}

/// The whole coin list after the pickup pass.
pub open spec fn collect_all(s: Seq<CoinModel>, p: PlayerModel) -> Seq<CoinModel> {
    s.map_values(|c: CoinModel| collect_one(c, p))
}

/// How many coins the pickup pass collects: the uncollected ones the
/// player touches, each counted once.
pub open spec fn pickups(s: Seq<CoinModel>, p: PlayerModel) -> int
    decreases s.len(),
{
    if s.len() == 0 {
        0
    } else {
        pickups(s.drop_last(), p) + if !s.last().collected && player_hits_coin(p, s.last()) {
            1int
        } else {
            0int
        }
    }
}

/// Every coin in the list has been collected.
pub open spec fn all_collected(s: Seq<CoinModel>) -> bool {
    forall|i: int| 0 <= i < s.len() ==> (#[trigger] s[i]).collected
}

/// The coin that accompanies a freshly spawned platform: centered over
/// it, floating [`COIN_RISE`] above its top.
pub open spec fn coin_above(q: PlatformModel) -> CoinModel {
    CoinModel { x: q.x + q.w / 2 - COIN_SIZE as int / 2, y: q.y - COIN_RISE as int, collected: false }
}

/// Well-formedness of a world between ticks: a valid configuration,
/// platforms shaped and banded as the spawner promises, and every
/// coordinate, count and score within [`STATE_BOUND`].
pub open spec fn wf(w: WorldModel) -> bool {
    &&& config_valid(w.config)
    &&& player_within(w.player, STATE_BOUND as int)
    &&& within(w.coyote_ms, STATE_BOUND as int)
    &&& 0 <= w.score <= STATE_BOUND as int
    &&& 0 <= w.highscore <= STATE_BOUND as int
    &&& w.platforms.len() <= STATE_BOUND as int
    &&& w.coins.len() <= STATE_BOUND as int
    &&& forall|i: int| 0 <= i < w.platforms.len() ==> platform_wf(#[trigger] w.platforms[i])
    &&& forall|i: int|
        0 <= i < w.platforms.len() ==> platform_within(#[trigger] w.platforms[i], STATE_BOUND as int)
    &&& forall|i: int| 0 <= i < w.coins.len() ==> coin_within(#[trigger] w.coins[i], STATE_BOUND as int)
}

/// The world a run of the given mode starts from.
pub open spec fn initial_model(c: ConfigModel, mode: GameMode) -> WorldModel {
    WorldModel {
        config: c,
        mode: mode,
        state: if mode is Procedural {
            GameState::TitleScreen
        } else {
            GameState::Playing
        },
        player: Player::initial_spec(),
        platforms: seed_platforms_spec(),
        coins: seed_coins_spec(),
        coyote_ms: 0,
        score: 0,
        highscore: 0,
    }
}

/// The world after a restart: player, entity lists, grace period and
/// score back to their seeds; the high score, configuration and mode
/// survive; play resumes at once.
pub open spec fn restarted(w: WorldModel) -> WorldModel {
    WorldModel {
        state: GameState::Playing,
        player: Player::initial_spec(),
        platforms: seed_platforms_spec(),
        coins: seed_coins_spec(),
        coyote_ms: 0,
        score: 0,
        ..w
    }
}

impl World {
    /// Builds the starting world for the given mode.
    pub fn new(config: Config, mode: GameMode) -> (w: World)
        requires
            config_valid(config@),
        ensures
            w@ == initial_model(config@, mode),
            wf(w@),
    {
        let state = match mode {
            GameMode::Procedural => GameState::TitleScreen,
            GameMode::Fixed => GameState::Playing,
        };
        let w = World {
            config,
            mode,
            state,
            player: Player::initial(),
            platforms: seed_platforms(),
            coins: seed_coins(),
            coyote_ms: 0,
            score: 0,
            highscore: 0,
        };
        assert(w@ =~= initial_model(config@, mode));
        assert(wf(w@)) by {
            assert(forall|i: int|
                0 <= i < w@.platforms.len() ==> platform_wf(#[trigger] w@.platforms[i]));
        }
        w
    }

    /// Puts the world back to its seed state, keeping the high score.
    pub fn restart(&mut self)
        ensures
            final(self)@ == restarted(old(self)@),
    {
        self.player = Player::initial();
        self.platforms = seed_platforms();
        self.coins = seed_coins();
        self.coyote_ms = 0;
        self.score = 0;
        self.state = GameState::Playing;
        assert(final(self)@ =~= restarted(old(self)@));
    }

    /// The camera offset for the current player position.
    pub fn camera_x(&self) -> (r: i64)
        requires
            within(self@.player.pos.x, CALC_BOUND as int),
            1 <= self@.config.screen_w,
            self@.config.screen_w <= CALC_BOUND as int,
        ensures
            r as int == camera_of(self@.player.pos.x, self@.config.screen_w),
    {
        self.player.pos.x - self.config.screen_w / 3
    }

    /// Drops every platform and coin that has fallen behind the camera
    /// window, and every coin already collected.
    pub fn prune(&mut self, cam: i64)
        requires
            within(cam as int, CALC_BOUND as int),
            forall|i: int|
                0 <= i < old(self)@.platforms.len()
                    ==> platform_within(#[trigger] old(self)@.platforms[i], CALC_BOUND as int),
            forall|i: int|
                0 <= i < old(self)@.platforms.len()
                    ==> platform_wf(#[trigger] old(self)@.platforms[i]),
            forall|i: int|
                0 <= i < old(self)@.coins.len()
                    ==> coin_within(#[trigger] old(self)@.coins[i], CALC_BOUND as int),
        ensures
            final(self)@ == (WorldModel {
                platforms: keep_platforms(old(self)@.platforms, cam as int),
                coins: keep_coins(old(self)@.coins, cam as int),
                ..old(self)@
            }),
    {
        let ghost w0 = self@;
        let mut kept_plats: Vec<Platform> = Vec::new();
        let mut i: usize = 0;
        while i < self.platforms.len()
            invariant
                0 <= i <= self.platforms@.len(),
                self.platforms@.len() == w0.platforms.len(),
                platforms_model(self.platforms@) == w0.platforms,
                forall|j: int|
                    0 <= j < w0.platforms.len()
                        ==> platform_within(#[trigger] w0.platforms[j], CALC_BOUND as int),
                forall|j: int|
                    0 <= j < w0.platforms.len() ==> platform_wf(#[trigger] w0.platforms[j]),
                within(cam as int, CALC_BOUND as int),
                platforms_model(kept_plats@) == keep_platforms(w0.platforms.subrange(0, i as int), cam as int),
            decreases self.platforms@.len() - i,
        {
            let q = &self.platforms[i];
            let ghost prefix = w0.platforms.subrange(0, i as int);
            proof {
                assert(q@ == w0.platforms[i as int]);
                assert(platform_within(q@, CALC_BOUND as int));
                assert(platform_wf(q@));
            }
            if q.pos.x + q.size.x > cam - PRUNE_MARGIN {
                kept_plats.push(*q);
            }
            proof {
                let ext = w0.platforms.subrange(0, i + 1);
                assert(ext.drop_last() =~= prefix);
                assert(ext.last() == w0.platforms[i as int]);
                assert(platforms_model(kept_plats@) =~= keep_platforms(ext, cam as int));
            }
            i = i + 1;
        }
        proof {
            assert(w0.platforms.subrange(0, w0.platforms.len() as int) =~= w0.platforms);
        }
        self.platforms = kept_plats;

        let mut kept_coins: Vec<Coin> = Vec::new();
        let mut k: usize = 0;
        while k < self.coins.len()
            invariant
                0 <= k <= self.coins@.len(),
                self.coins@.len() == w0.coins.len(),
                coins_model(self.coins@) == w0.coins,
                forall|j: int|
                    0 <= j < w0.coins.len()
                        ==> coin_within(#[trigger] w0.coins[j], CALC_BOUND as int),
                within(cam as int, CALC_BOUND as int),
                coins_model(kept_coins@) == keep_coins(w0.coins.subrange(0, k as int), cam as int),
            decreases self.coins@.len() - k,
        {
            let c = &self.coins[k];
            let ghost prefix = w0.coins.subrange(0, k as int);
            proof {
                assert(c@ == w0.coins[k as int]);
                assert(coin_within(c@, CALC_BOUND as int));
            }
            if c.pos.x + COIN_SIZE > cam - PRUNE_MARGIN && !c.collected {
                kept_coins.push(*c);
            }
            proof {
                let ext = w0.coins.subrange(0, k + 1);
                assert(ext.drop_last() =~= prefix);
                assert(ext.last() == w0.coins[k as int]);
                assert(coins_model(kept_coins@) =~= keep_coins(ext, cam as int));
            }
            k = k + 1;
        }
        proof {
            assert(w0.coins.subrange(0, w0.coins.len() as int) =~= w0.coins);
        }
        self.coins = kept_coins;
        assert(final(self)@ =~= (WorldModel {
            platforms: keep_platforms(w0.platforms, cam as int),
            coins: keep_coins(w0.coins, cam as int),
            ..w0
        }));
    }

    /// Runs the pickup pass: every uncollected coin the player touches
    /// flips to collected and scores exactly one point.
    pub fn collect_coins(&mut self)
        requires
            within(old(self)@.player.pos.x, CALC_BOUND as int),
            within(old(self)@.player.pos.y, CALC_BOUND as int + 64_000),
            forall|i: int|
                0 <= i < old(self)@.coins.len()
                    ==> coin_within(#[trigger] old(self)@.coins[i], CALC_BOUND as int),
            0 <= old(self).score,
            old(self).score as int + old(self)@.coins.len() < 0x7fff_ffff_ffff_ffff,
        ensures
            final(self)@ == (WorldModel {
                coins: collect_all(old(self)@.coins, old(self)@.player),
                score: old(self)@.score + pickups(old(self)@.coins, old(self)@.player),
                ..old(self)@
            }),
    {
        let ghost w0 = self@;
        let ghost p = self@.player;
        let mut i: usize = 0;
        while i < self.coins.len()
            invariant
                0 <= i <= self.coins@.len(),
                self.coins@.len() == w0.coins.len(),
                w0 == old(self)@,
                p == old(self)@.player,
                self.player == old(self).player,
                self.platforms == old(self).platforms,
                self.config == old(self).config,
                self.mode == old(self).mode,
                self.state == old(self).state,
                self.coyote_ms == old(self).coyote_ms,
                self.highscore == old(self).highscore,
                p == w0.player,
                within(p.pos.x, CALC_BOUND as int),
                within(p.pos.y, CALC_BOUND as int + 64_000),
                forall|j: int|
                    0 <= j < w0.coins.len() ==> coin_within(#[trigger] w0.coins[j], CALC_BOUND as int),
                forall|j: int|
                    i <= j < w0.coins.len() ==> coins_model(self.coins@)[j] == w0.coins[j],
                forall|j: int|
                    0 <= j < i ==> coins_model(self.coins@)[j] == collect_one(w0.coins[j], p),
                w0.score <= self.score as int,
                self.score as int == w0.score + pickups(w0.coins.subrange(0, i as int), p),
                self.score as int <= w0.score + i,
                w0.score + w0.coins.len() < 0x7fff_ffff_ffff_ffff,
            decreases self.coins@.len() - i,
        {
            let ghost prefix = w0.coins.subrange(0, i as int);
            proof {
                assert(coins_model(self.coins@)[i as int] == self.coins@[i as int]@);
                assert(self.coins@[i as int]@ == w0.coins[i as int]);
                assert(coin_within(w0.coins[i as int], CALC_BOUND as int));
            }
            let ghost ci = w0.coins[i as int];
            let ghost coins_at_start = self.coins@;
            let touch = {
                let c = &self.coins[i];
                !c.collected && self.player.pos.x <= c.pos.x + COIN_SIZE
                    && self.player.pos.x + PLAYER_SIZE >= c.pos.x
                    && self.player.pos.y <= c.pos.y + COIN_SIZE
                    && self.player.pos.y + PLAYER_SIZE >= c.pos.y
            };
            proof {
                assert(touch == (!ci.collected && player_hits_coin(p, ci)));
            }
            if touch {
                let mut c = self.coins[i];
                c.collected = true;
                self.coins.set(i, c);
                self.score = self.score + 1;
                proof {
                    assert(self.coins@[i as int]@ == collect_one(ci, p));
                }
            }
            proof {
                let ext = w0.coins.subrange(0, i + 1);
                assert(ext.drop_last() =~= prefix);
                assert(ext.last() == ci);
                assert(pickups(ext, p) == pickups(prefix, p)
                    + if !ci.collected && player_hits_coin(p, ci) { 1int } else { 0int });
                assert(coins_model(self.coins@)[i as int] == collect_one(ci, p));
                assert forall|j: int| 0 <= j < i + 1 implies coins_model(self.coins@)[j]
                    == collect_one(w0.coins[j], p) by {
                    if j < i {
                        assert(self.coins@[j] == coins_at_start[j]);
                        assert(coins_model(coins_at_start)[j] == collect_one(w0.coins[j], p));
                    }
                }
                assert forall|j: int| i + 1 <= j < w0.coins.len() implies coins_model(
                    self.coins@,
                )[j] == w0.coins[j] by {
                    assert(self.coins@[j] == coins_at_start[j]);
                    assert(coins_model(coins_at_start)[j] == w0.coins[j]);
                }
            }
            i = i + 1;
        }
        proof {
            assert(w0.coins.subrange(0, w0.coins.len() as int) =~= w0.coins);
            assert(coins_model(self.coins@) =~= collect_all(w0.coins, p));
            assert(final(self)@ =~= (WorldModel {
                coins: collect_all(w0.coins, p),
                score: w0.score + pickups(w0.coins, p),
                ..w0
            }));
        }
    }

    /// Whether every coin currently in the world has been collected.
    pub fn all_coins_collected(&self) -> (r: bool)
        ensures
            r == all_collected(self@.coins),
    {
        let mut i: usize = 0;
        while i < self.coins.len()
            invariant
                0 <= i <= self.coins@.len(),
                forall|j: int| 0 <= j < i ==> (#[trigger] coins_model(self.coins@)[j]).collected,
            decreases self.coins@.len() - i,
        {
            if !self.coins[i].collected {
                proof {
                    assert(!coins_model(self.coins@)[i as int].collected);
                }
                return false;
            }
            i = i + 1;
        }
        true
    }
}


/// What one pass of window-filling spawning adds: the old lists are an
/// untouched prefix; every appended platform chains from its predecessor
/// and was demanded by the window (its predecessor's right edge was
/// still inside it); every appended coin sits centered over its
/// platform; and when the pass ends the rightmost platform clears the
/// window. An empty platform list spawns nothing.
pub open spec fn spawn_extends(
    base_p: Seq<PlatformModel>,
    out_p: Seq<PlatformModel>,
    base_c: Seq<CoinModel>,
    out_c: Seq<CoinModel>,
    cam: int,
    c: ConfigModel,
) -> bool {
    &&& out_p.len() >= base_p.len()
    &&& out_p.subrange(0, base_p.len() as int) == base_p
    &&& out_c.len() - base_c.len() == out_p.len() - base_p.len()
    &&& out_c.subrange(0, base_c.len() as int) == base_c
    &&& forall|i: int|
        base_p.len() <= i < out_p.len() ==> chained(out_p[i - 1], #[trigger] out_p[i], c)
    &&& forall|i: int|
        base_p.len() <= i < out_p.len()
            ==> right_edge(#[trigger] out_p[i - 1]) < cam + c.screen_w
    &&& forall|i: int|
        base_p.len() <= i < out_p.len()
            ==> out_c[base_c.len() + i - base_p.len()] == coin_above(#[trigger] out_p[i])
    &&& (base_p.len() > 0 ==> out_p.len() > 0 && right_edge(out_p.last()) >= cam + c.screen_w)
    &&& (base_p.len() == 0 ==> out_p == base_p && out_c == base_c)
}

impl World {
    /// Tops the platform list up until the rightmost platform clears the
    /// camera window, pairing every new platform with one coin centered
    /// above it.
    pub fn spawn_to_window(&mut self, cam: i64)
        requires
            config_valid(old(self)@.config),
            within(cam as int, 4 * STATE_BOUND as int),
            old(self)@.platforms.len() <= STATE_BOUND as int,
            old(self)@.coins.len() <= STATE_BOUND as int,
            forall|i: int|
                0 <= i < old(self)@.platforms.len()
                    ==> platform_wf(#[trigger] old(self)@.platforms[i]),
            forall|i: int|
                0 <= i < old(self)@.platforms.len()
                    ==> platform_within(#[trigger] old(self)@.platforms[i], STATE_BOUND as int),
            forall|i: int|
                0 <= i < old(self)@.coins.len()
                    ==> coin_within(#[trigger] old(self)@.coins[i], STATE_BOUND as int),
        ensures
            spawn_extends(
                old(self)@.platforms,
                final(self)@.platforms,
                old(self)@.coins,
                final(self)@.coins,
                cam as int,
                old(self)@.config,
            ),
            final(self)@.config == old(self)@.config,
            final(self)@.mode == old(self)@.mode,
            final(self)@.state == old(self)@.state,
            final(self)@.player == old(self)@.player,
            final(self)@.coyote_ms == old(self)@.coyote_ms,
            final(self)@.score == old(self)@.score,
            final(self)@.highscore == old(self)@.highscore,
            final(self)@.platforms.len() - old(self)@.platforms.len()
                <= 0x8000_0000_0000,
            forall|i: int|
                0 <= i < final(self)@.platforms.len()
                    ==> platform_wf(#[trigger] final(self)@.platforms[i]),
            forall|i: int|
                0 <= i < final(self)@.platforms.len()
                    ==> platform_within(#[trigger] final(self)@.platforms[i], CALC_BOUND as int),
            forall|i: int|
                0 <= i < final(self)@.coins.len()
                    ==> coin_within(#[trigger] final(self)@.coins[i], CALC_BOUND as int),
    {
        let ghost base_p = self@.platforms;
        let ghost base_c = self@.coins;
        let ghost n0 = base_p.len();
        if self.platforms.len() == 0 {
            proof {
                assert(base_p.subrange(0, 0) =~= base_p);
                assert(base_c.subrange(0, base_c.len() as int) =~= base_c);
            }
            return;
        }
        let ghost init_right = right_edge(base_p.last());
        let cfg = self.config;
        let n = self.platforms.len();
        let mut right = {
            let last = &self.platforms[n - 1];
            last.pos.x + last.size.x
        };
        while right < cam + cfg.screen_w
            invariant
                cfg == old(self).config,
                config_valid(cfg@),
                within(cam as int, 4 * STATE_BOUND as int),
                base_p == old(self)@.platforms,
                base_c == old(self)@.coins,
                n0 == base_p.len(),
                0 < n0 <= STATE_BOUND as int,
                base_c.len() <= STATE_BOUND as int,
                init_right == right_edge(base_p.last()),
                within(init_right, STATE_BOUND as int + BIG_WIDTH as int),
                self.config == old(self).config,
                self.mode == old(self).mode,
                self.state == old(self).state,
                self.player == old(self).player,
                self.coyote_ms == old(self).coyote_ms,
                self.score == old(self).score,
                self.highscore == old(self).highscore,
                self@.platforms.len() >= n0,
                self@.platforms.subrange(0, n0 as int) == base_p,
                self@.coins.len() - base_c.len() == self@.platforms.len() - n0,
                self@.coins.subrange(0, base_c.len() as int) == base_c,
                forall|i: int|
                    n0 <= i < self@.platforms.len()
                        ==> chained(self@.platforms[i - 1], #[trigger] self@.platforms[i], cfg@),
                forall|i: int|
                    n0 <= i < self@.platforms.len()
                        ==> right_edge(#[trigger] self@.platforms[i - 1]) < cam as int
                        + cfg@.screen_w,
                forall|i: int|
                    n0 <= i < self@.platforms.len()
                        ==> self@.coins[base_c.len() + i - n0] == coin_above(
                        #[trigger] self@.platforms[i],
                    ),
                forall|i: int|
                    0 <= i < self@.platforms.len() ==> platform_wf(#[trigger] self@.platforms[i]),
                forall|i: int|
                    0 <= i < self@.platforms.len()
                        ==> platform_within(#[trigger] self@.platforms[i], CALC_BOUND as int),
                forall|i: int|
                    0 <= i < self@.coins.len()
                        ==> coin_within(#[trigger] self@.coins[i], CALC_BOUND as int),
                right as int == right_edge(self@.platforms.last()),
                self@.platforms.len() > n0 ==> right as int <= cam as int + cfg@.screen_w
                    + GAP_CAP as int + BIG_WIDTH as int,
                (self@.platforms.len() - n0) * 248_000 <= right as int - init_right,
            decreases
                    if cam as int + cfg@.screen_w - right as int >= 0 {
                        cam as int + cfg@.screen_w - right as int
                    } else {
                        0int
                    },
        {
            let len = self.platforms.len();
            let ghost plats_before = self@.platforms;
            let ghost coins_before = self@.coins;
            let ghost right0 = right as int;
            let new_plat = {
                let last = &self.platforms[len - 1];
                proof {
                    assert(last@ == self@.platforms.last());
                }
                spawn_platform(last, &cfg)
            };
            let coin_x = new_plat.pos.x + new_plat.size.x / 2 - COIN_SIZE / 2;
            let coin_y = new_plat.pos.y - COIN_RISE;
            self.platforms.push(new_plat);
            self.coins.push(Coin { pos: Vec2 { x: coin_x, y: coin_y }, collected: false });
            right = {
                let m = self.platforms.len();
                let q = &self.platforms[m - 1];
                q.pos.x + q.size.x
            };
            proof {
                assert(self@.platforms =~= plats_before.push(new_plat@));
                assert(self@.coins =~= coins_before.push(
                    CoinModel { x: coin_x as int, y: coin_y as int, collected: false },
                ));
                assert(self@.platforms.subrange(0, n0 as int) =~= base_p);
                assert(self@.coins.subrange(0, base_c.len() as int) =~= base_c);
                assert(self@.platforms.last() == new_plat@);
                assert(chained(plats_before.last(), new_plat@, cfg@));
                assert(CoinModel { x: coin_x as int, y: coin_y as int, collected: false }
                    == coin_above(new_plat@));
                assert(right0 == right_edge(plats_before.last()));
                assert(new_plat@.x >= right0 + MIN_GAP as int);
                assert(new_plat@.w >= SMALL_WIDTH as int);
                assert(right as int >= right0 + 248_000);
            }
        }
        proof {
            assert(spawn_extends(base_p, self@.platforms, base_c, self@.coins, cam as int, cfg@));
            let k = self@.platforms.len() - n0;
            assert(k * 248_000 <= right as int - init_right);
            if k > 0 {
                assert(right as int <= cam as int + cfg@.screen_w + GAP_CAP as int
                    + BIG_WIDTH as int);
                assert(k * 248_000 <= 0x8000_0000_0000);
                assert(k <= 0x8000_0000_0000);
            }
        }
    }
}

/// Pruning keeps only coins of the given list, in order: positional
/// bounds carry over and the list cannot grow.
pub proof fn lemma_keep_coins_within(s: Seq<CoinModel>, cam: int, b: int)
    requires
        forall|i: int| 0 <= i < s.len() ==> coin_within(#[trigger] s[i], b),
    ensures
        keep_coins(s, cam).len() <= s.len(),
        forall|i: int|
            0 <= i < keep_coins(s, cam).len() ==> coin_within(#[trigger] keep_coins(s, cam)[i], b),
    decreases s.len(),
{
    if s.len() > 0 {
        assert forall|i: int| 0 <= i < s.drop_last().len() implies coin_within(
            #[trigger] s.drop_last()[i],
            b,
        ) by {
            assert(s.drop_last()[i] == s[i]);
        }
        lemma_keep_coins_within(s.drop_last(), cam, b);
        let prev = keep_coins(s.drop_last(), cam);
        if coin_kept(s.last(), cam) {
            assert forall|i: int| 0 <= i < keep_coins(s, cam).len() implies coin_within(
                #[trigger] keep_coins(s, cam)[i],
                b,
            ) by {
                if i < prev.len() {
                    assert(keep_coins(s, cam)[i] == prev[i]);
                } else {
                    assert(keep_coins(s, cam)[i] == s.last());
                    assert(coin_within(s[s.len() - 1], b));
                }
            }
        }
    }
}

/// The player and grace timer after the input, grace, jump, physics and
/// collision stages of one playing tick, before any world scrolling.
pub open spec fn step_player(
    p0: PlayerModel,
    t0: int,
    input: Input,
    dt: int,
    plats: Seq<PlatformModel>,
    c: ConfigModel,
) -> (PlayerModel, int) {
    let pa = PlayerModel {
        vel: V2 { x: input_vel_x(input.left, input.right, c.move_speed), y: p0.vel.y },
        ..p0
    };
    let t1 = coyote_step(t0, pa.on_ground, dt, c.coyote_max_ms);
    let jump_now = input.jump && t1 > 0;
    let pb = if jump_now {
        jumped(pa, c.jump_force)
    } else {
        pa
    };
    let t2: int = if jump_now {
        0
    } else {
        t1
    };
    let pc = integrated(pb, c.gravity);
    (resolve_seq(ungrounded(pc), plats), t2)
}

/// The scrolling a procedural playing tick performs, for a given witness
/// of what the spawner added: top the window up, then prune both lists
/// behind the camera, then run the pickup pass on what is left.
pub open spec fn procedural_scroll(
    w0: WorldModel,
    w1: WorldModel,
    p2: PlayerModel,
    cam: int,
    mid_p: Seq<PlatformModel>,
    mid_c: Seq<CoinModel>,
) -> bool {
    &&& spawn_extends(w0.platforms, mid_p, w0.coins, mid_c, cam, w0.config)
    &&& w1.platforms == keep_platforms(mid_p, cam)
    &&& w1.coins == collect_all(keep_coins(mid_c, cam), p2)
    &&& w1.score == w0.score + pickups(keep_coins(mid_c, cam), p2)
}

/// Everything one playing tick guarantees. The player, the grace timer,
/// the score and the flow transition are pinned exactly; the platforms
/// and coins the spawner added are random, so they appear through an
/// existential witness constrained by [`spawn_extends`].
pub open spec fn playing_post(w0: WorldModel, w1: WorldModel, input: Input, dt: int) -> bool {
    let stepped = step_player(w0.player, w0.coyote_ms, input, dt, w0.platforms, w0.config);
    let p2 = stepped.0;
    let cam = camera_of(p2.pos.x, w0.config.screen_w);
    let fell = p2.pos.y > w0.config.screen_h;
    &&& w1.config == w0.config
    &&& w1.mode == w0.mode
    &&& w1.player == p2
    &&& w1.coyote_ms == stepped.1
    &&& (w0.mode is Fixed ==> {
        &&& w1.platforms == w0.platforms
        &&& w1.coins == collect_all(w0.coins, p2)
        &&& w1.score == w0.score + pickups(w0.coins, p2)
        &&& w1.state == (if all_collected(w1.coins) {
            GameState::Win
        } else if fell {
            GameState::GameOver
        } else {
            GameState::Playing
        })
        &&& w1.highscore == (if !all_collected(w1.coins) && fell && w1.score > w0.highscore {
            w1.score
        } else {
            w0.highscore
        })
    })
    &&& (w0.mode is Procedural ==> {
        &&& exists|a: Seq<PlatformModel>, b: Seq<CoinModel>|
            #[trigger] procedural_scroll(w0, w1, p2, cam, a, b)
        &&& w1.state == (if fell {
            GameState::GameOver
        } else {
            GameState::Playing
        })
        &&& w1.highscore == (if fell && w1.score > w0.highscore {
            w1.score
        } else {
            w0.highscore
        })
    })
}

/// The full contract of one tick, by game-flow state: the title screen
/// waits for the jump key; a finished game waits for the restart key;
/// play runs the whole simulation pipeline. No subsystem runs outside
/// its owning state.
pub open spec fn tick_post(w0: WorldModel, w1: WorldModel, input: Input, dt: int) -> bool {
    match w0.state {
        GameState::TitleScreen => w1 == if input.jump {
            WorldModel { state: GameState::Playing, ..w0 }
        } else {
            w0
        },
        GameState::Win | GameState::GameOver => w1 == if input.restart {
            restarted(w0)
        } else {
            w0
        },
        GameState::Playing => playing_post(w0, w1, input, dt),
    }
}

impl World {
    /// One tick of play: input, grace period, jump, physics, collision,
    /// then (in the procedural mode) window scrolling, then coin pickup
    /// and the win or lose transition.
    fn playing_tick(&mut self, input: Input, dt_ms: i64)
        requires
            wf(old(self)@),
            old(self)@.state is Playing,
            0 <= dt_ms <= 1_000_000,
        ensures
            playing_post(old(self)@, final(self)@, input, dt_ms as int),
            forall|i: int|
                0 <= i < final(self)@.platforms.len() ==> platform_wf(
                    #[trigger] final(self)@.platforms[i],
                ),
    {
        let ghost w0 = self@;
        let move_speed = self.config.move_speed;
        let coyote_max = self.config.coyote_max_ms;
        let jump_force = self.config.jump_force;
        let gravity = self.config.gravity;
        self.player.apply_input(input.left, input.right, move_speed);
        update_coyote(&mut self.coyote_ms, self.player.on_ground, dt_ms, coyote_max);
        try_jump(&mut self.player, &mut self.coyote_ms, input.jump, jump_force);
        self.player.integrate(gravity);
        proof {
            assert forall|i: int| 0 <= i < self.platforms@.len() implies platform_wf(
                #[trigger] self.platforms@[i]@,
            ) && platform_within(self.platforms@[i]@, CALC_BOUND as int) by {
                assert(self.platforms@[i]@ == w0.platforms[i]);
                assert(platform_within(w0.platforms[i], STATE_BOUND as int));
            }
        }
        resolve_collisions(&mut self.player, &self.platforms);
        let ghost stepped = step_player(
            w0.player,
            w0.coyote_ms,
            input,
            dt_ms as int,
            w0.platforms,
            w0.config,
        );
        let ghost p2 = stepped.0;
        proof {
            assert(self@.platforms == w0.platforms);
            assert(self.player@ == p2);
            assert(self.coyote_ms as int == stepped.1);
        }
        let cam = self.camera_x();
        let ghost cam_i = cam as int;
        let ghost mut mid_p: Seq<PlatformModel> = Seq::empty();
        let ghost mut mid_c: Seq<CoinModel> = Seq::empty();
        match self.mode {
            GameMode::Procedural => {
                self.spawn_to_window(cam);
                proof {
                    mid_p = self@.platforms;
                    mid_c = self@.coins;
                    lemma_keep_coins_within(mid_c, cam_i, CALC_BOUND as int);
                }
                self.prune(cam);
                self.collect_coins();
            }
            GameMode::Fixed => {
                self.collect_coins();
            }
        }
        let fell = self.player.pos.y > self.config.screen_h;
        match self.mode {
            GameMode::Fixed => {
                if self.all_coins_collected() {
                    self.state = GameState::Win;
                } else if fell {
                    self.state = GameState::GameOver;
                    if self.score > self.highscore {
                        self.highscore = self.score;
                    }
                }
            }
            GameMode::Procedural => {
                if fell {
                    self.state = GameState::GameOver;
                    if self.score > self.highscore {
                        self.highscore = self.score;
                    }
                }
            }
        }
        proof {
            assert(cam_i == camera_of(p2.pos.x, w0.config.screen_w));
            if w0.mode is Procedural {
                assert(procedural_scroll(w0, self@, p2, cam_i, mid_p, mid_c));
                crate::laws::lemma_keep_platforms_wf(mid_p, cam_i);
            }
        }
    }

    /// One simulation tick. The current game-flow state is the sole gate
    /// on which subsystems run: the title screen only waits for the jump
    /// key, a won or lost game only waits for the restart key, and play
    /// runs input, physics, collision, scrolling, pickup and the flow
    /// transition in order.
    pub fn tick(&mut self, input: Input, dt_ms: i64)
        requires
            wf(old(self)@),
            0 <= dt_ms <= 1_000_000,
        ensures
            tick_post(old(self)@, final(self)@, input, dt_ms as int),
            forall|i: int|
                0 <= i < final(self)@.platforms.len() ==> platform_wf(
                    #[trigger] final(self)@.platforms[i],
                ),
    {
        match self.state {
            GameState::TitleScreen => {
                if input.jump {
                    self.state = GameState::Playing;
                    assert(self@ =~= (WorldModel { state: GameState::Playing, ..old(self)@ }));
                } else {
                    assert(self@ =~= old(self)@);
                }
            }
            GameState::Win | GameState::GameOver => {
                if input.restart {
                    self.restart();
                    proof {
                        assert forall|i: int| 0 <= i < self@.platforms.len() implies platform_wf(
                            #[trigger] self@.platforms[i],
                        ) by {
                            assert(self@.platforms == seed_platforms_spec());
                            if i == 0 {
                                assert(platform_wf(seed_platforms_spec()[0]));
                            } else if i == 1 {
                                assert(platform_wf(seed_platforms_spec()[1]));
                            } else {
                                assert(platform_wf(seed_platforms_spec()[2]));
                            }
                        }
                    }
                } else {
                    assert(self@ =~= old(self)@);
                }
            }
            GameState::Playing => {
                self.playing_tick(input, dt_ms);
            }
        }
    }
}

impl World {
    /// Whether the world satisfies the between-tick well-formedness that
    /// [`World::tick`] expects; an unverified caller can test this before
    /// handing the world to the simulation.
    pub fn check_wf(&self) -> (r: bool)
        ensures
            r == wf(self@),
    {
        let bound_ok = self.config.is_valid()
            && -STATE_BOUND <= self.player.pos.x && self.player.pos.x <= STATE_BOUND
            && -STATE_BOUND <= self.player.pos.y && self.player.pos.y <= STATE_BOUND
            && -STATE_BOUND <= self.player.vel.x && self.player.vel.x <= STATE_BOUND
            && -STATE_BOUND <= self.player.vel.y && self.player.vel.y <= STATE_BOUND
            && -STATE_BOUND <= self.coyote_ms && self.coyote_ms <= STATE_BOUND
            && self.score <= STATE_BOUND as u64 && self.highscore <= STATE_BOUND as u64
            && self.platforms.len() as u64 <= STATE_BOUND as u64
            && self.coins.len() as u64 <= STATE_BOUND as u64;
        if !bound_ok {
            return false;
        }
        let mut i: usize = 0;
        while i < self.platforms.len()
            invariant
                0 <= i <= self@.platforms.len(),
                forall|j: int|
                    0 <= j < i ==> platform_wf(#[trigger] self@.platforms[j]) && platform_within(
                        self@.platforms[j],
                        STATE_BOUND as int,
                    ),
            decreases self@.platforms.len() - i,
        {
            let q = &self.platforms[i];
            let width = match q.kind {
                PlatformKind::Small => SMALL_WIDTH,
                PlatformKind::Big => BIG_WIDTH,
            };
            let ok = q.size.x == width && q.size.y == PLATFORM_HEIGHT
                && BAND_MIN <= q.pos.y && q.pos.y <= BAND_MAX
                && -STATE_BOUND <= q.pos.x && q.pos.x <= STATE_BOUND;
            if !ok {
                proof {
                    assert(self@.platforms[i as int] == q@);
                }
                return false;
            }
            proof {
                assert(self@.platforms[i as int] == q@);
            }
            i = i + 1;
        }
        let mut k: usize = 0;
        while k < self.coins.len()
            invariant
                0 <= k <= self@.coins.len(),
                forall|j: int|
                    0 <= j < k ==> coin_within(#[trigger] self@.coins[j], STATE_BOUND as int),
            decreases self@.coins.len() - k,
        {
            let c = &self.coins[k];
            let cok = -STATE_BOUND <= c.pos.x && c.pos.x <= STATE_BOUND
                && -STATE_BOUND <= c.pos.y && c.pos.y <= STATE_BOUND;
            if !cok {
                proof {
                    assert(self@.coins[k as int] == c@);
                }
                return false;
            }
            proof {
                assert(self@.coins[k as int] == c@);
            }
            k = k + 1;
        }
        true
    }
}

} // verus!
