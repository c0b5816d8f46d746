//! The game's state machine: idle bobbing before a run, the run itself with
//! scoring, pipe and ground collisions, and the restart after a game over.

use vstd::prelude::*;

use crate::bird::{Bird, MAX_ROTATION, MIN_ROTATION};
use crate::geometry::{
    circle_touches_box, clamp_position, touches, Aabb, Vec2, GAME_HEIGHT_LIMIT, UNIT,
};
use crate::scroll_handler::{
    ScrollHandler, FIRST_PIPE_X, GRASS_HEIGHT, GRASS_WIDTH, PIPE_GAP, PIPE_HEIGHT_CHOICES, PIPE_WIDTH,
};

verus! {

/// Where the bird stands, horizontally.
pub const BIRD_X: i64 = 33_000_000;

/// How far above the middle of the game the bird starts.
pub const BIRD_START_ABOVE_MID: i64 = 5_000_000;

pub const BIRD_WIDTH: u32 = 17;

pub const BIRD_HEIGHT: u32 = 12;

/// How far below the middle of the game the pipes stand.
pub const PIPES_BELOW_MID: i64 = 66_000_000;

/// The ground box spans `[0, GROUND_WIDTH]` horizontally and
/// `[mid - GROUND_BOTTOM_BELOW_MID, mid - PIPES_BELOW_MID]` vertically.
pub const GROUND_WIDTH: i64 = 136_000_000;

pub const GROUND_BOTTOM_BELOW_MID: i64 = 77_000_000;

#[derive(Clone, Copy, Debug, PartialEq, Eq, Structural)]
pub enum GameState {
    Menu,
    Ready,
    Running,
    GameOver,
    HighScore,
}

/// The sounds that a frame asks for.
#[derive(Clone, Copy, Debug, PartialEq, Eq, Structural)]
pub struct Cues {
    pub flap: bool,
    pub score: bool,
    pub death: bool,
}

pub open spec fn no_cues() -> Cues {
    Cues { flap: false, score: false, death: false }
}

/// `v + 1`, stopping at the largest `u32`.
pub open spec fn inc_saturating(v: u32) -> u32 {
    if v < u32::MAX {
        (v + 1) as u32
    } else {
        v
    }
}

/// `t + dt`, stopping at the largest `u64`.
pub open spec fn add_time(t: u64, dt: u32) -> u64 {
    if t + dt <= u64::MAX {
        (t + dt) as u64
    } else {
        u64::MAX
    }
}

/// The ground box of a game whose middle is `mid` world units high.
pub open spec fn ground_box(mid: u32) -> Aabb {
    Aabb {
        min: Vec2 { x: 0, y: (mid * UNIT - GROUND_BOTTOM_BELOW_MID) as i64 },
        max: Vec2 { x: GROUND_WIDTH, y: (mid * UNIT - PIPES_BELOW_MID) as i64 },
    }
}

pub struct GameWorld {
    game_state: GameState,
    score: u32,
    run_time: u64,
    mid_point_y: u32,
    bird: Bird,
    scroller: ScrollHandler,
    ground: Aabb,
}

impl GameWorld {
    pub closed spec fn spec_game_state(&self) -> GameState {
        self.game_state
    }

    pub closed spec fn spec_score(&self) -> u32 {
        self.score
    }

    pub closed spec fn spec_run_time(&self) -> u64 {
        self.run_time
    }

    pub closed spec fn spec_mid_point_y(&self) -> u32 {
        self.mid_point_y
    }

    pub closed spec fn spec_bird(&self) -> &Bird {
        &self.bird
    }

    pub closed spec fn spec_scroller(&self) -> &ScrollHandler {
        &self.scroller
    }

    /// The ground box.
    pub closed spec fn ground(&self) -> Aabb {
        self.ground
    }

    /// The height at which the bird starts and restarts.
    pub open spec fn start_y(&self) -> int {
        self.mid_point_y() * UNIT + BIRD_START_ABOVE_MID
    }

    /// Where the pipes stand.
    pub open spec fn pipe_y(&self) -> int {
        self.mid_point_y() * UNIT - PIPES_BELOW_MID
    }

    /// Where the ground strips stand.
    pub open spec fn grass_y(&self) -> int {
        self.pipe_y() - GRASS_HEIGHT * UNIT
    }

    /// What no frame changes: the bird stands at `BIRD_X` and idles around
    /// and restarts at `start_y()`; the ground strips are `GRASS_WIDTH` by
    /// `GRASS_HEIGHT` at `grass_y()`; the pipes are `PIPE_WIDTH` wide, stand
    /// at `pipe_y()` and reach the bird's game height.
    pub open spec fn layout_fixed(&self) -> bool {
        let s = self.scroller();
        let gh = self.bird().game_height();
        &&& self.bird().original_y() == self.start_y()
        &&& self.bird().position().x == BIRD_X
        &&& self.bird().width() == BIRD_WIDTH
        &&& self.bird().height() == BIRD_HEIGHT
        &&& s.front_grass().position().y == self.grass_y()
        &&& s.back_grass().position().y == self.grass_y()
        &&& s.front_grass().width() == GRASS_WIDTH
        &&& s.back_grass().width() == GRASS_WIDTH
        &&& s.front_grass().height() == GRASS_HEIGHT
        &&& s.back_grass().height() == GRASS_HEIGHT
        &&& s.pipe1().position().y == self.pipe_y()
        &&& s.pipe2().position().y == self.pipe_y()
        &&& s.pipe3().position().y == self.pipe_y()
        &&& s.pipe1().width() == PIPE_WIDTH
        &&& s.pipe2().width() == PIPE_WIDTH
        &&& s.pipe3().width() == PIPE_WIDTH
        &&& s.pipe1().game_height() == gh
        &&& s.pipe2().game_height() == gh
        &&& s.pipe3().game_height() == gh
    }

    pub open spec fn wf(&self) -> bool {
        &&& self.bird().wf()
        &&& self.scroller().wf()
        &&& self.mid_point_y() <= GAME_HEIGHT_LIMIT as int / (2 * UNIT as int)
        &&& self.ground() == ground_box(self.mid_point_y())
        &&& self.layout_fixed()
    }

    /// `self` has `b`'s clock, size and ground.
    pub open spec fn frame_kept(&self, b: &GameWorld) -> bool {
        &&& self.run_time() == b.run_time()
        &&& self.mid_point_y() == b.mid_point_y()
        &&& self.ground() == b.ground()
    }

    /// `self` has `b`'s state, score, bird and scenery.
    pub open spec fn play_kept(&self, b: &GameWorld) -> bool {
        &&& self.game_state() == b.game_state()
        &&& self.score() == b.score()
        &&& self.bird() == b.bird()
        &&& self.scroller() == b.scroller()
    }

    /// `self` is `b` after a frame before a run: a flap starts the run, the
    /// bird bobs `bob` above its original height, the ground scrolls and the
    /// pipes stay.
    pub open spec fn readied_from(&self, b: &GameWorld, flap: bool, dt_us: u32, bob: i64) -> bool {
        &&& self.game_state() == if flap {
            GameState::Running
        } else {
            b.game_state()
        }
        &&& self.score() == b.score()
        &&& self.bird().bobbed_from(b.bird(), bob)
        &&& self.scroller().grass_stepped_from(b.scroller(), dt_us)
        &&& self.scroller().pipes_kept(b.scroller())
    }

    /// `self` is `b` after a frame of a run that went through the flown bird
    /// `b1`, the scrolled scenery `s1` (a recycled pipe drawing `offset`) and
    /// the scenery `s2` after scoring, asking for `cues`: a passed pipe adds
    /// one to the score; a living bird that hits a pipe dies and the scenery
    /// stops; a bird that touches the ground dies, loses gravity, the scenery
    /// stops and the game is over.
    pub open spec fn ran_through(
        &self,
        b: &GameWorld,
        flap: bool,
        dt_us: u32,
        cues: Cues,
        b1: Bird,
        s1: ScrollHandler,
        s2: ScrollHandler,
        offset: u32,
    ) -> bool {
        let hit = s2.spec_collides(&b1) && b1.is_alive();
        let grounded = touches(b1.bounding_circle(), ground_box(b.mid_point_y()));
        let bird = self.bird();
        &&& offset < PIPE_HEIGHT_CHOICES
        &&& b1.flew_from(b.bird(), flap, dt_us)
        &&& s1.grass_stepped_from(b.scroller(), dt_us)
        &&& s1.pipes_stepped_from(b.scroller(), dt_us, offset)
        &&& s2.scored_from(&s1, &b1)
        &&& cues.flap == (flap && b.bird().is_alive())
        &&& cues.score == s1.spec_scores(&b1)
        &&& cues.death == (hit || (grounded && b1.is_alive()))
        &&& self.score() == if cues.score {
            inc_saturating(b.score())
        } else {
            b.score()
        }
        &&& self.game_state() == if grounded {
            GameState::GameOver
        } else {
            b.game_state()
        }
        &&& (hit || grounded) ==> self.scroller().stopped_from(&s2)
        &&& !(hit || grounded) ==> *self.scroller() == s2
        &&& grounded ==> {
            &&& bird.same_frame(&b1)
            &&& !bird.is_alive()
            &&& bird.velocity() == (Vec2 { x: b1.velocity().x, y: 0 })
            &&& bird.acceleration() == (Vec2 { x: b1.acceleration().x, y: 0 })
            &&& bird.position() == b1.position()
            &&& bird.rotation() == b1.rotation()
        }
        &&& hit && !grounded ==> bird.killed_from(&b1)
        &&& !hit && !grounded ==> *bird == b1
    }

    /// `self` is `b` after a frame of a run asking for `cues`.
    pub open spec fn ran_from(&self, b: &GameWorld, flap: bool, dt_us: u32, cues: Cues) -> bool {
        exists|b1: Bird, s1: ScrollHandler, s2: ScrollHandler, offset: u32|
            #[trigger] self.ran_through(b, flap, dt_us, cues, b1, s1, s2, offset)
    }

    /// `self` is `b` restarted: score 0, the bird alive at its starting
    /// height, the scenery in its starting layout with pipes drawing `o1`,
    /// `o2`, `o3`, and the state `Ready`.
    pub open spec fn restarted_from(&self, b: &GameWorld, o1: u32, o2: u32, o3: u32) -> bool {
        &&& self.game_state() == GameState::Ready
        &&& self.score() == 0
        &&& self.bird().restarted_from(b.bird(), b.start_y() as i64)
        &&& self.scroller().restarted_from(b.scroller(), o1, o2, o3)
    }

    /// A world `game_height` micro-units high, ready to start: score 0, the
    /// bird at `(BIRD_X, start_y())` and the scenery in its starting layout,
    /// with the pipes standing `PIPES_BELOW_MID` below the middle.
    pub fn new(_game_width: i64, game_height: i64) -> (r: GameWorld)
        requires
            0 <= game_height <= GAME_HEIGHT_LIMIT,
        ensures
            r.wf(),
            r.game_state() == GameState::Ready,
            r.score() == 0,
            r.run_time() == 0,
            r.mid_point_y() == game_height as int / (2 * UNIT as int),
            r.bird().position() == (Vec2 { x: BIRD_X, y: r.start_y() as i64 }),
            r.bird().is_alive(),
            r.bird().width() == BIRD_WIDTH,
            r.bird().height() == BIRD_HEIGHT,
            r.bird().original_y() == r.start_y(),
            r.bird().game_height() == game_height,
            r.scroller().in_start_layout(),
            r.scroller().front_grass().position().y == r.mid_point_y() * UNIT - PIPES_BELOW_MID
                - GRASS_HEIGHT * UNIT,
            r.scroller().back_grass().position().y == r.mid_point_y() * UNIT - PIPES_BELOW_MID
                - GRASS_HEIGHT * UNIT,
            r.scroller().front_grass().width() == GRASS_WIDTH,
            r.scroller().back_grass().width() == GRASS_WIDTH,
            r.scroller().front_grass().height() == GRASS_HEIGHT,
            r.scroller().back_grass().height() == GRASS_HEIGHT,
            r.scroller().pipe1().position().y == r.mid_point_y() * UNIT - PIPES_BELOW_MID,
            r.scroller().pipe2().position().y == r.mid_point_y() * UNIT - PIPES_BELOW_MID,
            r.scroller().pipe3().position().y == r.mid_point_y() * UNIT - PIPES_BELOW_MID,
            r.scroller().pipe1().width() == PIPE_WIDTH,
            r.scroller().pipe2().width() == PIPE_WIDTH,
            r.scroller().pipe3().width() == PIPE_WIDTH,
            r.scroller().pipe1().game_height() == game_height,
            r.scroller().pipe2().game_height() == game_height,
            r.scroller().pipe3().game_height() == game_height,
    {
        let half = game_height as u64 / (2 * UNIT as u64);
        proof {
            vstd::arithmetic::div_mod::lemma_div_is_ordered(
                game_height as int,
                GAME_HEIGHT_LIMIT as int,
                2 * UNIT as int,
            );
            assert(GAME_HEIGHT_LIMIT as int / (2 * UNIT as int) == 500_000_000) by (nonlinear_arith);
        }
        let mid_point_y = half as u32;
        let mid = mid_point_y as i64 * UNIT;
        let w = GameWorld {
            game_state: GameState::Ready,
            score: 0,
            run_time: 0,
            mid_point_y,
            bird: Bird::new(
                BIRD_X,
                mid + BIRD_START_ABOVE_MID,
                BIRD_WIDTH,
                BIRD_HEIGHT,
                game_height,
            ),
            scroller: ScrollHandler::new(mid - PIPES_BELOW_MID, game_height),
            ground: Aabb {
                min: Vec2 { x: 0, y: mid - GROUND_BOTTOM_BELOW_MID },
                max: Vec2 { x: GROUND_WIDTH, y: mid - PIPES_BELOW_MID },
            },
        };
        w
    }

    /// Advances the world by one frame of `dt_us` microseconds, given
    /// whether the flap key was pressed this frame and the idle
    /// displacement `bob` of the bird (its `2 * sin(7 * t)` world units at
    /// the run time `t` after this frame), and returns the sounds to play.
    ///
    /// Before a run (`Menu`, `Ready`) the bird bobs, the ground scrolls and a
    /// flap starts the run. In a run the bird flies, the scenery scrolls, a
    /// passed pipe adds one to the score, a pipe hit kills the bird and stops
    /// the scenery, and touching the ground ends the game. After a game over
    /// a flap restarts: score 0, the bird alive at its starting height, the
    /// scenery in its starting layout, and the state `Ready`.
    pub fn update(&mut self, flap: bool, dt_us: u32, bob: i64) -> (cues: Cues)
        requires
            old(self).wf(),
        ensures
            final(self).wf(),
            final(self).run_time() == add_time(old(self).run_time(), dt_us),
            final(self).mid_point_y() == old(self).mid_point_y(),
            old(self).game_state() == GameState::Menu || old(self).game_state()
                == GameState::Ready ==> final(self).readied_from(old(self), flap, dt_us, bob)
                && cues == no_cues() && final(self).bird().position().y == clamp_position(
                old(self).start_y() + bob,
            ),
            old(self).game_state() == GameState::Running ==> final(self).ran_from(
                old(self),
                flap,
                dt_us,
                cues,
            ),
            old(self).game_state() == GameState::GameOver && flap ==> {
                &&& cues == no_cues()
                &&& exists|o1: u32, o2: u32, o3: u32|
                    o1 < PIPE_HEIGHT_CHOICES && o2 < PIPE_HEIGHT_CHOICES && o3
                        < PIPE_HEIGHT_CHOICES && #[trigger] final(self).restarted_from(
                        old(self),
                        o1,
                        o2,
                        o3,
                    )
                &&& final(self).game_state() == GameState::Ready
                &&& final(self).score() == 0
                &&& final(self).bird().is_alive()
                &&& final(self).bird().rotation() == 0
                &&& final(self).bird().position().y == old(self).start_y()
                &&& final(self).scroller().in_start_layout()
                &&& final(self).scroller().front_grass().position().x == 0
                &&& final(self).scroller().back_grass().position().x == GRASS_WIDTH * UNIT
                &&& final(self).scroller().pipe1().position().x == FIRST_PIPE_X
                &&& final(self).scroller().pipe2().position().x == FIRST_PIPE_X + PIPE_WIDTH
                    * UNIT + PIPE_GAP
                &&& final(self).scroller().pipe3().position().x == FIRST_PIPE_X + 2 * (PIPE_WIDTH
                    * UNIT + PIPE_GAP)
            },
            (old(self).game_state() == GameState::GameOver && !flap) || old(self).game_state()
                == GameState::HighScore ==> final(self).play_kept(old(self)) && cues == no_cues(),
            old(self).game_state() != GameState::Running && !(old(self).game_state()
                == GameState::GameOver && flap) ==> final(self).score() == old(self).score(),
            old(self).game_state() == GameState::Running ==> final(self).score() == old(
                self,
            ).score() || final(self).score() == old(self).score() + 1,
    {
        self.run_time = self.run_time.saturating_add(dt_us as u64);
        let ghost w = *self;
        match self.game_state {
            GameState::Menu | GameState::Ready => {
                self.update_ready(flap, dt_us, bob);
                no_cues_value()
            },
            GameState::Running => {
                let cues = self.update_running(flap, dt_us);
                proof {
                    let (b1, s1, s2, offset) = choose|
                        b1: Bird,
                        s1: ScrollHandler,
                        s2: ScrollHandler,
                        offset: u32,
                    | #[trigger] self.ran_through(&w, flap, dt_us, cues, b1, s1, s2, offset);
                    assert(self.ran_through(old(self), flap, dt_us, cues, b1, s1, s2, offset));
                }
                cues
            },
            GameState::GameOver => {
                self.update_game_over(flap);
                proof {
                    if flap {
                        let (o1, o2, o3) = choose|o1: u32, o2: u32, o3: u32|
                            o1 < PIPE_HEIGHT_CHOICES && o2 < PIPE_HEIGHT_CHOICES && o3
                                < PIPE_HEIGHT_CHOICES && #[trigger] self.restarted_from(
                                &w,
                                o1,
                                o2,
                                o3,
                            );
                        assert(self.restarted_from(old(self), o1, o2, o3));
                    }
                }
                no_cues_value()
            },
            GameState::HighScore => no_cues_value(),
        }
    }

    fn update_ready(&mut self, flap: bool, dt_us: u32, bob: i64)
        requires
            old(self).wf(),
        ensures
            final(self).wf(),
            final(self).frame_kept(old(self)),
            final(self).readied_from(old(self), flap, dt_us, bob),
    {
        if flap {
            self.game_state = GameState::Running;
        }
        self.bird.update_ready(bob);
        self.scroller.update_ready(dt_us);
    }

    fn update_running(&mut self, flap: bool, dt_us: u32) -> (cues: Cues)
        requires
            old(self).wf(),
        ensures
            final(self).wf(),
            final(self).frame_kept(old(self)),
            final(self).ran_from(old(self), flap, dt_us, cues),
    {
        let flapped = self.bird.update_running(flap, dt_us);
        self.scroller.update_running(dt_us);
        let ghost b1 = self.bird;
        let ghost s1 = self.scroller;
        let scored = self.scroller.scored(&self.bird);
        let ghost s2 = self.scroller;
        if scored {
            self.score = self.score.saturating_add(1);
        }
        let mut death = false;
        if self.scroller.collides(&self.bird) && self.bird.is_alive() {
            self.scroller.stop();
            self.bird.die();
            death = true;
        }
        let bird_circle = self.bird.bounding_circle();
        if circle_touches_box(&bird_circle, &self.ground) {
            if self.bird.is_alive() {
                death = true;
            }
            self.scroller.stop();
            self.bird.die();
            self.bird.decelerate();
            self.game_state = GameState::GameOver;
        }
        let cues = Cues { flap: flapped, score: scored, death };
        proof {
            let offset = choose|offset: u32|
                offset < PIPE_HEIGHT_CHOICES && s1.pipes_stepped_from(
                    old(self).scroller(),
                    dt_us,
                    offset,
                );
            assert(self.ran_through(old(self), flap, dt_us, cues, b1, s1, s2, offset));
        }
        cues
    }

    fn update_game_over(&mut self, flap: bool)
        requires
            old(self).wf(),
        ensures
            final(self).wf(),
            final(self).frame_kept(old(self)),
            !flap ==> *final(self) == *old(self),
            flap ==> {
                &&& exists|o1: u32, o2: u32, o3: u32|
                    o1 < PIPE_HEIGHT_CHOICES && o2 < PIPE_HEIGHT_CHOICES && o3
                        < PIPE_HEIGHT_CHOICES && #[trigger] final(self).restarted_from(
                        old(self),
                        o1,
                        o2,
                        o3,
                    )
                &&& final(self).scroller().in_start_layout()
            },
    {
        if flap {
            self.restart();
        }
    }

    fn restart(&mut self)
        requires
            old(self).wf(),
        ensures
            final(self).wf(),
            final(self).frame_kept(old(self)),
            exists|o1: u32, o2: u32, o3: u32|
                o1 < PIPE_HEIGHT_CHOICES && o2 < PIPE_HEIGHT_CHOICES && o3 < PIPE_HEIGHT_CHOICES
                    && #[trigger] final(self).restarted_from(old(self), o1, o2, o3),
            final(self).scroller().in_start_layout(),
    {
        self.score = 0;
        self.bird.on_restart(self.mid_point_y as i64 * UNIT + BIRD_START_ABOVE_MID);
        let ghost before = *self;
        self.scroller.on_restart();
        self.game_state = GameState::Ready;
        proof {
            let (o1, o2, o3) = choose|o1: u32, o2: u32, o3: u32|
                o1 < PIPE_HEIGHT_CHOICES && o2 < PIPE_HEIGHT_CHOICES && o3 < PIPE_HEIGHT_CHOICES
                    && #[trigger] self.scroller.restarted_from(&before.scroller, o1, o2, o3);
            assert(self.restarted_from(old(self), o1, o2, o3));
        }
    }

    #[verifier::when_used_as_spec(spec_game_state)]
    pub fn game_state(&self) -> (r: GameState)
        ensures
            r == self.spec_game_state(),
    {
        self.game_state
    }

    #[verifier::when_used_as_spec(spec_score)]
    pub fn score(&self) -> (r: u32)
        ensures
            r == self.spec_score(),
    {
        self.score
    }

    /// Microseconds since the world was made.
    #[verifier::when_used_as_spec(spec_run_time)]
    pub fn run_time(&self) -> (r: u64)
        ensures
            r == self.spec_run_time(),
    {
        self.run_time
    }

    /// Half the game's height, in whole world units.
    #[verifier::when_used_as_spec(spec_mid_point_y)]
    pub fn mid_point_y(&self) -> (r: u32)
        ensures
            r == self.spec_mid_point_y(),
    {
        self.mid_point_y
    }

    #[verifier::when_used_as_spec(spec_bird)]
    pub fn bird(&self) -> (r: &Bird)
        ensures
            r == self.spec_bird(),
    {
        &self.bird
    }

    #[verifier::when_used_as_spec(spec_scroller)]
    pub fn scroller(&self) -> (r: &ScrollHandler)
        ensures
            r == self.spec_scroller(),
    {
        &self.scroller
    }
}

/// In every well-formed world the bird's tilt lies within `[MIN_ROTATION,
/// MAX_ROTATION]`; `new` makes a well-formed world and `update` keeps it so,
/// so the bound holds for any sequence of frames.
pub proof fn world_rotation_bounded(w: GameWorld)
    requires
        w.wf(),
    ensures
        MIN_ROTATION <= w.bird().rotation() <= MAX_ROTATION,
{
}

fn no_cues_value() -> (r: Cues)
    ensures
        r == no_cues(),
{
    Cues { flap: false, score: false, death: false }
}

} // verus!
