//! The player's bird: gravity, flapping, a terminal fall speed, a ceiling,
//! a tilt that follows the vertical motion, and a bounding circle.

use vstd::prelude::*;

use crate::geometry::{
    clamp_position, offset_position, scaled_step, step_of, within_world, Circle, Vec2,
    GAME_HEIGHT_LIMIT, UNIT,
};

verus! {

/// Radius of the bird's bounding circle.
pub const BIRD_RADIUS: i64 = 6_500_000;

/// Downward acceleration of a living bird, per second squared.
pub const BIRD_GRAVITY: i64 = -460_000_000;

/// Vertical speed given by a flap.
pub const FLAP_SPEED: i64 = 140_000_000;

/// The fastest the bird falls.
pub const TERMINAL_SPEED: i64 = -200_000_000;

/// Below this vertical speed the bird counts as falling and tilts nose down.
pub const FALLING_SPEED: i64 = -110_000_000;

/// Above this vertical speed a living bird shows its flapping animation.
pub const FLAP_ANIMATION_SPEED: i64 = -70_000_000;

/// Highest tilt, in micro-degrees (nose up).
pub const MAX_ROTATION: i64 = 20_000_000;

/// Lowest tilt, in micro-degrees (nose down).
pub const MIN_ROTATION: i64 = -90_000_000;

/// Tilt speed while rising, micro-degrees per second.
pub const RISE_TURN_RATE: i64 = 600_000_000;

/// Tilt speed while falling or dead, micro-degrees per second.
pub const FALL_TURN_RATE: i64 = 480_000_000;

/// Offset of the bounding circle's center from the bird's position.
pub const CIRCLE_OFFSET_X: i64 = 9_000_000;

pub const CIRCLE_OFFSET_Y: i64 = 6_000_000;

pub struct Bird {
    position: Vec2,
    velocity: Vec2,
    acceleration: Vec2,
    rotation: i64,
    width: u32,
    height: u32,
    original_y: i64,
    is_alive: bool,
    game_height: i64,
}

impl Bird {
    pub closed spec fn spec_position(&self) -> Vec2 {
        self.position
    }

    pub closed spec fn spec_velocity(&self) -> Vec2 {
        self.velocity
    }

    pub closed spec fn spec_acceleration(&self) -> Vec2 {
        self.acceleration
    }

    pub closed spec fn spec_rotation(&self) -> i64 {
        self.rotation
    }

    pub closed spec fn spec_width(&self) -> u32 {
        self.width
    }

    pub closed spec fn spec_height(&self) -> u32 {
        self.height
    }

    pub closed spec fn spec_is_alive(&self) -> bool {
        self.is_alive
    }

    /// The height the bird idles around before a run.
    pub closed spec fn original_y(&self) -> i64 {
        self.original_y
    }

    pub closed spec fn game_height(&self) -> i64 {
        self.game_height
    }

    /// The bird moves only vertically, its speed lies between the terminal
    /// fall speed and the flap speed, gravity is either on or off, and its
    /// tilt lies within `[MIN_ROTATION, MAX_ROTATION]`.
    pub open spec fn wf(&self) -> bool {
        &&& within_world(self.position().x as int)
        &&& within_world(self.position().y as int)
        &&& within_world(self.original_y() as int)
        &&& 0 <= self.game_height() <= GAME_HEIGHT_LIMIT
        &&& self.velocity().x == 0
        &&& TERMINAL_SPEED <= self.velocity().y <= FLAP_SPEED
        &&& self.acceleration().x == 0
        &&& BIRD_GRAVITY <= self.acceleration().y <= 0
        &&& MIN_ROTATION <= self.rotation() <= MAX_ROTATION
    }

    pub open spec fn spec_bounding_circle(&self) -> Circle {
        Circle {
            center: Vec2 {
                x: (self.position().x + CIRCLE_OFFSET_X) as i64,
                y: (self.position().y + CIRCLE_OFFSET_Y) as i64,
            },
            radius: BIRD_RADIUS,
        }
    }

    pub open spec fn spec_is_falling(&self) -> bool {
        self.velocity().y < FALLING_SPEED
    }

    /// The vertical speed after a flap input: a living bird gets the flap
    /// speed.
    pub open spec fn flap_speed(&self, flap: bool) -> int {
        if flap && self.is_alive() {
            FLAP_SPEED as int
        } else {
            self.velocity().y as int
        }
    }

    /// The bird is above the ceiling, `BIRD_RADIUS` over the game's top.
    pub open spec fn above_ceiling(&self) -> bool {
        self.position().y > self.game_height() + BIRD_RADIUS
    }

    /// The vertical speed after one frame of flight: gravity acts on the
    /// speed after the flap, the fall speed is capped at `TERMINAL_SPEED`,
    /// and a bird above the ceiling is stopped.
    pub open spec fn next_speed(&self, flap: bool, dt_us: u32) -> int {
        let v = self.flap_speed(flap) + step_of(self.acceleration().y as int, dt_us as int);
        if self.above_ceiling() {
            0
        } else if v < TERMINAL_SPEED {
            TERMINAL_SPEED as int
        } else {
            v
        }
    }

    /// The height after one frame of flight: from the ceiling if the bird
    /// was above it, moved by the new speed over `dt_us`.
    pub open spec fn next_y(&self, flap: bool, dt_us: u32) -> int {
        let y0 = if self.above_ceiling() {
            self.game_height() + BIRD_RADIUS
        } else {
            self.position().y as int
        };
        clamp_position(y0 + step_of(self.next_speed(flap, dt_us), dt_us as int))
    }

    /// The fields that no operation changes.
    pub open spec fn same_frame(&self, b: &Bird) -> bool {
        &&& self.width() == b.width()
        &&& self.height() == b.height()
        &&& self.original_y() == b.original_y()
        &&& self.game_height() == b.game_height()
    }

    /// `self` is `b` after one frame of flight lasting `dt_us` with the flap
    /// input `flap`.
    pub open spec fn flew_from(&self, b: &Bird, flap: bool, dt_us: u32) -> bool {
        let vy = b.next_speed(flap, dt_us);
        &&& self.same_frame(b)
        &&& self.is_alive() == b.is_alive()
        &&& self.acceleration() == b.acceleration()
        &&& self.velocity() == (Vec2 { x: b.velocity().x, y: vy as i64 })
        &&& self.position() == (Vec2 { x: b.position().x, y: b.next_y(flap, dt_us) as i64 })
        &&& self.rotation() == turned(b.rotation() as int, vy, b.is_alive(), dt_us)
    }

    /// `self` is `b` bobbing `bob` above its original height.
    pub open spec fn bobbed_from(&self, b: &Bird, bob: i64) -> bool {
        &&& self.same_frame(b)
        &&& self.is_alive() == b.is_alive()
        &&& self.acceleration() == b.acceleration()
        &&& self.velocity() == b.velocity()
        &&& self.rotation() == b.rotation()
        &&& self.position() == (Vec2 {
            x: b.position().x,
            y: clamp_position(b.original_y() + bob) as i64,
        })
    }

    /// `self` is `b` killed: dead, with no vertical speed.
    pub open spec fn killed_from(&self, b: &Bird) -> bool {
        &&& self.same_frame(b)
        &&& !self.is_alive()
        &&& self.acceleration() == b.acceleration()
        &&& self.velocity() == (Vec2 { x: b.velocity().x, y: 0 })
        &&& self.rotation() == b.rotation()
        &&& self.position() == b.position()
    }

    /// `self` is `b` with gravity off.
    pub open spec fn decelerated_from(&self, b: &Bird) -> bool {
        &&& self.same_frame(b)
        &&& self.is_alive() == b.is_alive()
        &&& self.acceleration() == (Vec2 { x: b.acceleration().x, y: 0 })
        &&& self.velocity() == b.velocity()
        &&& self.rotation() == b.rotation()
        &&& self.position() == b.position()
    }

    /// `self` is `b` brought back to life at height `y`, level, at rest and
    /// under gravity.
    pub open spec fn restarted_from(&self, b: &Bird, y: i64) -> bool {
        &&& self.same_frame(b)
        &&& self.is_alive()
        &&& self.acceleration() == (Vec2 { x: 0, y: BIRD_GRAVITY })
        &&& self.velocity() == (Vec2 { x: 0, y: 0 })
        &&& self.rotation() == 0
        &&& self.position() == (Vec2 { x: b.position().x, y })
    }

    /// The bird after a flap input.
    closed spec fn after_flap(self, flap: bool) -> Bird {
        if flap && self.is_alive {
            Bird { velocity: Vec2 { x: self.velocity.x, y: FLAP_SPEED }, ..self }
        } else {
            self
        }
    }

    /// A living bird at rest at `(x, y)`, under gravity and level.
    pub fn new(x: i64, y: i64, width: u32, height: u32, game_height: i64) -> (r: Bird)
        requires
            within_world(x as int),
            within_world(y as int),
            0 <= game_height <= GAME_HEIGHT_LIMIT,
        ensures
            r.wf(),
            r.position() == (Vec2 { x, y }),
            r.velocity() == (Vec2 { x: 0, y: 0 }),
            r.acceleration() == (Vec2 { x: 0, y: BIRD_GRAVITY }),
            r.rotation() == 0,
            r.width() == width,
            r.height() == height,
            r.original_y() == y,
            r.is_alive(),
            r.game_height() == game_height,
    {
        Bird {
            position: Vec2 { x, y },
            velocity: Vec2 { x: 0, y: 0 },
            acceleration: Vec2 { x: 0, y: BIRD_GRAVITY },
            rotation: 0,
            width,
            height,
            original_y: y,
            is_alive: true,
            game_height,
        }
    }

    /// Idle bobbing before a run: the bird sits `bob` micro-units above its
    /// original height (the caller's oscillation, `2 * sin(7 * run_time)`
    /// world units).
    pub fn update_ready(&mut self, bob: i64)
        requires
            old(self).wf(),
        ensures
            final(self).wf(),
            final(self).bobbed_from(old(self), bob),
    {
        self.position.y = offset_position(self.original_y, bob);
    }

    /// Gives a living bird the flap speed; reports whether it flapped.
    fn on_click(&mut self, flap: bool) -> (flapped: bool)
        requires
            old(self).wf(),
        ensures
            final(self).wf(),
            *final(self) == old(self).after_flap(flap),
            flapped == (flap && old(self).is_alive()),
    {
        if flap && self.is_alive {
            self.velocity.y = FLAP_SPEED;
            true
        } else {
            false
        }
    }

    /// One frame of flight: a flap input on a living bird sets the flap
    /// speed; gravity acts over `dt_us`; the fall speed is capped; a bird
    /// above the ceiling is put back on it and stopped; the bird moves; and
    /// the tilt turns up while rising (to at most `MAX_ROTATION`) and down
    /// while falling fast or dead (to at least `MIN_ROTATION`). Returns
    /// whether the bird flapped.
    pub fn update_running(&mut self, flap: bool, dt_us: u32) -> (flapped: bool)
        requires
            old(self).wf(),
        ensures
            final(self).wf(),
            final(self).flew_from(old(self), flap, dt_us),
            flapped == (flap && old(self).is_alive()),
            MIN_ROTATION <= final(self).rotation() <= MAX_ROTATION,
            final(self).velocity().y >= TERMINAL_SPEED,
    {
        proof {
            lemma_steps(self.acceleration.y, dt_us);
        }
        let flapped = self.on_click(flap);
        let vx = self.velocity.x + scaled_step(self.acceleration.x, dt_us);
        let mut vy = self.velocity.y + scaled_step(self.acceleration.y, dt_us);
        if vy < TERMINAL_SPEED {
            vy = TERMINAL_SPEED;
        }
        let ceiling = self.game_height + BIRD_RADIUS;
        if self.position.y > ceiling {
            self.position.y = ceiling;
            vy = 0;
        }
        self.velocity = Vec2 { x: vx, y: vy };
        self.position.x = offset_position(self.position.x, scaled_step(vx, dt_us));
        self.position.y = offset_position(self.position.y, scaled_step(vy, dt_us));
        if vy > 0 {
            let rising = self.rotation + scaled_step(RISE_TURN_RATE, dt_us);
            self.rotation = if rising > MAX_ROTATION {
                MAX_ROTATION
            } else {
                rising
            };
        }
        if self.is_falling() || !self.is_alive {
            let falling = self.rotation - scaled_step(FALL_TURN_RATE, dt_us);
            self.rotation = if falling < MIN_ROTATION {
                MIN_ROTATION
            } else {
                falling
            };
        }
        flapped
    }

    /// Marks the bird dead and stops its vertical motion.
    pub fn die(&mut self)
        requires
            old(self).wf(),
        ensures
            final(self).wf(),
            final(self).killed_from(old(self)),
            !final(self).is_alive(),
            final(self).velocity().y == 0,
    {
        self.is_alive = false;
        self.velocity.y = 0;
    }

    /// Turns gravity off, so that a bird on the ground stays put.
    pub fn decelerate(&mut self)
        requires
            old(self).wf(),
        ensures
            final(self).wf(),
            final(self).decelerated_from(old(self)),
            final(self).acceleration().y == 0,
    {
        self.acceleration.y = 0;
    }

    /// Brings the bird back to life at height `y`, level, at rest and under
    /// gravity.
    pub fn on_restart(&mut self, y: i64)
        requires
            old(self).wf(),
            within_world(y as int),
        ensures
            final(self).wf(),
            final(self).restarted_from(old(self), y),
            final(self).is_alive(),
            final(self).rotation() == 0,
            final(self).position() == (Vec2 { x: old(self).position().x, y }),
            final(self).velocity() == (Vec2 { x: 0, y: 0 }),
            final(self).acceleration() == (Vec2 { x: 0, y: BIRD_GRAVITY }),
    {
        self.rotation = 0;
        self.position.y = y;
        self.velocity.x = 0;
        self.velocity.y = 0;
        self.acceleration.x = 0;
        self.acceleration.y = BIRD_GRAVITY;
        self.is_alive = true;
    }

    /// Whether the bird falls faster than `FALLING_SPEED`.
    #[verifier::when_used_as_spec(spec_is_falling)]
    pub fn is_falling(&self) -> (r: bool)
        ensures
            r == self.spec_is_falling(),
    {
        self.velocity.y < FALLING_SPEED
    }

    /// Whether the bird shows its flapping animation: alive and not falling
    /// faster than `FLAP_ANIMATION_SPEED`.
    pub fn should_flap(&self) -> (r: bool)
        ensures
            r == (self.is_alive() && self.velocity().y > FLAP_ANIMATION_SPEED),
    {
        self.is_alive && self.velocity.y > FLAP_ANIMATION_SPEED
    }

    #[verifier::when_used_as_spec(spec_position)]
    pub fn position(&self) -> (r: Vec2)
        ensures
            r == self.spec_position(),
    {
        self.position
    }

    #[verifier::when_used_as_spec(spec_velocity)]
    pub fn velocity(&self) -> (r: Vec2)
        ensures
            r == self.spec_velocity(),
    {
        self.velocity
    }

    #[verifier::when_used_as_spec(spec_acceleration)]
    pub fn acceleration(&self) -> (r: Vec2)
        ensures
            r == self.spec_acceleration(),
    {
        self.acceleration
    }

    #[verifier::when_used_as_spec(spec_width)]
    pub fn width(&self) -> (r: u32)
        ensures
            r == self.spec_width(),
    {
        self.width
    }

    #[verifier::when_used_as_spec(spec_height)]
    pub fn height(&self) -> (r: u32)
        ensures
            r == self.spec_height(),
    {
        self.height
    }

    /// The tilt in micro-degrees.
    #[verifier::when_used_as_spec(spec_rotation)]
    pub fn rotation(&self) -> (r: i64)
        ensures
            r == self.spec_rotation(),
    {
        self.rotation
    }

    /// The bounding circle: radius `BIRD_RADIUS`, centered at the position
    /// offset by `(CIRCLE_OFFSET_X, CIRCLE_OFFSET_Y)`.
    #[verifier::when_used_as_spec(spec_bounding_circle)]
    pub fn bounding_circle(&self) -> (r: Circle)
        requires
            self.wf(),
        ensures
            r == self.spec_bounding_circle(),
            r.center.x == self.position().x + CIRCLE_OFFSET_X,
            r.center.y == self.position().y + CIRCLE_OFFSET_Y,
            r.radius == BIRD_RADIUS,
    {
        Circle {
            center: Vec2 {
                x: self.position.x + CIRCLE_OFFSET_X,
                y: self.position.y + CIRCLE_OFFSET_Y,
            },
            radius: BIRD_RADIUS,
        }
    }

    #[verifier::when_used_as_spec(spec_is_alive)]
    pub fn is_alive(&self) -> (r: bool)
        ensures
            r == self.spec_is_alive(),
    {
        self.is_alive
    }

    /// The tilt never leaves `[MIN_ROTATION, MAX_ROTATION]`: it holds of
    /// every well-formed bird, and every operation on a bird turns a
    /// well-formed bird into a well-formed one, so it holds after any
    /// sequence of updates.
    pub proof fn rotation_bounded(b: Bird, n: Bird, flap: bool, dt_us: u32, bob: i64, y: i64)
        requires
            b.wf(),
            within_world(y as int),
        ensures
            MIN_ROTATION <= b.rotation() <= MAX_ROTATION,
            n.flew_from(&b, flap, dt_us) ==> n.wf(),
            n.bobbed_from(&b, bob) ==> n.wf(),
            n.killed_from(&b) ==> n.wf(),
            n.decelerated_from(&b) ==> n.wf(),
            n.restarted_from(&b, y) ==> n.wf(),
    {
        lemma_steps(b.acceleration().y, dt_us);
    }
}

/// The tilt after a frame: with a rising speed it turns up at
/// `RISE_TURN_RATE`, to at most `MAX_ROTATION`; then, falling faster than
/// `FALLING_SPEED` or dead, it turns down at `FALL_TURN_RATE`, to at least
/// `MIN_ROTATION`.
pub open spec fn turned(rotation: int, vy: int, alive: bool, dt_us: u32) -> int {
    let rising = rotation + step_of(RISE_TURN_RATE as int, dt_us as int);
    let r0 = if vy > 0 {
        if rising > MAX_ROTATION {
            MAX_ROTATION as int
        } else {
            rising
        }
    } else {
        rotation
    };
    let falling = r0 - step_of(FALL_TURN_RATE as int, dt_us as int);
    if vy < FALLING_SPEED || !alive {
        if falling < MIN_ROTATION {
            MIN_ROTATION as int
        } else {
            falling
        }
    } else {
        r0
    }
}

/// Signs of the steps that flight takes.
proof fn lemma_steps(ay: i64, dt_us: u32)
    requires
        ay <= 0,
    ensures
        step_of(ay as int, dt_us as int) <= 0,
        step_of(0, dt_us as int) == 0,
        step_of(RISE_TURN_RATE as int, dt_us as int) >= 0,
        step_of(FALL_TURN_RATE as int, dt_us as int) >= 0,
{
    assert(ay * dt_us <= 0) by (nonlinear_arith)
        requires
            ay <= 0,
            dt_us >= 0,
    ;
    vstd::arithmetic::div_mod::lemma_div_is_ordered(ay * dt_us, 0, UNIT as int);
    vstd::arithmetic::div_mod::lemma_div_pos_is_pos(RISE_TURN_RATE * dt_us, UNIT as int);
    vstd::arithmetic::div_mod::lemma_div_pos_is_pos(FALL_TURN_RATE * dt_us, UNIT as int);
}

} // verus!
