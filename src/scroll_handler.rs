//! Scrolling scenery: two ground strips that tile end to end and three pipes
//! that cycle with a random gap height, with scoring and collision against
//! the bird.

use rand::distributions::IndependentSample;
use vstd::prelude::*;

use crate::bird::Bird;
use crate::geometry::{
    circle_touches_box, clamp_position, clamp_to_world, offset_position, scaled_step, step_of,
    touches, within_world, Aabb, Circle, Vec2, GAME_HEIGHT_LIMIT, POSITION_LIMIT, RATE_LIMIT, UNIT,
};

verus! {

/// Horizontal speed of all scenery.
pub const SCROLL_SPEED: i64 = -59_000_000;

/// Horizontal space between one pipe's tail and the next pipe.
pub const PIPE_GAP: i64 = 49_000_000;

/// Vertical opening between a pipe's lower and upper bar.
pub const VERTICAL_GAP: i64 = 45_000_000;

/// The smallest lower-bar height of a pipe, in world units.
pub const MIN_PIPE_HEIGHT: u32 = 15;

/// The number of lower-bar heights a pipe draws from: heights lie in
/// `[MIN_PIPE_HEIGHT, MIN_PIPE_HEIGHT + PIPE_HEIGHT_CHOICES)`.
pub const PIPE_HEIGHT_CHOICES: u32 = 90;

/// Size of a ground strip, in world units.
pub const GRASS_WIDTH: u32 = 143;

pub const GRASS_HEIGHT: u32 = 11;

/// Width of a pipe, in world units.
pub const PIPE_WIDTH: u32 = 22;

/// Where the first pipe starts.
pub const FIRST_PIPE_X: i64 = 210_000_000;

/// Relies on rand's `Range::new(low, high)`, which panics unless
/// `low < high`, and `IndependentSample::ind_sample` on the thread-local
/// generator, which returns a value in `[low, high)`.
#[verifier::external_body]
fn random_in_range(low: u32, high: u32) -> (r: u32)
    requires
        low < high,
    ensures
        low <= r < high,
{
    rand::distributions::Range::new(low, high).ind_sample(&mut rand::thread_rng())
}


/// A rectangle that moves at a constant horizontal speed and notes when it
/// has left the screen on the left.
pub struct Scrollable {
    position: Vec2,
    velocity: Vec2,
    width: u32,
    height: u32,
    is_scrolled_left: bool,
}

impl Scrollable {
    pub closed spec fn spec_position(&self) -> Vec2 {
        self.position
    }

    pub closed spec fn spec_velocity(&self) -> Vec2 {
        self.velocity
    }

    pub closed spec fn spec_width(&self) -> u32 {
        self.width
    }

    pub closed spec fn spec_height(&self) -> u32 {
        self.height
    }

    pub closed spec fn spec_is_scrolled_left(&self) -> bool {
        self.is_scrolled_left
    }

    /// The right edge.
    pub open spec fn spec_tail_x(&self) -> i64 {
        (self.position().x + self.width() * UNIT) as i64
    }

    /// Horizontal motion only, never to the right, and the scrolled-left
    /// flag is set only while the right edge is left of 0.
    pub open spec fn wf(&self) -> bool {
        &&& within_world(self.position().x as int)
        &&& within_world(self.position().y as int)
        &&& self.velocity().y == 0
        &&& -RATE_LIMIT <= self.velocity().x <= 0
        &&& self.is_scrolled_left() ==> self.position().x + self.width() * UNIT < 0
    }

    /// The left edge after moving for `dt_us`.
    pub open spec fn next_x(&self, dt_us: u32) -> int {
        clamp_position(self.position().x + step_of(self.velocity().x as int, dt_us as int))
    }

    /// The right edge after moving for `dt_us`.
    pub open spec fn next_tail(&self, dt_us: u32) -> int {
        self.next_x(dt_us) + self.width() * UNIT
    }

    /// Whether the rectangle is marked scrolled-left after moving for
    /// `dt_us`: it was, or its right edge is then left of 0.
    pub open spec fn next_scrolled(&self, dt_us: u32) -> bool {
        self.is_scrolled_left() || self.next_tail(dt_us) < 0
    }

    /// `self` is `b` after moving for `dt_us`.
    pub open spec fn moved_from(&self, b: &Scrollable, dt_us: u32) -> bool {
        &&& self.position() == (Vec2 { x: b.next_x(dt_us) as i64, y: b.position().y })
        &&& self.velocity() == b.velocity()
        &&& self.width() == b.width()
        &&& self.height() == b.height()
        &&& self.is_scrolled_left() == b.next_scrolled(dt_us)
    }

    /// `self` is `b` put at `new_x` (kept within the world), moving at
    /// `velocity`, on screen again; its height is stated apart.
    pub open spec fn placed_at(&self, b: &Scrollable, new_x: int, velocity: Vec2) -> bool {
        &&& self.position() == (Vec2 { x: clamp_position(new_x) as i64, y: b.position().y })
        &&& self.velocity() == velocity
        &&& self.width() == b.width()
        &&& !self.is_scrolled_left()
    }

    /// `self` is `b` stopped where it stands.
    pub open spec fn stopped_from(&self, b: &Scrollable) -> bool {
        &&& self.position() == b.position()
        &&& self.velocity() == (Vec2 { x: 0, y: 0 })
        &&& self.width() == b.width()
        &&& self.height() == b.height()
        &&& self.is_scrolled_left() == b.is_scrolled_left()
    }

    fn new(x: i64, y: i64, width: u32, height: u32, scroll_speed: i64) -> (r: Scrollable)
        requires
            within_world(x as int),
            within_world(y as int),
            -RATE_LIMIT <= scroll_speed <= 0,
        ensures
            r.wf(),
            r.position() == (Vec2 { x, y }),
            r.velocity() == (Vec2 { x: scroll_speed, y: 0 }),
            r.width() == width,
            r.height() == height,
            !r.is_scrolled_left(),
    {
        Scrollable {
            position: Vec2 { x, y },
            velocity: Vec2 { x: scroll_speed, y: 0 },
            width,
            height,
            is_scrolled_left: false,
        }
    }

    /// Moves by the velocity over `dt_us`; notes when the right edge has
    /// passed left of 0.
    fn update(&mut self, dt_us: u32)
        requires
            old(self).wf(),
        ensures
            final(self).wf(),
            final(self).moved_from(old(self), dt_us),
    {
        proof {
            lemma_step_sign(self.velocity.x, dt_us);
        }
        self.position.x = offset_position(self.position.x, scaled_step(self.velocity.x, dt_us));
        if self.get_tail_x() < 0 {
            self.is_scrolled_left = true;
        }
    }

    fn on_restart(&mut self, new_x: i64, scroll_speed: i64)
        requires
            old(self).wf(),
            -RATE_LIMIT <= scroll_speed <= 0,
        ensures
            final(self).wf(),
            final(self).placed_at(old(self), new_x as int, Vec2 { x: scroll_speed, y: 0 }),
            final(self).height() == old(self).height(),
    {
        self.velocity.x = scroll_speed;
        self.reset(new_x);
    }

    fn reset(&mut self, new_x: i64)
        requires
            old(self).wf(),
        ensures
            final(self).wf(),
            final(self).placed_at(old(self), new_x as int, old(self).velocity()),
            final(self).height() == old(self).height(),
    {
        self.position.x = clamp_to_world(new_x);
        self.is_scrolled_left = false;
    }

    fn stop(&mut self)
        requires
            old(self).wf(),
        ensures
            final(self).wf(),
            final(self).stopped_from(old(self)),
    {
        self.velocity.x = 0;
    }

    #[verifier::when_used_as_spec(spec_is_scrolled_left)]
    pub fn is_scrolled_left(&self) -> (r: bool)
        ensures
            r == self.spec_is_scrolled_left(),
    {
        self.is_scrolled_left
    }

    #[verifier::when_used_as_spec(spec_tail_x)]
    pub fn get_tail_x(&self) -> (r: i64)
        requires
            self.wf(),
        ensures
            r == self.spec_tail_x(),
            r == self.position().x + self.width() * UNIT,
    {
        self.position.x + self.width as i64 * UNIT
    }

    #[verifier::when_used_as_spec(spec_position)]
    pub fn position(&self) -> (r: Vec2)
        ensures
            r == self.spec_position(),
    {
        self.position
    }

    #[verifier::when_used_as_spec(spec_velocity)]
    pub fn velocity(&self) -> (r: Vec2)
        ensures
            r == self.spec_velocity(),
    {
        self.velocity
    }

    #[verifier::when_used_as_spec(spec_width)]
    pub fn width(&self) -> (r: u32)
        ensures
            r == self.spec_width(),
    {
        self.width
    }

    #[verifier::when_used_as_spec(spec_height)]
    pub fn height(&self) -> (r: u32)
        ensures
            r == self.spec_height(),
    {
        self.height
    }
}

/// A step at a speed that is not positive does not move right.
proof fn lemma_step_sign(v: i64, dt_us: u32)
    requires
        v <= 0,
    ensures
        step_of(v as int, dt_us as int) <= 0,
        v < 0 && dt_us > 0 ==> step_of(v as int, dt_us as int) < 0,
{
    let d = dt_us as int;
    assert(v * d <= 0) by (nonlinear_arith)
        requires
            v <= 0,
            d >= 0,
    ;
    vstd::arithmetic::div_mod::lemma_fundamental_div_mod(v * d, UNIT as int);
    if v < 0 && d > 0 {
        assert(v * d < 0) by (nonlinear_arith)
            requires
                v < 0,
                d > 0,
        ;
    }
}

/// A ground strip.
pub struct Grass {
    scrollable: Scrollable,
}

impl Grass {
    /// The moving rectangle that the strip is.
    pub closed spec fn strip(&self) -> Scrollable {
        self.scrollable
    }

    pub open spec fn spec_is_scrolled_left(&self) -> bool {
        self.strip().is_scrolled_left()
    }

    pub open spec fn spec_tail_x(&self) -> i64 {
        self.strip().spec_tail_x()
    }

    pub open spec fn spec_position(&self) -> Vec2 {
        self.strip().position()
    }

    pub open spec fn spec_width(&self) -> u32 {
        self.strip().width()
    }

    pub open spec fn spec_height(&self) -> u32 {
        self.strip().height()
    }

    pub open spec fn wf(&self) -> bool {
        self.strip().wf()
    }

    fn new(x: i64, y: i64, width: u32, height: u32, scroll_speed: i64) -> (r: Grass)
        requires
            within_world(x as int),
            within_world(y as int),
            -RATE_LIMIT <= scroll_speed <= 0,
        ensures
            r.wf(),
            r.position() == (Vec2 { x, y }),
            r.strip().velocity() == (Vec2 { x: scroll_speed, y: 0 }),
            r.width() == width,
            r.height() == height,
            !r.is_scrolled_left(),
    {
        Grass { scrollable: Scrollable::new(x, y, width, height, scroll_speed) }
    }

    fn update(&mut self, dt_us: u32)
        requires
            old(self).wf(),
        ensures
            final(self).wf(),
            final(self).strip().moved_from(&old(self).strip(), dt_us),
    {
        self.scrollable.update(dt_us);
    }

    fn on_restart(&mut self, new_x: i64, scroll_speed: i64)
        requires
            old(self).wf(),
            -RATE_LIMIT <= scroll_speed <= 0,
        ensures
            final(self).wf(),
            final(self).strip().placed_at(
                &old(self).strip(),
                new_x as int,
                Vec2 { x: scroll_speed, y: 0 },
            ),
            final(self).height() == old(self).height(),
    {
        self.scrollable.on_restart(new_x, scroll_speed);
    }

    fn reset(&mut self, new_x: i64)
        requires
            old(self).wf(),
        ensures
            final(self).wf(),
            final(self).strip().placed_at(
                &old(self).strip(),
                new_x as int,
                old(self).strip().velocity(),
            ),
            final(self).height() == old(self).height(),
    {
        self.scrollable.reset(new_x);
    }

    fn stop(&mut self)
        requires
            old(self).wf(),
        ensures
            final(self).wf(),
            final(self).strip().stopped_from(&old(self).strip()),
    {
        self.scrollable.stop();
    }

    /// Whether the strip has left the screen on the left since its last
    /// reset.
    #[verifier::when_used_as_spec(spec_is_scrolled_left)]
    pub fn is_scrolled_left(&self) -> (r: bool)
        ensures
            r == self.spec_is_scrolled_left(),
    {
        self.scrollable.is_scrolled_left()
    }

    /// The right edge.
    #[verifier::when_used_as_spec(spec_tail_x)]
    pub fn get_tail_x(&self) -> (r: i64)
        requires
            self.wf(),
        ensures
            r == self.spec_tail_x(),
            r == self.position().x + self.width() * UNIT,
    {
        self.scrollable.get_tail_x()
    }

    #[verifier::when_used_as_spec(spec_position)]
    pub fn position(&self) -> (r: Vec2)
        ensures
            r == self.spec_position(),
    {
        self.scrollable.position()
    }

    #[verifier::when_used_as_spec(spec_width)]
    pub fn width(&self) -> (r: u32)
        ensures
            r == self.spec_width(),
    {
        self.scrollable.width()
    }

    #[verifier::when_used_as_spec(spec_height)]
    pub fn height(&self) -> (r: u32)
        ensures
            r == self.spec_height(),
    {
        self.scrollable.height()
    }
}

/// A pipe: a lower bar of random height rising from the pipe's base, an
/// opening of `VERTICAL_GAP`, and an upper bar reaching the top of the game.
pub struct Pipe {
    scrollable: Scrollable,
    bar_upper_height: i64,
    bar_lower_height: i64,
    game_height: i64,
    is_scored: bool,
}

impl Pipe {
    pub closed spec fn strip(&self) -> Scrollable {
        self.scrollable
    }

    pub closed spec fn spec_upper_bar_height(&self) -> i64 {
        self.bar_upper_height
    }

    pub closed spec fn spec_lower_bar_height(&self) -> i64 {
        self.bar_lower_height
    }

    pub closed spec fn spec_is_scored(&self) -> bool {
        self.is_scored
    }

    pub closed spec fn game_height(&self) -> i64 {
        self.game_height
    }

    pub open spec fn spec_is_scrolled_left(&self) -> bool {
        self.strip().is_scrolled_left()
    }

    pub open spec fn spec_tail_x(&self) -> i64 {
        self.strip().spec_tail_x()
    }

    pub open spec fn spec_position(&self) -> Vec2 {
        self.strip().position()
    }

    pub open spec fn spec_width(&self) -> u32 {
        self.strip().width()
    }

    /// Height of the lower bar, in world units.
    pub open spec fn spec_height(&self) -> u32 {
        self.strip().height()
    }

    /// The heights of the bars of a pipe whose lower bar is `height` world
    /// units high: the lower bar spans `height`, and the upper bar the rest
    /// of the column above the opening up to the game's top.
    pub open spec fn bars_fit(&self, height: int) -> bool {
        &&& self.lower_bar_height() == height * UNIT
        &&& self.upper_bar_height() == self.game_height() - (self.position().y + height * UNIT
            + VERTICAL_GAP)
    }

    /// The lower bar's height lies in `[MIN_PIPE_HEIGHT, MIN_PIPE_HEIGHT +
    /// PIPE_HEIGHT_CHOICES)` world units, and the two bars with the opening
    /// between them fill the column from the pipe's base to the game's top.
    pub open spec fn wf(&self) -> bool {
        &&& self.strip().wf()
        &&& MIN_PIPE_HEIGHT <= self.height() < MIN_PIPE_HEIGHT + PIPE_HEIGHT_CHOICES
        &&& 0 <= self.game_height() <= GAME_HEIGHT_LIMIT
        &&& self.bars_fit(self.height() as int)
    }

    /// `self` has `b`'s bars, scored flag and game height.
    pub open spec fn kept_from(&self, b: &Pipe) -> bool {
        &&& self.upper_bar_height() == b.upper_bar_height()
        &&& self.lower_bar_height() == b.lower_bar_height()
        &&& self.is_scored() == b.is_scored()
        &&& self.game_height() == b.game_height()
    }

    /// `self` is `b` after moving for `dt_us`.
    pub open spec fn moved_from(&self, b: &Pipe, dt_us: u32) -> bool {
        self.strip().moved_from(&b.strip(), dt_us) && self.kept_from(b)
    }

    /// `self` is `b` stopped where it stands.
    pub open spec fn stopped_from(&self, b: &Pipe) -> bool {
        self.strip().stopped_from(&b.strip()) && self.kept_from(b)
    }

    /// `self` is `b` put at `new_x` (kept within the world), moving at
    /// `velocity`, with the lower-bar height `offset + MIN_PIPE_HEIGHT`, its
    /// bars fitted to it, and unscored.
    pub open spec fn placed_from(&self, b: &Pipe, new_x: int, velocity: Vec2, offset: u32) -> bool {
        &&& self.strip().placed_at(&b.strip(), new_x, velocity)
        &&& self.height() == offset + MIN_PIPE_HEIGHT
        &&& !self.is_scored()
        &&& self.game_height() == b.game_height()
        &&& self.bars_fit(self.height() as int)
    }

    /// `self` is `b` with the scored flag set to `scored`.
    pub open spec fn marked_from(&self, b: &Pipe, scored: bool) -> bool {
        &&& self.strip() == b.strip()
        &&& self.upper_bar_height() == b.upper_bar_height()
        &&& self.lower_bar_height() == b.lower_bar_height()
        &&& self.game_height() == b.game_height()
        &&& self.is_scored() == scored
    }

    /// The lower bar, from the pipe's base up to its height.
    pub open spec fn lower_bar(&self) -> Aabb {
        let p = self.position();
        Aabb {
            min: p,
            max: Vec2 {
                x: (p.x + self.width() * UNIT) as i64,
                y: (p.y + self.lower_bar_height()) as i64,
            },
        }
    }

    /// The upper bar, from the top of the opening up to the game's top.
    pub open spec fn upper_bar(&self) -> Aabb {
        let p = self.position();
        let bottom = p.y + self.height() * UNIT + VERTICAL_GAP;
        Aabb {
            min: Vec2 { x: p.x, y: bottom as i64 },
            max: Vec2 {
                x: (p.x + self.width() * UNIT) as i64,
                y: (bottom + self.upper_bar_height()) as i64,
            },
        }
    }

    /// The circle `c` of something whose right edge is at `right` hits the
    /// pipe: the pipe's left edge is left of `right`, and `c` touches (is at
    /// distance zero from) the upper or the lower bar.
    pub open spec fn hit_by(&self, c: Circle, right: int) -> bool {
        &&& self.position().x < right
        &&& (touches(c, self.upper_bar()) || touches(c, self.lower_bar()))
    }

    pub open spec fn spec_collides(&self, bird: &Bird) -> bool {
        self.hit_by(bird.bounding_circle(), bird.position().x + bird.width() * UNIT)
    }

    /// An unscored pipe whose center is left of the bird's right edge.
    pub open spec fn passed_by(&self, bird: &Bird) -> bool {
        !self.is_scored() && self.position().x + self.width() * (UNIT / 2) < bird.position().x
            + bird.width() * UNIT
    }

    /// A pipe at `(x, y)` of the given width, moving at `scroll_speed`, in a
    /// game `game_height` high; its lower-bar height is drawn at random.
    pub fn new(x: i64, y: i64, width: u32, scroll_speed: i64, game_height: i64) -> (r: Pipe)
        requires
            within_world(x as int),
            within_world(y as int),
            -RATE_LIMIT <= scroll_speed <= 0,
            0 <= game_height <= GAME_HEIGHT_LIMIT,
        ensures
            r.wf(),
            r.position() == (Vec2 { x, y }),
            r.strip().velocity() == (Vec2 { x: scroll_speed, y: 0 }),
            r.width() == width,
            r.game_height() == game_height,
            !r.is_scored(),
            !r.is_scrolled_left(),
    {
        let mut pipe = Pipe {
            scrollable: Scrollable::new(x, y, width, MIN_PIPE_HEIGHT, scroll_speed),
            bar_upper_height: game_height - (y + MIN_PIPE_HEIGHT as i64 * UNIT + VERTICAL_GAP),
            bar_lower_height: MIN_PIPE_HEIGHT as i64 * UNIT,
            game_height,
            is_scored: false,
        };
        pipe.reset(x);
        pipe
    }

    fn update(&mut self, dt_us: u32)
        requires
            old(self).wf(),
        ensures
            final(self).wf(),
            final(self).moved_from(old(self), dt_us),
    {
        self.scrollable.update(dt_us);
    }

    fn on_restart(&mut self, new_x: i64, scroll_speed: i64)
        requires
            old(self).wf(),
            -RATE_LIMIT <= scroll_speed <= 0,
        ensures
            final(self).wf(),
            exists|offset: u32|
                offset < PIPE_HEIGHT_CHOICES && final(self).placed_from(
                    old(self),
                    new_x as int,
                    Vec2 { x: scroll_speed, y: 0 },
                    offset,
                ),
    {
        self.scrollable.velocity.x = scroll_speed;
        let ghost sped = *self;
        self.reset(new_x);
        proof {
            let offset = choose|offset: u32|
                offset < PIPE_HEIGHT_CHOICES && self.placed_from(
                    &sped,
                    new_x as int,
                    sped.strip().velocity(),
                    offset,
                );
            assert(self.placed_from(old(self), new_x as int, Vec2 { x: scroll_speed, y: 0 }, offset));
        }
    }

    /// Moves the pipe to `new_x` with a fresh random height.
    fn reset(&mut self, new_x: i64)
        requires
            old(self).wf(),
        ensures
            final(self).wf(),
            exists|offset: u32|
                offset < PIPE_HEIGHT_CHOICES && final(self).placed_from(
                    old(self),
                    new_x as int,
                    old(self).strip().velocity(),
                    offset,
                ),
    {
        let offset = random_in_range(0, PIPE_HEIGHT_CHOICES);
        self.reset_with_offset(new_x, offset);
    }

    /// Moves the pipe to `new_x` (kept within the world), clears its scored
    /// flag, gives its lower bar the height `offset + MIN_PIPE_HEIGHT` and
    /// fits the upper bar between the opening and the game's top.
    pub fn reset_with_offset(&mut self, new_x: i64, offset: u32)
        requires
            old(self).wf(),
            offset < PIPE_HEIGHT_CHOICES,
        ensures
            final(self).wf(),
            final(self).placed_from(old(self), new_x as int, old(self).strip().velocity(), offset),
            final(self).position() == (Vec2 {
                x: clamp_position(new_x as int) as i64,
                y: old(self).position().y,
            }),
            final(self).width() == old(self).width(),
            final(self).height() == offset + MIN_PIPE_HEIGHT,
            final(self).lower_bar_height() == final(self).height() * UNIT,
            final(self).upper_bar_height() + final(self).lower_bar_height() + VERTICAL_GAP
                == final(self).game_height() - final(self).position().y,
            !final(self).is_scored(),
            !final(self).is_scrolled_left(),
    {
        self.scrollable.reset(new_x);
        let h = offset + MIN_PIPE_HEIGHT;
        self.scrollable.height = h;
        self.is_scored = false;
        self.bar_lower_height = h as i64 * UNIT;
        self.bar_upper_height = self.game_height - (self.scrollable.position.y + h as i64 * UNIT
            + VERTICAL_GAP);
    }

    fn stop(&mut self)
        requires
            old(self).wf(),
        ensures
            final(self).wf(),
            final(self).stopped_from(old(self)),
    {
        self.scrollable.stop();
    }

    /// Whether the pipe has left the screen on the left since its last reset.
    #[verifier::when_used_as_spec(spec_is_scrolled_left)]
    pub fn is_scrolled_left(&self) -> (r: bool)
        ensures
            r == self.spec_is_scrolled_left(),
    {
        self.scrollable.is_scrolled_left()
    }

    /// The right edge.
    #[verifier::when_used_as_spec(spec_tail_x)]
    pub fn get_tail_x(&self) -> (r: i64)
        requires
            self.wf(),
        ensures
            r == self.spec_tail_x(),
            r == self.position().x + self.width() * UNIT,
    {
        self.scrollable.get_tail_x()
    }

    #[verifier::when_used_as_spec(spec_position)]
    pub fn position(&self) -> (r: Vec2)
        ensures
            r == self.spec_position(),
    {
        self.scrollable.position()
    }

    #[verifier::when_used_as_spec(spec_width)]
    pub fn width(&self) -> (r: u32)
        ensures
            r == self.spec_width(),
    {
        self.scrollable.width()
    }

    /// Height of the lower bar, in world units.
    #[verifier::when_used_as_spec(spec_height)]
    pub fn height(&self) -> (r: u32)
        ensures
            r == self.spec_height(),
    {
        self.scrollable.height()
    }

    /// Height of the upper bar, in micro-units.
    #[verifier::when_used_as_spec(spec_upper_bar_height)]
    pub fn upper_bar_height(&self) -> (r: i64)
        ensures
            r == self.spec_upper_bar_height(),
    {
        self.bar_upper_height
    }

    /// Height of the lower bar, in micro-units.
    #[verifier::when_used_as_spec(spec_lower_bar_height)]
    pub fn lower_bar_height(&self) -> (r: i64)
        ensures
            r == self.spec_lower_bar_height(),
    {
        self.bar_lower_height
    }

    /// Whether the bird hits the pipe: once the pipe's left edge is left of
    /// the bird's right edge, whether the bird's bounding circle touches the
    /// upper or the lower bar (distance zero, touching included).
    pub fn collides(&self, bird: &Bird) -> (r: bool)
        requires
            self.wf(),
            bird.wf(),
        ensures
            r == self.spec_collides(bird),
            r == (self.position().x < bird.position().x + bird.width() * UNIT && (touches(
                bird.bounding_circle(),
                self.upper_bar(),
            ) || touches(bird.bounding_circle(), self.lower_bar()))),
    {
        let bird_right = bird.position().x + bird.width() as i64 * UNIT;
        if self.scrollable.position.x < bird_right {
            let circle = bird.bounding_circle();
            let p = self.scrollable.position;
            let right = p.x + self.scrollable.width as i64 * UNIT;
            let bottom = p.y + self.scrollable.height as i64 * UNIT + VERTICAL_GAP;
            let upper = Aabb {
                min: Vec2 { x: p.x, y: bottom },
                max: Vec2 { x: right, y: bottom + self.bar_upper_height },
            };
            let lower = Aabb {
                min: p,
                max: Vec2 { x: right, y: p.y + self.bar_lower_height },
            };
            circle_touches_box(&circle, &upper) || circle_touches_box(&circle, &lower)
        } else {
            false
        }
    }

    #[verifier::when_used_as_spec(spec_is_scored)]
    pub fn is_scored(&self) -> (r: bool)
        ensures
            r == self.spec_is_scored(),
    {
        self.is_scored
    }

    pub fn set_scored(&mut self, scored: bool)
        requires
            old(self).wf(),
        ensures
            final(self).wf(),
            final(self).marked_from(old(self), scored),
    {
        self.is_scored = scored;
    }
}

/// Marks `pipe` scored if the bird has passed its center; reports whether it
/// did.
fn check_scored(pipe: &mut Pipe, bird: &Bird) -> (r: bool)
    requires
        old(pipe).wf(),
        bird.wf(),
    ensures
        final(pipe).wf(),
        r == old(pipe).passed_by(bird),
        r ==> final(pipe).marked_from(old(pipe), true),
        !r ==> *final(pipe) == *old(pipe),
{
    let pipe_center = pipe.position().x + pipe.width() as i64 * (UNIT / 2);
    let bird_right = bird.position().x + bird.width() as i64 * UNIT;
    if !pipe.is_scored() && pipe_center < bird_right {
        pipe.set_scored(true);
        true
    } else {
        false
    }
}

/// The scenery: two ground strips and three pipes.
pub struct ScrollHandler {
    front_grass: Grass,
    back_grass: Grass,
    pipe1: Pipe,
    pipe2: Pipe,
    pipe3: Pipe,
}

impl ScrollHandler {
    pub closed spec fn spec_front_grass(&self) -> &Grass {
        &self.front_grass
    }

    pub closed spec fn spec_back_grass(&self) -> &Grass {
        &self.back_grass
    }

    pub closed spec fn spec_pipe1(&self) -> &Pipe {
        &self.pipe1
    }

    pub closed spec fn spec_pipe2(&self) -> &Pipe {
        &self.pipe2
    }

    pub closed spec fn spec_pipe3(&self) -> &Pipe {
        &self.pipe3
    }

    pub open spec fn wf(&self) -> bool {
        &&& self.front_grass().wf()
        &&& self.back_grass().wf()
        &&& self.pipe1().wf()
        &&& self.pipe2().wf()
        &&& self.pipe3().wf()
    }

    /// `self` has `b`'s ground strips.
    pub open spec fn grass_kept(&self, b: &ScrollHandler) -> bool {
        self.front_grass() == b.front_grass() && self.back_grass() == b.back_grass()
    }

    /// `self` has `b`'s pipes.
    pub open spec fn pipes_kept(&self, b: &ScrollHandler) -> bool {
        &&& self.pipe1() == b.pipe1()
        &&& self.pipe2() == b.pipe2()
        &&& self.pipe3() == b.pipe3()
    }

    /// `self`'s ground is `b`'s after one frame: both strips move; then a
    /// strip that has left the screen is put at the other's right edge, the
    /// front strip first.
    pub open spec fn grass_stepped_from(&self, b: &ScrollHandler, dt_us: u32) -> bool {
        let f = b.front_grass().strip();
        let g = b.back_grass().strip();
        let nf = self.front_grass().strip();
        let ng = self.back_grass().strip();
        if f.next_scrolled(dt_us) {
            &&& nf.placed_at(&f, g.next_tail(dt_us), f.velocity())
            &&& nf.height() == f.height()
            &&& ng.moved_from(&g, dt_us)
        } else if g.next_scrolled(dt_us) {
            &&& nf.moved_from(&f, dt_us)
            &&& ng.placed_at(&g, f.next_tail(dt_us), g.velocity())
            &&& ng.height() == g.height()
        } else {
            nf.moved_from(&f, dt_us) && ng.moved_from(&g, dt_us)
        }
    }

    /// `self`'s pipes are `b`'s after one frame: all three move; then the
    /// first pipe, in the order 1, 2, 3, that has left the screen is put
    /// `PIPE_GAP` after the right edge of the pipe before it in the cycle,
    /// with the height drawn as `offset`.
    pub open spec fn pipes_stepped_from(&self, b: &ScrollHandler, dt_us: u32, offset: u32) -> bool {
        let p1 = b.pipe1();
        let p2 = b.pipe2();
        let p3 = b.pipe3();
        let n1 = self.pipe1();
        let n2 = self.pipe2();
        let n3 = self.pipe3();
        if p1.strip().next_scrolled(dt_us) {
            &&& n1.placed_from(
                p1,
                p3.strip().next_tail(dt_us) + PIPE_GAP,
                p1.strip().velocity(),
                offset,
            )
            &&& n2.moved_from(p2, dt_us)
            &&& n3.moved_from(p3, dt_us)
        } else if p2.strip().next_scrolled(dt_us) {
            &&& n1.moved_from(p1, dt_us)
            &&& n2.placed_from(
                p2,
                p1.strip().next_tail(dt_us) + PIPE_GAP,
                p2.strip().velocity(),
                offset,
            )
            &&& n3.moved_from(p3, dt_us)
        } else if p3.strip().next_scrolled(dt_us) {
            &&& n1.moved_from(p1, dt_us)
            &&& n2.moved_from(p2, dt_us)
            &&& n3.placed_from(
                p3,
                p2.strip().next_tail(dt_us) + PIPE_GAP,
                p3.strip().velocity(),
                offset,
            )
        } else {
            n1.moved_from(p1, dt_us) && n2.moved_from(p2, dt_us) && n3.moved_from(p3, dt_us)
        }
    }

    /// `self` is `b` with all scenery stopped where it stands.
    pub open spec fn stopped_from(&self, b: &ScrollHandler) -> bool {
        &&& self.front_grass().strip().stopped_from(&b.front_grass().strip())
        &&& self.back_grass().strip().stopped_from(&b.back_grass().strip())
        &&& self.pipe1().stopped_from(b.pipe1())
        &&& self.pipe2().stopped_from(b.pipe2())
        &&& self.pipe3().stopped_from(b.pipe3())
    }

    /// Whether `scored(bird)` reports a point: some pipe is passed by the bird.
    pub open spec fn spec_scores(&self, bird: &Bird) -> bool {
        self.pipe1().passed_by(bird) || self.pipe2().passed_by(bird) || self.pipe3().passed_by(
            bird,
        )
    }

    /// `self` is `b` after `scored(bird)`: the first passed pipe, in the
    /// order 1, 2, 3, is marked scored, and nothing else changes.
    pub open spec fn scored_from(&self, b: &ScrollHandler, bird: &Bird) -> bool {
        &&& self.grass_kept(b)
        &&& if b.pipe1().passed_by(bird) {
            &&& self.pipe1().marked_from(b.pipe1(), true)
            &&& self.pipe2() == b.pipe2()
            &&& self.pipe3() == b.pipe3()
        } else if b.pipe2().passed_by(bird) {
            &&& self.pipe1() == b.pipe1()
            &&& self.pipe2().marked_from(b.pipe2(), true)
            &&& self.pipe3() == b.pipe3()
        } else if b.pipe3().passed_by(bird) {
            &&& self.pipe1() == b.pipe1()
            &&& self.pipe2() == b.pipe2()
            &&& self.pipe3().marked_from(b.pipe3(), true)
        } else {
            self.pipes_kept(b)
        }
    }

    pub open spec fn spec_collides(&self, bird: &Bird) -> bool {
        self.pipe1().spec_collides(bird) || self.pipe2().spec_collides(bird)
            || self.pipe3().spec_collides(bird)
    }

    /// `self` is `b` put back in the starting layout at `SCROLL_SPEED`, where
    /// the pipes drew `o1`, `o2` and `o3`.
    pub open spec fn restarted_from(&self, b: &ScrollHandler, o1: u32, o2: u32, o3: u32) -> bool {
        let speed = Vec2 { x: SCROLL_SPEED, y: 0 };
        let nf = self.front_grass().strip();
        let ng = self.back_grass().strip();
        &&& nf.placed_at(&b.front_grass().strip(), 0, speed)
        &&& nf.height() == b.front_grass().height()
        &&& ng.placed_at(&b.back_grass().strip(), nf.spec_tail_x() as int, speed)
        &&& ng.height() == b.back_grass().height()
        &&& self.pipe1().placed_from(b.pipe1(), FIRST_PIPE_X as int, speed, o1)
        &&& self.pipe2().placed_from(b.pipe2(), self.pipe1().get_tail_x() + PIPE_GAP, speed, o2)
        &&& self.pipe3().placed_from(b.pipe3(), self.pipe2().get_tail_x() + PIPE_GAP, speed, o3)
    }

    /// The starting layout: the front strip at 0 with the back strip at its
    /// right edge; the first pipe at `FIRST_PIPE_X` and each next pipe
    /// `PIPE_GAP` after the previous one's right edge; everything moving at
    /// `SCROLL_SPEED`, on screen and unscored.
    pub open spec fn in_start_layout(&self) -> bool {
        let f = self.front_grass();
        let b = self.back_grass();
        let p1 = self.pipe1();
        let p2 = self.pipe2();
        let p3 = self.pipe3();
        &&& f.position().x == 0
        &&& b.position().x == f.get_tail_x()
        &&& p1.position().x == FIRST_PIPE_X
        &&& p2.position().x == p1.get_tail_x() + PIPE_GAP
        &&& p3.position().x == p2.get_tail_x() + PIPE_GAP
        &&& f.strip().velocity().x == SCROLL_SPEED
        &&& b.strip().velocity().x == SCROLL_SPEED
        &&& p1.strip().velocity().x == SCROLL_SPEED
        &&& p2.strip().velocity().x == SCROLL_SPEED
        &&& p3.strip().velocity().x == SCROLL_SPEED
        &&& !f.is_scrolled_left() && !b.is_scrolled_left()
        &&& !p1.is_scrolled_left() && !p2.is_scrolled_left() && !p3.is_scrolled_left()
        &&& !p1.is_scored() && !p2.is_scored() && !p3.is_scored()
    }

    /// Ground strips at `y_pos - GRASS_HEIGHT` and pipes standing on
    /// `y_pos`, in the starting layout, in a game `game_height` high.
    pub fn new(y_pos: i64, game_height: i64) -> (r: ScrollHandler)
        requires
            within_world(y_pos - GRASS_HEIGHT * UNIT),
            within_world(y_pos as int),
            0 <= game_height <= GAME_HEIGHT_LIMIT,
        ensures
            r.wf(),
            r.in_start_layout(),
            r.front_grass().position().y == y_pos - GRASS_HEIGHT * UNIT,
            r.back_grass().position().y == y_pos - GRASS_HEIGHT * UNIT,
            r.front_grass().width() == GRASS_WIDTH,
            r.back_grass().width() == GRASS_WIDTH,
            r.front_grass().height() == GRASS_HEIGHT,
            r.back_grass().height() == GRASS_HEIGHT,
            r.pipe1().position().y == y_pos,
            r.pipe2().position().y == y_pos,
            r.pipe3().position().y == y_pos,
            r.pipe1().width() == PIPE_WIDTH,
            r.pipe2().width() == PIPE_WIDTH,
            r.pipe3().width() == PIPE_WIDTH,
            r.pipe1().game_height() == game_height,
            r.pipe2().game_height() == game_height,
            r.pipe3().game_height() == game_height,
    {
        let grass_y = y_pos - GRASS_HEIGHT as i64 * UNIT;
        let front_grass = Grass::new(0, grass_y, GRASS_WIDTH, GRASS_HEIGHT, SCROLL_SPEED);
        let back_grass = Grass::new(
            front_grass.get_tail_x(),
            grass_y,
            GRASS_WIDTH,
            GRASS_HEIGHT,
            SCROLL_SPEED,
        );
        let pipe1 = Pipe::new(FIRST_PIPE_X, y_pos, PIPE_WIDTH, SCROLL_SPEED, game_height);
        let pipe2 = Pipe::new(
            pipe1.get_tail_x() + PIPE_GAP,
            y_pos,
            PIPE_WIDTH,
            SCROLL_SPEED,
            game_height,
        );
        let pipe3 = Pipe::new(
            pipe2.get_tail_x() + PIPE_GAP,
            y_pos,
            PIPE_WIDTH,
            SCROLL_SPEED,
            game_height,
        );
        ScrollHandler { front_grass, back_grass, pipe1, pipe2, pipe3 }
    }

    /// One frame before a run: only the ground scrolls.
    pub fn update_ready(&mut self, dt_us: u32)
        requires
            old(self).wf(),
        ensures
            final(self).wf(),
            final(self).grass_stepped_from(old(self), dt_us),
            final(self).pipes_kept(old(self)),
    {
        self.update_grass(dt_us);
    }

    /// One frame of a run: the ground and the pipes scroll, and a pipe that
    /// has left the screen comes back behind the others with a new random
    /// height.
    pub fn update_running(&mut self, dt_us: u32)
        requires
            old(self).wf(),
        ensures
            final(self).wf(),
            final(self).grass_stepped_from(old(self), dt_us),
            exists|offset: u32|
                offset < PIPE_HEIGHT_CHOICES && final(self).pipes_stepped_from(
                    old(self),
                    dt_us,
                    offset,
                ),
    {
        self.update_grass(dt_us);
        let ghost ground_moved = *self;
        self.update_pipes(dt_us);
        proof {
            let offset = choose|offset: u32|
                offset < PIPE_HEIGHT_CHOICES && self.pipes_stepped_from(
                    &ground_moved,
                    dt_us,
                    offset,
                );
            assert(self.pipes_stepped_from(old(self), dt_us, offset));
        }
    }

    fn update_grass(&mut self, dt_us: u32)
        requires
            old(self).wf(),
        ensures
            final(self).wf(),
            final(self).grass_stepped_from(old(self), dt_us),
            final(self).pipes_kept(old(self)),
    {
        self.front_grass.update(dt_us);
        self.back_grass.update(dt_us);
        if self.front_grass.is_scrolled_left() {
            self.front_grass.reset(self.back_grass.get_tail_x());
        } else if self.back_grass.is_scrolled_left() {
            self.back_grass.reset(self.front_grass.get_tail_x());
        }
    }

    fn update_pipes(&mut self, dt_us: u32)
        requires
            old(self).wf(),
        ensures
            final(self).wf(),
            final(self).grass_kept(old(self)),
            exists|offset: u32|
                offset < PIPE_HEIGHT_CHOICES && final(self).pipes_stepped_from(
                    old(self),
                    dt_us,
                    offset,
                ),
    {
        self.pipe1.update(dt_us);
        self.pipe2.update(dt_us);
        self.pipe3.update(dt_us);
        let ghost moved = *self;
        if self.pipe1.is_scrolled_left() {
            let new_x = self.pipe3.get_tail_x() + PIPE_GAP;
            self.pipe1.reset(new_x);
            proof {
                let offset = choose|offset: u32|
                    offset < PIPE_HEIGHT_CHOICES && self.pipe1.placed_from(
                        &moved.pipe1,
                        new_x as int,
                        moved.pipe1.strip().velocity(),
                        offset,
                    );
                assert(self.pipes_stepped_from(old(self), dt_us, offset));
            }
        } else if self.pipe2.is_scrolled_left() {
            let new_x = self.pipe1.get_tail_x() + PIPE_GAP;
            self.pipe2.reset(new_x);
            proof {
                let offset = choose|offset: u32|
                    offset < PIPE_HEIGHT_CHOICES && self.pipe2.placed_from(
                        &moved.pipe2,
                        new_x as int,
                        moved.pipe2.strip().velocity(),
                        offset,
                    );
                assert(self.pipes_stepped_from(old(self), dt_us, offset));
            }
        } else if self.pipe3.is_scrolled_left() {
            let new_x = self.pipe2.get_tail_x() + PIPE_GAP;
            self.pipe3.reset(new_x);
            proof {
                let offset = choose|offset: u32|
                    offset < PIPE_HEIGHT_CHOICES && self.pipe3.placed_from(
                        &moved.pipe3,
                        new_x as int,
                        moved.pipe3.strip().velocity(),
                        offset,
                    );
                assert(self.pipes_stepped_from(old(self), dt_us, offset));
            }
        } else {
            assert(self.pipes_stepped_from(old(self), dt_us, 0));
        }
    }

    /// Freezes all scenery where it stands.
    pub fn stop(&mut self)
        requires
            old(self).wf(),
        ensures
            final(self).wf(),
            final(self).stopped_from(old(self)),
    {
        self.front_grass.stop();
        self.back_grass.stop();
        self.pipe1.stop();
        self.pipe2.stop();
        self.pipe3.stop();
    }

    /// Scores the first pipe, in the order 1, 2, 3, that is unscored and
    /// whose center is left of the bird's right edge: marks it scored and
    /// returns true. Returns false, changing nothing, when there is none.
    pub fn scored(&mut self, bird: &Bird) -> (r: bool)
        requires
            old(self).wf(),
            bird.wf(),
        ensures
            final(self).wf(),
            r == old(self).spec_scores(bird),
            final(self).scored_from(old(self), bird),
    {
        check_scored(&mut self.pipe1, bird) || check_scored(&mut self.pipe2, bird)
            || check_scored(&mut self.pipe3, bird)
    }

    /// Whether the bird hits any of the three pipes.
    #[verifier::when_used_as_spec(spec_collides)]
    pub fn collides(&self, bird: &Bird) -> (r: bool)
        requires
            self.wf(),
            bird.wf(),
        ensures
            r == self.spec_collides(bird),
    {
        self.pipe1.collides(bird) || self.pipe2.collides(bird) || self.pipe3.collides(bird)
    }

    /// Puts all scenery back in the starting layout at `SCROLL_SPEED`, with
    /// fresh random pipe heights.
    pub fn on_restart(&mut self)
        requires
            old(self).wf(),
        ensures
            final(self).wf(),
            final(self).in_start_layout(),
            exists|o1: u32, o2: u32, o3: u32|
                o1 < PIPE_HEIGHT_CHOICES && o2 < PIPE_HEIGHT_CHOICES && o3 < PIPE_HEIGHT_CHOICES
                    && final(self).restarted_from(old(self), o1, o2, o3),
    {
        self.front_grass.on_restart(0, SCROLL_SPEED);
        self.back_grass.on_restart(self.front_grass.get_tail_x(), SCROLL_SPEED);
        let speed = Vec2 { x: SCROLL_SPEED, y: 0 };
        self.pipe1.on_restart(FIRST_PIPE_X, SCROLL_SPEED);
        let ghost o1 = choose|o: u32|
            o < PIPE_HEIGHT_CHOICES && self.pipe1.placed_from(
                old(self).pipe1(),
                FIRST_PIPE_X as int,
                speed,
                o,
            );
        let x2 = self.pipe1.get_tail_x() + PIPE_GAP;
        self.pipe2.on_restart(x2, SCROLL_SPEED);
        let ghost o2 = choose|o: u32|
            o < PIPE_HEIGHT_CHOICES && self.pipe2.placed_from(old(self).pipe2(), x2 as int, speed, o);
        let x3 = self.pipe2.get_tail_x() + PIPE_GAP;
        self.pipe3.on_restart(x3, SCROLL_SPEED);
        let ghost o3 = choose|o: u32|
            o < PIPE_HEIGHT_CHOICES && self.pipe3.placed_from(old(self).pipe3(), x3 as int, speed, o);
        assert(self.restarted_from(old(self), o1, o2, o3));
    }

    #[verifier::when_used_as_spec(spec_front_grass)]
    pub fn front_grass(&self) -> (r: &Grass)
        ensures
            r == self.spec_front_grass(),
    {
        &self.front_grass
    }

    #[verifier::when_used_as_spec(spec_back_grass)]
    pub fn back_grass(&self) -> (r: &Grass)
        ensures
            r == self.spec_back_grass(),
    {
        &self.back_grass
    }

    #[verifier::when_used_as_spec(spec_pipe1)]
    pub fn pipe1(&self) -> (r: &Pipe)
        ensures
            r == self.spec_pipe1(),
    {
        &self.pipe1
    }

    #[verifier::when_used_as_spec(spec_pipe2)]
    pub fn pipe2(&self) -> (r: &Pipe)
        ensures
            r == self.spec_pipe2(),
    {
        &self.pipe2
    }

    #[verifier::when_used_as_spec(spec_pipe3)]
    pub fn pipe3(&self) -> (r: &Pipe)
        ensures
            r == self.spec_pipe3(),
    {
        &self.pipe3
    }
}

/// A strip moving left moves strictly left on every frame of positive
/// length, unless it already stands at the world's left bound; and after any
/// frame it is marked scrolled-left exactly when its right edge is left of 0.
pub proof fn scrolling_moves_left(s: Scrollable, n: Scrollable, dt_us: u32)
    requires
        s.wf(),
        n.moved_from(&s, dt_us),
    ensures
        n.wf(),
        n.is_scrolled_left() == (n.position().x + n.width() * UNIT < 0),
        s.velocity().x < 0 && dt_us > 0 && s.position().x > -POSITION_LIMIT ==> n.position().x
            < s.position().x,
{
    lemma_step_sign(s.velocity().x, dt_us);
}

/// Recycling keeps the ground strips end to end: in a frame where the front
/// strip leaves the screen it is put at the back strip's right edge (exactly
/// there whenever that edge lies within the world), and in one where only the
/// back strip leaves, the back strip is put at the front strip's right edge;
/// the other strip just moves on, so at most one strip is recycled per frame.
pub proof fn grass_stays_contiguous(h: ScrollHandler, n: ScrollHandler, dt_us: u32)
    requires
        h.wf(),
        n.grass_stepped_from(&h, dt_us),
    ensures
        ({
            let f = h.front_grass().strip();
            let b = h.back_grass().strip();
            let nf = n.front_grass();
            let nb = n.back_grass();
            &&& f.next_scrolled(dt_us) ==> {
                &&& nf.position().x == clamp_position(nb.get_tail_x() as int)
                &&& within_world(nb.get_tail_x() as int) ==> nf.position().x == nb.get_tail_x()
                &&& !nf.is_scrolled_left()
                &&& nb.strip().moved_from(&b, dt_us)
            }
            &&& !f.next_scrolled(dt_us) && b.next_scrolled(dt_us) ==> {
                &&& nb.position().x == clamp_position(nf.get_tail_x() as int)
                &&& within_world(nf.get_tail_x() as int) ==> nb.position().x == nf.get_tail_x()
                &&& !nb.is_scrolled_left()
                &&& nf.strip().moved_from(&f, dt_us)
            }
            &&& !f.next_scrolled(dt_us) && !b.next_scrolled(dt_us) ==> nf.strip().moved_from(
                &f,
                dt_us,
            ) && nb.strip().moved_from(&b, dt_us)
        }),
{
}

/// The ground strips tile end to end: when one starts at the other's right
/// edge and both move at the same speed, the same holds after any frame, with
/// their heights kept, as long as no strip meets the world's bounds.
pub proof fn grass_stays_tiled(h: ScrollHandler, n: ScrollHandler, dt_us: u32)
    requires
        h.wf(),
        n.grass_stepped_from(&h, dt_us),
        h.back_grass().position().x == h.front_grass().get_tail_x() || h.front_grass().position().x
            == h.back_grass().get_tail_x(),
        h.front_grass().strip().velocity() == h.back_grass().strip().velocity(),
        within_world(h.front_grass().position().x + step_of(
            h.front_grass().strip().velocity().x as int,
            dt_us as int,
        )),
        within_world(h.back_grass().position().x + step_of(
            h.back_grass().strip().velocity().x as int,
            dt_us as int,
        )),
        within_world(h.front_grass().strip().next_tail(dt_us)),
        within_world(h.back_grass().strip().next_tail(dt_us)),
    ensures
        n.back_grass().position().x == n.front_grass().get_tail_x() || n.front_grass().position().x
            == n.back_grass().get_tail_x(),
        n.front_grass().strip().velocity() == n.back_grass().strip().velocity(),
        n.front_grass().position().y == h.front_grass().position().y,
        n.back_grass().position().y == h.back_grass().position().y,
{
}

/// Recycling is idempotent: putting a strip at the same place twice leaves it
/// as putting it there once (same position, speed, size, and on screen).
pub proof fn recycling_idempotent(s: Scrollable, q: Scrollable, r: Scrollable, new_x: int)
    requires
        q.placed_at(&s, new_x, s.velocity()),
        q.height() == s.height(),
        r.placed_at(&q, new_x, q.velocity()),
        r.height() == q.height(),
    ensures
        r.position() == q.position(),
        r.velocity() == q.velocity(),
        r.width() == q.width(),
        r.height() == q.height(),
        r.is_scrolled_left() == q.is_scrolled_left(),
        !r.is_scrolled_left(),
{
}

/// Scoring is one event per pipe: scoring marks exactly the first passed
/// pipe and changes nothing else, a scored pipe is never passed again, and
/// it stays scored while it moves or stops, until a reset clears the flag.
pub proof fn scored_until_reset(
    h: ScrollHandler,
    n: ScrollHandler,
    bird: Bird,
    p: Pipe,
    q: Pipe,
    dt_us: u32,
    new_x: int,
    velocity: Vec2,
    offset: u32,
)
    requires
        h.wf(),
        n.scored_from(&h, &bird),
    ensures
        h.spec_scores(&bird) ==> {
            &&& (n.pipe1().is_scored() && !h.pipe1().is_scored()) || (n.pipe2().is_scored()
                && !h.pipe2().is_scored()) || (n.pipe3().is_scored() && !h.pipe3().is_scored())
            &&& h.pipe1().is_scored() ==> n.pipe1().is_scored()
            &&& h.pipe2().is_scored() ==> n.pipe2().is_scored()
            &&& h.pipe3().is_scored() ==> n.pipe3().is_scored()
        },
        !h.spec_scores(&bird) ==> n.pipes_kept(&h) && n.grass_kept(&h),
        p.is_scored() ==> !p.passed_by(&bird),
        q.moved_from(&p, dt_us) ==> q.is_scored() == p.is_scored(),
        q.stopped_from(&p) ==> q.is_scored() == p.is_scored(),
        q.placed_from(&p, new_x, velocity, offset) ==> !q.is_scored(),
{
}

/// A pipe's lower bar is always between `MIN_PIPE_HEIGHT` (included) and
/// `MIN_PIPE_HEIGHT + PIPE_HEIGHT_CHOICES` (excluded) world units high,
/// whatever a reset draws.
pub proof fn pipe_height_in_range(p: Pipe, q: Pipe, new_x: int, velocity: Vec2, offset: u32)
    requires
        p.wf(),
        offset < PIPE_HEIGHT_CHOICES,
        q.placed_from(&p, new_x, velocity, offset),
        velocity.y == 0,
        -RATE_LIMIT <= velocity.x <= 0,
    ensures
        MIN_PIPE_HEIGHT <= p.height() < MIN_PIPE_HEIGHT + PIPE_HEIGHT_CHOICES,
        q.wf(),
        MIN_PIPE_HEIGHT <= q.height() < MIN_PIPE_HEIGHT + PIPE_HEIGHT_CHOICES,
{
}

/// The upper bar, the opening and the lower bar together fill the column
/// from the pipe's base to the game's top, before and after any reset.
pub proof fn pipe_bars_fill_column(p: Pipe, q: Pipe, new_x: int, velocity: Vec2, offset: u32)
    requires
        p.wf(),
        q.placed_from(&p, new_x, velocity, offset),
    ensures
        p.upper_bar_height() + p.lower_bar_height() + VERTICAL_GAP == p.game_height()
            - p.position().y,
        q.upper_bar_height() + q.lower_bar_height() + VERTICAL_GAP == q.game_height()
            - q.position().y,
        q.lower_bar_height() == q.height() * UNIT,
{
}

} // verus!
