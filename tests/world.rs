use zombie_bird::bird::MIN_ROTATION;
use zombie_bird::geometry::GAME_HEIGHT_LIMIT;
use zombie_bird::scroll_handler::{FIRST_PIPE_X, PIPE_GAP};
use zombie_bird::world::{Cues, GameState, GameWorld};

const TICK: u32 = 16_667;
const GAME_WIDTH: i64 = 136_000_000;
const GAME_HEIGHT: i64 = 204_000_000;

fn world() -> GameWorld {
    GameWorld::new(GAME_WIDTH, GAME_HEIGHT)
}

const QUIET: Cues = Cues { flap: false, score: false, death: false };

/// Runs frames without input until the game is over; returns the cues seen.
fn fall_to_the_ground(w: &mut GameWorld) -> Vec<Cues> {
    let mut seen = Vec::new();
    for _ in 0..600 {
        if w.game_state() == GameState::GameOver {
            break;
        }
        seen.push(w.update(false, TICK, 0));
    }
    seen
}

#[test]
fn new_world_is_ready() {
    let w = world();
    assert_eq!(w.game_state(), GameState::Ready);
    assert_eq!(w.score(), 0);
    assert_eq!(w.run_time(), 0);
    assert_eq!(w.mid_point_y(), 102);
    assert_eq!(w.bird().position().x, 33_000_000);
    assert_eq!(w.bird().position().y, 107_000_000);
    assert!(w.bird().is_alive());
    assert_eq!(w.scroller().pipe1().position().x, FIRST_PIPE_X);
    assert_eq!(w.scroller().pipe1().position().y, 36_000_000);
    assert_eq!(w.scroller().front_grass().position().y, 25_000_000);
}

#[test]
fn mid_point_rounds_down() {
    let w = GameWorld::new(GAME_WIDTH, 205_999_999);
    assert_eq!(w.mid_point_y(), 102);
}

#[test]
fn ready_world_bobs_and_scrolls_the_ground() {
    let mut w = world();
    let cues = w.update(false, TICK, 1_500_000);
    assert_eq!(cues, QUIET);
    assert_eq!(w.game_state(), GameState::Ready);
    assert_eq!(w.bird().position().y, 108_500_000);
    assert_eq!(w.run_time(), TICK as u64);
    assert_eq!(w.scroller().front_grass().position().x, -983_353);
    assert_eq!(w.scroller().pipe1().position().x, FIRST_PIPE_X);
}

#[test]
fn flap_starts_the_run() {
    let mut w = world();
    w.update(true, TICK, 0);
    assert_eq!(w.game_state(), GameState::Running);
    let cues = w.update(true, TICK, 0);
    assert!(cues.flap);
    assert!(!cues.death);
    assert!(w.bird().velocity().y > 0);
    assert_eq!(w.scroller().pipe1().position().x, FIRST_PIPE_X - 983_353);
}

#[test]
fn run_time_adds_up() {
    let mut w = world();
    for _ in 0..10 {
        w.update(false, TICK, 0);
    }
    assert_eq!(w.run_time(), 10 * TICK as u64);
}

#[test]
fn touching_the_ground_ends_the_game() {
    let mut w = world();
    w.update(true, TICK, 0);
    let seen = fall_to_the_ground(&mut w);
    assert_eq!(w.game_state(), GameState::GameOver);
    assert_eq!(seen.iter().filter(|c| c.death).count(), 1);
    assert!(seen.last().unwrap().death);
    assert!(!w.bird().is_alive());
    assert_eq!(w.bird().acceleration().y, 0);
    assert_eq!(w.bird().velocity().y, 0);
    assert_eq!(w.score(), 0);
    // Frozen: nothing moves until a flap.
    let x = w.scroller().pipe1().position().x;
    let y = w.bird().position().y;
    assert_eq!(w.update(false, TICK, 0), QUIET);
    assert_eq!(w.scroller().pipe1().position().x, x);
    assert_eq!(w.bird().position().y, y);
    assert_eq!(w.game_state(), GameState::GameOver);
}

#[test]
fn flap_after_game_over_restarts() {
    let mut w = world();
    w.update(true, TICK, 0);
    fall_to_the_ground(&mut w);
    assert_eq!(w.game_state(), GameState::GameOver);
    let cues = w.update(true, TICK, 0);
    assert_eq!(cues, QUIET);
    assert_eq!(w.game_state(), GameState::Ready);
    assert_eq!(w.score(), 0);
    assert!(w.bird().is_alive());
    assert_eq!(w.bird().position().y, 107_000_000);
    assert_eq!(w.bird().rotation(), 0);
    let s = w.scroller();
    assert_eq!(s.front_grass().position().x, 0);
    assert_eq!(s.back_grass().position().x, s.front_grass().get_tail_x());
    assert_eq!(s.pipe1().position().x, FIRST_PIPE_X);
    assert_eq!(s.pipe2().position().x, s.pipe1().get_tail_x() + PIPE_GAP);
    assert_eq!(s.pipe3().position().x, s.pipe2().get_tail_x() + PIPE_GAP);
    assert!(!s.pipe1().is_scored() && !s.pipe2().is_scored() && !s.pipe3().is_scored());
}

#[test]
fn tilt_stays_bounded_through_a_game() {
    let mut w = world();
    w.update(true, TICK, 0);
    for i in 0..400 {
        w.update(i % 9 == 0, TICK, 0);
        let r = w.bird().rotation();
        assert!((MIN_ROTATION..=20_000_000).contains(&r));
    }
}

#[test]
fn score_counts_passed_pipes_while_running() {
    let mut w = world();
    w.update(true, TICK, 0);
    let mut total = 0;
    for _ in 0..600 {
        if w.game_state() != GameState::Running {
            break;
        }
        // Keep the bird near its starting height.
        let flap = w.bird().position().y < 107_000_000 && w.bird().velocity().y < 0;
        let before = w.score();
        let cues = w.update(flap, TICK, 0);
        if cues.score {
            total += 1;
            assert_eq!(w.score(), before + 1);
        } else {
            assert_eq!(w.score(), before);
        }
    }
    assert_eq!(w.score(), total);
}

#[test]
fn extreme_game_heights_are_accepted() {
    for height in [0, GAME_HEIGHT_LIMIT] {
        let mut w = GameWorld::new(GAME_WIDTH, height);
        assert_eq!(w.mid_point_y() as i64, height / 2_000_000);
        w.update(true, TICK, 0);
        for _ in 0..100 {
            w.update(false, TICK, 0);
        }
        assert_eq!(w.game_state(), GameState::GameOver);
        assert_eq!(w.score(), 0);
    }
}
