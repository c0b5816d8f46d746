use zombie_bird::bird::Bird;
use zombie_bird::scroll_handler::{
    Pipe, ScrollHandler, FIRST_PIPE_X, GRASS_WIDTH, MIN_PIPE_HEIGHT, PIPE_GAP,
    PIPE_HEIGHT_CHOICES, PIPE_WIDTH, SCROLL_SPEED, VERTICAL_GAP,
};

const TICK: u32 = 16_667;
const GAME_HEIGHT: i64 = 204_000_000;
const PIPE_BASE: i64 = 36_000_000;

fn handler() -> ScrollHandler {
    ScrollHandler::new(PIPE_BASE, GAME_HEIGHT)
}

fn pipes(h: &ScrollHandler) -> [&Pipe; 3] {
    [h.pipe1(), h.pipe2(), h.pipe3()]
}

fn height_in_range(p: &Pipe) -> bool {
    p.height() >= MIN_PIPE_HEIGHT && p.height() < MIN_PIPE_HEIGHT + PIPE_HEIGHT_CHOICES
}

fn bars_fill_column(p: &Pipe) -> bool {
    p.upper_bar_height() + p.lower_bar_height() + VERTICAL_GAP == GAME_HEIGHT - p.position().y
}

fn assert_start_layout(h: &ScrollHandler) {
    assert_eq!(h.front_grass().position().x, 0);
    assert_eq!(h.back_grass().position().x, h.front_grass().get_tail_x());
    assert_eq!(h.back_grass().position().x, 143_000_000);
    assert_eq!(h.pipe1().position().x, FIRST_PIPE_X);
    assert_eq!(h.pipe2().position().x, h.pipe1().get_tail_x() + PIPE_GAP);
    assert_eq!(h.pipe3().position().x, h.pipe2().get_tail_x() + PIPE_GAP);
    assert_eq!(h.pipe2().position().x, 281_000_000);
    assert_eq!(h.pipe3().position().x, 352_000_000);
    for p in pipes(h) {
        assert!(!p.is_scored());
        assert!(!p.is_scrolled_left());
    }
}

#[test]
fn new_handler_is_in_the_starting_layout() {
    let h = handler();
    assert_start_layout(&h);
    assert_eq!(h.front_grass().position().y, PIPE_BASE - 11_000_000);
    assert_eq!(h.front_grass().width(), GRASS_WIDTH);
    assert_eq!(h.front_grass().height(), 11);
    for p in pipes(&h) {
        assert_eq!(p.position().y, PIPE_BASE);
        assert_eq!(p.width(), PIPE_WIDTH);
        assert!(height_in_range(p));
        assert!(bars_fill_column(p));
        assert_eq!(p.lower_bar_height(), p.height() as i64 * 1_000_000);
    }
}

#[test]
fn scrolling_moves_everything_left_at_scroll_speed() {
    let mut h = handler();
    h.update_running(TICK);
    let step = SCROLL_SPEED / 1_000_000 * TICK as i64;
    assert_eq!(step, -983_353);
    assert_eq!(h.front_grass().position().x, step);
    assert_eq!(h.back_grass().position().x, 143_000_000 + step);
    assert_eq!(h.pipe1().position().x, FIRST_PIPE_X + step);
    let mut last = h.front_grass().position().x;
    for _ in 0..100 {
        h.update_ready(TICK);
        let x = h.front_grass().position().x;
        assert!(x < last || x == h.back_grass().get_tail_x());
        last = x;
    }
}

#[test]
fn ready_frames_move_only_the_ground() {
    let mut h = handler();
    h.update_ready(TICK);
    assert_eq!(h.front_grass().position().x, -983_353);
    assert_eq!(h.pipe1().position().x, FIRST_PIPE_X);
}

#[test]
fn scrolled_left_is_set_exactly_when_the_tail_passes_zero() {
    let mut h = handler();
    for _ in 0..2000 {
        let before = h.front_grass().position().x;
        h.update_ready(TICK);
        let after = h.front_grass().position().x;
        if after < before {
            assert_eq!(
                h.front_grass().is_scrolled_left(),
                h.front_grass().get_tail_x() < 0
            );
        }
    }
}

#[test]
fn grass_strips_stay_end_to_end() {
    let mut h = handler();
    let mut recycled = 0;
    for _ in 0..2000 {
        let front_before = h.front_grass().position().x;
        let back_before = h.back_grass().position().x;
        h.update_ready(TICK);
        let f = h.front_grass();
        let b = h.back_grass();
        assert!(f.position().x == b.get_tail_x() || b.position().x == f.get_tail_x());
        if f.position().x > front_before {
            recycled += 1;
            assert_eq!(f.position().x, b.get_tail_x());
        }
        if b.position().x > back_before {
            recycled += 1;
            assert_eq!(b.position().x, f.get_tail_x());
        }
    }
    assert!(recycled >= 4);
}

#[test]
fn pipes_recycle_behind_the_others_with_heights_in_range() {
    let mut h = handler();
    let mut recycled = 0;
    let mut heights = Vec::new();
    for _ in 0..3000 {
        let before: Vec<i64> = pipes(&h).iter().map(|p| p.position().x).collect();
        h.update_running(TICK);
        let [p1, p2, p3] = pipes(&h);
        if p1.position().x > before[0] {
            recycled += 1;
            assert_eq!(p1.position().x, p3.get_tail_x() + PIPE_GAP);
            heights.push(p1.height());
        }
        if p2.position().x > before[1] {
            recycled += 1;
            assert_eq!(p2.position().x, p1.get_tail_x() + PIPE_GAP);
            heights.push(p2.height());
        }
        if p3.position().x > before[2] {
            recycled += 1;
            assert_eq!(p3.position().x, p2.get_tail_x() + PIPE_GAP);
            heights.push(p3.height());
        }
        for p in pipes(&h) {
            assert!(height_in_range(p));
            assert!(bars_fill_column(p));
        }
    }
    assert!(recycled >= 20);
    assert!(heights.iter().any(|&x| x != heights[0]));
}

#[test]
fn reset_with_offset_sets_height_and_bars() {
    let mut p = Pipe::new(100_000_000, PIPE_BASE, PIPE_WIDTH, SCROLL_SPEED, GAME_HEIGHT);
    p.set_scored(true);
    p.reset_with_offset(50_000_000, 0);
    assert_eq!(p.height(), 15);
    assert_eq!(p.position().x, 50_000_000);
    assert!(!p.is_scored());
    assert_eq!(p.lower_bar_height(), 15_000_000);
    assert_eq!(p.upper_bar_height(), GAME_HEIGHT - PIPE_BASE - 15_000_000 - 45_000_000);
    p.reset_with_offset(60_000_000, 89);
    assert_eq!(p.height(), 104);
    assert_eq!(p.lower_bar_height(), 104_000_000);
    assert!(bars_fill_column(&p));
}

#[test]
fn random_pipe_heights_vary() {
    let heights: Vec<u32> = (0..40)
        .map(|i| Pipe::new(i * 1_000_000, PIPE_BASE, PIPE_WIDTH, SCROLL_SPEED, GAME_HEIGHT).height())
        .collect();
    assert!(heights.iter().all(|&h| (15..105).contains(&h)));
    assert!(heights.iter().any(|&h| h != heights[0]));
}

#[test]
fn passing_a_pipe_scores_once() {
    let mut h = handler();
    // Pipe 1's center is at 221; this bird's right edge is at 222.
    let bird = Bird::new(205_000_000, 150_000_000, 17, 12, GAME_HEIGHT);
    assert!(h.scored(&bird));
    assert!(h.pipe1().is_scored());
    assert!(!h.pipe2().is_scored());
    assert!(!h.scored(&bird));
    for _ in 0..30 {
        h.update_running(TICK);
        assert!(h.pipe1().is_scored());
    }
    let mut h2 = handler();
    // Right edge exactly on the center: not yet passed.
    let level = Bird::new(204_000_000, 150_000_000, 17, 12, GAME_HEIGHT);
    assert!(!h2.scored(&level));
}

#[test]
fn set_scored_flips_the_flag() {
    let mut p = Pipe::new(0, PIPE_BASE, PIPE_WIDTH, SCROLL_SPEED, GAME_HEIGHT);
    assert!(!p.is_scored());
    p.set_scored(true);
    assert!(p.is_scored());
    p.set_scored(false);
    assert!(!p.is_scored());
}

#[test]
fn bird_touching_a_lower_bar_collides() {
    let mut p = Pipe::new(100_000_000, PIPE_BASE, PIPE_WIDTH, SCROLL_SPEED, GAME_HEIGHT);
    p.reset_with_offset(100_000_000, 25);
    let top = PIPE_BASE + 40_000_000;
    // Circle center at (x + 9, y + 6), radius 6.5: resting exactly on the top.
    let touching = Bird::new(102_000_000, top + 500_000, 17, 12, GAME_HEIGHT);
    assert!(p.collides(&touching));
    let clear = Bird::new(102_000_000, top + 500_001, 17, 12, GAME_HEIGHT);
    assert!(!p.collides(&clear));
}

#[test]
fn bird_touching_an_upper_bar_collides() {
    let mut p = Pipe::new(100_000_000, PIPE_BASE, PIPE_WIDTH, SCROLL_SPEED, GAME_HEIGHT);
    p.reset_with_offset(100_000_000, 25);
    let bottom = PIPE_BASE + 40_000_000 + VERTICAL_GAP;
    let touching = Bird::new(102_000_000, bottom - 12_500_000, 17, 12, GAME_HEIGHT);
    assert!(p.collides(&touching));
    let clear = Bird::new(102_000_000, bottom - 12_500_001, 17, 12, GAME_HEIGHT);
    assert!(!p.collides(&clear));
}

#[test]
fn pipe_right_of_the_bird_does_not_collide() {
    let mut p = Pipe::new(100_000_000, PIPE_BASE, PIPE_WIDTH, SCROLL_SPEED, GAME_HEIGHT);
    p.reset_with_offset(100_000_000, 25);
    // The bird's right edge is exactly at the pipe's left edge.
    let b = Bird::new(83_000_000, PIPE_BASE, 17, 12, GAME_HEIGHT);
    assert!(!p.collides(&b));
}

#[test]
fn handler_collides_when_the_bird_touches_a_pipe() {
    let h = handler();
    let p1 = h.pipe1();
    let top = p1.position().y + p1.lower_bar_height();
    let touching = Bird::new(p1.position().x + 2_000_000, top + 500_000, 17, 12, GAME_HEIGHT);
    assert!(h.collides(&touching));
    let clear = Bird::new(p1.position().x + 2_000_000, top + 500_001, 17, 12, GAME_HEIGHT);
    assert!(!h.collides(&clear));
}

#[test]
fn stop_freezes_and_restart_restores_the_layout() {
    let mut h = handler();
    for _ in 0..500 {
        h.update_running(TICK);
    }
    h.stop();
    let x = h.pipe1().position().x;
    let g = h.front_grass().position().x;
    h.update_running(TICK);
    assert_eq!(h.pipe1().position().x, x);
    assert_eq!(h.front_grass().position().x, g);
    h.on_restart();
    assert_start_layout(&h);
    h.update_running(TICK);
    assert_eq!(h.pipe1().position().x, FIRST_PIPE_X - 983_353);
}
