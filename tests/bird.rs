use zombie_bird::bird::{
    Bird, BIRD_GRAVITY, BIRD_RADIUS, FLAP_SPEED, MAX_ROTATION, MIN_ROTATION, TERMINAL_SPEED,
};
use zombie_bird::geometry::Vec2;

const TICK: u32 = 16_667;
const GAME_HEIGHT: i64 = 2_000_000_000;

fn resting_bird() -> Bird {
    Bird::new(33_000_000, 1_000_000_000, 17, 12, GAME_HEIGHT)
}

#[test]
fn new_bird_is_alive_level_and_at_rest() {
    let b = resting_bird();
    assert_eq!(b.position(), Vec2 { x: 33_000_000, y: 1_000_000_000 });
    assert_eq!(b.velocity(), Vec2 { x: 0, y: 0 });
    assert_eq!(b.acceleration(), Vec2 { x: 0, y: BIRD_GRAVITY });
    assert_eq!(b.rotation(), 0);
    assert_eq!(b.width(), 17);
    assert_eq!(b.height(), 12);
    assert!(b.is_alive());
}

#[test]
fn falling_bird_reaches_terminal_speed_within_a_second() {
    let mut b = resting_bird();
    let step = BIRD_GRAVITY / 1_000_000 * TICK as i64;
    assert_eq!(step, -7_666_820);
    for tick in 1..=60i64 {
        let flapped = b.update_running(false, TICK);
        assert!(!flapped);
        let expected = if tick * step < TERMINAL_SPEED { TERMINAL_SPEED } else { tick * step };
        assert_eq!(b.velocity().y, expected, "tick {}", tick);
    }
    assert_eq!(b.velocity().y, -200_000_000);
    // The capped speed is what moves the bird: -200 * 0.016667 world units.
    let y = b.position().y;
    b.update_running(false, TICK);
    assert_eq!(b.position().y, y - 3_333_400);
}

#[test]
fn first_frame_of_a_fall_moves_by_velocity_times_time() {
    let mut b = resting_bird();
    b.update_running(false, TICK);
    assert_eq!(b.velocity().y, -7_666_820);
    // -7_666_820 * 16_667 / 1_000_000 = -127_782.88894..., rounded down.
    assert_eq!(b.position().y, 1_000_000_000 - 127_783);
    assert_eq!(b.position().x, 33_000_000);
}

#[test]
fn flap_gives_flap_speed_and_tilts_up() {
    let mut b = resting_bird();
    let flapped = b.update_running(true, TICK);
    assert!(flapped);
    assert_eq!(b.velocity().y, FLAP_SPEED - 7_666_820);
    assert_eq!(b.rotation(), 600 * TICK as i64);
    assert!(b.should_flap());
    assert!(!b.is_falling());
}

#[test]
fn tilt_stays_between_bounds() {
    let mut b = resting_bird();
    for _ in 0..20 {
        b.update_running(true, TICK);
        assert!(b.rotation() <= MAX_ROTATION);
    }
    assert_eq!(b.rotation(), MAX_ROTATION);
    for _ in 0..200 {
        b.update_running(false, TICK);
        assert!(b.rotation() >= MIN_ROTATION && b.rotation() <= MAX_ROTATION);
    }
    assert_eq!(b.rotation(), MIN_ROTATION);
    assert!(b.is_falling());
}

#[test]
fn dead_bird_cannot_flap_and_turns_down() {
    let mut b = resting_bird();
    b.die();
    assert!(!b.is_alive());
    assert_eq!(b.velocity().y, 0);
    let flapped = b.update_running(true, TICK);
    assert!(!flapped);
    assert_eq!(b.velocity().y, -7_666_820);
    assert_eq!(b.rotation(), -480 * TICK as i64);
    assert!(!b.should_flap());
}

#[test]
fn decelerated_bird_keeps_its_speed() {
    let mut b = resting_bird();
    b.die();
    b.decelerate();
    assert_eq!(b.acceleration().y, 0);
    b.update_running(false, TICK);
    assert_eq!(b.velocity().y, 0);
    assert_eq!(b.position().y, 1_000_000_000);
}

#[test]
fn bird_above_the_ceiling_is_put_back_and_stopped() {
    let mut b = Bird::new(0, GAME_HEIGHT + 10_000_000, 17, 12, GAME_HEIGHT);
    b.update_running(false, TICK);
    assert_eq!(b.position().y, GAME_HEIGHT + BIRD_RADIUS);
    assert_eq!(b.velocity().y, 0);
}

#[test]
fn idle_bird_bobs_around_its_original_height() {
    let mut b = resting_bird();
    b.update_ready(2_000_000);
    assert_eq!(b.position().y, 1_002_000_000);
    b.update_ready(-1_500_000);
    assert_eq!(b.position().y, 998_500_000);
    assert_eq!(b.position().x, 33_000_000);
}

#[test]
fn restart_revives_the_bird() {
    let mut b = resting_bird();
    for _ in 0..10 {
        b.update_running(false, TICK);
    }
    b.die();
    b.decelerate();
    b.on_restart(500_000_000);
    assert!(b.is_alive());
    assert_eq!(b.rotation(), 0);
    assert_eq!(b.position(), Vec2 { x: 33_000_000, y: 500_000_000 });
    assert_eq!(b.velocity(), Vec2 { x: 0, y: 0 });
    assert_eq!(b.acceleration(), Vec2 { x: 0, y: BIRD_GRAVITY });
}

#[test]
fn bounding_circle_is_offset_from_the_position() {
    let b = resting_bird();
    let c = b.bounding_circle();
    assert_eq!(c.center, Vec2 { x: 42_000_000, y: 1_006_000_000 });
    assert_eq!(c.radius, 6_500_000);
}
