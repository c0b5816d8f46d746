use zombie_bird::geometry::{
    circle_touches_box, clamp_to_world, offset_position, scaled_step, Aabb, Circle, Vec2,
    POSITION_LIMIT,
};

fn unit_box() -> Aabb {
    Aabb { min: Vec2 { x: 0, y: 0 }, max: Vec2 { x: 10_000_000, y: 10_000_000 } }
}

#[test]
fn circle_touching_an_edge_counts() {
    let c = Circle { center: Vec2 { x: 5_000_000, y: 16_500_000 }, radius: 6_500_000 };
    assert!(circle_touches_box(&c, &unit_box()));
    let c = Circle { center: Vec2 { x: 5_000_000, y: 16_500_001 }, radius: 6_500_000 };
    assert!(!circle_touches_box(&c, &unit_box()));
}

#[test]
fn circle_touching_a_corner_counts() {
    // 2.5^2 + 6^2 == 6.5^2
    let c = Circle { center: Vec2 { x: 12_500_000, y: 16_000_000 }, radius: 6_500_000 };
    assert!(circle_touches_box(&c, &unit_box()));
    let c = Circle { center: Vec2 { x: 12_500_001, y: 16_000_000 }, radius: 6_500_000 };
    assert!(!circle_touches_box(&c, &unit_box()));
}

#[test]
fn circle_inside_a_box_counts() {
    let c = Circle { center: Vec2 { x: 5_000_000, y: 5_000_000 }, radius: 1 };
    assert!(circle_touches_box(&c, &unit_box()));
}

#[test]
fn steps_round_down() {
    assert_eq!(scaled_step(-59_000_000, 16_667), -983_353);
    assert_eq!(scaled_step(-1, 1), -1);
    assert_eq!(scaled_step(1, 1), 0);
    assert_eq!(scaled_step(600_000_000, 1_000_000), 600_000_000);
    assert_eq!(scaled_step(-7_666_820, 16_667), -127_783);
}

#[test]
fn positions_stay_within_the_world() {
    assert_eq!(offset_position(POSITION_LIMIT - 5, 10), POSITION_LIMIT);
    assert_eq!(offset_position(-POSITION_LIMIT + 5, -10), -POSITION_LIMIT);
    assert_eq!(offset_position(7, -10), -3);
    assert_eq!(clamp_to_world(i64::MAX), POSITION_LIMIT);
    assert_eq!(clamp_to_world(i64::MIN), -POSITION_LIMIT);
    assert_eq!(clamp_to_world(42), 42);
}
