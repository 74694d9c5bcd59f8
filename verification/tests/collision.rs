use arena_physics::body::{Arena, BodySpec, Movable};
use arena_physics::collision::edges_bounce;
use arena_physics::scalar::Scalar;
use arena_physics::vector::Vec2;

fn units(x: i64, y: i64) -> Vec2 {
    Vec2::new(Scalar::from_int(x), Scalar::from_int(y))
}

fn moving(x: i64, y: i64, vx: i64, vy: i64) -> Movable {
    let spec = BodySpec {
        position: units(x, y),
        mass: Scalar::from_int(2),
        half_width: Scalar::from_int(16),
        half_height: Scalar::from_int(32),
    };
    let mut b = Movable::spawn(&spec).unwrap();
    b.set_velocity(units(vx, vy));
    b
}

#[test]
fn a_body_inside_is_left_alone() {
    let mut b = moving(10, 20, 3, -4);
    edges_bounce(&mut b, &Arena::default());
    assert_eq!(b.position().raw(), (10_000_000, 20_000_000));
    assert_eq!(b.velocity().raw(), (3_000_000, -4_000_000));
}

#[test]
fn the_right_wall_reflects() {
    let mut b = moving(310, 5, 7, -4);
    edges_bounce(&mut b, &Arena::default());
    assert_eq!(b.position().raw(), (304_000_000, 5_000_000));
    assert_eq!(b.velocity().raw(), (-7_000_000, -4_000_000));
}

#[test]
fn touching_the_right_wall_counts() {
    let mut b = moving(304, 0, 7, 0);
    edges_bounce(&mut b, &Arena::default());
    assert_eq!(b.position().raw(), (304_000_000, 0));
    assert_eq!(b.velocity().raw(), (-7_000_000, 0));
    let mut c = moving(303, 0, 7, 0);
    edges_bounce(&mut c, &Arena::default());
    assert_eq!(c.position().raw(), (303_000_000, 0));
    assert_eq!(c.velocity().raw(), (7_000_000, 0));
}

#[test]
fn the_left_wall_reflects_and_keeps_the_height() {
    let mut b = moving(-310, 5, -7, -4);
    edges_bounce(&mut b, &Arena::default());
    assert_eq!(b.position().raw(), (-304_000_000, 5_000_000));
    assert_eq!(b.velocity().raw(), (7_000_000, -4_000_000));
}

#[test]
fn the_floor_reflects() {
    let mut b = moving(0, -230, 3, -9);
    edges_bounce(&mut b, &Arena::default());
    assert_eq!(b.position().raw(), (0, -208_000_000));
    assert_eq!(b.velocity().raw(), (3_000_000, 9_000_000));
}

#[test]
fn touching_the_floor_counts() {
    let mut b = moving(0, -208, 0, -9);
    edges_bounce(&mut b, &Arena::default());
    assert_eq!(b.position().raw(), (0, -208_000_000));
    assert_eq!(b.velocity().raw(), (0, 9_000_000));
}

#[test]
fn a_corner_reflects_both_axes() {
    let mut b = moving(400, -300, 7, -9);
    edges_bounce(&mut b, &Arena::default());
    assert_eq!(b.position().raw(), (304_000_000, -208_000_000));
    assert_eq!(b.velocity().raw(), (-7_000_000, 9_000_000));
    let mut c = moving(-400, -300, -7, -9);
    edges_bounce(&mut c, &Arena::default());
    assert_eq!(c.position().raw(), (-304_000_000, -208_000_000));
    assert_eq!(c.velocity().raw(), (7_000_000, 9_000_000));
}

#[test]
fn the_top_is_open() {
    let mut b = moving(0, 100_000, 0, 50);
    edges_bounce(&mut b, &Arena::default());
    assert_eq!(b.position().raw(), (0, 100_000_000_000));
    assert_eq!(b.velocity().raw(), (0, 50_000_000));
}

#[test]
fn a_body_wider_than_the_arena_is_reflected_twice() {
    let narrow = Arena { width: Scalar::from_int(20), height: Scalar::from_int(480) };
    let mut b = moving(0, 0, 7, 0);
    edges_bounce(&mut b, &narrow);
    assert_eq!(b.position().raw(), (6_000_000, 0));
    assert_eq!(b.velocity().raw(), (7_000_000, 0));
}

#[test]
fn a_bounce_leaves_mass_extents_and_accumulator_alone() {
    let mut b = moving(400, -300, 7, -9);
    b.accelerate(units(1, 2));
    edges_bounce(&mut b, &Arena::default());
    assert_eq!(b.mass().raw(), 2_000_000);
    assert_eq!(b.half_width().raw(), 16_000_000);
    assert_eq!(b.half_height().raw(), 32_000_000);
    assert_eq!(b.acceleration().raw(), (1_000_000, 2_000_000));
}
