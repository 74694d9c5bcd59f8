use arena_physics::body::{Arena, BodySpec, ForceField, Movable};
use arena_physics::integrator::tick;
use arena_physics::scalar::Scalar;
use arena_physics::vector::Vec2;

fn units(x: i64, y: i64) -> Vec2 {
    Vec2::new(Scalar::from_int(x), Scalar::from_int(y))
}

fn field() -> ForceField {
    ForceField {
        gravity: units(0, -10),
        wind: units(5, 0),
        friction_coefficient: Scalar::from_int(1),
        drag_coefficient: Scalar::from_raw(100_000),
        max_speed: Scalar::from_int(300),
    }
}

fn arena() -> Arena {
    Arena { width: Scalar::from_int(640), height: Scalar::from_int(480) }
}

fn body(mass: i64) -> Movable {
    let spec = BodySpec {
        position: units(0, 0),
        mass: Scalar::from_int(mass),
        half_width: Scalar::from_int(16),
        half_height: Scalar::from_int(32),
    };
    Movable::spawn(&spec).unwrap()
}

#[test]
fn first_tick_of_a_body_at_rest_in_mid_air() {
    let mut b = body(1);
    tick(&mut b, &field(), &arena(), false, Scalar::from_raw(100_000));
    assert_eq!(b.velocity().x.raw(), 0);
    assert_eq!(b.velocity().y.raw(), -1_000_000);
    assert_eq!(b.position().x.raw(), 0);
    assert_eq!(b.position().y.raw(), -1_000_000);
    assert_eq!(b.acceleration().x.raw(), 0);
    assert_eq!(b.acceleration().y.raw(), 0);
}

fn body_at(x: i64, y: i64, mass: i64) -> Movable {
    let spec = BodySpec {
        position: units(x, y),
        mass: Scalar::from_int(mass),
        half_width: Scalar::from_int(16),
        half_height: Scalar::from_int(32),
    };
    Movable::spawn(&spec).unwrap()
}

#[test]
fn motion_adds_scales_and_clears() {
    let mut b = body_at(0, 0, 2);
    b.set_velocity(units(1, 2));
    b.accelerate(units(3, 4));
    arena_physics::integrator::motion(&mut b, &field(), Scalar::from_raw(500_000));
    assert_eq!(b.velocity().raw(), (2_000_000, 3_000_000));
    assert_eq!(b.position().raw(), (2_000_000, 3_000_000));
    assert_eq!(b.acceleration().raw(), (0, 0));
}

#[test]
fn motion_caps_the_speed_before_scaling() {
    let mut b = body_at(10, 20, 2);
    b.set_velocity(units(600, 800));
    arena_physics::integrator::motion(&mut b, &field(), Scalar::one());
    assert_eq!(b.velocity().raw(), (180_000_000, 240_000_000));
    assert_eq!(b.position().raw(), (190_000_000, 260_000_000));
    let mut c = body_at(0, 0, 2);
    c.set_velocity(units(600, 800));
    arena_physics::integrator::motion(&mut c, &field(), Scalar::from_raw(100_000));
    assert_eq!(c.velocity().raw(), (18_000_000, 24_000_000));
    assert_eq!(c.position().raw(), (18_000_000, 24_000_000));
}

#[test]
fn motion_with_no_time_stops_the_body() {
    let mut b = body_at(10, 20, 2);
    b.set_velocity(units(6, 8));
    b.accelerate(units(1, 1));
    arena_physics::integrator::motion(&mut b, &field(), Scalar::zero());
    assert_eq!(b.velocity().raw(), (0, 0));
    assert_eq!(b.position().raw(), (10_000_000, 20_000_000));
    assert_eq!(b.acceleration().raw(), (0, 0));
}

#[test]
fn a_resting_body_falls_whatever_its_mass() {
    for mass in [1i64, 2, 75] {
        let mut b = body_at(0, 100, mass);
        tick(&mut b, &field(), &arena(), false, Scalar::from_raw(16_667));
        let (vx, vy) = b.velocity().raw();
        let (px, py) = b.position().raw();
        assert_eq!((vx, px), (0, 0));
        assert_eq!(vy, -166_670);
        assert_eq!(py, 100_000_000 - 166_670);
    }
}

#[test]
fn wind_pushes_a_falling_body_sideways() {
    let mut b = body_at(0, 0, 2);
    tick(&mut b, &field(), &arena(), true, Scalar::from_raw(100_000));
    assert_eq!(b.velocity().raw(), (250_000, -1_000_000));
    assert_eq!(b.position().raw(), (250_000, -1_000_000));
}

#[test]
fn a_body_at_the_right_wall_bounces_within_the_tick() {
    let mut b = body_at(310, 0, 2);
    b.set_velocity(units(5, 0));
    tick(&mut b, &field(), &arena(), false, Scalar::from_raw(100_000));
    // forces: gravity (0, -10), drag (-1.25, 0); bounce: x = 304, velocity (-5, 0)
    assert_eq!(b.velocity().raw(), (-625_000, -1_000_000));
    assert_eq!(b.position().raw(), (303_375_000, -1_000_000));
    assert_eq!(b.acceleration().raw(), (0, 0));
}

#[test]
fn friction_uses_the_position_before_integration() {
    let mut f = field();
    f.gravity = units(0, 0);
    f.drag_coefficient = Scalar::zero();
    // one unit above contact before the tick: no friction, although the body moves
    let mut b = body_at(0, -207, 2);
    b.set_velocity(units(0, -5));
    tick(&mut b, &f, &arena(), false, Scalar::one());
    assert_eq!(b.velocity().raw(), (0, -5_000_000));
    assert_eq!(b.position().raw(), (0, -212_000_000));
    // on the next tick the body is in contact: it bounces, and friction opposes
    // the velocity that it had before the bounce
    tick(&mut b, &f, &arena(), false, Scalar::one());
    assert_eq!(b.velocity().raw(), (0, 6_000_000));
    assert_eq!(b.position().raw(), (0, -202_000_000));
}
