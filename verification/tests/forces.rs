use arena_physics::body::{Arena, BodySpec, ForceField, Movable};
use arena_physics::forces::{
    apply_drag, apply_forces, apply_friction, apply_gravity, apply_wind, touches_ground,
};
use arena_physics::integrator::tick;
use arena_physics::scalar::Scalar;
use arena_physics::vector::Vec2;

fn raw(x: i64, y: i64) -> Vec2 {
    Vec2::new(Scalar::from_raw(x), Scalar::from_raw(y))
}

fn units(x: i64, y: i64) -> Vec2 {
    Vec2::new(Scalar::from_int(x), Scalar::from_int(y))
}

fn body_at(x: i64, y: i64, mass: i64) -> Movable {
    let spec = BodySpec {
        position: units(x, y),
        mass: Scalar::from_int(mass),
        half_width: Scalar::from_int(16),
        half_height: Scalar::from_int(32),
    };
    Movable::spawn(&spec).unwrap()
}

#[test]
fn a_new_body_rests_at_the_origin() {
    let b = Movable::new(Scalar::from_int(2));
    assert_eq!(b.mass().raw(), 2_000_000);
    assert_eq!(b.position().raw(), (0, 0));
    assert_eq!(b.velocity().raw(), (0, 0));
    assert_eq!(b.acceleration().raw(), (0, 0));
    assert_eq!(b.half_width().raw(), 0);
    assert_eq!(b.half_height().raw(), 0);
}

#[test]
fn a_spawned_body_rests_where_the_scene_puts_it() {
    let b = body_at(3, -4, 5);
    assert_eq!(b.mass().raw(), 5_000_000);
    assert_eq!(b.position().raw(), (3_000_000, -4_000_000));
    assert_eq!(b.velocity().raw(), (0, 0));
    assert_eq!(b.acceleration().raw(), (0, 0));
    assert_eq!(b.half_width().raw(), 16_000_000);
    assert_eq!(b.half_height().raw(), 32_000_000);
}

#[test]
fn a_mass_that_is_not_positive_is_rejected() {
    let mut spec = BodySpec {
        position: units(0, 0),
        mass: Scalar::zero(),
        half_width: Scalar::from_int(16),
        half_height: Scalar::from_int(32),
    };
    assert!(Movable::spawn(&spec).is_none());
    spec.mass = Scalar::from_raw(-1);
    assert!(Movable::spawn(&spec).is_none());
    spec.mass = Scalar::from_raw(1);
    assert!(Movable::spawn(&spec).is_some());
}

#[test]
fn setters_replace_one_quantity() {
    let mut b = body_at(0, 0, 2);
    b.set_position(units(1, 2));
    b.set_velocity(units(3, 4));
    b.set_half_extents(Scalar::from_int(5), Scalar::from_int(6));
    assert_eq!(b.position().raw(), (1_000_000, 2_000_000));
    assert_eq!(b.velocity().raw(), (3_000_000, 4_000_000));
    assert_eq!(b.half_width().raw(), 5_000_000);
    assert_eq!(b.half_height().raw(), 6_000_000);
    assert_eq!(b.mass().raw(), 2_000_000);
    assert_eq!(b.acceleration().raw(), (0, 0));
}

#[test]
fn a_force_is_divided_by_the_mass() {
    let mut b = body_at(0, 0, 2);
    b.apply_force(units(4, -6));
    assert_eq!(b.acceleration().raw(), (2_000_000, -3_000_000));
    b.apply_force(units(1, 1));
    assert_eq!(b.acceleration().raw(), (2_500_000, -2_500_000));
    assert_eq!(b.velocity().raw(), (0, 0));
    assert_eq!(b.position().raw(), (0, 0));
}

#[test]
fn accelerate_and_reset_work_on_the_accumulator() {
    let mut b = body_at(0, 0, 2);
    b.accelerate(units(4, -6));
    assert_eq!(b.acceleration().raw(), (4_000_000, -6_000_000));
    b.reset_acceleration();
    assert_eq!(b.acceleration().raw(), (0, 0));
}

#[test]
fn the_default_field_holds_the_usual_constants() {
    let f = ForceField::default();
    assert_eq!(f.gravity.raw(), (0, -10_000_000));
    assert_eq!(f.wind.raw(), (5_000_000, 0));
    assert_eq!(f.friction_coefficient.raw(), 1_000_000);
    assert_eq!(f.drag_coefficient.raw(), 100_000);
    assert_eq!(f.max_speed.raw(), 300_000_000);
    let a = Arena::default();
    assert_eq!(a.width.raw(), 640_000_000);
    assert_eq!(a.height.raw(), 480_000_000);
}

#[test]
fn gravity_is_the_same_for_every_mass() {
    let f = ForceField::default();
    let mut light = body_at(0, 0, 1);
    let mut heavy = body_at(0, 0, 50);
    apply_gravity(&mut light, &f);
    apply_gravity(&mut heavy, &f);
    assert_eq!(light.acceleration().raw(), (0, -10_000_000));
    assert_eq!(heavy.acceleration().raw(), (0, -10_000_000));
    apply_gravity(&mut light, &f);
    assert_eq!(light.acceleration().raw(), (0, -20_000_000));
}

#[test]
fn wind_acts_only_while_active() {
    let f = ForceField::default();
    let mut b = body_at(0, 0, 2);
    apply_wind(&mut b, &f, false);
    assert_eq!(b.acceleration().raw(), (0, 0));
    apply_wind(&mut b, &f, true);
    assert_eq!(b.acceleration().raw(), (2_500_000, 0));
    apply_wind(&mut b, &f, false);
    assert_eq!(b.acceleration().raw(), (2_500_000, 0));
}

#[test]
fn ground_contact_is_within_one_unit_of_the_floor() {
    let a = Arena::default();
    let mut b = body_at(0, 0, 2);
    assert!(!touches_ground(&b, &a));
    // bottom edge exactly one unit above the floor
    b.set_position(units(0, -207));
    assert!(!touches_ground(&b, &a));
    b.set_position(raw(0, -207_000_001));
    assert!(touches_ground(&b, &a));
    b.set_position(units(0, -208));
    assert!(touches_ground(&b, &a));
    b.set_position(units(0, -500));
    assert!(touches_ground(&b, &a));
}

#[test]
fn friction_leaves_an_airborne_body_alone() {
    let f = ForceField::default();
    let a = Arena::default();
    let mut b = body_at(0, 100, 2);
    b.set_velocity(units(5, 0));
    b.accelerate(units(1, 2));
    apply_friction(&mut b, &f, &a);
    assert_eq!(b.acceleration().raw(), (1_000_000, 2_000_000));
    assert_eq!(b.velocity().raw(), (5_000_000, 0));
}

#[test]
fn friction_opposes_motion_on_the_ground() {
    let f = ForceField::default();
    let a = Arena::default();
    let mut b = body_at(0, -208, 2);
    b.set_velocity(units(3, 4));
    apply_friction(&mut b, &f, &a);
    assert_eq!(b.acceleration().raw(), (-600_000, -800_000));
    let mut heavy = body_at(0, -208, 40);
    heavy.set_velocity(units(-7, 0));
    apply_friction(&mut heavy, &f, &a);
    assert_eq!(heavy.acceleration().raw(), (1_000_000, 0));
}

#[test]
fn friction_scales_with_its_coefficient() {
    let mut f = ForceField::default();
    f.friction_coefficient = Scalar::from_raw(2_500_000);
    let a = Arena::default();
    let mut b = body_at(0, -208, 2);
    b.set_velocity(units(3, 4));
    apply_friction(&mut b, &f, &a);
    assert_eq!(b.acceleration().raw(), (-1_500_000, -2_000_000));
}

#[test]
fn a_resting_body_on_the_ground_feels_no_friction_and_no_drag() {
    let f = ForceField::default();
    let a = Arena::default();
    let mut b = body_at(0, -208, 2);
    assert!(touches_ground(&b, &a));
    apply_friction(&mut b, &f, &a);
    assert_eq!(b.acceleration().raw(), (0, 0));
    apply_drag(&mut b, &f);
    assert_eq!(b.acceleration().raw(), (0, 0));
    b.accelerate(units(1, -1));
    apply_friction(&mut b, &f, &a);
    apply_drag(&mut b, &f);
    assert_eq!(b.acceleration().raw(), (1_000_000, -1_000_000));
}

#[test]
fn drag_is_quadratic_in_speed() {
    let f = ForceField::default();
    let mut b = body_at(0, 0, 2);
    b.set_velocity(units(10, 0));
    apply_drag(&mut b, &f);
    // 0.1 * 10^2 / 2, against the motion
    assert_eq!(b.acceleration().raw(), (-5_000_000, 0));
    let mut c = body_at(0, 0, 1);
    c.set_velocity(units(3, 4));
    apply_drag(&mut c, &f);
    // 0.1 * 25 along (-0.6, -0.8)
    assert_eq!(c.acceleration().raw(), (-1_500_000, -2_000_000));
    let mut d = body_at(0, 0, 1);
    d.set_velocity(units(0, -20));
    apply_drag(&mut d, &f);
    assert_eq!(d.acceleration().raw(), (0, 40_000_000));
}

#[test]
fn drag_grows_with_speed() {
    let f = ForceField::default();
    let mut last: i64 = 0;
    for speed in [0i64, 1, 2, 5, 10, 20, 100, 299, 300, 1_000] {
        let mut b = body_at(0, 0, 3);
        b.set_velocity(units(speed, 0));
        apply_drag(&mut b, &f);
        let (ax, ay) = b.acceleration().raw();
        assert_eq!(ay, 0);
        assert!(ax <= 0);
        if speed > 0 {
            assert!(-ax > last);
        }
        last = -ax;
    }
}

#[test]
fn drag_on_speeds_below_the_resolution_is_zero() {
    let f = ForceField::default();
    for speed in [1i64, 2, 500] {
        let mut b = body_at(0, 0, 1);
        b.set_velocity(raw(speed, 0));
        apply_drag(&mut b, &f);
        assert_eq!(b.acceleration().raw(), (0, 0));
    }
}

#[test]
fn drag_saturates_instead_of_overflowing() {
    let mut f = ForceField::default();
    let mut b = body_at(0, 0, 1);
    b.set_velocity(raw(i64::MAX, 0));
    apply_drag(&mut b, &f);
    // the squared speed saturates; a tenth of the limit is left
    assert_eq!(b.acceleration().raw(), (-922_337_203_685_477_580, 0));
    f.drag_coefficient = Scalar::from_int(10);
    let mut c = body_at(0, 0, 1);
    c.set_velocity(raw(-i64::MAX, 0));
    apply_drag(&mut c, &f);
    assert_eq!(c.acceleration().raw(), (i64::MAX, 0));
}

#[test]
fn all_forces_accumulate_in_one_call() {
    let f = ForceField::default();
    let a = Arena::default();
    let mut b = body_at(0, -208, 2);
    b.set_velocity(units(10, 0));
    apply_forces(&mut b, &f, &a, true);
    // gravity (0, -10), wind (2.5, 0), friction (-1, 0), drag (-5, 0)
    assert_eq!(b.acceleration().raw(), (-3_500_000, -10_000_000));
    assert_eq!(b.velocity().raw(), (10_000_000, 0));
    assert_eq!(b.position().raw(), (0, -208_000_000));
}

#[test]
fn a_fast_body_slows_down_tick_after_tick() {
    let mut f = ForceField::default();
    f.gravity = Vec2::zero();
    let a = Arena::default();
    let dt = Scalar::from_raw(16_667);
    let mut b = body_at(0, 0, 1);
    b.set_velocity(units(100, 0));
    let mut speed = 100_000_000i64;
    for _ in 0..4 {
        tick(&mut b, &f, &a, false, dt);
        let (vx, vy) = b.velocity().raw();
        assert_eq!(vy, 0);
        assert!(vx.abs() < speed);
        speed = vx.abs();
    }
}
