//! Force generators. Each one reads a body's position, velocity and mass and
//! adds its contribution to the body's acceleration accumulator; none reads
//! or clears the accumulator.

use vstd::prelude::*;
use crate::body::{Arena, ArenaModel, BodyModel, ForceField, ForceFieldModel, Movable};
use crate::scalar::{
    fx_add, fx_div, fx_half, fx_mul, fx_sub, lemma_fx_div_monotone, lemma_fx_div_neg,
    lemma_fx_div_zero, lemma_fx_mul_monotone, lemma_fx_mul_neg, lemma_fx_mul_one,
    lemma_fx_mul_zero, lemma_sat_monotone, lemma_trunc_div_exact, magnitude, Scalar, LIMIT,
    SCALE,
};
use crate::vector::lemma_normalize_horizontal;
use crate::vector::{Vec2, Vec2Model};

verus! {

/// Gravity is a constant acceleration, the same for every mass.
pub open spec fn gravity_applied(b: BodyModel, f: ForceFieldModel) -> BodyModel {
    b.accelerated(f.gravity)
}

/// Wind is a force, and acts only while it is switched on.
pub open spec fn wind_applied(b: BodyModel, f: ForceFieldModel, wind_active: bool) -> BodyModel {
    if wind_active {
        b.force_applied(f.wind)
    } else {
        b
    }
}

/// Whether the body's bottom edge is less than one unit above the floor.
pub open spec fn on_ground(b: BodyModel, a: ArenaModel) -> bool {
    fx_add(fx_sub(b.position.y, b.half_height), fx_half(a.height)) < SCALE as int
}

/// The acceleration that friction gives a body on the ground: the friction
/// coefficient, against the direction of motion, whatever the mass.
pub open spec fn friction_term(b: BodyModel, f: ForceFieldModel) -> Vec2Model {
    b.velocity.normalize_or_zero().neg().scale(f.friction_coefficient)
}

/// Friction acts only on a body on the ground.
pub open spec fn friction_applied(b: BodyModel, f: ForceFieldModel, a: ArenaModel) -> BodyModel {
    if on_ground(b, a) {
        b.accelerated(friction_term(b, f))
    } else {
        b
    }
}

/// The drag force: the drag coefficient times the squared speed, against
/// the direction of motion.
pub open spec fn drag_force(b: BodyModel, f: ForceFieldModel) -> Vec2Model {
    b.velocity.normalize_or_zero().neg().scale(f.drag_coefficient).scale(
        b.velocity.length_squared(),
    )
}

/// The acceleration that drag gives a body: the drag force divided by the
/// body's mass.
pub open spec fn drag_term(b: BodyModel, f: ForceFieldModel) -> Vec2Model {
    drag_force(b, f).div(b.mass)
}

/// Drag always acts, as a force.
pub open spec fn drag_applied(b: BodyModel, f: ForceFieldModel) -> BodyModel {
    b.force_applied(drag_force(b, f))
}

/// All four generators, in the order gravity, wind, friction, drag.
pub open spec fn forces_applied(
    b: BodyModel,
    f: ForceFieldModel,
    a: ArenaModel,
    wind_active: bool,
) -> BodyModel {
    drag_applied(friction_applied(wind_applied(gravity_applied(b, f), f, wind_active), f, a), f)
}

/// Adds gravity to the body's accumulator.
pub fn apply_gravity(body: &mut Movable, field: &ForceField)
    ensures
        final(body)@ == gravity_applied(old(body)@, field@),
        final(body)@.wf(),
{
    body.accelerate(field.gravity);
}

/// Adds the wind, divided by the body's mass, to the accumulator while the
/// wind is active; otherwise leaves the body as it is.
pub fn apply_wind(body: &mut Movable, field: &ForceField, wind_active: bool)
    ensures
        final(body)@ == wind_applied(old(body)@, field@, wind_active),
{
    if wind_active {
        body.apply_force(field.wind);
    }
}

/// Whether the body's bottom edge is less than one unit above the floor.
pub fn touches_ground(body: &Movable, arena: &Arena) -> (grounded: bool)
    ensures
        grounded == on_ground(body@, arena@),
        body@.wf(),
{
    let gap: Scalar = body.position().y.sub(body.half_height()).add(arena.height.half());
    gap.lt(&Scalar::one())
}

/// Adds friction to the accumulator of a body on the ground; leaves a body
/// in the air as it is.
pub fn apply_friction(body: &mut Movable, field: &ForceField, arena: &Arena)
    ensures
        final(body)@ == friction_applied(old(body)@, field@, arena@),
        !on_ground(old(body)@, arena@) ==> final(body)@ == old(body)@,
        final(body)@.wf(),
{
    if touches_ground(body, arena) {
        let friction: Vec2 = body.velocity().normalize_or_zero().neg().scale(
            field.friction_coefficient,
        );
        body.accelerate(friction);
    }
}

/// Adds quadratic drag, divided by the body's mass, to the accumulator.
pub fn apply_drag(body: &mut Movable, field: &ForceField)
    ensures
        final(body)@ == drag_applied(old(body)@, field@),
        final(body)@.wf(),
{
    let velocity: Vec2 = body.velocity();
    let drag: Vec2 = velocity.normalize_or_zero().neg().scale(field.drag_coefficient).scale(
        velocity.length_squared(),
    );
    body.apply_force(drag);
}

/// Runs the four generators on one body.
pub fn apply_forces(body: &mut Movable, field: &ForceField, arena: &Arena, wind_active: bool)
    ensures
        final(body)@ == forces_applied(old(body)@, field@, arena@, wind_active),
        final(body)@.same_but_acceleration(old(body)@),
        final(body)@.wf(),
{
    apply_gravity(body, field);
    apply_wind(body, field, wind_active);
    apply_friction(body, field, arena);
    apply_drag(body, field);
}

/// The generators change nothing but the accumulator.
pub proof fn lemma_forces_only_accumulate(
    b: BodyModel,
    f: ForceFieldModel,
    a: ArenaModel,
    wind_active: bool,
)
    ensures
        gravity_applied(b, f).same_but_acceleration(b),
        wind_applied(b, f, wind_active).same_but_acceleration(b),
        friction_applied(b, f, a).same_but_acceleration(b),
        drag_applied(b, f).same_but_acceleration(b),
        forces_applied(b, f, a, wind_active).same_but_acceleration(b),
{
}

/// Friction adds nothing to the acceleration of a body in the air.
pub proof fn lemma_airborne_feels_no_friction(b: BodyModel, f: ForceFieldModel, a: ArenaModel)
    requires
        !on_ground(b, a),
    ensures
        friction_applied(b, f, a) == b,
        friction_applied(b, f, a).acceleration == b.acceleration,
{
}

/// A body at rest feels neither friction nor drag: normalizing its zero
/// velocity gives the zero vector, both terms vanish, and its acceleration
/// stays what it was, on the ground or in the air.
pub proof fn lemma_rest_feels_no_friction_or_drag(b: BodyModel, f: ForceFieldModel, a: ArenaModel)
    requires
        b.wf(),
        b.velocity == Vec2Model::zero(),
    ensures
        b.velocity.normalize_or_zero() == Vec2Model::zero(),
        friction_term(b, f) == Vec2Model::zero(),
        drag_force(b, f) == Vec2Model::zero(),
        friction_applied(b, f, a) == b,
        drag_applied(b, f) == b,
{
    lemma_fx_mul_zero(f.friction_coefficient);
    lemma_fx_mul_zero(f.drag_coefficient);
    lemma_fx_mul_zero(b.velocity.length_squared());
    lemma_fx_div_zero(b.mass);
}

/// The size of the drag on a body that moves along one axis: the drag
/// coefficient times the squared speed, divided by the mass.
pub open spec fn axial_drag(b: BodyModel, f: ForceFieldModel) -> int {
    fx_div(fx_mul(f.drag_coefficient, b.velocity.length_squared()), b.mass)
}

/// On a body that moves horizontally, drag acts horizontally, against the
/// motion, with the size that `axial_drag` gives.
pub proof fn lemma_horizontal_drag(b: BodyModel, f: ForceFieldModel)
    requires
        b.wf(),
        f.wf(),
        f.drag_coefficient >= 0,
        b.velocity.y == 0,
    ensures
        drag_term(b, f).y == 0,
        axial_drag(b, f) >= 0,
        b.velocity.x > 0 ==> drag_term(b, f).x == -axial_drag(b, f),
        b.velocity.x < 0 ==> drag_term(b, f).x == axial_drag(b, f),
        b.velocity.x == 0 ==> drag_term(b, f).x == 0,
        magnitude(drag_term(b, f).x) == axial_drag(b, f),
{
    let c = f.drag_coefficient;
    let s = b.velocity.x;
    let l = b.velocity.length_squared();
    assert(b.velocity.sum_squares() >= 0) by (nonlinear_arith)
        requires
            b.velocity.sum_squares() == b.velocity.x * b.velocity.x + b.velocity.y * b.velocity.y,
    ;
    assert(b.velocity.sum_squares() / (SCALE as int) >= 0) by (nonlinear_arith)
        requires
            b.velocity.sum_squares() >= 0,
            SCALE as int == 1_000_000,
    ;
    assert(l >= 0);
    lemma_fx_mul_monotone(0, l, c);
    lemma_fx_mul_zero(c);
    lemma_fx_div_monotone(0, fx_mul(c, l), b.mass);
    lemma_fx_div_zero(b.mass);
    lemma_fx_mul_zero(l);
    if s == 0 {
        assert(b.velocity == Vec2Model::zero());
        assert(s * s == 0) by (nonlinear_arith)
            requires
                s == 0,
        ;
        assert(0int / (SCALE as int) == 0) by (nonlinear_arith)
            requires
                SCALE as int == 1_000_000,
        ;
        assert(l == 0);
    } else {
        assert(b.velocity == Vec2Model { x: s, y: 0 });
        lemma_normalize_horizontal(s);
        lemma_fx_mul_one(c);
        lemma_fx_mul_neg(SCALE as int, c);
        lemma_fx_mul_neg(c, l);
        lemma_fx_div_neg(fx_mul(c, l), b.mass);
    }
}

/// Exchanging the axes of a body's velocity exchanges the axes of its drag.
pub proof fn lemma_drag_transposed(b: BodyModel, f: ForceFieldModel)
    ensures
        drag_term(BodyModel { velocity: b.velocity.transposed(), ..b }, f) == drag_term(
            b,
            f,
        ).transposed(),
{
    let t = b.velocity.transposed();
    assert(t.sum_squares() == b.velocity.sum_squares());
    assert(t.normalize_or_zero() == b.velocity.normalize_or_zero().transposed());
}

/// On a body that moves vertically, drag acts vertically, against the
/// motion, with the size that `axial_drag` gives.
pub proof fn lemma_vertical_drag(b: BodyModel, f: ForceFieldModel)
    requires
        b.wf(),
        f.wf(),
        f.drag_coefficient >= 0,
        b.velocity.x == 0,
    ensures
        drag_term(b, f).x == 0,
        axial_drag(b, f) >= 0,
        b.velocity.y > 0 ==> drag_term(b, f).y == -axial_drag(b, f),
        b.velocity.y < 0 ==> drag_term(b, f).y == axial_drag(b, f),
        b.velocity.y == 0 ==> drag_term(b, f).y == 0,
        magnitude(drag_term(b, f).y) == axial_drag(b, f),
{
    let turned = BodyModel { velocity: b.velocity.transposed(), ..b };
    assert(turned.velocity.transposed() == b.velocity);
    assert(turned.velocity.sum_squares() == b.velocity.sum_squares());
    lemma_horizontal_drag(turned, f);
    lemma_drag_transposed(turned, f);
    assert((BodyModel { velocity: turned.velocity.transposed(), ..turned }) == b);
}

/// Drag never decreases with speed: of two bodies of the same mass that
/// move horizontally, the faster one feels at least as much drag, so that
/// wherever the two drags differ, the faster body's is the greater.
pub proof fn lemma_drag_grows_with_speed(slow: BodyModel, fast: BodyModel, f: ForceFieldModel)
    requires
        slow.wf(),
        fast.wf(),
        f.wf(),
        f.drag_coefficient >= 0,
        slow.mass == fast.mass,
        slow.velocity.y == 0,
        fast.velocity.y == 0,
        magnitude(slow.velocity.x) <= magnitude(fast.velocity.x),
    ensures
        magnitude(drag_term(slow, f).x) <= magnitude(drag_term(fast, f).x),
        drag_term(slow, f).y == 0,
        drag_term(fast, f).y == 0,
{
    lemma_horizontal_drag(slow, f);
    lemma_horizontal_drag(fast, f);
    let s1 = magnitude(slow.velocity.x);
    let s2 = magnitude(fast.velocity.x);
    assert(0 <= slow.velocity.sum_squares() <= fast.velocity.sum_squares()) by (nonlinear_arith)
        requires
            slow.velocity.sum_squares() == slow.velocity.x * slow.velocity.x + 0 * 0,
            fast.velocity.sum_squares() == fast.velocity.x * fast.velocity.x + 0 * 0,
            s1 == magnitude(slow.velocity.x),
            s2 == magnitude(fast.velocity.x),
            s1 <= s2,
    ;
    assert(0 <= slow.velocity.sum_squares() / (SCALE as int) <= fast.velocity.sum_squares() / (
    SCALE as int)) by (nonlinear_arith)
        requires
            0 <= slow.velocity.sum_squares() <= fast.velocity.sum_squares(),
            SCALE as int == 1_000_000,
    ;
    lemma_sat_monotone(
        slow.velocity.sum_squares() / (SCALE as int),
        fast.velocity.sum_squares() / (SCALE as int),
    );
    let l1 = slow.velocity.length_squared();
    let l2 = fast.velocity.length_squared();
    lemma_fx_mul_monotone(l1, l2, f.drag_coefficient);
    lemma_fx_div_monotone(
        fx_mul(f.drag_coefficient, l1),
        fx_mul(f.drag_coefficient, l2),
        slow.mass,
    );
}

/// Drag never decreases with speed in vertical motion either.
pub proof fn lemma_drag_grows_with_vertical_speed(
    slow: BodyModel,
    fast: BodyModel,
    f: ForceFieldModel,
)
    requires
        slow.wf(),
        fast.wf(),
        f.wf(),
        f.drag_coefficient >= 0,
        slow.mass == fast.mass,
        slow.velocity.x == 0,
        fast.velocity.x == 0,
        magnitude(slow.velocity.y) <= magnitude(fast.velocity.y),
    ensures
        magnitude(drag_term(slow, f).y) <= magnitude(drag_term(fast, f).y),
        drag_term(slow, f).x == 0,
        drag_term(fast, f).x == 0,
{
    let slow_turned = BodyModel { velocity: slow.velocity.transposed(), ..slow };
    let fast_turned = BodyModel { velocity: fast.velocity.transposed(), ..fast };
    lemma_drag_grows_with_speed(slow_turned, fast_turned, f);
    lemma_drag_transposed(slow_turned, f);
    lemma_drag_transposed(fast_turned, f);
    assert((BodyModel { velocity: slow_turned.velocity.transposed(), ..slow_turned }) == slow);
    assert((BodyModel { velocity: fast_turned.velocity.transposed(), ..fast_turned }) == fast);
}

/// The drag on a body that moves at `k` whole units of speed along an
/// axis is the coefficient times `k` squared, divided by the mass, as long
/// as nothing saturates.
pub proof fn lemma_axial_drag_at_whole_speed(b: BodyModel, f: ForceFieldModel, k: int)
    requires
        b.mass > 0,
        f.drag_coefficient > 0,
        0 <= k,
        b.velocity.sum_squares() == (k * SCALE as int) * (k * SCALE as int),
        f.drag_coefficient * (k * k) * SCALE as int <= LIMIT as int,
    ensures
        axial_drag(b, f) == (f.drag_coefficient * (k * k) * SCALE as int) / b.mass,
{
    let c = f.drag_coefficient;
    let kk = k * k;
    let s = SCALE as int;
    assert(kk >= 0) by (nonlinear_arith)
        requires
            kk == k * k,
    ;
    assert((k * s) * (k * s) == (kk * s) * s) by (nonlinear_arith)
        requires
            kk == k * k,
    ;
    assert(((kk * s) * s) / s == kk * s) by (nonlinear_arith)
        requires
            s == 1_000_000,
    ;
    assert(0 <= kk * s <= c * kk * s && 0 <= c * kk <= c * kk * s) by (nonlinear_arith)
        requires
            kk >= 0,
            c >= 1,
            s == 1_000_000,
    ;
    assert(b.velocity.length_squared() == kk * s);
    assert(c * (kk * s) == (c * kk) * s) by (nonlinear_arith);
    lemma_trunc_div_exact(c * kk, s);
    assert(fx_mul(c, b.velocity.length_squared()) == c * kk);
    let n = c * kk * s;
    assert(0 <= n / b.mass <= n) by (nonlinear_arith)
        requires
            0 <= n,
            b.mass > 0,
    ;
}

/// Between whole speeds drag grows strictly: of two bodies of the same
/// mass that move along an axis at `k1 < k2` whole units of speed, the
/// faster feels more drag, where the drag coefficient is at least a
/// millionth of the mass and nothing saturates.
pub proof fn lemma_drag_strictly_grows_between_whole_speeds(
    slow: BodyModel,
    fast: BodyModel,
    f: ForceFieldModel,
    k1: int,
    k2: int,
)
    requires
        slow.mass == fast.mass,
        slow.mass > 0,
        0 <= k1 < k2,
        slow.velocity.sum_squares() == (k1 * SCALE as int) * (k1 * SCALE as int),
        fast.velocity.sum_squares() == (k2 * SCALE as int) * (k2 * SCALE as int),
        f.drag_coefficient > 0,
        f.drag_coefficient * SCALE as int >= slow.mass,
        f.drag_coefficient * (k2 * k2) * SCALE as int <= LIMIT as int,
    ensures
        axial_drag(slow, f) < axial_drag(fast, f),
{
    let c = f.drag_coefficient;
    let s = SCALE as int;
    let m = slow.mass;
    let n1 = c * (k1 * k1) * s;
    let n2 = c * (k2 * k2) * s;
    assert(k1 * k1 + 1 <= k2 * k2) by (nonlinear_arith)
        requires
            0 <= k1 < k2,
    ;
    assert(0 <= n1 && n1 + c * s <= n2) by (nonlinear_arith)
        requires
            n1 == c * (k1 * k1) * s,
            n2 == c * (k2 * k2) * s,
            k1 * k1 + 1 <= k2 * k2,
            c > 0,
            s == 1_000_000,
    ;
    lemma_axial_drag_at_whole_speed(slow, f, k1);
    lemma_axial_drag_at_whole_speed(fast, f, k2);
    assert(n1 / m < n2 / m) by (nonlinear_arith)
        requires
            0 <= n1,
            n1 + m <= n2,
            m > 0,
    ;
}

} // verus!
