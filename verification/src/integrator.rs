//! The integrator: turns the acceleration accumulated in a tick into
//! velocity and position.
//!
//! The stored velocity is the displacement of one tick: the sum of velocity
//! and acceleration is capped at the maximum speed first, and what is left
//! is scaled by the tick's duration.

use vstd::prelude::*;
use crate::body::{Arena, ArenaModel, BodyModel, ForceField, ForceFieldModel, Movable};
use crate::collision::{
    bottom_bounced, bounced, edges_bounce, fits_between_walls, hits_right,
    lemma_right_wall_reflects,
};
use crate::forces::{
    apply_forces, forces_applied, gravity_applied, lemma_forces_only_accumulate,
    lemma_rest_feels_no_friction_or_drag,
};
use crate::scalar::{fx_half, fx_sub, lemma_trunc_div_bound, magnitude, Scalar, LIMIT, SCALE};
use crate::vector::{Vec2, Vec2Model};

verus! {

/// Velocity plus accumulated acceleration, capped at the maximum speed.
pub open spec fn capped_velocity(b: BodyModel, f: ForceFieldModel) -> Vec2Model {
    b.velocity.add(b.acceleration).clamp_length_max(f.max_speed)
}

/// The velocity after integration: the capped velocity scaled by the
/// tick's duration.
pub open spec fn next_velocity(b: BodyModel, f: ForceFieldModel, dt: int) -> Vec2Model {
    capped_velocity(b, f).scale(dt)
}

/// The body after integration: new velocity, position advanced by it,
/// accumulator cleared.
pub open spec fn moved(b: BodyModel, f: ForceFieldModel, dt: int) -> BodyModel {
    BodyModel {
        position: b.position.add(next_velocity(b, f, dt)),
        velocity: next_velocity(b, f, dt),
        acceleration: Vec2Model::zero(),
        ..b
    }
}

/// One whole tick of one body: forces, then the boundary, then integration.
pub open spec fn ticked(
    b: BodyModel,
    f: ForceFieldModel,
    a: ArenaModel,
    wind_active: bool,
    dt: int,
) -> BodyModel {
    moved(bounced(forces_applied(b, f, a, wind_active), a), f, dt)
}

/// Integrates one body over a tick of duration `dt`. Before it is scaled
/// by `dt`, the new velocity is no longer than a maximum speed that is not
/// negative; the accumulator is clear afterwards.
pub fn motion(body: &mut Movable, field: &ForceField, dt: Scalar)
    ensures
        final(body)@ == moved(old(body)@, field@, dt@),
        final(body)@.velocity == capped_velocity(old(body)@, field@).scale(dt@),
        field@.max_speed >= 0 ==> capped_velocity(old(body)@, field@).sum_squares()
            <= field@.max_speed * field@.max_speed,
        final(body)@.acceleration == Vec2Model::zero(),
        final(body)@.wf(),
{
    let velocity: Vec2 = body.velocity().add(body.acceleration()).clamp_length_max(
        field.max_speed,
    ).scale(dt);
    body.set_velocity(velocity);
    body.set_position(body.position().add(velocity));
    body.reset_acceleration();
}

/// Advances one body by one tick: runs the force generators, resolves
/// collisions with the boundary, then integrates.
pub fn tick(body: &mut Movable, field: &ForceField, arena: &Arena, wind_active: bool, dt: Scalar)
    ensures
        final(body)@ == ticked(old(body)@, field@, arena@, wind_active, dt@),
        final(body)@.acceleration == Vec2Model::zero(),
        final(body)@.wf(),
{
    apply_forces(body, field, arena, wind_active);
    edges_bounce(body, arena);
    motion(body, field, dt);
}

/// Whether gravity alone moves a body down within one tick of duration
/// `dt`: capped at the maximum speed and scaled by `dt`, it still has a
/// vertical part below zero.
pub open spec fn falls_in_tick(f: ForceFieldModel, dt: int) -> bool {
    f.gravity.clamp_length_max(f.max_speed).scale(dt).y < 0
}

/// Gravity that points down, stays within the speed cap, and amounts to at
/// least one unit of resolution per tick moves a body down within a tick.
pub proof fn lemma_gravity_within_cap_falls(f: ForceFieldModel, dt: int)
    requires
        f.gravity.sum_squares() <= f.max_speed * f.max_speed,
        f.gravity.y * dt <= -(SCALE as int),
    ensures
        falls_in_tick(f, dt),
{
    let p = f.gravity.y * dt;
    lemma_trunc_div_bound(p, SCALE as int);
    assert(magnitude(p) / (SCALE as int) >= 1) by (nonlinear_arith)
        requires
            magnitude(p) >= SCALE as int,
            SCALE as int == 1_000_000,
    ;
}

/// A body at rest with a clear accumulator, under gravity alone, falls in
/// one tick: its vertical velocity and its height both decrease. This asks
/// that gravity moves a body within the tick at all, that the body has
/// not sunk below the floor, which would lift it back, and that it is not
/// at the lowest height there is.
pub proof fn lemma_resting_body_falls(b: BodyModel, f: ForceFieldModel, a: ArenaModel, dt: int)
    requires
        b.wf(),
        f.wf(),
        a.wf(),
        b.velocity == Vec2Model::zero(),
        b.acceleration == Vec2Model::zero(),
        falls_in_tick(f, dt),
        fx_sub(b.position.y, b.half_height) >= -fx_half(a.height),
        b.position.y > -(LIMIT as int),
    ensures
        ticked(b, f, a, false, dt).velocity.y < b.velocity.y,
        ticked(b, f, a, false, dt).position.y < b.position.y,
        ticked(b, f, a, false, dt).velocity == f.gravity.clamp_length_max(f.max_speed).scale(dt),
{
    let pulled = gravity_applied(b, f);
    assert(pulled.acceleration == f.gravity);
    lemma_rest_feels_no_friction_or_drag(pulled, f, a);
    assert(forces_applied(b, f, a, false) == pulled);
    lemma_trunc_div_bound(a.height, 2);
    let half = fx_half(a.height);
    assert(magnitude(half) == magnitude(a.height) / 2);
    assert(-(LIMIT as int) < half < LIMIT as int);
    let landed = bottom_bounced(pulled, a);
    assert(landed.position.y == b.position.y);
    assert(landed.velocity == Vec2Model::zero());
    let inside = bounced(pulled, a);
    assert(inside.position.y == b.position.y);
    assert(inside.velocity == Vec2Model::zero());
    assert(inside.acceleration == f.gravity);
    assert(capped_velocity(inside, f) == f.gravity.clamp_length_max(f.max_speed));
}

/// A tick that finds a body at the right wall, in an arena wide enough for
/// it, puts the body against the wall before it moves it: where the body
/// does not move right in that tick, it ends the tick inside the wall.
pub proof fn lemma_tick_at_right_wall(
    b: BodyModel,
    f: ForceFieldModel,
    a: ArenaModel,
    wind_active: bool,
    dt: int,
)
    requires
        b.wf(),
        a.wf(),
        hits_right(b, a),
        fits_between_walls(b, a),
        ticked(b, f, a, wind_active, dt).velocity.x <= 0,
    ensures
        ticked(b, f, a, wind_active, dt).position.x <= fx_half(a.width) - b.half_width,
{
    let pushed = forces_applied(b, f, a, wind_active);
    lemma_forces_only_accumulate(b, f, a, wind_active);
    assert(pushed.wf()) by {
        assert(pushed.same_but_acceleration(b));
        assert(pushed.acceleration.wf());
    }
    lemma_right_wall_reflects(pushed, a);
}

} // verus!
