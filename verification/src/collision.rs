//! Collision with the arena's boundary: the floor and the two side walls.
//! The top is open.

use vstd::prelude::*;
use crate::body::{Arena, ArenaModel, BodyModel, Movable};
use crate::scalar::{fx_add, fx_half, fx_sub, lemma_trunc_div_bound, Scalar};
use crate::vector::{Vec2, Vec2Model};

verus! {

/// Whether the body's bottom edge is at or below the floor.
pub open spec fn hits_bottom(b: BodyModel, a: ArenaModel) -> bool {
    fx_sub(b.position.y, b.half_height) <= -fx_half(a.height)
}

/// Whether the body's right edge is at or beyond the right wall.
pub open spec fn hits_right(b: BodyModel, a: ArenaModel) -> bool {
    fx_add(b.position.x, b.half_width) >= fx_half(a.width)
}

/// Whether the body's left edge is at or beyond the left wall.
pub open spec fn hits_left(b: BodyModel, a: ArenaModel) -> bool {
    fx_sub(b.position.x, b.half_width) <= -fx_half(a.width)
}

/// The body with the horizontal position replaced and the horizontal
/// velocity reversed.
pub open spec fn reflected_x(b: BodyModel, x: int) -> BodyModel {
    BodyModel {
        position: Vec2Model { x, y: b.position.y },
        velocity: Vec2Model { x: -b.velocity.x, y: b.velocity.y },
        ..b
    }
}

/// The body with the vertical position replaced and the vertical velocity
/// reversed.
pub open spec fn reflected_y(b: BodyModel, y: int) -> BodyModel {
    BodyModel {
        position: Vec2Model { x: b.position.x, y },
        velocity: Vec2Model { x: b.velocity.x, y: -b.velocity.y },
        ..b
    }
}

/// A body that reached the floor rests on it and moves up as fast as it
/// came down.
pub open spec fn bottom_bounced(b: BodyModel, a: ArenaModel) -> BodyModel {
    if hits_bottom(b, a) {
        reflected_y(b, fx_add(-fx_half(a.height), b.half_height))
    } else {
        b
    }
}

/// A body that reached the right wall touches it from inside and moves
/// left as fast as it came.
pub open spec fn right_bounced(b: BodyModel, a: ArenaModel) -> BodyModel {
    if hits_right(b, a) {
        reflected_x(b, fx_sub(fx_half(a.width), b.half_width))
    } else {
        b
    }
}

/// A body that reached the left wall touches it from inside and moves
/// right as fast as it came.
pub open spec fn left_bounced(b: BodyModel, a: ArenaModel) -> BodyModel {
    if hits_left(b, a) {
        reflected_x(b, fx_add(-fx_half(a.width), b.half_width))
    } else {
        b
    }
}

/// The three edges, checked one after the other: floor, right wall, left
/// wall. A body in a corner is reflected on both axes.
pub open spec fn bounced(b: BodyModel, a: ArenaModel) -> BodyModel {
    left_bounced(right_bounced(bottom_bounced(b, a), a), a)
}

/// Puts a body that reached an edge of the arena back inside and reverses
/// its velocity on that axis.
pub fn edges_bounce(body: &mut Movable, arena: &Arena)
    ensures
        final(body)@ == bounced(old(body)@, arena@),
        final(body)@.wf(),
{
    let half_w: Scalar = arena.width.half();
    let half_h: Scalar = arena.height.half();
    if body.position().y.sub(body.half_height()).le(&half_h.neg()) {
        let position: Vec2 = body.position();
        let velocity: Vec2 = body.velocity();
        body.set_position(Vec2::new(position.x, half_h.neg().add(body.half_height())));
        body.set_velocity(Vec2::new(velocity.x, velocity.y.neg()));
    }
    if half_w.le(&body.position().x.add(body.half_width())) {
        let position: Vec2 = body.position();
        let velocity: Vec2 = body.velocity();
        body.set_position(Vec2::new(half_w.sub(body.half_width()), position.y));
        body.set_velocity(Vec2::new(velocity.x.neg(), velocity.y));
    }
    if body.position().x.sub(body.half_width()).le(&half_w.neg()) {
        let position: Vec2 = body.position();
        let velocity: Vec2 = body.velocity();
        body.set_position(Vec2::new(half_w.neg().add(body.half_width()), position.y));
        body.set_velocity(Vec2::new(velocity.x.neg(), velocity.y));
    }
}

/// Whether the arena is wide enough for the body: resting against the
/// right wall, the body does not reach the left one.
pub open spec fn fits_between_walls(b: BodyModel, a: ArenaModel) -> bool {
    fx_sub(fx_sub(fx_half(a.width), b.half_width), b.half_width) > -fx_half(a.width)
}

/// A body that reached the floor is put on it, and its vertical velocity
/// is reversed: same speed, opposite direction.
pub proof fn lemma_floor_reflects(b: BodyModel, a: ArenaModel)
    requires
        hits_bottom(b, a),
    ensures
        bounced(b, a).position.y == fx_add(-fx_half(a.height), b.half_height),
        bounced(b, a).velocity.y == -b.velocity.y,
{
}

/// A body that reached the right wall, in an arena wide enough for it, is
/// put against the wall from inside, and its horizontal velocity is
/// reversed: same speed, opposite direction.
pub proof fn lemma_right_wall_reflects(b: BodyModel, a: ArenaModel)
    requires
        b.wf(),
        a.wf(),
        hits_right(b, a),
        fits_between_walls(b, a),
    ensures
        bounced(b, a).position.x == fx_sub(fx_half(a.width), b.half_width),
        bounced(b, a).position.x <= fx_half(a.width) - b.half_width,
        bounced(b, a).velocity.x == -b.velocity.x,
        bounced(b, a).velocity.x * bounced(b, a).velocity.x == b.velocity.x * b.velocity.x,
        b.velocity.x > 0 ==> bounced(b, a).velocity.x < 0,
{
    assert((-b.velocity.x) * (-b.velocity.x) == b.velocity.x * b.velocity.x) by (nonlinear_arith);
    lemma_trunc_div_bound(a.width, 2);
}

/// A body that reached the left wall without touching the right one is
/// put against the wall from inside, and its horizontal velocity is
/// reversed.
pub proof fn lemma_left_wall_reflects(b: BodyModel, a: ArenaModel)
    requires
        hits_left(b, a),
        !hits_right(b, a),
    ensures
        bounced(b, a).position.x == fx_add(-fx_half(a.width), b.half_width),
        bounced(b, a).velocity.x == -b.velocity.x,
{
}

/// A body that touches no edge is left as it is.
pub proof fn lemma_inside_is_untouched(b: BodyModel, a: ArenaModel)
    requires
        !hits_bottom(b, a),
        !hits_right(b, a),
        !hits_left(b, a),
    ensures
        bounced(b, a) == b,
{
}

} // verus!
