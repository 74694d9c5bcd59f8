//! What a debug view draws for a body: a segment for its velocity and one
//! for its acceleration, both starting at the body's centre.

use vstd::prelude::*;
use crate::body::{BodyModel, Movable};
use crate::scalar::{Scalar, SCALE};
use crate::vector::{Vec2, Vec2Model};
use crate::world::World;

verus! {

/// How many times longer than the acceleration its segment is drawn.
pub const ACCELERATION_STRETCH: i64 = 10;

/// The end points of a body's two debug segments.
#[derive(Clone, Copy, Debug)]
pub struct DebugSegments {
    pub start: Vec2,
    pub velocity_end: Vec2,
    pub acceleration_end: Vec2,
}

/// The mathematical content of the debug segments.
pub struct DebugSegmentsModel {
    pub start: Vec2Model,
    pub velocity_end: Vec2Model,
    pub acceleration_end: Vec2Model,
}

impl View for DebugSegments {
    type V = DebugSegmentsModel;

    open spec fn view(&self) -> DebugSegmentsModel {
        DebugSegmentsModel {
            start: self.start@,
            velocity_end: self.velocity_end@,
            acceleration_end: self.acceleration_end@,
        }
    }
}

/// The segments of a body: from its centre to the centre moved by its
/// velocity, and from its centre to the centre moved by its stretched
/// acceleration.
pub open spec fn segments_of(b: BodyModel) -> DebugSegmentsModel {
    DebugSegmentsModel {
        start: b.position,
        velocity_end: b.position.add(b.velocity),
        acceleration_end: b.position.add(
            b.acceleration.scale(ACCELERATION_STRETCH as int * SCALE as int),
        ),
    }
}

/// The debug segments of one body.
pub fn debug_line(body: &Movable) -> (segments: DebugSegments)
    ensures
        segments@ == segments_of(body@),
{
    let start: Vec2 = body.position();
    DebugSegments {
        start,
        velocity_end: start.add(body.velocity()),
        acceleration_end: start.add(body.acceleration().scale(Scalar::from_int(ACCELERATION_STRETCH))),
    }
}

/// The debug segments of the world's primary body, which is its first;
/// nothing where no body exists.
pub fn primary_debug_line(world: &World) -> (segments: Option<DebugSegments>)
    ensures
        world@.bodies.len() > 0 ==> segments.is_some() && segments.unwrap()@ == segments_of(
            world@.bodies[0],
        ),
        world@.bodies.len() == 0 ==> segments.is_none(),
{
    match world.body(0) {
        Some(body) => Some(debug_line(&body)),
        None => None,
    }
}

} // verus!
