//! Bodies, the arena they move in, and the force field acting on them.

use vstd::prelude::*;
use crate::scalar::{in_range, Scalar};
use crate::vector::{Vec2, Vec2Model};

verus! {

/// The mathematical content of a body.
pub struct BodyModel {
    pub position: Vec2Model,
    pub velocity: Vec2Model,
    pub acceleration: Vec2Model,
    pub mass: int,
    pub half_width: int,
    pub half_height: int,
}

impl BodyModel {
    /// Whether every quantity is representable and the mass is positive.
    pub open spec fn wf(self) -> bool {
        &&& self.position.wf()
        &&& self.velocity.wf()
        &&& self.acceleration.wf()
        &&& 0 < self.mass <= crate::scalar::LIMIT as int
        &&& in_range(self.half_width)
        &&& in_range(self.half_height)
    }

    /// A body of the given mass at rest at the origin, without extent.
    pub open spec fn at_rest(mass: int) -> BodyModel {
        BodyModel {
            position: Vec2Model::zero(),
            velocity: Vec2Model::zero(),
            acceleration: Vec2Model::zero(),
            mass,
            half_width: 0,
            half_height: 0,
        }
    }

    /// Whether two bodies agree in everything but the accumulator.
    pub open spec fn same_but_acceleration(self, other: BodyModel) -> bool {
        &&& self.position == other.position
        &&& self.velocity == other.velocity
        &&& self.mass == other.mass
        &&& self.half_width == other.half_width
        &&& self.half_height == other.half_height
    }

    /// The body with `delta` added to its acceleration accumulator.
    pub open spec fn accelerated(self, delta: Vec2Model) -> BodyModel {
        BodyModel { acceleration: self.acceleration.add(delta), ..self }
    }

    /// The body after a force acted on it: the accumulator grows by the
    /// force divided by the mass.
    pub open spec fn force_applied(self, force: Vec2Model) -> BodyModel {
        self.accelerated(force.div(self.mass))
    }

    /// The body with its accumulator cleared.
    pub open spec fn cleared(self) -> BodyModel {
        BodyModel { acceleration: Vec2Model::zero(), ..self }
    }
}

/// What a scene says of a body to create.
#[derive(Clone, Copy, Debug)]
pub struct BodySpec {
    pub position: Vec2,
    pub mass: Scalar,
    pub half_width: Scalar,
    pub half_height: Scalar,
}

/// The mathematical content of a body specification.
pub struct BodySpecModel {
    pub position: Vec2Model,
    pub mass: int,
    pub half_width: int,
    pub half_height: int,
}

impl BodySpecModel {
    /// Whether every quantity is representable.
    pub open spec fn wf(self) -> bool {
        &&& self.position.wf()
        &&& in_range(self.mass)
        &&& in_range(self.half_width)
        &&& in_range(self.half_height)
    }

    /// The body that this specification describes, at rest.
    pub open spec fn body(self) -> BodyModel {
        BodyModel {
            position: self.position,
            velocity: Vec2Model::zero(),
            acceleration: Vec2Model::zero(),
            mass: self.mass,
            half_width: self.half_width,
            half_height: self.half_height,
        }
    }
}

impl View for BodySpec {
    type V = BodySpecModel;

    open spec fn view(&self) -> BodySpecModel {
        BodySpecModel {
            position: self.position@,
            mass: self.mass@,
            half_width: self.half_width@,
            half_height: self.half_height@,
        }
    }
}

/// A point mass with collision extents. Its mass is always positive.
#[derive(Clone, Copy, Debug)]
pub struct Movable {
    position: Vec2,
    velocity: Vec2,
    acceleration: Vec2,
    mass: Scalar,
    half_width: Scalar,
    half_height: Scalar,
}

impl View for Movable {
    type V = BodyModel;

    closed spec fn view(&self) -> BodyModel {
        BodyModel {
            position: self.position@,
            velocity: self.velocity@,
            acceleration: self.acceleration@,
            mass: self.mass@,
            half_width: self.half_width@,
            half_height: self.half_height@,
        }
    }
}

impl Movable {
    #[verifier::type_invariant]
    spec fn has_positive_mass(self) -> bool {
        self.mass@ > 0
    }

    /// The model of a body is always well-formed.
    fn known_valid(&self)
        ensures
            self@.wf(),
    {
        proof {
            use_type_invariant(self);
            use_type_invariant(&self.position.x);
            use_type_invariant(&self.position.y);
            use_type_invariant(&self.velocity.x);
            use_type_invariant(&self.velocity.y);
            use_type_invariant(&self.acceleration.x);
            use_type_invariant(&self.acceleration.y);
            use_type_invariant(&self.mass);
            use_type_invariant(&self.half_width);
            use_type_invariant(&self.half_height);
        }
    }

    /// A body of the given mass, at rest at the origin and without extent.
    pub fn new(mass: Scalar) -> (body: Movable)
        requires
            mass@ > 0,
        ensures
            body@ == BodyModel::at_rest(mass@),
            body@.wf(),
    {
        proof {
            use_type_invariant(&mass);
        }
        Movable {
            position: Vec2::zero(),
            velocity: Vec2::zero(),
            acceleration: Vec2::zero(),
            mass,
            half_width: Scalar::zero(),
            half_height: Scalar::zero(),
        }
    }

    /// Creates the body that `spec` describes, at rest. A mass that is not
    /// positive is rejected.
    pub fn spawn(spec: &BodySpec) -> (body: Option<Movable>)
        ensures
            spec@.mass > 0 ==> body.is_some() && body.unwrap()@ == spec@.body(),
            spec@.mass <= 0 ==> body.is_none(),
            body.is_some() ==> body.unwrap()@.wf(),
    {
        if Scalar::zero().lt(&spec.mass) {
            let body = Movable {
                position: spec.position,
                velocity: Vec2::zero(),
                acceleration: Vec2::zero(),
                mass: spec.mass,
                half_width: spec.half_width,
                half_height: spec.half_height,
            };
            body.known_valid();
            Some(body)
        } else {
            None
        }
    }

    /// Adds `force / mass` to the acceleration accumulator.
    pub fn apply_force(&mut self, force: Vec2)
        ensures
            final(self)@ == old(self)@.force_applied(force@),
            final(self)@.wf(),
    {
        proof {
            use_type_invariant(&*self);
        }
        self.acceleration = self.acceleration.add(force.div(self.mass));
        self.known_valid();
    }

    /// Adds `delta` to the acceleration accumulator.
    pub fn accelerate(&mut self, delta: Vec2)
        ensures
            final(self)@ == old(self)@.accelerated(delta@),
            final(self)@.wf(),
    {
        proof {
            use_type_invariant(&*self);
        }
        self.acceleration = self.acceleration.add(delta);
        self.known_valid();
    }

    /// Clears the acceleration accumulator.
    pub fn reset_acceleration(&mut self)
        ensures
            final(self)@ == old(self)@.cleared(),
            final(self)@.wf(),
    {
        proof {
            use_type_invariant(&*self);
        }
        self.acceleration = Vec2::zero();
        self.known_valid();
    }

    /// The mass, which is positive.
    pub fn mass(&self) -> (m: Scalar)
        ensures
            m@ == self@.mass,
            m@ > 0,
            self@.wf(),
    {
        self.known_valid();
        self.mass
    }

    /// The position of the body's centre.
    pub fn position(&self) -> (p: Vec2)
        ensures
            p@ == self@.position,
            self@.wf(),
    {
        self.known_valid();
        self.position
    }

    /// The velocity.
    pub fn velocity(&self) -> (v: Vec2)
        ensures
            v@ == self@.velocity,
            self@.wf(),
    {
        self.known_valid();
        self.velocity
    }

    /// The acceleration accumulated so far in this tick.
    pub fn acceleration(&self) -> (a: Vec2)
        ensures
            a@ == self@.acceleration,
            self@.wf(),
    {
        self.known_valid();
        self.acceleration
    }

    /// Half of the body's width.
    pub fn half_width(&self) -> (w: Scalar)
        ensures
            w@ == self@.half_width,
    {
        self.half_width
    }

    /// Half of the body's height.
    pub fn half_height(&self) -> (h: Scalar)
        ensures
            h@ == self@.half_height,
    {
        self.half_height
    }

    /// Moves the body's centre to `position`.
    pub fn set_position(&mut self, position: Vec2)
        ensures
            final(self)@ == (BodyModel { position: position@, ..old(self)@ }),
            final(self)@.wf(),
    {
        proof {
            use_type_invariant(&*self);
        }
        self.position = position;
        self.known_valid();
    }

    /// Replaces the velocity.
    pub fn set_velocity(&mut self, velocity: Vec2)
        ensures
            final(self)@ == (BodyModel { velocity: velocity@, ..old(self)@ }),
            final(self)@.wf(),
    {
        proof {
            use_type_invariant(&*self);
        }
        self.velocity = velocity;
        self.known_valid();
    }

    /// Replaces the collision extents.
    pub fn set_half_extents(&mut self, half_width: Scalar, half_height: Scalar)
        ensures
            final(self)@ == (BodyModel {
                half_width: half_width@,
                half_height: half_height@,
                ..old(self)@
            }),
            final(self)@.wf(),
    {
        proof {
            use_type_invariant(&*self);
        }
        self.half_width = half_width;
        self.half_height = half_height;
        self.known_valid();
    }
}

/// The rectangle, centred at the origin, that bodies move in.
#[derive(Clone, Copy, Debug)]
pub struct Arena {
    pub width: Scalar,
    pub height: Scalar,
}

/// The mathematical content of an arena.
pub struct ArenaModel {
    pub width: int,
    pub height: int,
}

impl ArenaModel {
    /// Whether both sides are representable.
    pub open spec fn wf(self) -> bool {
        in_range(self.width) && in_range(self.height)
    }
}

impl Default for Arena {
    /// An arena 640 units wide and 480 units high.
    fn default() -> (arena: Arena)
        ensures
            arena@ == (ArenaModel { width: 640_000_000, height: 480_000_000 }),
    {
        Arena { width: Scalar::from_int(640), height: Scalar::from_int(480) }
    }
}

impl View for Arena {
    type V = ArenaModel;

    open spec fn view(&self) -> ArenaModel {
        ArenaModel { width: self.width@, height: self.height@ }
    }
}

/// The constants of the forces, read-only while the simulation runs.
#[derive(Clone, Copy, Debug)]
pub struct ForceField {
    pub gravity: Vec2,
    pub wind: Vec2,
    pub friction_coefficient: Scalar,
    pub drag_coefficient: Scalar,
    pub max_speed: Scalar,
}

/// The mathematical content of a force field.
pub struct ForceFieldModel {
    pub gravity: Vec2Model,
    pub wind: Vec2Model,
    pub friction_coefficient: int,
    pub drag_coefficient: int,
    pub max_speed: int,
}

impl ForceFieldModel {
    /// Whether every constant is representable.
    pub open spec fn wf(self) -> bool {
        &&& self.gravity.wf()
        &&& self.wind.wf()
        &&& in_range(self.friction_coefficient)
        &&& in_range(self.drag_coefficient)
        &&& in_range(self.max_speed)
    }
}

impl Default for ForceField {
    /// Gravity of 10 units downward, wind of 5 units to the right, a
    /// friction coefficient of 1, a drag coefficient of 0.1 and a maximum
    /// speed of 300 units.
    fn default() -> (field: ForceField)
        ensures
            field@ == (ForceFieldModel {
                gravity: Vec2Model { x: 0, y: -10_000_000 },
                wind: Vec2Model { x: 5_000_000, y: 0 },
                friction_coefficient: 1_000_000,
                drag_coefficient: 100_000,
                max_speed: 300_000_000,
            }),
    {
        ForceField {
            gravity: Vec2::new(Scalar::zero(), Scalar::from_int(-10)),
            wind: Vec2::new(Scalar::from_int(5), Scalar::zero()),
            friction_coefficient: Scalar::one(),
            drag_coefficient: Scalar::from_raw(100_000),
            max_speed: Scalar::from_int(300),
        }
    }
}

impl View for ForceField {
    type V = ForceFieldModel;

    open spec fn view(&self) -> ForceFieldModel {
        ForceFieldModel {
            gravity: self.gravity@,
            wind: self.wind@,
            friction_coefficient: self.friction_coefficient@,
            drag_coefficient: self.drag_coefficient@,
            max_speed: self.max_speed@,
        }
    }
}

} // verus!
