//! A small fixed-tick 2D physics core: bodies inside a rectangular arena,
//! driven by gravity, wind, ground friction and quadratic drag, integrated
//! once per tick and bounced off the arena's floor and side walls.
//!
//! # Conventions
//!
//! - Every quantity is a fixed-point [`scalar::Scalar`]: a count of
//!   millionths with saturating arithmetic that rounds toward zero. Every
//!   operation is total, and no value is ever undefined.
//! - Lengths are rounded up when a vector is normalized or capped, so a
//!   normalized vector is never longer than one and a capped vector never
//!   longer than its cap.
//! - Gravity is an acceleration. Wind and drag are forces, divided by the
//!   body's mass. Friction is an acceleration of the size of its
//!   coefficient, and acts only within one unit of the floor.
//! - A tick runs the forces, then the boundary, then the integrator. The
//!   integrator caps velocity plus acceleration at the maximum speed and
//!   scales the result by the tick's duration; what it stores as velocity
//!   is the displacement of that tick. It leaves the accumulator clear.
//! - The arena is centred at the origin. Its top is open.
//! - A restart is scheduled in the step that sees the request and carried
//!   out by the steps that follow: one without bodies, then one that starts
//!   from the scene again.

pub mod body;
pub mod collision;
pub mod debug;
pub mod forces;
pub mod integrator;
pub mod root;
pub mod scalar;
pub mod vector;
pub mod world;
