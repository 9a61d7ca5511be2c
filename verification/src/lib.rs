//! Control logic of an arcade-style car: an invisible motor body is pushed
//! around by a physics engine, and a separate car entity follows it.
//!
//! Every tick four procedures run over all motors. This crate decides, for
//! each motor and procedure, whether the procedure acts on the motor, leaves
//! it alone, or reports the motor's car reference as unresolved, and which
//! damping the handbrake asks for. The host looks the cars up, carries out the
//! writes and logs the diagnostics.
//!
//! - [`procedure`]: the procedures, their order and their place around the
//!   physics step.
//! - [`control`]: the decision for one motor.
//! - [`systems`]: the decisions for all motors of a tick, with diagnostics.
//! - [`laws`]: what is proved of them.
//! - [`entity`]: the host's entity handle.

pub mod entity;
pub mod procedure;
pub mod control;
pub mod systems;
pub mod laws;
