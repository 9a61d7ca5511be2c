//! The host world's entity handle, as this crate sees it.

use vstd::prelude::*;

verus! {

/// `bevy::ecs::entity::Entity`, the handle by which a motor names its car.
/// Nothing is claimed of what it holds: the crate only carries such a handle
/// from a motor to the diagnostic that names it.
#[verifier::external_type_specification]
#[verifier::external_body]
pub struct ExEntity(bevy::ecs::entity::Entity);

} // verus!
