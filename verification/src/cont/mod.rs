//! Entity containers: a generational index allocator and the component rows
//! indexed by the entities it hands out.

use vstd::prelude::*;

pub mod entity;
pub mod row;

pub use entity::{ContEntities, Entity, EntityView, SlotView};
pub use row::Row;

verus! {

/// Capacity of a container whose owner does not pick one.
pub const DEFAULT_MAX_ENTITIES: usize = 128;

/// Marker for a container type. An [`Entity`] is stamped with the container
/// it belongs to, so entities of different containers cannot be mixed up.
pub trait Cont {

}

} // verus!
