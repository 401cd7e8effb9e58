//! Entity-component storage: generational handles, dense component arrays
//! that reject stale handles, and a type-keyed registry of those arrays.

pub mod generational_index;
pub mod registry;
pub mod game_state;
pub mod key_event;
