use vstd::prelude::*;
use crate::generational_index::GenerationalIndexArray;

verus! {

/// One component array per component type, keyed by the type itself.
///
/// The arrays are held in an `anymap::AnyMap`, which locates a value by its
/// `TypeId`; that lookup is beyond what the verifier can model, so the map
/// stays opaque and each access below states only what holds of any outcome.
#[verifier::external_body]
pub struct ComponentRegistry {
    maps: anymap::AnyMap,
}

impl ComponentRegistry {
    /// Relies on anymap::AnyMap::new: an empty map.
    #[verifier::external_body]
    pub(crate) fn new() -> (r: ComponentRegistry) {
        ComponentRegistry { maps: anymap::AnyMap::new() }
    }

    /// Relies on anymap::Map::insert: stores the array under the type
    /// `GenerationalIndexArray<T>`, replacing any array stored there before.
    #[verifier::external_body]
    pub(crate) fn insert<T: 'static>(&mut self, array: GenerationalIndexArray<T>) {
        self.maps.insert(array);
    }

    /// Relies on anymap::Map::get: the array stored for `T`, if one was.
    #[verifier::external_body]
    pub(crate) fn get<T: 'static>(&self) -> (r: Option<&GenerationalIndexArray<T>>) {
        self.maps.get::<GenerationalIndexArray<T>>()
    }

    /// Relies on anymap::Map::get_mut: mutable access to the array stored
    /// for `T`, if one was.
    #[verifier::external_body]
    pub(crate) fn get_mut<T: 'static>(&mut self) -> (r: Option<&mut GenerationalIndexArray<T>>) {
        self.maps.get_mut::<GenerationalIndexArray<T>>()
    }
}

} // verus!
