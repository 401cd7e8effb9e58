use vstd::prelude::*;
use crate::generational_index::{
    current_in, generations_advance, padded, retired_in, stored, cleared, lookup, ArrayEntry, GenerationalIndex,
    GenerationalIndexAllocator, GenerationalIndexArray,
};
use crate::registry::ComponentRegistry;

verus! {

/// An entity is identified by its generational handle.
pub type Entity = GenerationalIndex;

/// The component array of one type, keyed by entity.
pub type EntityMap<T> = GenerationalIndexArray<T>;

/// All entities and their components: the handle allocator, the latest
/// handle issued for each slot, and one component array per registered type.
pub struct GameState {
    components: ComponentRegistry,
    allocator: GenerationalIndexAllocator,
    entities: Vec<Entity>,
}

impl GameState {
    /// The latest handle issued for each slot.
    pub closed spec fn entity_list(&self) -> Seq<Entity> {
        self.entities@
    }

    /// The current generation of each slot.
    pub closed spec fn generations(&self) -> Seq<u64> {
        self.allocator.generations()
    }

    /// The slots waiting to be reused.
    pub closed spec fn free_slots(&self) -> Seq<usize> {
        self.allocator.free_slots()
    }

    /// Every free slot is a slot of the allocator.
    pub closed spec fn allocator_wf(&self) -> bool {
        self.allocator.wf()
    }

    /// The allocator is consistent, and there is one entity entry per slot,
    /// each naming its own slot.
    pub open spec fn wf(&self) -> bool {
        &&& self.allocator_wf()
        &&& self.entity_list().len() == self.generations().len()
        &&& forall|i: int|
            0 <= i < self.entity_list().len() ==> #[trigger] self.entity_list()[i].index == i
    }

    /// `after` is `before` with handle `e` allocated and recorded: the most
    /// recently freed slot is reused under its current generation, or else a
    /// new slot of generation 0 is appended.
    pub open spec fn entity_allocated(before: GameState, after: GameState, e: Entity) -> bool {
        &&& after.wf()
        &&& current_in(after.generations(), after.free_slots(), e)
        &&& generations_advance(before.generations(), after.generations())
        &&& before.free_slots().len() > 0 ==> {
            &&& e.index == before.free_slots().last()
            &&& after.free_slots() == before.free_slots().drop_last()
            &&& after.generations() == before.generations()
            &&& after.entity_list() == before.entity_list().update(e.index as int, e)
        }
        &&& before.free_slots().len() == 0 ==> {
            &&& e.index == before.generations().len()
            &&& e.generation == 0
            &&& after.free_slots() == before.free_slots()
            &&& after.generations() == before.generations().push(0)
            &&& after.entity_list() == before.entity_list().push(e)
        }
    }

    /// A state with no entities and no registered component types.
    pub fn create_initial_state() -> (r: GameState)
        ensures
            r.wf(),
            r.entity_list() == Seq::<Entity>::empty(),
            r.generations() == Seq::<u64>::empty(),
            r.free_slots() == Seq::<usize>::empty(),
    {
        GameState {
            components: ComponentRegistry::new(),
            allocator: GenerationalIndexAllocator::new(),
            entities: Vec::new(),
        }
    }

    /// The latest handle issued for each slot.
    pub fn entities(&self) -> (r: &Vec<Entity>)
        ensures
            r@ == self.entity_list(),
    {
        &self.entities
    }

    /// Whether the handle is still current.
    pub fn is_live(&self, entity: &Entity) -> (r: bool)
        requires
            self.wf(),
        ensures
            r == current_in(self.generations(), self.free_slots(), *entity),
    {
        self.allocator.is_live(entity)
    }

    /// Pads the array with sentinels until it has a slot for every entity.
    pub fn sync_registry<T>(entities: &Vec<Entity>, array: &mut GenerationalIndexArray<T>)
        ensures
            final(array)@ == padded(old(array)@, entities@.len()),
    {
        let n = entities.len();
        array.pad_to(n);
    }

    /// Brings the array up to the entity count, then writes the component at
    /// the entity's slot under the entity's generation.
    pub fn store_component<T>(
        entities: &Vec<Entity>,
        array: &mut GenerationalIndexArray<T>,
        component: T,
        index: &Entity,
    )
        requires
            index.index < usize::MAX,
        ensures
            final(array)@ == stored(padded(old(array)@, entities@.len()), *index, component),
    {
        GameState::sync_registry(entities, array);
        array.set(index, component);
    }

    /// The entity's component in `map`, the array looked up for its type:
    /// None when there is no array, else what the array reads for the handle.
    pub fn component_in<'m, T>(map: Option<&'m EntityMap<T>>, index: &Entity) -> (r: Option<&'m T>)
        ensures
            map.is_none() ==> r.is_none(),
            map.is_some() ==> r.is_some() == lookup(map.unwrap()@, *index).is_some(),
            map.is_some() && r.is_some() ==> *r.unwrap() == lookup(map.unwrap()@, *index).unwrap(),
    {
        match map {
            Some(m) => m.get(index),
            None => None,
        }
    }

    /// Mutable access to the entity's component in `map`, on the same terms
    /// as `component_in`.
    pub fn component_in_mut<'m, T>(map: Option<&'m mut EntityMap<T>>, index: &Entity) -> (r: Option<&'m mut T>)
        ensures
            map.is_none() ==> r.is_none(),
            map.is_some() ==> r.is_some() == lookup(map.unwrap()@, *index).is_some(),
            map.is_some() && r.is_none() ==> final(map.unwrap())@ == map.unwrap()@,
            map.is_some() && r.is_some() ==> {
                &&& *r.unwrap() == lookup(map.unwrap()@, *index).unwrap()
                &&& final(map.unwrap())@ == map.unwrap()@.update(
                    index.index as int,
                    ArrayEntry { value: Some(*final(r.unwrap())), generation: index.generation },
                )
            },
    {
        match map {
            Some(m) => m.get_mut(index),
            None => None,
        }
    }

    /// Attaches the component to the entity in `map`, the array looked up for
    /// its type, after bringing the array up to the entity count. Returns
    /// whether there was an array.
    pub fn attach_in<T>(
        entities: &Vec<Entity>,
        map: Option<&mut EntityMap<T>>,
        component: T,
        index: &Entity,
    ) -> (r: bool)
        requires
            index.index < usize::MAX,
        ensures
            r == map.is_some(),
            r ==> final(map.unwrap())@ == stored(
                padded(map.unwrap()@, entities@.len()),
                *index,
                component,
            ),
    {
        match map {
            Some(m) => {
                GameState::store_component(entities, m, component, index);
                true
            },
            None => false,
        }
    }

    /// Clears the entity's component in `map`, the array looked up for its
    /// type. Returns whether there was an array.
    pub fn detach_in<T>(map: Option<&mut EntityMap<T>>, index: &Entity) -> (r: bool)
        ensures
            r == map.is_some(),
            r ==> final(map.unwrap())@ == cleared(map.unwrap()@, *index),
    {
        match map {
            Some(m) => {
                m.remove(index);
                true
            },
            None => false,
        }
    }

    /// Attaches the component to the entity in the array registered for `T`.
    /// Returns false, changing nothing, when no array is registered for `T`.
    pub fn register_component<T: 'static>(&mut self, component: T, index: &Entity) -> (r: bool)
        requires
            old(self).wf(),
            index.index < usize::MAX,
        ensures
            final(self).wf(),
            final(self).entity_list() == old(self).entity_list(),
            final(self).generations() == old(self).generations(),
            final(self).free_slots() == old(self).free_slots(),
    {
        GameState::attach_in(&self.entities, self.components.get_mut::<T>(), component, index)
    }

    /// Attaches the component to the entity; see `register_component`.
    pub fn add_component_to<T: 'static>(&mut self, component: T, index: &Entity) -> (r: bool)
        requires
            old(self).wf(),
            index.index < usize::MAX,
        ensures
            final(self).wf(),
            final(self).entity_list() == old(self).entity_list(),
            final(self).generations() == old(self).generations(),
            final(self).free_slots() == old(self).free_slots(),
    {
        self.register_component(component, index)
    }

    /// Clears the entity's component of type `T`. Returns false, changing
    /// nothing, when no array is registered for `T`.
    pub fn remove_component<T: 'static>(&mut self, index: &Entity) -> (r: bool)
        requires
            old(self).wf(),
        ensures
            final(self).wf(),
            final(self).entity_list() == old(self).entity_list(),
            final(self).generations() == old(self).generations(),
            final(self).free_slots() == old(self).free_slots(),
    {
        GameState::detach_in(self.components.get_mut::<T>(), index)
    }

    /// Registers the array for `T`, replacing any array registered for it before.
    pub fn register_map<T: 'static>(&mut self, component: GenerationalIndexArray<T>)
        requires
            old(self).wf(),
        ensures
            final(self).wf(),
            final(self).entity_list() == old(self).entity_list(),
            final(self).generations() == old(self).generations(),
            final(self).free_slots() == old(self).free_slots(),
    {
        self.components.insert(component);
    }

    /// Allocates a handle and records it as its slot's latest handle.
    pub fn allocate_entity(&mut self) -> (r: Entity)
        requires
            old(self).wf(),
            old(self).free_slots().len() == 0 ==> old(self).generations().len() < usize::MAX,
        ensures
            GameState::entity_allocated(*old(self), *final(self), r),
    {
        let entity = self.allocator.allocate();
        let idx = entity.index();
        if idx < self.entities.len() {
            self.entities.set(idx, entity);
        } else {
            self.entities.push(entity);
        }
        self.entities[idx]
    }

    /// Allocates a handle, records it as its slot's latest handle, and returns
    /// a builder that attaches components to it.
    pub fn create_entity(state: &mut GameState) -> (r: EntityBuilder<'_>)
        requires
            old(state).wf(),
            old(state).free_slots().len() == 0 ==> old(state).generations().len() < usize::MAX,
        ensures
            GameState::entity_allocated(*old(state), *r.state, r.id),
            *final(r.state) == *final(state),
    {
        let new_idx = state.allocate_entity();
        EntityBuilder::new(new_idx, state)
    }

    /// Retires the entity's handle so that every array stops answering to it,
    /// and frees its slot for reuse. A handle that is not live is refused and
    /// changes nothing.
    pub fn destroy_entity(&mut self, entity: &Entity) -> (r: bool)
        requires
            old(self).wf(),
            current_in(old(self).generations(), old(self).free_slots(), *entity) ==> entity.generation
                < u64::MAX,
        ensures
            final(self).wf(),
            r == current_in(old(self).generations(), old(self).free_slots(), *entity),
            generations_advance(old(self).generations(), final(self).generations()),
            final(self).entity_list() == old(self).entity_list(),
            r ==> {
                &&& final(self).generations() == old(self).generations().update(
                    entity.index as int,
                    (entity.generation + 1) as u64,
                )
                &&& final(self).free_slots() == old(self).free_slots().push(entity.index)
                &&& retired_in(final(self).generations(), *entity)
            },
            !r ==> {
                &&& final(self).generations() == old(self).generations()
                &&& final(self).free_slots() == old(self).free_slots()
            },
    {
        self.allocator.deallocate(entity)
    }

    /// The array registered for `T`, or None when none is.
    pub fn get_map<T: 'static>(&self) -> (r: Option<&EntityMap<T>>) {
        self.components.get::<T>()
    }

    /// Mutable access to the array registered for `T`, or None when none is.
    pub fn get_map_mut<T: 'static>(&mut self) -> (r: Option<&mut EntityMap<T>>)
        requires
            old(self).wf(),
        ensures
            final(self).wf(),
            final(self).entity_list() == old(self).entity_list(),
            final(self).generations() == old(self).generations(),
            final(self).free_slots() == old(self).free_slots(),
    {
        self.components.get_mut::<T>()
    }

    /// The entity's component of type `T`: None when no array is registered
    /// for `T`, or when the array's slot holds nothing under the entity's generation.
    pub fn get<T: 'static>(&self, index: &Entity) -> (r: Option<&T>) {
        GameState::component_in(self.get_map::<T>(), index)
    }

    /// Mutable access to the entity's component of type `T`, on the same terms as `get`.
    pub fn get_mut<T: 'static>(&mut self, index: &Entity) -> (r: Option<&mut T>)
        requires
            old(self).wf(),
        ensures
            final(self).wf(),
            final(self).entity_list() == old(self).entity_list(),
            final(self).generations() == old(self).generations(),
            final(self).free_slots() == old(self).free_slots(),
    {
        GameState::component_in_mut(self.get_map_mut::<T>(), index)
    }
}

/// Syncing an array twice with no entity created in between changes nothing
/// the second time: the length and every slot stay as the first sync left them.
pub proof fn lemma_sync_registry_idempotent<T>(entries: Seq<ArrayEntry<T>>, entity_count: nat)
    ensures
        padded(padded(entries, entity_count), entity_count) == padded(entries, entity_count),
        padded(padded(entries, entity_count), entity_count).len() == padded(
            entries,
            entity_count,
        ).len(),
{
}

/// Attaches components to one entity, each at once, and hands back its
/// handle at the end. Holds the state exclusively while it lives.
pub struct EntityBuilder<'a> {
    pub id: GenerationalIndex,
    pub state: &'a mut GameState,
}

impl<'a> EntityBuilder<'a> {
    pub fn new(id: GenerationalIndex, state: &'a mut GameState) -> (r: EntityBuilder<'a>)
        ensures
            r.id == id,
            *r.state == *old(state),
            *final(r.state) == *final(state),
    {
        EntityBuilder { id, state }
    }

    /// Attaches the component to the entity now and returns the builder for
    /// the next one. A type with no registered array is skipped.
    pub fn with<T: 'static>(self, component: T) -> (r: Self)
        requires
            self.state.wf(),
            self.id.index < usize::MAX,
        ensures
            r.id == self.id,
            r.state.wf(),
            r.state.entity_list() == old(self.state).entity_list(),
            r.state.generations() == old(self.state).generations(),
            r.state.free_slots() == old(self.state).free_slots(),
            *final(r.state) == *final(self.state),
    {
        self.state.register_component(component, &self.id);
        self
    }

    /// Ends the build, handing back the entity's handle and leaving the state
    /// as the builder holds it.
    pub fn build(self) -> (r: Entity)
        ensures
            r == self.id,
            *final(self.state) == *old(self.state),
    {
        self.id
    }
}

} // verus!
