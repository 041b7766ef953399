//! Component stores: one value of a kind per entity.

use crate::entity::Entity;
use vstd::prelude::*;

verus! {

/// `list` with `entity` appended, unless it is already in it.
pub open spec fn with_entity(list: Seq<Entity>, entity: Entity) -> Seq<Entity> {
    if list.contains(entity) {
        list
    } else {
        list.push(entity)
    }
}

/// `list` with `entity` taken out, the rest in their old order.
pub open spec fn without_entity(list: Seq<Entity>, entity: Entity) -> Seq<Entity> {
    if list.contains(entity) {
        list.remove(list.index_of(entity))
    } else {
        list
    }
}

/// In a list without duplicates, an entity is found where it stands.
proof fn lemma_index_of_unique(list: Seq<Entity>, i: int)
    requires
        list.no_duplicates(),
        0 <= i < list.len(),
    ensures
        list.contains(list[i]),
        list.index_of(list[i]) == i,
{
    let j: int = list.index_of(list[i]);
    assert(0 <= j < list.len() && list[j] == list[i]);
}

/// Adding an entity to a list without duplicates keeps the others, each
/// still once, and lengthens the list by one exactly when the entity is new.
pub proof fn lemma_with_entity(list: Seq<Entity>, entity: Entity)
    requires
        list.no_duplicates(),
    ensures
        with_entity(list, entity).no_duplicates(),
        forall|e: Entity|
            with_entity(list, entity).contains(e) <==> (e == entity || list.contains(e)),
        with_entity(list, entity).len() == (if list.contains(entity) {
            list.len()
        } else {
            list.len() + 1
        }),
{
    if !list.contains(entity) {
        let longer = list.push(entity);
        assert(longer[list.len() as int] == entity);
        assert forall|e: Entity| list.contains(e) implies longer.contains(e) by {
            assert(longer[list.index_of(e)] == e);
        }
    }
}

/// Taking an entity out of a list without duplicates leaves the others, each
/// still once, and shortens the list by one exactly when the entity was in it.
pub proof fn lemma_without_entity(list: Seq<Entity>, entity: Entity)
    requires
        list.no_duplicates(),
    ensures
        without_entity(list, entity).no_duplicates(),
        forall|e: Entity|
            without_entity(list, entity).contains(e) <==> (e != entity && list.contains(e)),
        without_entity(list, entity).len() == (if list.contains(entity) {
            list.len() - 1
        } else {
            list.len() as int
        }),
{
    if list.contains(entity) {
        let i: int = list.index_of(entity);
        let rest = list.remove(i);
        // Slot `k` of `rest` is slot `k` of `list` before the gap, `k + 1` behind it.
        assert forall|e: Entity| rest.contains(e) implies e != entity && list.contains(e) by {
            let k: int = rest.index_of(e);
            let k0: int = if k < i { k } else { k + 1 };
            assert(list[k0] == e);
        }
        assert forall|e: Entity| e != entity && list.contains(e) implies rest.contains(e) by {
            let k0: int = list.index_of(e);
            let k: int = if k0 < i { k0 } else { k0 - 1 };
            assert(rest[k] == e);
        }
    }
}

/// Holds at most one component of type `T` for each entity.
///
/// Entities are kept in the order in which they were first assigned a
/// component, and walking the store follows that order.
#[derive(Debug)]
pub struct ComponentManager<T> {
    entities: Vec<Entity>,
    components: Vec<T>,
}

impl<T> View for ComponentManager<T> {
    type V = Map<Entity, T>;

    /// The component of each entity that has one.
    closed spec fn view(&self) -> Map<Entity, T> {
        Map::new(
            |e: Entity| self.entities@.contains(e),
            |e: Entity| self.components@[self.entities@.index_of(e)],
        )
    }
}

impl<T: Clone> Clone for ComponentManager<T> {
    /// A store with the same entities in the same order, each with a clone of
    /// its component.
    fn clone(&self) -> (copy: Self)
        ensures
            self.wf() ==> copy.wf(),
            copy.order() == self.order(),
            copy@.dom() == self@.dom(),
            self.wf() ==> forall|e: Entity| #[trigger]
                copy@.contains_key(e) ==> cloned::<T>(self@[e], copy@[e]),
    {
        let copy = ComponentManager {
            entities: self.entities.clone(),
            components: self.components.clone(),
        };
        proof {
            assert(copy.entities@ =~= self.entities@);
            assert(copy@.dom() =~= self@.dom());
        }
        copy
    }
}

impl<T> ComponentManager<T> {
    /// The entities that have a component, in order of first assignment.
    pub closed spec fn order(&self) -> Seq<Entity> {
        self.entities@
    }

    /// Every entity has exactly one slot.
    pub closed spec fn wf(&self) -> bool {
        &&& self.entities@.len() == self.components@.len()
        &&& self.entities@.no_duplicates()
    }

    /// `order` lists the domain of the view, each entity once.
    pub proof fn lemma_order_matches_view(&self)
        requires
            self.wf(),
        ensures
            self.order().no_duplicates(),
            forall|e: Entity| self.order().contains(e) <==> self@.contains_key(e),
            self@.dom().finite(),
            self@.dom().len() == self.order().len(),
    {
        self.entities@.unique_seq_to_set();
        assert(self@.dom() =~= self.entities@.to_set());
    }

    /// The component in slot `i` belongs to the entity in slot `i`.
    proof fn lemma_slot(&self, i: int)
        requires
            self.wf(),
            0 <= i < self.entities@.len(),
        ensures
            self@.contains_key(self.entities@[i]),
            self@[self.entities@[i]] == self.components@[i],
    {
        lemma_index_of_unique(self.entities@, i);
    }

    /// A store without components.
    pub fn new() -> (store: Self)
        ensures
            store.wf(),
            store@ == Map::<Entity, T>::empty(),
            store.order() == Seq::<Entity>::empty(),
    {
        ComponentManager { entities: Vec::new(), components: Vec::new() }
    }

    /// The slot of `entity`, if it has one.
    fn position(&self, entity: Entity) -> (found: Option<usize>)
        requires
            self.wf(),
        ensures
            (match found {
                Some(i) => i < self.entities@.len() && self.entities@[i as int] == entity,
                None => !self.entities@.contains(entity),
            }),
    {
        let mut i: usize = 0;
        while i < self.entities.len()
            invariant
                i <= self.entities@.len(),
                forall|j: int| 0 <= j < i ==> self.entities@[j] != entity,
            decreases self.entities@.len() - i,
        {
            if self.entities[i] == entity {
                return Some(i);
            }
            i += 1;
        }
        None
    }

    /// Number of entities that have a component.
    pub fn len(&self) -> (n: usize)
        requires
            self.wf(),
        ensures
            n == self@.dom().len(),
            n == self.order().len(),
    {
        proof {
            self.lemma_order_matches_view();
        }
        self.entities.len()
    }

    /// Whether `entity` has a component.
    pub fn contains(&self, entity: Entity) -> (present: bool)
        requires
            self.wf(),
        ensures
            present == self@.contains_key(entity),
    {
        self.position(entity).is_some()
    }

    /// The component of `entity`, if it has one.
    pub fn get(&self, entity: Entity) -> (component: Option<&T>)
        requires
            self.wf(),
        ensures
            (match component {
                Some(c) => self@.contains_key(entity) && *c == self@[entity],
                None => !self@.contains_key(entity),
            }),
    {
        match self.position(entity) {
            Some(i) => {
                proof {
                    self.lemma_slot(i as int);
                }
                Some(&self.components[i])
            },
            None => None,
        }
    }

    /// The entities that have a component, in walking order.
    pub fn entities(&self) -> (list: &[Entity])
        ensures
            list@ == self.order(),
    {
        self.entities.as_slice()
    }

    /// Gives `entity` the component `component`, replacing the one it had.
    ///
    /// An entity that had none is appended to the walking order.
    pub fn assign(&mut self, entity: Entity, component: T)
        requires
            old(self).wf(),
        ensures
            final(self).wf(),
            final(self)@ == old(self)@.insert(entity, component),
            final(self).order() == with_entity(old(self).order(), entity),
    {
        match self.position(entity) {
            Some(i) => {
                self.components[i] = component;
                proof {
                    assert forall|e: Entity| self@.contains_key(e) implies self@[e] == old(
                        self,
                    )@.insert(entity, component)[e] by {
                        lemma_index_of_unique(self.entities@, self.entities@.index_of(e));
                        lemma_index_of_unique(self.entities@, i as int);
                    }
                    assert(self@ =~= old(self)@.insert(entity, component));
                }
            },
            None => {
                self.entities.push(entity);
                self.components.push(component);
                proof {
                    let before = old(self).entities@;
                    lemma_with_entity(before, entity);
                    assert forall|e: Entity| self@.contains_key(e) implies self@[e] == old(
                        self,
                    )@.insert(entity, component)[e] by {
                        // An entity keeps its slot; the new one stands in the last.
                        let slot: int = if e == entity {
                            before.len() as int
                        } else {
                            before.index_of(e)
                        };
                        assert(self.entities@[slot] == e);
                        self.lemma_slot(slot);
                    }
                    assert(self@ =~= old(self)@.insert(entity, component));
                }
            },
        }
    }

    /// Takes the component of `entity` away and returns it.
    ///
    /// The entities behind it in the walking order move up by one slot.
    pub fn remove(&mut self, entity: Entity) -> (removed: Option<T>)
        requires
            old(self).wf(),
        ensures
            final(self).wf(),
            final(self)@ == old(self)@.remove(entity),
            removed == (if old(self)@.contains_key(entity) {
                Some(old(self)@[entity])
            } else {
                None
            }),
            final(self).order() == without_entity(old(self).order(), entity),
    {
        match self.position(entity) {
            Some(i) => {
                self.entities.remove(i);
                let component = self.components.remove(i);
                proof {
                    let before = old(self).entities@;
                    old(self).lemma_slot(i as int);
                    lemma_without_entity(before, entity);
                    assert forall|e: Entity| self@.contains_key(e) implies self@[e] == old(
                        self,
                    )@[e] by {
                        // Behind the gap an entity stood one slot further back.
                        let slot: int = self.entities@.index_of(e);
                        let slot_before: int = if slot < i { slot } else { slot + 1 };
                        assert(before[slot_before] == e);
                        old(self).lemma_slot(slot_before);
                    }
                    assert(self@ =~= old(self)@.remove(entity));
                }
                Some(component)
            },
            None => {
                assert(self@ =~= old(self)@.remove(entity));
                None
            },
        }
    }
}

} // verus!
