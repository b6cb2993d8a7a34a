//! The registry of open windows.

use crate::id_map::IdMap;
use std::collections::HashMap;
use vstd::std_specs::iter::IteratorSpec;
use vstd::prelude::*;

verus! {

broadcast use vstd::std_specs::hash::group_hash_axioms;

/// What a registry holds, as three mathematical maps.
///
/// Entities and native windows are both known by 64-bit numbers: an entity by
/// its bits, a window by the number of its identifier.
pub struct WindowsModel<W> {
    /// The window stored under each window identifier.
    pub windows: Map<u64, W>,
    /// The window identifier of each entity.
    pub entity_to_winit: Map<u64, u64>,
    /// The entity of each window identifier.
    pub winit_to_entity: Map<u64, u64>,
}

impl<W> WindowsModel<W> {
    /// The registry without any window.
    pub open spec fn empty() -> Self {
        WindowsModel {
            windows: Map::empty(),
            entity_to_winit: Map::empty(),
            winit_to_entity: Map::empty(),
        }
    }

    /// `entity` has a window identifier.
    pub open spec fn has_entity(self, entity: u64) -> bool {
        self.entity_to_winit.contains_key(entity)
    }

    /// `winit_id` is known, as a stored window or as the identifier of an entity.
    pub open spec fn has_window_id(self, winit_id: u64) -> bool {
        self.windows.contains_key(winit_id) || self.winit_to_entity.contains_key(winit_id)
    }

    /// The registry after `window`, whose identifier is `winit_id`, was
    /// associated with `entity`. What was known of `entity` and of `winit_id`
    /// before is taken out first: an entity has one window and a window
    /// belongs to one entity.
    pub open spec fn with_window(self, entity: u64, winit_id: u64, window: W) -> Self {
        let cleared = self.without_entity(entity).without_window_id(winit_id);
        WindowsModel {
            windows: cleared.windows.insert(winit_id, window),
            entity_to_winit: cleared.entity_to_winit.insert(entity, winit_id),
            winit_to_entity: cleared.winit_to_entity.insert(winit_id, entity),
        }
    }

    /// The registry after the window identifier `winit_id` was taken out: its
    /// window, its entity, and the identifier of that entity.
    pub open spec fn without_window_id(self, winit_id: u64) -> Self {
        WindowsModel {
            windows: self.windows.remove(winit_id),
            entity_to_winit: if self.winit_to_entity.contains_key(winit_id) {
                self.entity_to_winit.remove(self.winit_to_entity[winit_id])
            } else {
                self.entity_to_winit
            },
            winit_to_entity: self.winit_to_entity.remove(winit_id),
        }
    }

    /// The registry after the window of `entity` was removed. Without a window
    /// identifier for `entity` nothing changes.
    pub open spec fn without_entity(self, entity: u64) -> Self {
        if self.has_entity(entity) {
            let winit_id = self.entity_to_winit[entity];
            WindowsModel {
                windows: self.windows.remove(winit_id),
                entity_to_winit: self.entity_to_winit.remove(entity),
                winit_to_entity: self.winit_to_entity.remove(winit_id),
            }
        } else {
            self
        }
    }

    /// The window associated with `entity`: the one stored under the entity's
    /// window identifier.
    pub open spec fn window_of(self, entity: u64) -> Option<W> {
        if self.has_entity(entity) && self.windows.contains_key(self.entity_to_winit[entity]) {
            Some(self.windows[self.entity_to_winit[entity]])
        } else {
            None
        }
    }

    /// The entity associated with the window identifier `winit_id`.
    pub open spec fn entity_of(self, winit_id: u64) -> Option<u64> {
        if self.winit_to_entity.contains_key(winit_id) {
            Some(self.winit_to_entity[winit_id])
        } else {
            None
        }
    }

    /// Entities and window identifiers are paired one to one, and a window is
    /// stored under exactly the paired identifiers.
    pub open spec fn is_bijection(self) -> bool {
        &&& forall|entity: u64| #[trigger]
            self.entity_to_winit.contains_key(entity) ==> self.entity_of(
                self.entity_to_winit[entity],
            ) == Some(entity)
        &&& forall|winit_id: u64| #[trigger]
            self.winit_to_entity.contains_key(winit_id) ==> {
                &&& self.entity_to_winit.contains_key(self.winit_to_entity[winit_id])
                &&& self.entity_to_winit[self.winit_to_entity[winit_id]] == winit_id
            }
        &&& forall|winit_id: u64| #[trigger]
            self.windows.contains_key(winit_id) <==> self.winit_to_entity.contains_key(winit_id)
    }
}

/// Maps window entities to their native windows and back.
///
/// `W` is the stored window; the registry never looks inside it. A registry
/// starts as a one-to-one pairing of entities and window identifiers, and
/// every method keeps it one.
#[derive(Debug)]
pub struct WinitWindows<W> {
    /// Stores the windows by window identifier.
    windows: HashMap<u64, W>,
    /// Maps entities to window identifiers.
    entity_to_winit: IdMap,
    /// Maps window identifiers to entities.
    winit_to_entity: IdMap,
}

impl<W> View for WinitWindows<W> {
    type V = WindowsModel<W>;

    closed spec fn view(&self) -> WindowsModel<W> {
        WindowsModel {
            windows: self.windows@,
            entity_to_winit: self.entity_to_winit@,
            winit_to_entity: self.winit_to_entity@,
        }
    }
}

impl<W> WinitWindows<W> {
    /// A registry without any window.
    pub fn new() -> (registry: Self)
        ensures
            registry@ == WindowsModel::<W>::empty(),
            registry@.is_bijection(),
    {
        WinitWindows {
            windows: HashMap::new(),
            entity_to_winit: IdMap::new(),
            winit_to_entity: IdMap::new(),
        }
    }

    /// Associates `window`, whose identifier is `winit_id`, with `entity`, and
    /// hands the stored window back.
    ///
    /// A window that `entity` had before is dropped with its identifier, and
    /// so is what was stored under `winit_id` before: the pairing of entities
    /// and window identifiers stays one to one.
    pub fn create_window(&mut self, entity: u64, winit_id: u64, window: W) -> (created: &W)
        ensures
            final(self)@ == old(self)@.with_window(entity, winit_id, window),
            *created == window,
            old(self)@.is_bijection() ==> final(self)@.is_bijection(),
    {
        self.remove_window(entity);
        self.forget_window_id(winit_id);
        proof {
            if old(self)@.is_bijection() {
                lemma_with_window_keeps_bijection(old(self)@, entity, winit_id, window);
            }
        }
        self.entity_to_winit.insert(entity, winit_id);
        self.winit_to_entity.insert(winit_id, entity);
        self.windows.entry(winit_id).insert_entry(window).into_mut()
    }

    /// Takes the window identifier `winit_id` out of the registry, with its
    /// window and its entity.
    fn forget_window_id(&mut self, winit_id: u64)
        ensures
            final(self)@ == old(self)@.without_window_id(winit_id),
    {
        match self.winit_to_entity.remove(winit_id) {
            Some(entity) => {
                self.entity_to_winit.remove(entity);
            },
            None => {},
        }
        self.windows.remove(&winit_id);
    }

    /// The number of windows that are stored.
    pub fn len(&self) -> (n: usize)
        ensures
            self@.windows.dom().finite(),
            n == self@.windows.dom().len(),
    {
        self.windows.len()
    }

    /// The identifiers of the windows that are stored, each once, in no
    /// stated order.
    pub fn window_ids(&self) -> (ids: Vec<u64>)
        ensures
            ids@.no_duplicates(),
            ids@.to_set() == self@.windows.dom(),
    {
        let mut ids: Vec<u64> = Vec::new();
        let ghost keys = self.windows.keys().remaining();
        for winit_id in iter: self.windows.keys()
            invariant
                iter.seq() == keys,
                ids@.len() == iter.index(),
                forall|i: int| 0 <= i < ids@.len() ==> ids@[i] == *keys[i],
        {
            ids.push(*winit_id);
        }
        assert(ids@ =~= keys.unref());
        assert forall|i: int, j: int| 0 <= i < j < ids@.len() implies ids@[i] != ids@[j] by {
            assert(keys[i] != keys[j]);
        }
        ids
    }

    /// The entities that have a window identifier, each once, in no stated
    /// order.
    pub fn entities(&self) -> (entities: Vec<u64>)
        ensures
            entities@.no_duplicates(),
            entities@.to_set() == self@.entity_to_winit.dom(),
    {
        self.entity_to_winit.keys()
    }

    /// The window stored under the window identifier `winit_id`.
    pub fn get_window_by_id(&self, winit_id: u64) -> (window: Option<&W>)
        ensures
            match window {
                Some(w) => self@.windows.contains_key(winit_id) && self@.windows[winit_id] == *w,
                None => !self@.windows.contains_key(winit_id),
            },
    {
        self.windows.get(&winit_id)
    }

    /// The window identifier of `entity`.
    pub fn get_winit_id(&self, entity: u64) -> (winit_id: Option<u64>)
        ensures
            winit_id == (if self@.has_entity(entity) {
                Some(self@.entity_to_winit[entity])
            } else {
                None
            }),
    {
        self.entity_to_winit.get(entity)
    }

    /// The window that is associated with `entity`.
    pub fn get_window(&self, entity: u64) -> (window: Option<&W>)
        ensures
            match window {
                Some(w) => self@.window_of(entity) == Some(*w),
                None => self@.window_of(entity).is_none(),
            },
    {
        match self.entity_to_winit.get(entity) {
            Some(winit_id) => self.windows.get(&winit_id),
            None => None,
        }
    }

    /// The entity associated with the window identifier `winit_id`.
    pub fn get_window_entity(&self, winit_id: u64) -> (entity: Option<u64>)
        ensures
            entity == self@.entity_of(winit_id),
    {
        self.winit_to_entity.get(winit_id)
    }

    /// Removes the window of `entity` from the registry and returns it.
    pub fn remove_window(&mut self, entity: u64) -> (removed: Option<W>)
        ensures
            final(self)@ == old(self)@.without_entity(entity),
            removed == old(self)@.window_of(entity),
            old(self)@.is_bijection() ==> final(self)@.is_bijection(),
    {
        match self.entity_to_winit.remove(entity) {
            Some(winit_id) => {
                self.winit_to_entity.remove(winit_id);
                let removed = self.windows.remove(&winit_id);
                proof {
                    if old(self)@.is_bijection() {
                        lemma_without_entity_keeps_bijection(old(self)@, entity);
                    }
                }
                removed
            },
            None => {
                assert(self.entity_to_winit@ =~= old(self).entity_to_winit@);
                None
            },
        }
    }
}

impl<W> Default for WinitWindows<W> {
    /// A registry without any window.
    fn default() -> (registry: Self)
        ensures
            registry@ == WindowsModel::<W>::empty(),
            registry@.is_bijection(),
    {
        WinitWindows::new()
    }
}

/// Associating a window with an entity keeps a one-to-one pairing one to
/// one, whatever was known of the entity and of the window identifier before.
pub proof fn lemma_with_window_keeps_bijection<W>(
    model: WindowsModel<W>,
    entity: u64,
    winit_id: u64,
    window: W,
)
    requires
        model.is_bijection(),
    ensures
        model.with_window(entity, winit_id, window).is_bijection(),
        model.with_window(entity, winit_id, window).window_of(entity) == Some(window),
        model.with_window(entity, winit_id, window).entity_of(winit_id) == Some(entity),
{
    lemma_without_entity_keeps_bijection(model, entity);
    lemma_without_window_id_keeps_bijection(model.without_entity(entity), winit_id);
}

/// Taking a window identifier out keeps a one-to-one pairing one to one.
pub proof fn lemma_without_window_id_keeps_bijection<W>(model: WindowsModel<W>, winit_id: u64)
    requires
        model.is_bijection(),
    ensures
        model.without_window_id(winit_id).is_bijection(),
        !model.without_window_id(winit_id).has_window_id(winit_id),
        forall|entity: u64|
            !model.has_entity(entity) ==> !(#[trigger] model.without_window_id(winit_id).has_entity(
                entity,
            )),
{
    let after = model.without_window_id(winit_id);
    assert(model.windows.contains_key(winit_id) <==> model.winit_to_entity.contains_key(winit_id));
    if model.winit_to_entity.contains_key(winit_id) {
        let entity = model.winit_to_entity[winit_id];
        assert(model.entity_to_winit.contains_key(entity));
        assert forall|e: u64| #[trigger] after.entity_to_winit.contains_key(e) implies after.entity_of(
            after.entity_to_winit[e],
        ) == Some(e) by {
            assert(model.entity_to_winit.contains_key(e));
            assert(model.entity_of(model.entity_to_winit[e]) == Some(e));
        }
        assert forall|w: u64| #[trigger] after.winit_to_entity.contains_key(w) implies {
            &&& after.entity_to_winit.contains_key(after.winit_to_entity[w])
            &&& after.entity_to_winit[after.winit_to_entity[w]] == w
        } by {
            assert(model.winit_to_entity.contains_key(w));
        }
        assert forall|w: u64| #[trigger]
            after.windows.contains_key(w) <==> after.winit_to_entity.contains_key(w) by {
            assert(model.windows.contains_key(w) <==> model.winit_to_entity.contains_key(w));
        }
    } else {
        assert forall|w: u64| #[trigger]
            after.windows.contains_key(w) <==> after.winit_to_entity.contains_key(w) by {
            assert(model.windows.contains_key(w) <==> model.winit_to_entity.contains_key(w));
        }
    }
}

/// Creating a window and removing it again leaves the registry as it was,
/// where neither the entity nor the window identifier was known before.
pub proof fn lemma_create_then_remove_restores<W>(
    model: WindowsModel<W>,
    entity: u64,
    winit_id: u64,
    window: W,
)
    requires
        !model.has_entity(entity),
        !model.has_window_id(winit_id),
    ensures
        model.with_window(entity, winit_id, window).without_entity(entity) == model,
        model.with_window(entity, winit_id, window).window_of(entity) == Some(window),
        model.with_window(entity, winit_id, window).entity_of(winit_id) == Some(entity),
{
    let cleared = model.without_entity(entity).without_window_id(winit_id);
    assert(cleared.windows =~= model.windows);
    assert(cleared.entity_to_winit =~= model.entity_to_winit);
    assert(cleared.winit_to_entity =~= model.winit_to_entity);
    let after = model.with_window(entity, winit_id, window).without_entity(entity);
    assert(after.windows =~= model.windows);
    assert(after.entity_to_winit =~= model.entity_to_winit);
    assert(after.winit_to_entity =~= model.winit_to_entity);
}

/// In a one-to-one pairing the two lookups answer each other: an entity has a
/// window exactly when it has a window identifier, and a window identifier
/// leads to an entity exactly when that entity leads to it.
pub proof fn lemma_bijection_lookups_agree<W>(model: WindowsModel<W>, entity: u64, winit_id: u64)
    requires
        model.is_bijection(),
    ensures
        model.window_of(entity).is_some() <==> model.has_entity(entity),
        model.entity_of(winit_id) == Some(entity) <==> model.has_entity(entity)
            && model.entity_to_winit[entity] == winit_id,
        model.has_window_id(winit_id) <==> model.entity_of(winit_id).is_some(),
{
    if model.has_entity(entity) {
        assert(model.entity_to_winit.contains_key(entity));
        assert(model.winit_to_entity.contains_key(model.entity_to_winit[entity]));
        assert(model.windows.contains_key(model.entity_to_winit[entity]));
    }
    if model.winit_to_entity.contains_key(winit_id) {
        assert(model.entity_to_winit.contains_key(model.winit_to_entity[winit_id]));
    }
    assert(model.windows.contains_key(winit_id) <==> model.winit_to_entity.contains_key(winit_id));
}

/// Removing the window of an entity keeps a one-to-one pairing one to one.
pub proof fn lemma_without_entity_keeps_bijection<W>(model: WindowsModel<W>, entity: u64)
    requires
        model.is_bijection(),
    ensures
        model.without_entity(entity).is_bijection(),
{
    let after = model.without_entity(entity);
    if model.has_entity(entity) {
        assert forall|e: u64| #[trigger] after.entity_to_winit.contains_key(e) implies after.entity_of(
            after.entity_to_winit[e],
        ) == Some(e) by {
            assert(model.entity_to_winit.contains_key(e));
            assert(model.entity_of(model.entity_to_winit[e]) == Some(e));
        }
        assert forall|w: u64| #[trigger] after.winit_to_entity.contains_key(w) implies {
            &&& after.entity_to_winit.contains_key(after.winit_to_entity[w])
            &&& after.entity_to_winit[after.winit_to_entity[w]] == w
        } by {
            assert(model.winit_to_entity.contains_key(w));
        }
        assert forall|w: u64| #[trigger]
            after.windows.contains_key(w) <==> after.winit_to_entity.contains_key(w) by {
            assert(model.windows.contains_key(w) <==> model.winit_to_entity.contains_key(w));
        }
    }
}

} // verus!
