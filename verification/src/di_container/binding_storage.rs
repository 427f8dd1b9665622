//! Storage of the bindings of a DI container.
use std::any::TypeId;

use ahash::{AHashMap, RandomState};
use vstd::prelude::*;

use crate::di_container::BindingOptions;

verus! {

/// `ahash::AHashMap` is held opaquely; what it holds is named by
/// [`binding_index_contents`].
#[verifier::external_type_specification]
#[verifier::external_body]
#[verifier::reject_recursive_types(K)]
#[verifier::reject_recursive_types(V)]
#[verifier::reject_recursive_types(S)]
pub struct ExAHashMap<K, V, S>(AHashMap<K, V, S>);

/// `ahash::RandomState`, the hasher builder of an `AHashMap`.
#[verifier::external_type_specification]
#[verifier::external_body]
pub struct ExRandomState(RandomState);

/// The key under which a binding is stored: the interface and the binding's name.
pub type BindingKey = (TypeId, Option<String>);

/// The mathematical value of a [`BindingKey`].
pub type BindingKeyView = (TypeId, Option<Seq<char>>);

/// The map from binding keys to the slots of the providers.
pub type BindingIndex = AHashMap<BindingKey, usize>;

/// The view of a binding key: the interface and the characters of the name.
pub open spec fn binding_key_view(key: BindingKey) -> BindingKeyView {
    (
        key.0,
        match key.1 {
            Some(name) => Some(name@),
            None => None,
        },
    )
}

/// What an `AHashMap` of binding keys holds: each key (by its view) mapped to its value.
pub uninterp spec fn binding_index_contents(index: BindingIndex) -> Map<BindingKeyView, usize>;

/// Calls `AHashMap::new`: the new map holds nothing.
#[verifier::external_body]
fn index_new() -> (index: BindingIndex)
    ensures
        binding_index_contents(index).dom().is_empty(),
{
    AHashMap::new()
}

/// Calls `AHashMap::get` and copies out the found value: the result is the value stored
/// under a key equal to `key`, if there is one. Keys are compared with the `Eq` of the
/// tuple, which compares the `TypeId`s and the strings, so equal views mean equal keys.
#[verifier::external_body]
fn index_get(index: &BindingIndex, key: &BindingKey) -> (res: Option<usize>)
    ensures
        res == binding_index_contents(*index).get(binding_key_view(*key)),
{
    index.get(key).copied()
}

/// Calls `AHashMap::insert`: afterwards the key maps to `value` and every other key is
/// unchanged; the result is the value the key had before, if any.
#[verifier::external_body]
fn index_insert(index: &mut BindingIndex, key: BindingKey, value: usize) -> (res: Option<usize>)
    ensures
        binding_index_contents(*final(index)) == binding_index_contents(*old(index)).insert(
            binding_key_view(key),
            value,
        ),
        res == binding_index_contents(*old(index)).get(binding_key_view(key)),
{
    index.insert(key, value)
}

/// Calls `AHashMap::remove`: afterwards the key is absent and every other key is
/// unchanged; the result is the value the key had before, if any.
#[verifier::external_body]
fn index_remove(index: &mut BindingIndex, key: &BindingKey) -> (res: Option<usize>)
    ensures
        binding_index_contents(*final(index)) == binding_index_contents(*old(index)).remove(
            binding_key_view(*key),
        ),
        res == binding_index_contents(*old(index)).get(binding_key_view(*key)),
{
    index.remove(key)
}

/// The identity of a binding: the interface it binds and its options.
pub struct BindingId<'opts> {
    /// The interface.
    pub type_id: TypeId,
    /// The options of the binding.
    pub options: BindingOptions<'opts>,
}

impl<'opts> View for BindingId<'opts> {
    type V = BindingKeyView;

    open spec fn view(&self) -> BindingKeyView {
        (self.type_id, self.options@)
    }
}

impl<'opts> BindingId<'opts> {
    /// Returns the identity of the binding for the interface `type_id` with `options`.
    pub fn new(type_id: TypeId, options: BindingOptions<'opts>) -> (id: Self)
        ensures
            id.type_id == type_id,
            id.options == options,
    {
        Self { type_id, options }
    }

    /// Returns the storage key of this identity.
    fn key(&self) -> (key: BindingKey)
        ensures
            binding_key_view(key) == self@,
    {
        let name = match self.options.name {
            Some(name) => Some(name.to_owned()),
            None => None,
        };
        (self.type_id, name)
    }
}

/// Storage of the bindings of a DI container: at most one provider for each pair of an
/// interface and binding options.
pub struct DIContainerBindingStorage<Provider: ?Sized + 'static> {
    index: BindingIndex,
    providers: Vec<Option<Box<Provider>>>,
    vacant: Vec<usize>,
}

/// The slots of a storage are consistent: every key names an occupied slot, no two keys
/// share a slot, and the vacant slots are listed, each once, for reuse.
pub open spec fn slots_well_formed<Provider: ?Sized>(
    slots: Map<BindingKeyView, usize>,
    providers: Seq<Option<Box<Provider>>>,
    vacant: Seq<usize>,
) -> bool {
    &&& slots.dom().finite()
    &&& forall|key: BindingKeyView| #[trigger]
        slots.contains_key(key) ==> slots[key] < providers.len() && providers[slots[key] as int] is Some
    &&& forall|k1: BindingKeyView, k2: BindingKeyView| #[trigger]
        slots.contains_key(k1) && #[trigger] slots.contains_key(k2) && k1 != k2 ==> slots[k1]
            != slots[k2]
    &&& forall|i: int| 0 <= i < vacant.len() ==> #[trigger] vacant[i] < providers.len()
        && providers[vacant[i] as int] is None
    &&& forall|i: int, j: int|
        0 <= i < j < vacant.len() ==> #[trigger] vacant[i] != #[trigger] vacant[j]
    &&& forall|slot: int| 0 <= slot < providers.len() && #[trigger] providers[slot] is None
        ==> exists|i: int| 0 <= i < vacant.len() && #[trigger] vacant[i] == slot
}

/// Replacing the provider of a bound key keeps the slots consistent.
proof fn lemma_replace_slot<Provider: ?Sized>(
    slots: Map<BindingKeyView, usize>,
    providers: Seq<Option<Box<Provider>>>,
    vacant: Seq<usize>,
    key: BindingKeyView,
    provider: Box<Provider>,
)
    requires
        slots_well_formed(slots, providers, vacant),
        slots.contains_key(key),
    ensures
        slots_well_formed(slots, providers.update(slots[key] as int, Some(provider)), vacant),
{
    let updated = providers.update(slots[key] as int, Some(provider));
    assert forall|i: int| 0 <= i < vacant.len() implies #[trigger] vacant[i] < updated.len()
        && updated[vacant[i] as int] is None by {
        assert(providers[vacant[i] as int] is None);
    }
    assert forall|slot: int| 0 <= slot < updated.len() && #[trigger] updated[slot] is None
        implies exists|i: int| 0 <= i < vacant.len() && #[trigger] vacant[i] == slot by {
        assert(providers[slot] is None);
    }
}

/// Binding a new key to the last vacant slot keeps the slots consistent.
proof fn lemma_fill_vacant_slot<Provider: ?Sized>(
    slots: Map<BindingKeyView, usize>,
    providers: Seq<Option<Box<Provider>>>,
    vacant: Seq<usize>,
    key: BindingKeyView,
    provider: Box<Provider>,
)
    requires
        slots_well_formed(slots, providers, vacant),
        !slots.contains_key(key),
        vacant.len() > 0,
    ensures
        slots_well_formed(
            slots.insert(key, vacant.last()),
            providers.update(vacant.last() as int, Some(provider)),
            vacant.drop_last(),
        ),
{
    let slot = vacant.last();
    let new_slots = slots.insert(key, slot);
    let updated = providers.update(slot as int, Some(provider));
    let rest = vacant.drop_last();
    assert(vacant[vacant.len() - 1] == slot);
    assert(providers[slot as int] is None);
    assert forall|k: BindingKeyView| #[trigger] new_slots.contains_key(k) implies new_slots[k]
        < updated.len() && updated[new_slots[k] as int] is Some by {
        if k != key {
            assert(slots.contains_key(k));
        }
    }
    assert forall|k1: BindingKeyView, k2: BindingKeyView| #[trigger]
        new_slots.contains_key(k1) && #[trigger] new_slots.contains_key(k2) && k1 != k2 implies new_slots[k1]
        != new_slots[k2] by {
        if k1 != key && k2 != key {
            assert(slots.contains_key(k1) && slots.contains_key(k2));
        } else if k1 == key {
            assert(slots.contains_key(k2));
            assert(providers[slots[k2] as int] is Some);
        } else {
            assert(slots.contains_key(k1));
            assert(providers[slots[k1] as int] is Some);
        }
    }
    assert forall|i: int| 0 <= i < rest.len() implies #[trigger] rest[i] < updated.len()
        && updated[rest[i] as int] is None by {
        assert(rest[i] == vacant[i]);
        assert(vacant[i] != vacant[vacant.len() - 1]);
    }
    assert forall|i: int, j: int| 0 <= i < j < rest.len() implies #[trigger] rest[i]
        != #[trigger] rest[j] by {
        assert(rest[i] == vacant[i] && rest[j] == vacant[j]);
    }
    assert forall|s: int| 0 <= s < updated.len() && #[trigger] updated[s] is None implies exists|
        i: int,
    | 0 <= i < rest.len() && #[trigger] rest[i] == s by {
        assert(s != slot);
        assert(providers[s] is None);
        let i = choose|i: int| 0 <= i < vacant.len() && #[trigger] vacant[i] == s;
        assert(i != vacant.len() - 1);
        assert(rest[i] == s);
    }
}

/// Binding a new key to a new slot at the end, when no slot is vacant, keeps the slots
/// consistent.
proof fn lemma_push_slot<Provider: ?Sized>(
    slots: Map<BindingKeyView, usize>,
    providers: Seq<Option<Box<Provider>>>,
    vacant: Seq<usize>,
    key: BindingKeyView,
    provider: Box<Provider>,
    slot: usize,
)
    requires
        slots_well_formed(slots, providers, vacant),
        !slots.contains_key(key),
        vacant.len() == 0,
        slot == providers.len(),
    ensures
        slots_well_formed(slots.insert(key, slot), providers.push(Some(provider)), vacant),
{
    let new_slots = slots.insert(key, slot);
    let pushed = providers.push(Some(provider));
    assert forall|k: BindingKeyView| #[trigger] new_slots.contains_key(k) implies new_slots[k]
        < pushed.len() && pushed[new_slots[k] as int] is Some by {
        if k != key {
            assert(slots.contains_key(k));
        }
    }
    assert forall|k1: BindingKeyView, k2: BindingKeyView| #[trigger]
        new_slots.contains_key(k1) && #[trigger] new_slots.contains_key(k2) && k1 != k2 implies new_slots[k1]
        != new_slots[k2] by {
        if k1 != key && k2 != key {
            assert(slots.contains_key(k1) && slots.contains_key(k2));
        } else if k1 == key {
            assert(slots.contains_key(k2));
        } else {
            assert(slots.contains_key(k1));
        }
    }
    assert forall|s: int| 0 <= s < pushed.len() && #[trigger] pushed[s] is None implies exists|
        i: int,
    | 0 <= i < vacant.len() && #[trigger] vacant[i] == s by {
        assert(s < providers.len());
        assert(providers[s] is None);
    }
}

/// Unbinding a bound key and listing its slot as vacant keeps the slots consistent.
proof fn lemma_vacate_slot<Provider: ?Sized>(
    slots: Map<BindingKeyView, usize>,
    providers: Seq<Option<Box<Provider>>>,
    vacant: Seq<usize>,
    key: BindingKeyView,
)
    requires
        slots_well_formed(slots, providers, vacant),
        slots.contains_key(key),
    ensures
        slots_well_formed(
            slots.remove(key),
            providers.update(slots[key] as int, None),
            vacant.push(slots[key]),
        ),
{
    let slot = slots[key];
    let new_slots = slots.remove(key);
    let updated = providers.update(slot as int, None);
    let pushed = vacant.push(slot);
    assert(providers[slot as int] is Some);
    assert forall|k: BindingKeyView| #[trigger] new_slots.contains_key(k) implies new_slots[k]
        < updated.len() && updated[new_slots[k] as int] is Some by {
        assert(slots.contains_key(k) && k != key);
        assert(slots[k] != slot);
    }
    assert forall|k1: BindingKeyView, k2: BindingKeyView| #[trigger]
        new_slots.contains_key(k1) && #[trigger] new_slots.contains_key(k2) && k1 != k2 implies new_slots[k1]
        != new_slots[k2] by {
        assert(slots.contains_key(k1) && slots.contains_key(k2));
    }
    assert forall|i: int| 0 <= i < pushed.len() implies #[trigger] pushed[i] < updated.len()
        && updated[pushed[i] as int] is None by {
        if i < vacant.len() {
            assert(pushed[i] == vacant[i]);
            assert(providers[vacant[i] as int] is None);
        }
    }
    assert forall|i: int, j: int| 0 <= i < j < pushed.len() implies #[trigger] pushed[i]
        != #[trigger] pushed[j] by {
        if j < vacant.len() {
            assert(pushed[i] == vacant[i] && pushed[j] == vacant[j]);
        } else {
            assert(pushed[i] == vacant[i]);
            assert(providers[vacant[i] as int] is None);
        }
    }
    assert forall|s: int| 0 <= s < updated.len() && #[trigger] updated[s] is None implies exists|
        i: int,
    | 0 <= i < pushed.len() && #[trigger] pushed[i] == s by {
        if s == slot {
            assert(pushed[vacant.len() as int] == slot);
        } else {
            assert(providers[s] is None);
            let i = choose|i: int| 0 <= i < vacant.len() && #[trigger] vacant[i] == s;
            assert(pushed[i] == s);
        }
    }
}

impl<Provider: ?Sized + 'static> DIContainerBindingStorage<Provider> {
    /// The slots are consistent.
    #[verifier::type_invariant]
    spec fn well_formed(self) -> bool {
        slots_well_formed(binding_index_contents(self.index), self.providers@, self.vacant@)
    }
}

impl<Provider: ?Sized + 'static> View for DIContainerBindingStorage<Provider> {
    type V = Map<BindingKeyView, Box<Provider>>;

    closed spec fn view(&self) -> Map<BindingKeyView, Box<Provider>> {
        let slots = binding_index_contents(self.index);
        Map::new(
            |key: BindingKeyView| slots.contains_key(key),
            |key: BindingKeyView| self.providers@[slots[key] as int]->0,
        )
    }
}

impl<Provider: ?Sized + 'static> DIContainerBindingStorage<Provider> {
    /// Returns a storage without bindings.
    pub fn new() -> (storage: Self)
        ensures
            storage@ == Map::<BindingKeyView, Box<Provider>>::empty(),
            storage@.dom().finite(),
    {
        let storage = Self { index: index_new(), providers: Vec::new(), vacant: Vec::new() };
        assert(storage@ =~= Map::<BindingKeyView, Box<Provider>>::empty());
        storage
    }

    /// Returns the provider bound to the interface `interface` with `options`.
    pub fn get<'this>(&'this self, interface: TypeId, options: BindingOptions<'this>) -> (res:
        Option<&'this Box<Provider>>)
        ensures
            res is Some == self@.contains_key((interface, options@)),
            res matches Some(provider) ==> *provider == self@[(interface, options@)],
    {
        proof {
            use_type_invariant(self);
        }
        let key = BindingId::new(interface, options).key();
        match index_get(&self.index, &key) {
            Some(slot) => match &self.providers[slot] {
                Some(provider) => Some(provider),
                None => None,
            },
            None => None,
        }
    }

    /// Binds `provider` to the interface `interface` with `options`, replacing the
    /// provider that was bound there before.
    pub fn set(&mut self, interface: TypeId, options: BindingOptions<'static>, provider: Box<Provider>)
        ensures
            final(self)@ == old(self)@.insert((interface, options@), provider),
            final(self)@.dom().finite(),
    {
        proof {
            use_type_invariant(&*self);
        }
        let key = BindingId::new(interface, options).key();
        let ghost k = binding_key_view(key);
        let ghost old_view = self@;
        let mut taken_out = Self::new();
        std::mem::swap(self, &mut taken_out);
        let Self { mut index, mut providers, mut vacant } = taken_out;
        let ghost slots = binding_index_contents(index);
        let ghost old_providers = providers@;
        let ghost old_vacant = vacant@;
        match index_get(&index, &key) {
            Some(slot) => {
                proof {
                    lemma_replace_slot(slots, old_providers, old_vacant, k, provider);
                }
                let mut replacement = Some(provider);
                providers.set_and_swap(slot, &mut replacement);
            },
            None => {
                let slot = match vacant.pop() {
                    Some(slot) => {
                        proof {
                            lemma_fill_vacant_slot(slots, old_providers, old_vacant, k, provider);
                        }
                        let mut filled = Some(provider);
                        providers.set_and_swap(slot, &mut filled);
                        slot
                    },
                    None => {
                        let slot = providers.len();
                        proof {
                            lemma_push_slot(slots, old_providers, old_vacant, k, provider, slot);
                        }
                        providers.push(Some(provider));
                        slot
                    },
                };
                index_insert(&mut index, key, slot);
            },
        }
        let storage = Self { index, providers, vacant };
        assert(storage@ =~= old_view.insert(k, provider));
        proof {
            use_type_invariant(&storage);
            assert(storage@.dom() =~= binding_index_contents(storage.index).dom());
        }
        *self = storage;
    }

    /// Removes the provider bound to the interface `interface` with `options` and
    /// returns it.
    pub fn remove(&mut self, interface: TypeId, options: BindingOptions<'static>) -> (res: Option<
        Box<Provider>,
    >)
        ensures
            final(self)@ == old(self)@.remove((interface, options@)),
            final(self)@.dom().finite(),
            res is Some == old(self)@.contains_key((interface, options@)),
            res matches Some(provider) ==> provider == old(self)@[(interface, options@)],
    {
        proof {
            use_type_invariant(&*self);
        }
        let key = BindingId::new(interface, options).key();
        let ghost k = binding_key_view(key);
        let ghost old_view = self@;
        let mut taken_out = Self::new();
        std::mem::swap(self, &mut taken_out);
        let Self { mut index, mut providers, mut vacant } = taken_out;
        let ghost slots = binding_index_contents(index);
        let ghost old_providers = providers@;
        let ghost old_vacant = vacant@;
        let removed = match index_remove(&mut index, &key) {
            Some(slot) => {
                proof {
                    lemma_vacate_slot(slots, old_providers, old_vacant, k);
                }
                let mut taken = None;
                providers.set_and_swap(slot, &mut taken);
                vacant.push(slot);
                taken
            },
            None => None,
        };
        let storage = Self { index, providers, vacant };
        assert(storage@ =~= old_view.remove(k));
        proof {
            use_type_invariant(&storage);
            assert(storage@.dom() =~= binding_index_contents(storage.index).dom());
        }
        *self = storage;
        removed
    }

    /// Returns whether a provider is bound to the interface `interface` with `options`.
    pub fn has(&self, interface: TypeId, options: BindingOptions) -> (res: bool)
        ensures
            res == self@.contains_key((interface, options@)),
    {
        proof {
            use_type_invariant(self);
        }
        let key = BindingId::new(interface, options).key();
        index_get(&self.index, &key).is_some()
    }
}

/// Reading back what was set: after `set` binds `provider` to a key, `get` on that key
/// gives `provider` and `has` is true; every other key (another interface, or the same
/// interface with other options) reads as it did before.
pub proof fn law_get_after_set<Provider: ?Sized + 'static>(
    before: DIContainerBindingStorage<Provider>,
    after: DIContainerBindingStorage<Provider>,
    key: BindingKeyView,
    provider: Box<Provider>,
    other: BindingKeyView,
)
    requires
        after@ == before@.insert(key, provider),
    ensures
        after@.contains_key(key),
        after@[key] == provider,
        other != key ==> after@.contains_key(other) == before@.contains_key(other),
        other != key && before@.contains_key(other) ==> after@[other] == before@[other],
{
}

/// A later `set` on the same key replaces the earlier one.
pub proof fn law_set_overwrites<Provider: ?Sized + 'static>(
    before: DIContainerBindingStorage<Provider>,
    middle: DIContainerBindingStorage<Provider>,
    after: DIContainerBindingStorage<Provider>,
    key: BindingKeyView,
    first: Box<Provider>,
    second: Box<Provider>,
)
    requires
        middle@ == before@.insert(key, first),
        after@ == middle@.insert(key, second),
    ensures
        after@ == before@.insert(key, second),
{
    assert(after@ =~= before@.insert(key, second));
}

/// `remove` undoes `set`: setting a key that was unbound and then removing it leaves the
/// storage as it was, and the removal gives back the provider that was set.
pub proof fn law_remove_undoes_set<Provider: ?Sized + 'static>(
    before: DIContainerBindingStorage<Provider>,
    middle: DIContainerBindingStorage<Provider>,
    after: DIContainerBindingStorage<Provider>,
    key: BindingKeyView,
    provider: Box<Provider>,
)
    requires
        !before@.contains_key(key),
        middle@ == before@.insert(key, provider),
        after@ == middle@.remove(key),
    ensures
        after@ == before@,
        middle@[key] == provider,
{
    assert(after@ =~= before@);
}

/// Removing a bound key gives back the provider bound to it; afterwards the key is
/// unbound, every other key keeps its provider, and one binding fewer is left.
pub proof fn law_remove_gives_back_bound_provider<Provider: ?Sized + 'static>(
    before: DIContainerBindingStorage<Provider>,
    after: DIContainerBindingStorage<Provider>,
    key: BindingKeyView,
    provider: Box<Provider>,
    removed: Option<Box<Provider>>,
    other: BindingKeyView,
)
    requires
        before@.dom().finite(),
        before@.contains_key(key),
        before@[key] == provider,
        after@ == before@.remove(key),
        removed is Some == before@.contains_key(key),
        removed matches Some(p) ==> p == before@[key],
    ensures
        removed == Some(provider),
        !after@.contains_key(key),
        other != key ==> after@.contains_key(other) == before@.contains_key(other),
        other != key && before@.contains_key(other) ==> after@[other] == before@[other],
        after@.len() + 1 == before@.len(),
{
}

/// After `remove`, the key is unbound and every other key reads as before.
pub proof fn law_has_after_remove<Provider: ?Sized + 'static>(
    before: DIContainerBindingStorage<Provider>,
    after: DIContainerBindingStorage<Provider>,
    key: BindingKeyView,
    other: BindingKeyView,
)
    requires
        after@ == before@.remove(key),
    ensures
        !after@.contains_key(key),
        other != key ==> after@.contains_key(other) == before@.contains_key(other),
        other != key && before@.contains_key(other) ==> after@[other] == before@[other],
{
}

impl<Provider: ?Sized + 'static> Default for DIContainerBindingStorage<Provider> {
    fn default() -> (storage: Self)
        ensures
            storage@ == Map::<BindingKeyView, Box<Provider>>::empty(),
    {
        Self::new()
    }
}

} // verus!
