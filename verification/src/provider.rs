//! The provider: a mapping from the identity of a type to one shared handle,
//! written by `manage` and read by `get`.
//!
//! An entry is written and written over, never taken out: what a provider
//! has learned of a type it keeps until it is dropped as a whole.

use crate::capability::as_dynamic;
use crate::capability::identifies;
use crate::capability::identities_equal;
use crate::capability::runtime_identity;
use crate::capability::try_as_concrete;
use crate::capability::type_identity;
use crate::capability::wraps;
use crate::capability::Component;
use crate::capability::ServiceHandle;
use crate::error::ProviderError;
use std::any::TypeId;
use std::sync::Arc;
use vstd::prelude::*;

verus! {

/// The container behind a host: at most one handle for each type identity.
///
/// The handles stand in a list in which no identity occurs twice; the list
/// is seen as the mapping from each identity to its handle.
pub struct Provider {
    entries: Vec<(TypeId, ServiceHandle)>,
}

impl View for Provider {
    type V = Map<TypeId, ServiceHandle>;

    closed spec fn view(&self) -> Map<TypeId, ServiceHandle> {
        as_mapping(self.entries@)
    }
}

/// `after` is `before` with `item` registered: one handle on `item` filed
/// under its own identity, in place of what was filed there, and nothing
/// else changed.
pub open spec fn managed<T: Component>(before: Provider, item: T, after: Provider) -> bool {
    exists|handle: ServiceHandle| #[trigger]
        wraps(handle, item) && after@ == before@.insert(runtime_identity(handle), handle)
}

/// What looking under `key` for a `U` gives: the instance behind the handle
/// filed there where that is a `U`, and else which of the two faults it is.
pub open spec fn resolved<U: Component>(
    provider: Provider,
    key: TypeId,
    outcome: Result<Arc<U>, ProviderError>,
) -> bool {
    match outcome {
        Ok(service) => provider@.contains_key(key) && forall|item: U| #[trigger]
            wraps(provider@[key], item) <==> item == *service,
        Err(ProviderError::MissingService) => !provider@.contains_key(key),
        Err(ProviderError::TypeMismatch) => provider@.contains_key(key) && forall|item: U|
            !#[trigger] wraps(provider@[key], item),
    }
}

/// `service` is the instance of `U` that `provider` gives out, and the only one.
pub open spec fn gives<U: Component>(provider: Provider, service: Arc<U>) -> bool {
    provider.provides(*service) && forall|item: U| provider.provides(item) ==> item == *service
}

impl Provider {
    #[verifier::type_invariant]
    spec fn well_formed(self) -> bool {
        keys_unique(self.entries@)
    }

    /// `handle` is filed under the identity that it carries.
    pub open spec fn holds(&self, handle: ServiceHandle) -> bool {
        self@.contains_key(runtime_identity(handle)) && self@[runtime_identity(handle)] == handle
    }

    /// Every handle is filed under the identity that it carries. It is so in
    /// a provider that was written by `manage` alone; `store` can break it.
    pub open spec fn self_keyed(&self) -> bool {
        forall|key: TypeId|
            self@.contains_key(key) ==> runtime_identity(#[trigger] self@[key]) == key
    }

    /// The provider gives out `item`: a handle on it is filed under the
    /// identity that it carries.
    pub open spec fn provides<T: Component>(&self, item: T) -> bool {
        exists|handle: ServiceHandle| #[trigger] wraps(handle, item) && self.holds(handle)
    }

    /// The empty provider that a host starts with.
    pub fn base() -> (provider: Provider)
        ensures
            provider@ == Map::<TypeId, ServiceHandle>::empty(),
            provider.self_keyed(),
    {
        let provider = Provider { entries: Vec::new() };
        assert(provider@ =~= Map::<TypeId, ServiceHandle>::empty());
        provider
    }

    /// The provider itself.
    pub fn identity(self) -> (provider: Provider)
        ensures
            provider == self,
    {
        self
    }

    /// Files `value` under `key`; what was filed under `key` before is let go.
    pub fn store(&mut self, key: TypeId, value: ServiceHandle)
        ensures
            final(self)@ == old(self)@.insert(key, value),
    {
        proof {
            use_type_invariant(&*self);
        }
        let ghost before = self.entries@;
        // The list is taken out while it changes and put back when it is whole.
        let mut entries: Vec<(TypeId, ServiceHandle)> = Vec::new();
        std::mem::swap(&mut self.entries, &mut entries);
        match position(&entries, &key) {
            Some(place) => {
                entries.set(place, (key, value));
                proof {
                    overwriting_inserts(before, place as int, key, value);
                }
            },
            None => {
                entries.push((key, value));
                proof {
                    appending_inserts(before, key, value);
                }
            },
        }
        self.entries = entries;
    }

    /// The handle filed under `key`, if there is one.
    pub fn retrieve(&self, key: &TypeId) -> (found: Option<&ServiceHandle>)
        ensures
            found == (if self@.contains_key(*key) {
                Some(&self@[*key])
            } else {
                None
            }),
    {
        proof {
            use_type_invariant(self);
        }
        match position(&self.entries, key) {
            Some(place) => {
                proof {
                    mapping_at(self.entries@, place as int);
                }
                Some(&self.entries[place].1)
            },
            None => None,
        }
    }

    /// Registers `item` under the identity of its type, in place of what was
    /// registered under it before, and hands the provider back for the next
    /// call of a chain.
    pub fn manage<T: Component>(&mut self, item: T) -> (provider: &mut Provider)
        ensures
            managed(*old(self), item, *provider),
            provider.provides(item),
            old(self).self_keyed() ==> provider.self_keyed(),
            *final(self) == *final(provider),
    {
        let handle = as_dynamic(item);
        let key = handle.type_identity();
        self.store(key, handle);
        assert(self.holds(handle));
        self
    }

    /// Looks under `key` for an instance of `U`.
    pub fn resolve<U: Component>(&self, key: &TypeId) -> (outcome: Result<Arc<U>, ProviderError>)
        ensures
            resolved(*self, *key, outcome),
    {
        match self.retrieve(key) {
            None => Err(ProviderError::MissingService),
            Some(handle) => match try_as_concrete::<U>(handle.share()) {
                Ok(service) => Ok(service),
                Err(_) => Err(ProviderError::TypeMismatch),
            },
        }
    }

    /// The instance of `U` that the provider gives out, or why there is none:
    /// what `resolve` finds under the identity of `U`.
    pub fn try_get<U: Component>(&self) -> (outcome: Result<Arc<U>, ProviderError>)
        ensures
            outcome is Ok <==> exists|item: U| self.provides(item),
            outcome matches Ok(service) ==> gives(*self, service),
            exists|key: TypeId| identifies::<U>(key) && resolved(*self, key, outcome),
            self.self_keyed() ==> outcome != Err::<Arc<U>, ProviderError>(
                ProviderError::TypeMismatch,
            ),
    {
        let key = type_identity::<U>();
        let outcome = self.resolve::<U>(&key);
        proof {
            assert forall|item: U| self.provides(item) implies outcome matches Ok(service)
                && item == *service by {
                let handle = choose|handle: ServiceHandle| #[trigger]
                    wraps(handle, item) && self.holds(handle);
                assert(runtime_identity(handle) == key);
            }
            if outcome is Ok {
                assert(wraps(self@[key], *outcome->Ok_0));
                assert(self.provides(*outcome->Ok_0));
            }
            if self.self_keyed() && self@.contains_key(key) {
                assert(runtime_identity(self@[key]) == key);
                assert(exists|item: U| wraps(self@[key], item));
            }
        }
        outcome
    }

    /// The instance of `U` that the provider gives out.
    ///
    /// To ask for a type of which the provider gives out no instance is a
    /// fault in how the host was wired, not a case to handle: it is left to
    /// the caller to rule it out.
    pub fn get<U: Component>(&self) -> (service: Arc<U>)
        requires
            exists|item: U| self.provides(item),
        ensures
            gives(*self, service),
    {
        match self.try_get::<U>() {
            Ok(service) => service,
            Err(_) => vstd::pervasive::unreached(),
        }
    }
}

impl Clone for Provider {
    /// A provider of its own that gives out the same instances.
    fn clone(&self) -> (copy: Provider)
        ensures
            copy@ == self@,
    {
        proof {
            use_type_invariant(self);
        }
        let mut entries: Vec<(TypeId, ServiceHandle)> = Vec::new();
        let mut place: usize = 0;
        while place < self.entries.len()
            invariant
                place <= self.entries@.len(),
                entries@ == self.entries@.take(place as int),
            decreases self.entries@.len() - place,
        {
            let key = self.entries[place].0;
            let handle = self.entries[place].1.share();
            entries.push((key, handle));
            assert(entries@ =~= self.entries@.take(place + 1));
            place += 1;
        }
        assert(entries@ =~= self.entries@);
        Provider { entries }
    }
}

/// No identity occurs twice among the keys of `entries`.
spec fn keys_unique(entries: Seq<(TypeId, ServiceHandle)>) -> bool {
    forall|i: int, j: int| 0 <= i < j < entries.len() ==> entries[i].0 != entries[j].0
}

/// `key` is the key of some entry.
spec fn has_key(entries: Seq<(TypeId, ServiceHandle)>, key: TypeId) -> bool {
    exists|i: int| 0 <= i < entries.len() && #[trigger] entries[i].0 == key
}

/// The place of an entry whose key is `key`.
spec fn place_of(entries: Seq<(TypeId, ServiceHandle)>, key: TypeId) -> int {
    choose|i: int| 0 <= i < entries.len() && #[trigger] entries[i].0 == key
}

/// The mapping that `entries` stands for.
spec fn as_mapping(entries: Seq<(TypeId, ServiceHandle)>) -> Map<TypeId, ServiceHandle> {
    Map::new(|key: TypeId| has_key(entries, key), |key: TypeId| entries[place_of(entries, key)].1)
}

/// The place of the entry of `entries` whose key is `key`, if there is one.
fn position(entries: &Vec<(TypeId, ServiceHandle)>, key: &TypeId) -> (found: Option<usize>)
    ensures
        match found {
            Some(place) => place < entries@.len() && entries@[place as int].0 == *key,
            None => !has_key(entries@, *key),
        },
{
    let mut place: usize = 0;
    while place < entries.len()
        invariant
            place <= entries@.len(),
            forall|earlier: int| 0 <= earlier < place ==> entries@[earlier].0 != *key,
        decreases entries@.len() - place,
    {
        if identities_equal(&entries[place].0, key) {
            return Some(place);
        }
        place += 1;
    }
    None
}

/// Where the keys are unique, the mapping sends the key of each entry to the
/// handle of that entry.
proof fn mapping_at(entries: Seq<(TypeId, ServiceHandle)>, place: int)
    requires
        keys_unique(entries),
        0 <= place < entries.len(),
    ensures
        as_mapping(entries).contains_key(entries[place].0),
        as_mapping(entries)[entries[place].0] == entries[place].1,
{
    let key = entries[place].0;
    assert(has_key(entries, key));
    let chosen = place_of(entries, key);
    assert(0 <= chosen < entries.len() && entries[chosen].0 == key);
    assert(place == chosen);
}

/// Writing over the entry at `place`, whose key is `key`, puts `value` under
/// `key` in the mapping.
proof fn overwriting_inserts(
    before: Seq<(TypeId, ServiceHandle)>,
    place: int,
    key: TypeId,
    value: ServiceHandle,
)
    requires
        keys_unique(before),
        0 <= place < before.len(),
        before[place].0 == key,
    ensures
        keys_unique(before.update(place, (key, value))),
        as_mapping(before.update(place, (key, value))) == as_mapping(before).insert(key, value),
{
    let after = before.update(place, (key, value));
    assert forall|other: TypeId| #[trigger]
        has_key(after, other) <==> (other == key || has_key(before, other)) by {
        if has_key(after, other) {
            assert(before[place_of(after, other)].0 == other);
        }
        if has_key(before, other) {
            assert(after[place_of(before, other)].0 == other);
        }
        if other == key {
            assert(after[place].0 == other);
        }
    }
    assert forall|other: TypeId| has_key(after, other) implies #[trigger] as_mapping(after)[other]
        == as_mapping(before).insert(key, value)[other] by {
        let chosen = place_of(after, other);
        mapping_at(after, chosen);
        if other != key {
            mapping_at(before, chosen);
        }
    }
    assert(as_mapping(after) =~= as_mapping(before).insert(key, value));
}

/// Appending an entry whose key is new puts `value` under `key` in the
/// mapping.
proof fn appending_inserts(before: Seq<(TypeId, ServiceHandle)>, key: TypeId, value: ServiceHandle)
    requires
        keys_unique(before),
        !has_key(before, key),
    ensures
        keys_unique(before.push((key, value))),
        as_mapping(before.push((key, value))) == as_mapping(before).insert(key, value),
{
    let after = before.push((key, value));
    assert forall|i: int, j: int| 0 <= i < j < after.len() implies after[i].0 != after[j].0 by {
        assert(before[i].0 == after[i].0);
        if j < before.len() {
            assert(before[j].0 == after[j].0);
        }
    }
    assert forall|other: TypeId| #[trigger]
        has_key(after, other) <==> (other == key || has_key(before, other)) by {
        if has_key(after, other) {
            let chosen = place_of(after, other);
            if chosen < before.len() {
                assert(before[chosen].0 == other);
            }
        }
        if has_key(before, other) {
            assert(after[place_of(before, other)].0 == other);
        }
        if other == key {
            assert(after[before.len() as int].0 == other);
        }
    }
    assert forall|other: TypeId| has_key(after, other) implies #[trigger] as_mapping(after)[other]
        == as_mapping(before).insert(key, value)[other] by {
        let chosen = place_of(after, other);
        mapping_at(after, chosen);
        if other != key {
            mapping_at(before, chosen);
        }
    }
    assert(as_mapping(after) =~= as_mapping(before).insert(key, value));
}

} // verus!
