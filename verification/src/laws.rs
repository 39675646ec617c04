//! What holds of every provider, whatever was managed in it and in whatever
//! order: the laws that callers of `manage` and `get` may rely on.

use crate::capability::identifies;
use crate::capability::runtime_identity;
use crate::capability::wraps;
use crate::capability::Component;
use crate::capability::ServiceHandle;
use crate::provider::gives;
use crate::provider::managed;
use crate::provider::Provider;
use std::any::TypeId;
use std::sync::Arc;
use vstd::prelude::*;

verus! {

/// `A` and `B` are two types: an erased `A` and an erased `B` never carry the
/// same identity.
pub open spec fn distinct_types<A: Component, B: Component>() -> bool {
    forall|left: ServiceHandle, a: A, right: ServiceHandle, b: B|
        #[trigger] wraps(left, a) && #[trigger] wraps(right, b) ==> runtime_identity(left)
            != runtime_identity(right)
}

/// Once `item` is managed, the provider gives it out, and a lookup of its
/// type gives that very instance.
pub proof fn managed_instance_is_given<T: Component>(
    before: Provider,
    item: T,
    after: Provider,
    service: Arc<T>,
)
    requires
        managed(before, item, after),
        gives(after, service),
    ensures
        after.provides(item),
        *service == item,
{
    managing_provides(before, item, after);
}

/// Of two instances of one type managed one after the other, a lookup gives
/// the later; where the two differ it does not give the earlier, which the
/// provider no longer gives out.
pub proof fn later_instance_replaces_earlier<T: Component>(
    start: Provider,
    first: T,
    middle: Provider,
    second: T,
    end: Provider,
    service: Arc<T>,
)
    requires
        managed(start, first, middle),
        managed(middle, second, end),
        gives(end, service),
    ensures
        *service == second,
        first != second ==> *service != first && !end.provides(first),
{
    managing_provides(middle, second, end);
}

/// Managing an instance of `A` neither makes the provider give out an
/// instance of another type `B` nor takes one away, whatever the two types
/// hold.
pub proof fn managing_leaves_other_types<A: Component, B: Component>(
    before: Provider,
    item: A,
    after: Provider,
)
    requires
        distinct_types::<A, B>(),
        managed(before, item, after),
    ensures
        forall|other: B| after.provides(other) <==> before.provides(other),
{
    let added = choose|handle: ServiceHandle| #[trigger]
        wraps(handle, item) && after@ == before@.insert(runtime_identity(handle), handle);
    assert forall|other: B| after.provides(other) <==> before.provides(other) by {
        if after.provides(other) {
            let handle = choose|handle: ServiceHandle| #[trigger]
                wraps(handle, other) && after.holds(handle);
            assert(runtime_identity(handle) != runtime_identity(added));
            assert(before.holds(handle));
        }
        if before.provides(other) {
            let handle = choose|handle: ServiceHandle| #[trigger]
                wraps(handle, other) && before.holds(handle);
            assert(runtime_identity(handle) != runtime_identity(added));
            assert(after.holds(handle));
        }
    }
}

/// Two types whose identities differ are distinct.
pub proof fn identities_tell_types_apart<A: Component, B: Component>(
    identity_of_a: TypeId,
    identity_of_b: TypeId,
)
    requires
        identifies::<A>(identity_of_a),
        identifies::<B>(identity_of_b),
        identity_of_a != identity_of_b,
    ensures
        distinct_types::<A, B>(),
{
}

/// A provider in which nothing was managed gives out no instance of any
/// type: no lookup in it can be answered.
pub proof fn empty_provider_gives_nothing<T: Component>(provider: Provider, item: T)
    requires
        provider@ == Map::<TypeId, ServiceHandle>::empty(),
    ensures
        !provider.provides(item),
{
}

/// Managing the same instance twice leaves a lookup of its type giving that
/// instance.
pub proof fn managing_twice_gives_the_instance<T: Component>(
    start: Provider,
    item: T,
    middle: Provider,
    end: Provider,
    service: Arc<T>,
)
    requires
        managed(start, item, middle),
        managed(middle, item, end),
        gives(end, service),
    ensures
        *service == item,
{
    managing_provides(middle, item, end);
}

/// Managing files the new handle under the identity that it carries: where
/// every handle stood under its own identity before, every handle does after,
/// so that what is found under the identity of a type is an instance of it.
pub proof fn managing_keeps_handles_under_their_identity<T: Component>(
    before: Provider,
    item: T,
    after: Provider,
)
    requires
        managed(before, item, after),
        before.self_keyed(),
    ensures
        after.self_keyed(),
{
}

/// A provider in which `item` was just managed gives it out.
proof fn managing_provides<T: Component>(before: Provider, item: T, after: Provider)
    requires
        managed(before, item, after),
    ensures
        after.provides(item),
{
    let handle = choose|handle: ServiceHandle| #[trigger]
        wraps(handle, item) && after@ == before@.insert(runtime_identity(handle), handle);
    assert(after.holds(handle));
}

} // verus!
