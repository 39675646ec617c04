//! The capability contract: what a type offers so that a provider can keep an
//! instance of it, erased to a shared handle, and give it back as itself.
//!
//! Erasing and recovering are the work of `downcast-rs` and of `std::any`.
//! What this module claims of them is said over two notions: the identity
//! that a handle carries (`runtime_identity`), and the pairs of an instance
//! and a handle that erasing relates (`wraps`).

use downcast_rs::DowncastSync;
use std::any::Any;
use std::any::TypeId;
use std::sync::Arc;
use vstd::prelude::*;

verus! {

/// `std::any::TypeId`, the token that stands for one concrete type. Nothing is
/// known of what is inside it; two of them are either the same token or not.
#[verifier::external_type_specification]
#[verifier::external_body]
pub struct ExTypeId(TypeId);

/// The marker that a service type carries. A type opts in with an empty impl.
///
/// Every such type is `Any`, and so has `DowncastSync` of downcast-rs, by
/// which its instances are erased.
pub trait Component: Send + Sync + 'static {
}

/// A shared handle on one service instance whose concrete type has been
/// erased. The instance lives as long as any handle on it does.
///
/// The handle holds an `Arc<dyn Any + Send + Sync>`, a trait object of more
/// than one trait, which the verifier does not read: the struct is opaque.
#[verifier::external_body]
pub struct ServiceHandle {
    object: Arc<dyn Any + Send + Sync>,
}

/// The identity of the concrete type of the instance behind `handle`: what
/// `Any::type_id` answers for it.
pub uninterp spec fn runtime_identity(handle: ServiceHandle) -> TypeId;

/// `handle` is an erased form of `item`: erasing `item` may give `handle`.
pub closed spec fn wraps<T: Component>(handle: ServiceHandle, item: T) -> bool {
    call_ensures(erase::<T>, (item,), handle)
}

/// `key` is the identity of `T`: the handles that carry it are the erased
/// forms of the instances of `T`, all of them and no others.
pub open spec fn identifies<T: Component>(key: TypeId) -> bool {
    &&& forall|handle: ServiceHandle, item: T| #[trigger]
        wraps(handle, item) ==> runtime_identity(handle) == key
    &&& forall|handle: ServiceHandle| #[trigger]
        runtime_identity(handle) == key ==> exists|item: T| wraps(handle, item)
}

/// What recovering a `T` from `handle` gives: on success the instance that
/// `handle` is the erased form of, and no other; on failure the handle as
/// it was, which is then the erased form of no `T`.
pub open spec fn recovered<T: Component>(
    handle: ServiceHandle,
    outcome: Result<Arc<T>, ServiceHandle>,
) -> bool {
    match outcome {
        Ok(service) => forall|item: T| #[trigger] wraps(handle, item) <==> item == *service,
        Err(back) => back == handle && forall|item: T| !#[trigger] wraps(handle, item),
    }
}

/// Puts `item` behind a fresh `Arc` and erases its type with
/// `DowncastSync::into_any_arc` of downcast-rs, which hands the `Arc` on as
/// it is. No clause stands here: `wraps` is the relation between what this
/// function is given and what it gives.
#[verifier::external_body]
fn erase<T: Component>(item: T) -> (handle: ServiceHandle) {
    ServiceHandle { object: DowncastSync::into_any_arc(Arc::new(item)) }
}

/// `TypeId::of::<T>()`. Claimed: the token is the one that `Any::type_id`
/// answers for every erased `T`, and for nothing that is no erased `T`.
#[verifier::external_body]
fn identity_of<T: Component>() -> (key: TypeId)
    ensures
        forall|handle: ServiceHandle, item: T| #[trigger]
            wraps(handle, item) ==> runtime_identity(handle) == key,
        forall|handle: ServiceHandle| #[trigger]
            runtime_identity(handle) == key ==> exists|item: T| wraps(handle, item),
{
    TypeId::of::<T>()
}

/// `Any::type_id` on the instance behind `handle`. Claimed: the answer
/// depends on the handle alone.
#[verifier::external_body]
fn identity_behind(handle: &ServiceHandle) -> (key: TypeId)
    ensures
        key == runtime_identity(*handle),
{
    (*handle.object).type_id()
}

/// `==` on two `TypeId`s. Claimed: it holds exactly of one token and itself.
#[verifier::external_body]
pub(crate) fn identities_equal(left: &TypeId, right: &TypeId) -> (same: bool)
    ensures
        same == (*left == *right),
{
    left == right
}

/// `Arc::clone` on the erased object. Claimed: the new handle is a handle on
/// the same instance.
#[verifier::external_body]
fn another_handle(handle: &ServiceHandle) -> (shared: ServiceHandle)
    ensures
        shared == *handle,
{
    ServiceHandle { object: Arc::clone(&handle.object) }
}

/// `Arc::downcast::<T>` on the erased object. Claimed: the `Arc` that comes
/// back on success holds the instance that was erased, and no other; on
/// failure the handle comes back as it was, and no `T` was erased to it.
#[verifier::external_body]
fn recover<T: Component>(handle: ServiceHandle) -> (outcome: Result<Arc<T>, ServiceHandle>)
    ensures
        match outcome {
            Ok(service) => forall|item: T| #[trigger] wraps(handle, item) <==> item == *service,
            Err(back) => back == handle && forall|item: T| !#[trigger] wraps(handle, item),
        },
{
    match handle.object.downcast::<T>() {
        Ok(service) => Ok(service),
        Err(object) => Err(ServiceHandle { object }),
    }
}

impl ServiceHandle {
    /// The identity of the concrete type of the instance behind the handle.
    pub fn type_identity(&self) -> (key: TypeId)
        ensures
            key == runtime_identity(*self),
    {
        identity_behind(self)
    }

    /// Another handle on the same instance.
    pub fn share(&self) -> (shared: ServiceHandle)
        ensures
            shared == *self,
    {
        another_handle(self)
    }
}

/// The identity of the type `T`: one token for the type, whatever the
/// instance.
pub fn type_identity<T: Component>() -> (key: TypeId)
    ensures
        identifies::<T>(key),
{
    identity_of::<T>()
}

/// Turns an owned instance into a shared handle whose concrete type is
/// erased. It always succeeds.
pub fn as_dynamic<T: Component>(item: T) -> (handle: ServiceHandle)
    ensures
        wraps(handle, item),
{
    erase(item)
}

/// Tries to recover the concrete type `T` from `handle`. It succeeds exactly
/// when the identity that `handle` carries is that of `T`, and then gives a
/// shared handle on the instance that was erased; otherwise the handle comes
/// back unchanged.
pub fn try_as_concrete<T: Component>(handle: ServiceHandle) -> (outcome: Result<
    Arc<T>,
    ServiceHandle,
>)
    ensures
        recovered(handle, outcome),
        forall|key: TypeId|
            identifies::<T>(key) ==> (outcome is Ok <==> runtime_identity(handle) == key),
{
    let wanted = identity_of::<T>();
    let carried = identity_behind(&handle);
    if identities_equal(&carried, &wanted) {
        recover::<T>(handle)
    } else {
        Err(handle)
    }
}

} // verus!
