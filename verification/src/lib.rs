//! A type-indexed service registry: shared service instances are kept under
//! the identity of their concrete type and recovered, correctly typed, later.
//!
//! `capability` holds what a service type has to offer and the handle that
//! hides its type, `provider` the registry itself, `laws` what holds of every
//! registry, `error` the two faults of a lookup, and `wiring` the rules by
//! which a host structure is given its registry.

pub mod capability;
pub mod error;
pub mod laws;
pub mod provider;
pub mod wiring;

pub use capability::as_dynamic;
pub use capability::try_as_concrete;
pub use capability::type_identity;
pub use capability::Component;
pub use capability::ServiceHandle;
pub use error::ProviderError;
pub use provider::Provider;
