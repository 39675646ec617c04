//! The two ways in which a lookup can go wrong, and what is said of them.

use vstd::prelude::*;

verus! {

/// Why a lookup gave no service. Both are faults in how the host was wired:
/// a caller is expected to stop on either, not to carry on without the service.
#[derive(Clone, Copy, Debug, PartialEq, Eq, Structural)]
pub enum ProviderError {
    /// Nothing is filed under the identity of the type asked for.
    MissingService,
    /// What is filed under the identity of the type asked for is no instance
    /// of that type.
    TypeMismatch,
}

/// The text that names `service_type` as the type of which no service was found.
pub open spec fn missing_service_text(service_type: Seq<char>) -> Seq<char> {
    "Service of type "@ + service_type + " not found. Did you forget a manage() call?"@
}

/// The message with which a host stops when a lookup of the type called
/// `service_type` gave no service.
pub fn missing_service_message(service_type: &str) -> (message: String)
    ensures
        message@ == missing_service_text(service_type@),
{
    let mut message = String::from_str("Service of type ");
    message.append(service_type);
    message.append(" not found. Did you forget a manage() call?");
    message
}

} // verus!
