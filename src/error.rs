use vstd::prelude::*;

verus! {

/// Failures reported to the caller of a link event or a key-value request.
#[derive(Debug, Clone, PartialEq, Eq)]
pub enum ProviderError {
    /// Malformed base64 or JSON in the link record.
    InvalidConfiguration(String),
    /// The backing store could not be reached while establishing a link.
    ConnectFailure(String),
    /// A request arrived for a client that has no active link.
    NotLinked(String),
    /// The request carried no client identity.
    InvalidParameter(String),
    /// The operation is not offered by this provider.
    NotImplemented,
    /// Any other failure of the backing store, with its text.
    BackingStore(String),
}

/// Outcome of a failed call into the backing store.
#[derive(Debug, Clone, PartialEq, Eq)]
pub enum StoreError {
    /// The document asked for does not exist.
    DocumentNotFound,
    /// Every other failure, with the store's text.
    Other(String),
}

} // verus!
