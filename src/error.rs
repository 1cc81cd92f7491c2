use vstd::prelude::*;

verus! {

/// Why a request failed.
#[derive(Debug, Clone, Copy, PartialEq, Eq, Structural)]
pub enum EcdsaError {
    /// The caller could not be authenticated.
    AuthError,
    /// An artifact that the round needs is missing for this customer and
    /// session: an out-of-order call, a wrong session or another customer's
    /// session.
    NotFound,
    /// The storage backend failed or holds a malformed value.
    StorageError,
    /// A cryptographic check of the other party's message failed.
    CryptoError,
    /// The customer already owns an active share and new key generation is
    /// blocked.
    AlreadyActive,
}

/// The HTTP status of each error.
pub open spec fn status_of(e: EcdsaError) -> u16 {
    match e {
        EcdsaError::AuthError => 401,
        EcdsaError::StorageError => 500,
        _ => 400,
    }
}

impl EcdsaError {
    /// The HTTP status that reports this error.
    pub fn status_code(&self) -> (r: u16)
        ensures
            r == status_of(*self),
    {
        match self {
            EcdsaError::AuthError => 401,
            EcdsaError::StorageError => 500,
            _ => 400,
        }
    }
}

} // verus!
