use vstd::prelude::*;

verus! {

/// Why the pool refused an operation.
#[derive(Clone, Copy, Debug, PartialEq, Eq, PartialOrd, Ord, Structural)]
pub enum Error {
    /// The asset pair was already set.
    AlreadyInitialized,
    /// The asset pair has not been set yet.
    NotInitialized,
    /// An amount is non-positive, too small, or outside the caller's bounds.
    InvalidAmount,
    /// The settlement callback delivered less than the swap's input amount.
    InNotSent,
    /// Kept for validation of the callback target; no operation returns it.
    InvalidCallback,
}

impl Error {
    /// The numeric code under which the error is reported to a caller.
    pub open spec fn spec_code(self) -> u32 {
        match self {
            Error::AlreadyInitialized => 0,
            Error::NotInitialized => 1,
            Error::InvalidAmount => 2,
            Error::InNotSent => 3,
            Error::InvalidCallback => 4,
        }
    }

    #[verifier::when_used_as_spec(spec_code)]
    pub fn code(self) -> (c: u32)
        ensures
            c == self.spec_code(),
    {
        match self {
            Error::AlreadyInitialized => 0,
            Error::NotInitialized => 1,
            Error::InvalidAmount => 2,
            Error::InNotSent => 3,
            Error::InvalidCallback => 4,
        }
    }
}

/// The four slots of persisted pool state.
#[derive(Clone, Copy, Debug, PartialEq, Eq, Structural)]
pub enum DataKey {
    TokenA,
    TokenB,
    ReserveA,
    ReserveB,
}

} // verus!
