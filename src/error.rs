use vstd::prelude::*;

verus! {

/// Failures of the settlement step, in the order in which it checks for them.
#[derive(Clone, Copy, Debug, PartialEq, Eq, Structural)]
pub enum RandomnessRequestError {
    /// The completion could not be attributed to the requested function.
    FunctionValidationFailed,
    /// The oracle request has not reached the `RequestSuccess` state.
    SwitchboardRequestNotSuccessful,
    /// The user's current round is not pending.
    RoundInactive,
}

/// Every way an entry point of the program can fail. A failed call changes nothing.
#[derive(Clone, Copy, Debug, PartialEq, Eq, Structural)]
pub enum CounterError {
    /// A settlement gate refused the call.
    Randomness(RandomnessRequestError),
    /// `initialize` was called for an authority that already has a user account.
    AccountAlreadyInUse,
    /// No user account exists for the given authority.
    AccountNotInitialized,
    /// The accounts handed in do not match the user account (authority or wallet).
    ConstraintViolated,
    /// The wager wallet still holds less than the wager cost after the top-up.
    EscrowMissingFunds,
    /// The global counter would leave the range of `u64`.
    Overflow,
}

} // verus!
