//! A wagering round driven by a verifiable-randomness oracle: the per-user round state
//! machine, its validation gates, the escrow top-up rule and the request parameters.

pub mod error;
pub mod laws;
pub mod program;
pub mod request;
pub mod state;

pub use error::{CounterError, RandomnessRequestError};
pub use program::{
    add_one, initialize, top_up_amount, user_settle, AddOne, Counter, CounterView, Initialize,
    RequestStatus, UserSettle, GUESS_COST, MAX_GUESS,
};
pub use request::{decimal_u8, request_params};
pub use state::{Global, Pubkey, RoundStatus, UserRound, UserState};
