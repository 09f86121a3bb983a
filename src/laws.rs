use vstd::prelude::*;

use crate::error::{CounterError, RandomnessRequestError};
use crate::program::{
    add_one_step, initialize_step, lemma_initialize_wf, lemma_with_user_wf, settle_step, AddOne,
    CounterView, Initialize, RequestStatus, UserSettle,
};
use crate::state::RoundStatus;

verus! {

/// A user that has just been initialized has no round to settle: settling fails with
/// `RoundInactive`, whatever the oracle reports and whatever the result.
pub proof fn law_settle_before_start_is_inactive(
    p: CounterView,
    init: Initialize,
    ctx: UserSettle,
    result: u8,
)
    requires
        p.wf(),
        initialize_step(p, init) is Ok,
        ctx.authority == init.initializer,
        ctx.user_token_wallet == init.user_token_wallet,
    ensures
        settle_step(initialize_step(p, init)->Ok_0, ctx, result) == Err::<CounterView, CounterError>(
            CounterError::Randomness(RandomnessRequestError::RoundInactive),
        ),
{
    lemma_initialize_wf(p, init);
}

/// A round settles at most once: right after a successful settlement, settling the same
/// user again fails with `RoundInactive`.
pub proof fn law_settle_twice_is_inactive(
    p: CounterView,
    ctx: UserSettle,
    result: u8,
    again: UserSettle,
    result_again: u8,
)
    requires
        p.wf(),
        settle_step(p, ctx, result) is Ok,
        again.authority == ctx.authority,
        again.user_token_wallet == ctx.user_token_wallet,
    ensures
        settle_step(settle_step(p, ctx, result)->Ok_0, again, result_again) == Err::<
            CounterView,
            CounterError,
        >(CounterError::Randomness(RandomnessRequestError::RoundInactive)),
{
    let u = p.user_of(ctx.authority);
    let g = p.global->Some_0;
    let nu = crate::state::UserState {
        current_round: crate::state::UserRound {
            result: result,
            status: RoundStatus::Settled,
            ..u.current_round
        },
        ..u
    };
    lemma_with_user_wf(p, ctx.authority, nu, crate::state::Global { count: (g.count + result) as u64 });
}

/// A pending round is never settled on an oracle request that did not succeed: settling
/// fails with `SwitchboardRequestNotSuccessful`, whatever the result.
pub proof fn law_settle_needs_request_success(p: CounterView, ctx: UserSettle, result: u8)
    requires
        p.wf(),
        p.has_user(ctx.authority),
        p.global is Some,
        p.user_of(ctx.authority).token_wallet == ctx.user_token_wallet,
        p.user_of(ctx.authority).current_round.status == RoundStatus::Pending,
        ctx.request_status != RequestStatus::RequestSuccess,
    ensures
        settle_step(p, ctx, result) == Err::<CounterView, CounterError>(
            CounterError::Randomness(RandomnessRequestError::SwitchboardRequestNotSuccessful),
        ),
{
}

/// A pending round is never settled on a completion that is not attributed to the
/// requested function: settling fails with `FunctionValidationFailed`, even when the
/// oracle request succeeded.
pub proof fn law_settle_needs_validated_signer(p: CounterView, ctx: UserSettle, result: u8)
    requires
        p.wf(),
        p.has_user(ctx.authority),
        p.global is Some,
        p.user_of(ctx.authority).token_wallet == ctx.user_token_wallet,
        p.user_of(ctx.authority).current_round.status == RoundStatus::Pending,
        ctx.request_status == RequestStatus::RequestSuccess,
        !ctx.signer_validated,
    ensures
        settle_step(p, ctx, result) == Err::<CounterView, CounterError>(
            CounterError::Randomness(RandomnessRequestError::FunctionValidationFailed),
        ),
{
}

/// Initializing an authority a second time fails with `AccountAlreadyInUse` (and a
/// failed call leaves the program unchanged, see `initialize`).
pub proof fn law_initialize_once(p: CounterView, init: Initialize, again: Initialize)
    requires
        p.wf(),
        initialize_step(p, init) is Ok,
        again.initializer == init.initializer,
    ensures
        initialize_step(initialize_step(p, init)->Ok_0, again) == Err::<CounterView, CounterError>(
            CounterError::AccountAlreadyInUse,
        ),
{
    lemma_initialize_wf(p, init);
}

/// A full round: once a round has started, a settlement on a successful, validated oracle
/// completion succeeds; the round ends settled holding the result, and the global counter
/// has gone up by one for the start and by the result for the settlement.
pub proof fn law_full_round(p: CounterView, start: AddOne, ctx: UserSettle, result: u8)
    requires
        p.wf(),
        add_one_step(p, start) is Ok,
        ctx.authority == start.initializer,
        ctx.user_token_wallet == start.user_token_wallet,
        ctx.request_status == RequestStatus::RequestSuccess,
        ctx.signer_validated,
        p.global->Some_0.count + 1 + result <= u64::MAX,
    ensures
        settle_step(add_one_step(p, start)->Ok_0, ctx, result) matches Ok(q)
            && q.wf()
            && q.global == Some(crate::state::Global { count: (p.global->Some_0.count + 1 + result) as u64 })
            && q.user_of(ctx.authority).current_round.status == RoundStatus::Settled
            && q.user_of(ctx.authority).current_round.result == result,
{
    let u = p.user_of(start.initializer);
    let g = p.global->Some_0;
    let nu = crate::state::UserState {
        current_round: crate::program::started_round(u.current_round, start.request),
        ..u
    };
    let g1 = crate::state::Global { count: (g.count + 1) as u64 };
    lemma_with_user_wf(p, start.initializer, nu, g1);
    let q1 = p.with_user(start.initializer, nu, g1);
    let su = crate::state::UserState {
        current_round: crate::state::UserRound {
            result: result,
            status: RoundStatus::Settled,
            ..nu.current_round
        },
        ..nu
    };
    let g2 = crate::state::Global { count: (g.count + 1 + result) as u64 };
    lemma_with_user_wf(q1, start.initializer, su, g2);
}

} // verus!
