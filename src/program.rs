use vstd::prelude::*;

use crate::error::{CounterError, RandomnessRequestError};
use crate::state::{Global, Pubkey, RoundStatus, UserRound, UserState};

verus! {

/// The amount that the wager wallet must hold before a round can start.
pub const GUESS_COST: u64 = 100_000;

/// The largest outcome that a randomness request asks for.
pub const MAX_GUESS: u8 = 255;

/// The state of an oracle request, as the oracle's request account reports it.
#[derive(Clone, Copy, Debug, PartialEq, Eq, Structural)]
pub enum RequestStatus {
    /// The request has not completed yet.
    Pending,
    /// The oracle completed the request and reported a result.
    RequestSuccess,
    /// The oracle reported that the request failed.
    RequestFailure,
}

/// The accounts of the program: the global counter, once created, and one record per user.
pub struct Counter {
    pub global: Option<Global>,
    pub users: Vec<UserState>,
}

/// What a `Counter` holds, as values.
pub struct CounterView {
    pub global: Option<Global>,
    pub users: Seq<UserState>,
}

impl View for Counter {
    type V = CounterView;

    open spec fn view(&self) -> CounterView {
        CounterView { global: self.global, users: self.users@ }
    }
}

impl CounterView {
    /// No two user records share an authority.
    pub open spec fn wf(self) -> bool {
        forall|i: int, j: int|
            0 <= i < self.users.len() && 0 <= j < self.users.len() && i != j
                ==> #[trigger] self.users[i].authority != #[trigger] self.users[j].authority
    }

    pub open spec fn has_user(self, authority: Pubkey) -> bool {
        exists|i: int| 0 <= i < self.users.len() && #[trigger] self.users[i].authority == authority
    }

    /// Where the record of `authority` stands; meaningful only when `has_user(authority)`.
    pub open spec fn index_of(self, authority: Pubkey) -> int {
        choose|i: int| 0 <= i < self.users.len() && #[trigger] self.users[i].authority == authority
    }

    pub open spec fn user_of(self, authority: Pubkey) -> UserState {
        self.users[self.index_of(authority)]
    }

    /// The state after the record of `authority` is replaced by `u`.
    pub open spec fn with_user(self, authority: Pubkey, u: UserState, g: Global) -> CounterView {
        CounterView { global: Some(g), users: self.users.update(self.index_of(authority), u) }
    }
}

/// What `initialize` is handed: the caller and the accounts derived for it.
#[derive(Clone, Copy, Debug)]
pub struct Initialize {
    /// The authority that the new user record belongs to.
    pub initializer: Pubkey,
    /// The wager wallet created for the user.
    pub user_token_wallet: Pubkey,
    /// The bump of the user record's derived address.
    pub bump: u8,
}

/// What `add_one` is handed: the caller, its wallet and the new oracle request.
#[derive(Clone, Copy, Debug)]
pub struct AddOne {
    pub initializer: Pubkey,
    pub user_token_wallet: Pubkey,
    /// The balance of the wager wallet, read after the top-up.
    pub wallet_balance: u64,
    /// The oracle request created for this round.
    pub request: Pubkey,
}

/// What `user_settle` is handed: the user, its wallet and what the oracle reports.
#[derive(Clone, Copy, Debug)]
pub struct UserSettle {
    pub authority: Pubkey,
    pub user_token_wallet: Pubkey,
    /// The status of the oracle request that the round waits on.
    pub request_status: RequestStatus,
    /// Whether the oracle attributed the completion to the requested function and enclave.
    pub signer_validated: bool,
}

/// The new user record made by `initialize`.
pub open spec fn new_user(ctx: Initialize) -> UserState {
    UserState {
        bump: ctx.bump,
        authority: ctx.initializer,
        token_wallet: ctx.user_token_wallet,
        current_round: UserRound::spec_empty(),
        last_round: UserRound::spec_empty(),
    }
}

/// Creating a user record: refused when the authority already has one. The global
/// counter is created at zero the first time and kept afterwards.
pub open spec fn initialize_step(p: CounterView, ctx: Initialize) -> Result<CounterView, CounterError> {
    if p.has_user(ctx.initializer) {
        Err(CounterError::AccountAlreadyInUse)
    } else {
        Ok(CounterView {
            global: match p.global {
                Some(g) => Some(g),
                None => Some(Global { count: 0 }),
            },
            users: p.users.push(new_user(ctx)),
        })
    }
}

/// The round that `add_one` starts: pending on `request`, with the wager escrowed.
pub open spec fn started_round(r: UserRound, request: Pubkey) -> UserRound {
    UserRound { request: request, status: RoundStatus::Pending, result: 0, wager: GUESS_COST as u64, ..r }
}

/// Starting a round, once the wager wallet holds the wager cost.
pub open spec fn add_one_step(p: CounterView, ctx: AddOne) -> Result<CounterView, CounterError> {
    if !p.has_user(ctx.initializer) || p.global is None {
        Err(CounterError::AccountNotInitialized)
    } else if p.user_of(ctx.initializer).token_wallet != ctx.user_token_wallet {
        Err(CounterError::ConstraintViolated)
    } else if ctx.wallet_balance < GUESS_COST {
        Err(CounterError::EscrowMissingFunds)
    } else if p.global->Some_0.count == u64::MAX {
        Err(CounterError::Overflow)
    } else {
        let u = p.user_of(ctx.initializer);
        Ok(p.with_user(
            ctx.initializer,
            UserState { current_round: started_round(u.current_round, ctx.request), ..u },
            Global { count: (p.global->Some_0.count + 1) as u64 },
        ))
    }
}

/// Settling a pending round with the oracle's `result`.
pub open spec fn settle_step(p: CounterView, ctx: UserSettle, result: u8) -> Result<
    CounterView,
    CounterError,
> {
    if !p.has_user(ctx.authority) || p.global is None {
        Err(CounterError::AccountNotInitialized)
    } else if p.user_of(ctx.authority).token_wallet != ctx.user_token_wallet {
        Err(CounterError::ConstraintViolated)
    } else if p.user_of(ctx.authority).current_round.status != RoundStatus::Pending {
        Err(CounterError::Randomness(RandomnessRequestError::RoundInactive))
    } else if ctx.request_status != RequestStatus::RequestSuccess {
        Err(CounterError::Randomness(RandomnessRequestError::SwitchboardRequestNotSuccessful))
    } else if !ctx.signer_validated {
        Err(CounterError::Randomness(RandomnessRequestError::FunctionValidationFailed))
    } else if p.global->Some_0.count + result > u64::MAX {
        Err(CounterError::Overflow)
    } else {
        let u = p.user_of(ctx.authority);
        Ok(p.with_user(
            ctx.authority,
            UserState {
                current_round: UserRound { result: result, status: RoundStatus::Settled, ..u.current_round },
                ..u
            },
            Global { count: (p.global->Some_0.count + result) as u64 },
        ))
    }
}

/// What a call did to the program: the new state on success, nothing on failure.
pub open spec fn applied(
    pre: CounterView,
    post: CounterView,
    step: Result<CounterView, CounterError>,
    r: Result<(), CounterError>,
) -> bool {
    match r {
        Ok(()) => step == Ok::<CounterView, CounterError>(post),
        Err(e) => step == Err::<CounterView, CounterError>(e) && post == pre,
    }
}

/// Replacing a record by one with the same authority keeps authorities distinct.
pub proof fn lemma_with_user_wf(p: CounterView, authority: Pubkey, u: UserState, g: Global)
    requires
        p.wf(),
        p.has_user(authority),
        u.authority == authority,
    ensures
        p.with_user(authority, u, g).wf(),
        p.with_user(authority, u, g).has_user(authority),
        p.with_user(authority, u, g).index_of(authority) == p.index_of(authority),
{
    let k = p.index_of(authority);
    let q = p.with_user(authority, u, g);
    assert forall|i: int, j: int|
        0 <= i < q.users.len() && 0 <= j < q.users.len() && i != j
        implies #[trigger] q.users[i].authority != #[trigger] q.users[j].authority by {
        assert(q.users[i].authority == p.users[i].authority);
        assert(q.users[j].authority == p.users[j].authority);
    }
    assert(q.users[k].authority == authority);
    let k2 = q.index_of(authority);
    if k2 != k {
        assert(q.users[k2].authority != q.users[k].authority);
    }
}

/// Adding the record of a new authority keeps authorities distinct, and the new record
/// is the one found under that authority.
pub proof fn lemma_initialize_wf(p: CounterView, ctx: Initialize)
    requires
        p.wf(),
        !p.has_user(ctx.initializer),
    ensures
        initialize_step(p, ctx) matches Ok(q) && q.wf() && q.has_user(ctx.initializer)
            && q.user_of(ctx.initializer) == new_user(ctx),
{
    let q = initialize_step(p, ctx)->Ok_0;
    let n = p.users.len() as int;
    assert forall|i: int, j: int|
        0 <= i < q.users.len() && 0 <= j < q.users.len() && i != j
        implies #[trigger] q.users[i].authority != #[trigger] q.users[j].authority by {
        if i < n && j < n {
            assert(q.users[i] == p.users[i] && q.users[j] == p.users[j]);
        } else if i < n {
            assert(q.users[i] == p.users[i]);
            assert(p.users[i].authority != ctx.initializer);
        } else {
            assert(q.users[j] == p.users[j]);
            assert(p.users[j].authority != ctx.initializer);
        }
    }
    assert(q.users[n].authority == ctx.initializer);
    let k = q.index_of(ctx.initializer);
    if k != n {
        assert(q.users[k].authority != q.users[n].authority);
    }
}

impl Counter {
    /// A program on which nothing was initialized yet.
    pub fn new() -> (r: Counter)
        ensures
            r@.global is None,
            r@.users.len() == 0,
    {
        Counter { global: None, users: Vec::new() }
    }

    /// The index of the record of `authority`, if there is one.
    pub fn find_user(&self, authority: &Pubkey) -> (r: Option<usize>)
        requires
            self@.wf(),
        ensures
            r is Some <==> self@.has_user(*authority),
            r matches Some(i) ==> i == self@.index_of(*authority),
    {
        let mut i: usize = 0;
        while i < self.users.len()
            invariant
                0 <= i <= self.users@.len(),
                self@.wf(),
                forall|j: int| 0 <= j < i ==> self.users@[j].authority != *authority,
            decreases self.users@.len() - i,
        {
            if self.users[i].authority.same(authority) {
                proof {
                    assert(self@.users[i as int].authority == *authority);
                    assert(self@.has_user(*authority));
                    let k = self@.index_of(*authority);
                    assert(0 <= k < self@.users.len() && self@.users[k].authority == *authority);
                    if k != i as int {
                        assert(self@.users[k].authority != self@.users[i as int].authority);
                    }
                }
                return Some(i);
            }
            i = i + 1;
        }
        None
    }
}

/// Creates the user record of `ctx.initializer`, and the global counter at zero if it
/// does not exist yet. Fails with `AccountAlreadyInUse`, changing nothing, when the
/// authority already has a record.
pub fn initialize(program: &mut Counter, ctx: &Initialize) -> (r: Result<(), CounterError>)
    requires
        old(program)@.wf(),
    ensures
        final(program)@.wf(),
        applied(old(program)@, final(program)@, initialize_step(old(program)@, *ctx), r),
{
    if program.find_user(&ctx.initializer).is_some() {
        return Err(CounterError::AccountAlreadyInUse);
    }
    if program.global.is_none() {
        program.global = Some(Global { count: 0 });
    }
    let user = UserState {
        bump: ctx.bump,
        authority: ctx.initializer,
        token_wallet: ctx.user_token_wallet,
        current_round: UserRound::empty(),
        last_round: UserRound::empty(),
    };
    program.users.push(user);
    proof {
        lemma_initialize_wf(old(program)@, *ctx);
        assert(program@.users =~= old(program)@.users.push(new_user(*ctx)));
    }
    Ok(())
}

/// Starts a round for `ctx.initializer`: the round becomes pending on `ctx.request` with
/// the wager cost escrowed, and the global counter goes up by one. `ctx.wallet_balance` is
/// the wager wallet's balance after the top-up of `top_up_amount`.
pub fn add_one(program: &mut Counter, ctx: &AddOne) -> (r: Result<(), CounterError>)
    requires
        old(program)@.wf(),
    ensures
        final(program)@.wf(),
        applied(old(program)@, final(program)@, add_one_step(old(program)@, *ctx), r),
{
    let idx = match program.find_user(&ctx.initializer) {
        Some(i) => i,
        None => return Err(CounterError::AccountNotInitialized),
    };
    let count = match &program.global {
        Some(g) => g.count,
        None => return Err(CounterError::AccountNotInitialized),
    };
    let mut user = program.users[idx];
    if !user.token_wallet.same(&ctx.user_token_wallet) {
        return Err(CounterError::ConstraintViolated);
    }
    if ctx.wallet_balance < GUESS_COST {
        return Err(CounterError::EscrowMissingFunds);
    }
    if count == u64::MAX {
        return Err(CounterError::Overflow);
    }
    user.current_round = UserRound {
        request: ctx.request,
        status: RoundStatus::Pending,
        result: 0,
        wager: GUESS_COST,
        ..user.current_round
    };
    program.users.set(idx, user);
    program.global = Some(Global { count: count + 1 });
    proof {
        let pre = old(program)@;
        lemma_with_user_wf(pre, ctx.initializer, user, Global { count: (count + 1) as u64 });
        assert(program@ == pre.with_user(ctx.initializer, user, Global { count: (count + 1) as u64 }));
    }
    Ok(())
}

/// Settles the pending round of `ctx.authority` with the oracle's `result`: the round
/// becomes settled holding `result`, and the global counter goes up by `result`.
/// The gates come in this order: the round must be pending (`RoundInactive`), the oracle
/// request must have succeeded (`SwitchboardRequestNotSuccessful`), and the completion
/// must be attributed to the requested function (`FunctionValidationFailed`).
pub fn user_settle(
    program: &mut Counter,
    ctx: &UserSettle,
    result: u8,
) -> (r: Result<(), CounterError>)
    requires
        old(program)@.wf(),
    ensures
        final(program)@.wf(),
        applied(old(program)@, final(program)@, settle_step(old(program)@, *ctx, result), r),
{
    let idx = match program.find_user(&ctx.authority) {
        Some(i) => i,
        None => return Err(CounterError::AccountNotInitialized),
    };
    let count = match &program.global {
        Some(g) => g.count,
        None => return Err(CounterError::AccountNotInitialized),
    };
    let mut user = program.users[idx];
    if !user.token_wallet.same(&ctx.user_token_wallet) {
        return Err(CounterError::ConstraintViolated);
    }
    if user.current_round.status != RoundStatus::Pending {
        return Err(CounterError::Randomness(RandomnessRequestError::RoundInactive));
    }
    if ctx.request_status != RequestStatus::RequestSuccess {
        return Err(CounterError::Randomness(RandomnessRequestError::SwitchboardRequestNotSuccessful));
    }
    if !ctx.signer_validated {
        return Err(CounterError::Randomness(RandomnessRequestError::FunctionValidationFailed));
    }
    if count > u64::MAX - result as u64 {
        return Err(CounterError::Overflow);
    }
    user.current_round.result = result;
    user.current_round.status = RoundStatus::Settled;
    program.users.set(idx, user);
    program.global = Some(Global { count: count + result as u64 });
    proof {
        let pre = old(program)@;
        let g = Global { count: (count + result) as u64 };
        lemma_with_user_wf(pre, ctx.authority, user, g);
        assert(program@ == pre.with_user(ctx.authority, user, g));
    }
    Ok(())
}

/// How much must be wrapped into a wager wallet holding `balance` so that it holds the
/// wager cost: the shortfall, or nothing when the wallet already holds enough.
pub fn top_up_amount(balance: u64) -> (r: u64)
    ensures
        r == if balance < GUESS_COST { (GUESS_COST - balance) as u64 } else { 0 },
        balance + r >= GUESS_COST,
{
    if balance < GUESS_COST {
        GUESS_COST - balance
    } else {
        0
    }
}

} // verus!
