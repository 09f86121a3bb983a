use counter::{
    add_one, decimal_u8, initialize, request_params, top_up_amount, user_settle, AddOne,
    Counter, CounterError, Global, Initialize, Pubkey, RandomnessRequestError, RequestStatus,
    RoundStatus, UserSettle, GUESS_COST,
};

fn key(b: u8) -> Pubkey {
    Pubkey { bytes: [b; 32] }
}

fn init_ctx(user: u8) -> Initialize {
    Initialize { initializer: key(user), user_token_wallet: key(user + 100), bump: 254 }
}

fn add_ctx(user: u8, balance: u64) -> AddOne {
    AddOne {
        initializer: key(user),
        user_token_wallet: key(user + 100),
        wallet_balance: balance,
        request: key(user + 50),
    }
}

fn settle_ctx(user: u8, status: RequestStatus, validated: bool) -> UserSettle {
    UserSettle {
        authority: key(user),
        user_token_wallet: key(user + 100),
        request_status: status,
        signer_validated: validated,
    }
}

fn initialized(user: u8) -> Counter {
    let mut p = Counter::new();
    assert_eq!(initialize(&mut p, &init_ctx(user)), Ok(()));
    p
}

fn count(p: &Counter) -> u64 {
    p.global.unwrap().count
}

fn status(p: &Counter, i: usize) -> RoundStatus {
    p.users[i].current_round.status
}

#[test]
fn initialize_creates_idle_user_and_zero_counter() {
    let p = initialized(1);
    assert_eq!(count(&p), 0);
    assert_eq!(p.users.len(), 1);
    assert!(p.users[0].authority.same(&key(1)));
    assert!(p.users[0].token_wallet.same(&key(101)));
    assert_eq!(p.users[0].bump, 254);
    assert_eq!(status(&p, 0), RoundStatus::Idle);
}

#[test]
fn initialize_twice_fails_and_keeps_state() {
    let mut p = initialized(1);
    assert_eq!(add_one(&mut p, &add_ctx(1, GUESS_COST)), Ok(()));
    let again = Initialize { initializer: key(1), user_token_wallet: key(7), bump: 1 };
    assert_eq!(initialize(&mut p, &again), Err(CounterError::AccountAlreadyInUse));
    assert_eq!(p.users.len(), 1);
    assert!(p.users[0].token_wallet.same(&key(101)));
    assert_eq!(status(&p, 0), RoundStatus::Pending);
    assert_eq!(count(&p), 1);
}

#[test]
fn second_user_keeps_global_counter() {
    let mut p = initialized(1);
    assert_eq!(add_one(&mut p, &add_ctx(1, GUESS_COST)), Ok(()));
    assert_eq!(initialize(&mut p, &init_ctx(2)), Ok(()));
    assert_eq!(p.users.len(), 2);
    assert_eq!(count(&p), 1);
    assert_eq!(p.find_user(&key(2)), Some(1));
    assert_eq!(p.find_user(&key(3)), None);
}

#[test]
fn settle_before_initiate_is_inactive() {
    let mut p = initialized(1);
    for st in [RequestStatus::RequestSuccess, RequestStatus::RequestFailure, RequestStatus::Pending] {
        for validated in [true, false] {
            let r = user_settle(&mut p, &settle_ctx(1, st, validated), 42);
            assert_eq!(r, Err(CounterError::Randomness(RandomnessRequestError::RoundInactive)));
        }
    }
    assert_eq!(status(&p, 0), RoundStatus::Idle);
    assert_eq!(count(&p), 0);
}

#[test]
fn settle_twice_is_inactive() {
    let mut p = initialized(1);
    assert_eq!(add_one(&mut p, &add_ctx(1, GUESS_COST)), Ok(()));
    let ok = settle_ctx(1, RequestStatus::RequestSuccess, true);
    assert_eq!(user_settle(&mut p, &ok, 9), Ok(()));
    assert_eq!(
        user_settle(&mut p, &ok, 9),
        Err(CounterError::Randomness(RandomnessRequestError::RoundInactive))
    );
    assert_eq!(p.users[0].current_round.result, 9);
    assert_eq!(count(&p), 10);
}

#[test]
fn settle_needs_request_success() {
    for st in [RequestStatus::Pending, RequestStatus::RequestFailure] {
        for result in [0u8, 1, 42, 255] {
            let mut p = initialized(1);
            assert_eq!(add_one(&mut p, &add_ctx(1, GUESS_COST)), Ok(()));
            let r = user_settle(&mut p, &settle_ctx(1, st, true), result);
            assert_eq!(
                r,
                Err(CounterError::Randomness(
                    RandomnessRequestError::SwitchboardRequestNotSuccessful
                ))
            );
            assert_eq!(status(&p, 0), RoundStatus::Pending);
        }
    }
}

#[test]
fn settle_needs_validated_signer() {
    let mut p = initialized(1);
    assert_eq!(add_one(&mut p, &add_ctx(1, GUESS_COST)), Ok(()));
    let r = user_settle(&mut p, &settle_ctx(1, RequestStatus::RequestSuccess, false), 42);
    assert_eq!(r, Err(CounterError::Randomness(RandomnessRequestError::FunctionValidationFailed)));
    assert_eq!(status(&p, 0), RoundStatus::Pending);
    assert_eq!(count(&p), 1);
}

#[test]
fn end_to_end_round_with_success() {
    let mut p = initialized(1);
    let baseline = count(&p);
    let balance: u64 = 0;
    let top_up = top_up_amount(balance);
    assert_eq!(top_up, 100_000);
    let reloaded = balance + top_up;
    assert_eq!(reloaded, GUESS_COST);
    assert_eq!(add_one(&mut p, &add_ctx(1, reloaded)), Ok(()));
    assert_eq!(status(&p, 0), RoundStatus::Pending);
    assert!(p.users[0].current_round.request.same(&key(51)));
    assert_eq!(p.users[0].current_round.wager, 100_000);
    assert_eq!(count(&p), baseline + 1);
    let r = user_settle(&mut p, &settle_ctx(1, RequestStatus::RequestSuccess, true), 42);
    assert_eq!(r, Ok(()));
    assert_eq!(status(&p, 0), RoundStatus::Settled);
    assert_eq!(p.users[0].current_round.result, 42);
    assert_eq!(count(&p), baseline + 43);
}

#[test]
fn end_to_end_round_with_failure() {
    let mut p = initialized(1);
    assert_eq!(add_one(&mut p, &add_ctx(1, GUESS_COST)), Ok(()));
    for result in [0u8, 42, 255] {
        let r = user_settle(&mut p, &settle_ctx(1, RequestStatus::RequestFailure, true), result);
        assert_eq!(
            r,
            Err(CounterError::Randomness(RandomnessRequestError::SwitchboardRequestNotSuccessful))
        );
        assert_eq!(status(&p, 0), RoundStatus::Pending);
        assert_eq!(p.users[0].current_round.result, 0);
        assert_eq!(count(&p), 1);
    }
}

#[test]
fn add_one_on_unknown_user_fails() {
    let mut p = initialized(1);
    assert_eq!(add_one(&mut p, &add_ctx(2, GUESS_COST)), Err(CounterError::AccountNotInitialized));
    let mut empty = Counter::new();
    assert_eq!(
        user_settle(&mut empty, &settle_ctx(1, RequestStatus::RequestSuccess, true), 1),
        Err(CounterError::AccountNotInitialized)
    );
}

#[test]
fn wrong_wallet_is_refused() {
    let mut p = initialized(1);
    let mut ctx = add_ctx(1, GUESS_COST);
    ctx.user_token_wallet = key(9);
    assert_eq!(add_one(&mut p, &ctx), Err(CounterError::ConstraintViolated));
    assert_eq!(add_one(&mut p, &add_ctx(1, GUESS_COST)), Ok(()));
    let mut s = settle_ctx(1, RequestStatus::RequestSuccess, true);
    s.user_token_wallet = key(9);
    assert_eq!(user_settle(&mut p, &s, 3), Err(CounterError::ConstraintViolated));
    assert_eq!(status(&p, 0), RoundStatus::Pending);
}

#[test]
fn underfunded_escrow_is_refused() {
    let mut p = initialized(1);
    assert_eq!(
        add_one(&mut p, &add_ctx(1, GUESS_COST - 1)),
        Err(CounterError::EscrowMissingFunds)
    );
    assert_eq!(status(&p, 0), RoundStatus::Idle);
    assert_eq!(count(&p), 0);
    assert_eq!(add_one(&mut p, &add_ctx(1, GUESS_COST + 5)), Ok(()));
}

#[test]
fn counter_overflow_is_refused() {
    let mut p = initialized(1);
    p.global = Some(Global { count: u64::MAX });
    assert_eq!(add_one(&mut p, &add_ctx(1, GUESS_COST)), Err(CounterError::Overflow));
    p.global = Some(Global { count: u64::MAX - 1 });
    assert_eq!(add_one(&mut p, &add_ctx(1, GUESS_COST)), Ok(()));
    let ok = settle_ctx(1, RequestStatus::RequestSuccess, true);
    assert_eq!(user_settle(&mut p, &ok, 1), Err(CounterError::Overflow));
    assert_eq!(status(&p, 0), RoundStatus::Pending);
    assert_eq!(user_settle(&mut p, &ok, 0), Ok(()));
    assert_eq!(count(&p), u64::MAX);
}

#[test]
fn restarting_a_round_overwrites_it() {
    let mut p = initialized(1);
    assert_eq!(add_one(&mut p, &add_ctx(1, GUESS_COST)), Ok(()));
    assert_eq!(user_settle(&mut p, &settle_ctx(1, RequestStatus::RequestSuccess, true), 7), Ok(()));
    let mut again = add_ctx(1, GUESS_COST);
    again.request = key(33);
    assert_eq!(add_one(&mut p, &again), Ok(()));
    assert_eq!(status(&p, 0), RoundStatus::Pending);
    assert_eq!(p.users[0].current_round.result, 0);
    assert!(p.users[0].current_round.request.same(&key(33)));
    assert_eq!(count(&p), 9);
}

#[test]
fn top_up_covers_the_shortfall_only() {
    assert_eq!(top_up_amount(0), 100_000);
    assert_eq!(top_up_amount(30_000), 70_000);
    assert_eq!(top_up_amount(99_999), 1);
    assert_eq!(top_up_amount(100_000), 0);
    assert_eq!(top_up_amount(150_000), 0);
}

#[test]
fn request_params_layout() {
    let r = request_params(b"Prog111", b"User222");
    assert_eq!(r, b"PID=Prog111,MAX_GUESS=255,USER=User222".to_vec());
    assert_eq!(request_params(b"", b""), b"PID=,MAX_GUESS=255,USER=".to_vec());
}

#[test]
fn decimal_digits_of_bytes() {
    assert_eq!(decimal_u8(0), b"0".to_vec());
    assert_eq!(decimal_u8(7), b"7".to_vec());
    assert_eq!(decimal_u8(42), b"42".to_vec());
    assert_eq!(decimal_u8(100), b"100".to_vec());
    assert_eq!(decimal_u8(255), b"255".to_vec());
}

#[test]
fn round_status_bytes() {
    assert_eq!(u8::from(RoundStatus::Idle), 0);
    assert_eq!(u8::from(RoundStatus::Pending), 1);
    assert_eq!(u8::from(RoundStatus::Settled), 2);
    assert_eq!(RoundStatus::from(0u8), RoundStatus::Idle);
    assert_eq!(RoundStatus::from(1u8), RoundStatus::Pending);
    assert_eq!(RoundStatus::from(2u8), RoundStatus::Settled);
    assert_eq!(RoundStatus::from(3u8), RoundStatus::Idle);
    assert_eq!(RoundStatus::from(255u8), RoundStatus::Idle);
    assert_eq!(RoundStatus::default(), RoundStatus::Idle);
}

#[test]
fn key_comparison() {
    let mut b = [5u8; 32];
    assert!(key(5).same(&Pubkey { bytes: b }));
    b[31] = 6;
    assert!(!key(5).same(&Pubkey { bytes: b }));
}
