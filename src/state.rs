use vstd::prelude::*;

verus! {

/// A 32-byte account address.
#[derive(Clone, Copy, Debug)]
pub struct Pubkey {
    pub bytes: [u8; 32],
}

impl Pubkey {
    /// Whether two addresses hold the same bytes.
    pub fn same(&self, other: &Pubkey) -> (r: bool)
        ensures
            r == (*self == *other),
    {
        let mut i: usize = 0;
        while i < 32
            invariant
                0 <= i <= 32,
                forall|j: int| 0 <= j < i ==> self.bytes[j] == other.bytes[j],
            decreases 32 - i,
        {
            if self.bytes[i] != other.bytes[i] {
                return false;
            }
            i = i + 1;
        }
        proof {
            assert(self.bytes =~= other.bytes);
        }
        true
    }
}

/// Where a user's round stands.
#[derive(Clone, Copy, Debug, PartialEq, Eq, Structural, Default)]
pub enum RoundStatus {
    /// No round was ever started.
    #[default]
    Idle,
    /// A randomness request is in flight.
    Pending,
    /// The result has been recorded.
    Settled,
}

/// The byte that stands for a status in the stored record.
pub open spec fn status_code(s: RoundStatus) -> u8 {
    match s {
        RoundStatus::Idle => 0,
        RoundStatus::Pending => 1,
        RoundStatus::Settled => 2,
    }
}

/// The status that a stored byte stands for; unknown bytes read as `Idle`.
pub open spec fn status_of_code(b: u8) -> RoundStatus {
    if b == 1 {
        RoundStatus::Pending
    } else if b == 2 {
        RoundStatus::Settled
    } else {
        RoundStatus::Idle
    }
}

impl From<RoundStatus> for u8 {
    fn from(value: RoundStatus) -> (r: u8) {
        match value {
            RoundStatus::Pending => 1,
            RoundStatus::Settled => 2,
            _ => 0,
        }
    }
}

impl vstd::std_specs::convert::FromSpecImpl<RoundStatus> for u8 {
    open spec fn obeys_from_spec() -> bool {
        true
    }

    open spec fn from_spec(v: RoundStatus) -> u8 {
        status_code(v)
    }
}

impl From<u8> for RoundStatus {
    fn from(value: u8) -> (r: RoundStatus) {
        match value {
            1 => RoundStatus::Pending,
            2 => RoundStatus::Settled,
            _ => RoundStatus::Idle,
        }
    }
}

impl vstd::std_specs::convert::FromSpecImpl<u8> for RoundStatus {
    open spec fn obeys_from_spec() -> bool {
        true
    }

    open spec fn from_spec(v: u8) -> RoundStatus {
        status_of_code(v)
    }
}

/// One wager-guess-result cycle of a user, stored inside the user's record.
#[derive(Clone, Copy, Debug)]
pub struct UserRound {
    /// The oracle request that this round waits on.
    pub request: Pubkey,
    pub guess: u8,
    pub status: RoundStatus,
    /// The outcome reported by the oracle once the round is settled.
    pub result: u8,
    /// The amount escrowed for this round.
    pub wager: u64,
    pub slot: u64,
    pub timestamp: i64,
}

impl UserRound {
    /// The round of an account on which no round was ever started.
    pub fn empty() -> (r: UserRound)
        ensures
            r == UserRound::spec_empty(),
    {
        UserRound {
            request: Pubkey { bytes: [0u8; 32] },
            guess: 0,
            status: RoundStatus::Idle,
            result: 0,
            wager: 0,
            slot: 0,
            timestamp: 0,
        }
    }

    pub open spec fn spec_empty() -> UserRound {
        UserRound {
            request: Pubkey { bytes: spec_zero_key() },
            guess: 0,
            status: RoundStatus::Idle,
            result: 0,
            wager: 0,
            slot: 0,
            timestamp: 0,
        }
    }
}

/// The all-zero address.
pub open spec fn spec_zero_key() -> [u8; 32] {
    vstd::array::spec_array_fill_for_copy_type::<u8, 32>(0u8)
}

/// The record that the program keeps for each user, keyed by its authority.
#[derive(Clone, Copy, Debug)]
pub struct UserState {
    /// The bump of the address derived from the program seed and the authority.
    pub bump: u8,
    pub authority: Pubkey,
    /// The user's wager wallet.
    pub token_wallet: Pubkey,
    pub current_round: UserRound,
    pub last_round: UserRound,
}

/// The counter shared by all users.
#[derive(Clone, Copy, Debug, PartialEq, Eq, Structural)]
pub struct Global {
    pub count: u64,
}

/// Reading back the byte of a status gives the status again.
pub proof fn lemma_status_code_round_trip(s: RoundStatus)
    ensures
        status_of_code(status_code(s)) == s,
{
}

} // verus!
