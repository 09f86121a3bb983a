use vstd::prelude::*;

use crate::program::MAX_GUESS;

verus! {

/// The ASCII decimal digits of `n`, without leading zeros.
pub open spec fn decimal(n: nat) -> Seq<u8>
    decreases n,
{
    if n < 10 {
        seq![(48 + n) as u8]
    } else {
        decimal(n / 10).push((48 + n % 10) as u8)
    }
}

/// The parameters handed to the oracle with a randomness request:
/// `PID=<program>,MAX_GUESS=<bound>,USER=<user record>`, where the two addresses come
/// already rendered as text.
pub open spec fn request_params_bytes(program_id: Seq<u8>, user: Seq<u8>) -> Seq<u8> {
    seq![80u8, 73, 68, 61] + program_id + seq![44u8, 77, 65, 88, 95, 71, 85, 69, 83, 83, 61]
        + decimal(MAX_GUESS as nat) + seq![44u8, 85, 83, 69, 82, 61] + user
}

/// Appends the bytes of `src` to `out`.
fn append_bytes(out: &mut Vec<u8>, src: &[u8])
    ensures
        final(out)@ == old(out)@ + src@,
{
    let mut i: usize = 0;
    while i < src.len()
        invariant
            0 <= i <= src@.len(),
            out@ == old(out)@ + src@.subrange(0, i as int),
        decreases src@.len() - i,
    {
        out.push(src[i]);
        i = i + 1;
        proof {
            assert(src@.subrange(0, i as int) =~= src@.subrange(0, i - 1).push(src@[i - 1]));
        }
    }
    proof {
        assert(src@.subrange(0, src@.len() as int) =~= src@);
    }
}

/// The ASCII decimal digits of a byte.
pub fn decimal_u8(n: u8) -> (r: Vec<u8>)
    ensures
        r@ == decimal(n as nat),
{
    if n < 10 {
        proof {
            reveal_with_fuel(decimal, 1);
        }
        vec![48 + n]
    } else if n < 100 {
        let r = vec![48 + n / 10, 48 + n % 10];
        proof {
            reveal_with_fuel(decimal, 2);
            assert(r@ =~= decimal(n as nat));
        }
        r
    } else {
        let r = vec![48 + n / 100, 48 + (n / 10) % 10, 48 + n % 10];
        proof {
            reveal_with_fuel(decimal, 3);
            assert((n as nat / 10) / 10 == n as nat / 100);
            assert(r@ =~= decimal(n as nat));
        }
        r
    }
}

/// Builds the parameters of a randomness request from the rendered program address and
/// user record address.
pub fn request_params(program_id: &[u8], user: &[u8]) -> (r: Vec<u8>)
    ensures
        r@ == request_params_bytes(program_id@, user@),
{
    let mut out: Vec<u8> = vec![80u8, 73, 68, 61];
    append_bytes(&mut out, program_id);
    let sep: Vec<u8> = vec![44u8, 77, 65, 88, 95, 71, 85, 69, 83, 83, 61];
    append_bytes(&mut out, sep.as_slice());
    let bound = decimal_u8(MAX_GUESS);
    append_bytes(&mut out, bound.as_slice());
    let tail: Vec<u8> = vec![44u8, 85, 83, 69, 82, 61];
    append_bytes(&mut out, tail.as_slice());
    append_bytes(&mut out, user);
    out
}

} // verus!
