//! What the requester services share: the failure of a delivery, and the
//! formatting of a random seed into a requester id.

use vstd::prelude::*;
use vstd::string::*;

verus! {

/// Why a delivery was refused. A refused delivery changes nothing.
#[derive(Debug, Clone, Copy, PartialEq, Eq, Structural)]
pub enum CallbackError {
    /// The caller is not the configured deliverer.
    UnauthorizedCallback,
}

/// The lower-case hex digit of `d`, for `d < 16`.
pub open spec fn hex_digit(d: u8) -> char {
    seq!['0', '1', '2', '3', '4', '5', '6', '7', '8', '9', 'a', 'b', 'c', 'd', 'e', 'f'][d as int]
}

/// A byte in lower-case hex, without leading zeros.
pub open spec fn byte_hex(b: u8) -> Seq<char> {
    if b < 16 {
        seq![hex_digit(b)]
    } else {
        seq![hex_digit(b / 16), hex_digit(b % 16)]
    }
}

/// The bytes of `s` in lower-case hex, one after the other, each without
/// leading zeros.
pub open spec fn seed_hex(s: Seq<u8>) -> Seq<char>
    decreases s.len(),
{
    if s.len() == 0 {
        Seq::empty()
    } else {
        seed_hex(s.drop_last()) + byte_hex(s.last())
    }
}

/// Relies on std's `LowerHex` for `u8`, through `format!`: lower-case
/// digits, no prefix, no padding.
#[verifier::external_body]
fn lower_hex(b: u8) -> (r: String)
    ensures
        r@ == byte_hex(b),
{
    format!("{:x}", b)
}

/// The bytes of `seed` in hex, as `seed_hex` spells them.
pub fn hex_id(seed: &[u8]) -> (r: String)
    ensures
        r@ == seed_hex(seed@),
{
    let mut id = String::new();
    let mut i: usize = 0;
    while i < seed.len()
        invariant
            i <= seed@.len(),
            id@ == seed_hex(seed@.subrange(0, i as int)),
        decreases seed@.len() - i,
    {
        let digits = lower_hex(seed[i]);
        assert(seed@.subrange(0, i + 1).drop_last() =~= seed@.subrange(0, i as int));
        id.append(digits.as_str());
        i = i + 1;
    }
    assert(seed@.subrange(0, i as int) =~= seed@);
    id
}

} // verus!
