use vstd::prelude::*;

verus! {

/// A 256-bit account address, held as two 128-bit halves.
#[derive(Clone, Copy, Debug, PartialEq, Eq, Structural)]
pub struct Pubkey {
    pub hi: u128,
    pub lo: u128,
}

impl Pubkey {
    pub fn new(hi: u128, lo: u128) -> (r: Pubkey)
        ensures
            r.hi == hi,
            r.lo == lo,
    {
        Pubkey { hi, lo }
    }

    /// The all-zero address, which marks a record that was never written.
    pub open spec fn spec_zero() -> Pubkey {
        Pubkey { hi: 0, lo: 0 }
    }

    pub fn zero() -> (r: Pubkey)
        ensures
            r == Pubkey::spec_zero(),
    {
        Pubkey { hi: 0, lo: 0 }
    }

    pub fn is_zero(&self) -> (r: bool)
        ensures
            r == (*self == Pubkey::spec_zero()),
    {
        self.hi == 0 && self.lo == 0
    }
}

/// Longest identifier (payment, payout, subscription, merchant), in bytes.
pub const MAX_ID_LEN: usize = 64;

/// Longest memo on a confidential session, in bytes.
pub const MAX_MEMO_LEN: usize = 128;

/// Length of a string in bytes (its UTF-8 encoding), as it is stored on the ledger.
pub open spec fn byte_len(s: Seq<char>) -> usize {
    vstd::utf8::encode_utf8(s).len() as usize
}

/// An identifier is valid when it holds between 1 and `MAX_ID_LEN` bytes.
pub open spec fn valid_id(s: Seq<char>) -> bool {
    0 < byte_len(s) <= MAX_ID_LEN
}

pub fn str_byte_len(s: &String) -> (r: usize)
    ensures
        r == byte_len(s@),
{
    s.as_str().len()
}

pub fn is_valid_id(s: &String) -> (r: bool)
    ensures
        r == valid_id(s@),
{
    let n = s.as_str().len();
    0 < n && n <= MAX_ID_LEN
}

} // verus!
