use vstd::prelude::*;

verus! {

/// The four 32-bit running words (A, B, C, D) carried across blocks of one
/// MD5 computation. Each computation owns its own state; the final value is
/// the source of the digest.
pub struct MD5State {
    pub a: u32,
    pub b: u32,
    pub c: u32,
    pub d: u32,
}

/// The fixed initial accumulator of RFC 1321.
pub open spec fn init_state() -> MD5State {
    MD5State { a: 0x67452301, b: 0xefcdab89, c: 0x98badcfe, d: 0x10325476 }
}

impl MD5State {
    /// A fresh accumulator, holding the fixed initialization constants.
    pub fn new() -> (s: MD5State)
        ensures
            s == init_state(),
    {
        MD5State { a: 0x67452301, b: 0xefcdab89, c: 0x98badcfe, d: 0x10325476 }
    }
}

} // verus!
