use vstd::prelude::*;
use vstd::arithmetic::div_mod::lemma_fundamental_div_mod;
use vstd::bytes::spec_u64_to_le_bytes;
use vstd::bytes::u64_to_le_bytes;
use vstd::bytes::lemma_auto_spec_u64_to_from_le_bytes;
use vstd::slice::slice_to_vec;

verus! {

/// How many 0x00 bytes follow the 0x80 marker so that the total length,
/// before the 8 length bytes, is 56 modulo 64.
pub open spec fn zero_pad_len(l: nat) -> nat {
    if l % 64 <= 55 {
        (55 - l % 64) as nat
    } else {
        (119 - l % 64) as nat
    }
}

/// The low 64 bits of the input's bit-length, as 8 little-endian bytes.
pub open spec fn length_bytes(l: nat) -> Seq<u8> {
    spec_u64_to_le_bytes(((l * 8) % 0x1_0000_0000_0000_0000) as u64)
}

/// The padded message: the input, one 0x80 byte, zero fill up to 56 modulo
/// 64, then the original bit-length as an 8-byte little-endian integer.
pub open spec fn spec_pad(msg: Seq<u8>) -> Seq<u8> {
    msg + seq![0x80u8] + Seq::new(zero_pad_len(msg.len()), |i: int| 0u8) + length_bytes(msg.len())
}

/// The padded message always has a length that is a positive multiple of 64,
/// and padding appends at least 9 and at most 72 bytes.
pub proof fn lemma_padded_shape(msg: Seq<u8>)
    ensures
        spec_pad(msg).len() % 64 == 0,
        spec_pad(msg).len() >= msg.len() + 9,
        spec_pad(msg).len() <= msg.len() + 72,
        spec_pad(msg).len() >= 64,
{
    lemma_auto_spec_u64_to_from_le_bytes();
    let l = msg.len() as int;
    let r = l % 64;
    let q = l / 64;
    lemma_fundamental_div_mod(l, 64);
    let total = spec_pad(msg).len() as int;
    if r <= 55 {
        assert(total == 64 * q + 64);
        assert(total % 64 == (64 * (q + 1)) % 64);
        assert((64 * (q + 1)) % 64 == 0) by (nonlinear_arith);
    } else {
        assert(total == 64 * q + 128);
        assert(total % 64 == (64 * (q + 2)) % 64);
        assert((64 * (q + 2)) % 64 == 0) by (nonlinear_arith);
    }
}

/// Pads the input exactly as `spec_pad` describes. The length bound keeps
/// the padded buffer's length within `usize`.
#[verifier::loop_isolation(false)]
pub fn pad_message(input: &[u8]) -> (padded: Vec<u8>)
    requires
        input@.len() + 72 <= usize::MAX,
    ensures
        padded@ == spec_pad(input@),
{
    let l = input.len();
    let mut msg: Vec<u8> = slice_to_vec(input);
    msg.push(0x80);

    let rem = l % 64;
    let z: usize = if rem <= 55 {
        55 - rem
    } else {
        119 - rem
    };
    for i in 0..z
        invariant
            msg@ == input@ + seq![0x80u8] + Seq::new(i as nat, |j: int| 0u8),
    {
        msg.push(0);
        proof {
            assert(msg@ =~= input@ + seq![0x80u8] + Seq::new((i + 1) as nat, |j: int| 0u8));
        }
    }

    let bits: u64 = (l as u64).wrapping_mul(8);
    proof {
        assert(bits == (l * 8) % 0x1_0000_0000_0000_0000);
    }
    let mut tail = u64_to_le_bytes(bits);
    msg.append(&mut tail);
    proof {
        assert(msg@ =~= spec_pad(input@));
    }
    msg
}

} // verus!
