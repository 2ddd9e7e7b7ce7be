use vstd::prelude::*;
use vstd::bytes::spec_u32_from_le_bytes;
use vstd::bytes::u32_from_le_bytes;
use vstd::slice::slice_subrange;
use vstd::wrapping::u32_specs;

use crate::state::MD5State;
use crate::tables::k_table;
use crate::tables::s_table;
use crate::tables::spec_k;
use crate::tables::spec_s;

verus! {

/// Left rotation of a 32-bit word by `s % 32` places.
pub open spec fn rotl(x: u32, s: u32) -> u32 {
    let r = (s % 32) as u32;
    if r == 0 {
        x
    } else {
        (x << r) | (x >> ((32 - r) as u32))
    }
}

/// Runtime left rotation, equal to `rotl`.
pub fn rotate_word(x: u32, s: u32) -> (r: u32)
    ensures
        r == rotl(x, s),
{
    let sh = s % 32;
    if sh == 0 {
        x
    } else {
        (x << sh) | (x >> (32 - sh))
    }
}

/// The nonlinear mixing function of round `i`, chosen by quartile.
pub open spec fn round_f(i: int, b: u32, c: u32, d: u32) -> u32
    recommends
        0 <= i < 64,
{
    if i < 16 {
        (b & c) | (!b & d)
    } else if i < 32 {
        (d & b) | (!d & c)
    } else if i < 48 {
        b ^ c ^ d
    } else {
        c ^ (b | !d)
    }
}

/// The message-word index consumed by round `i`, chosen by quartile.
pub open spec fn msg_index(i: int) -> int
    recommends
        0 <= i < 64,
{
    if i < 16 {
        i
    } else if i < 32 {
        (5 * i + 1) % 16
    } else if i < 48 {
        (3 * i + 5) % 16
    } else {
        (7 * i) % 16
    }
}

/// One round applied to the working registers `(a, b, c, d)`, reading message
/// word `msg_index(i)` of `x`; all additions wrap modulo 2^32.
pub open spec fn round_step(x: Seq<u32>, w: (u32, u32, u32, u32), i: int) -> (u32, u32, u32, u32)
    recommends
        0 <= i < 64,
        x.len() == 16,
{
    let (a, b, c, d) = w;
    let f = round_f(i, b, c, d);
    let sum = u32_specs::wrapping_add(
        u32_specs::wrapping_add(u32_specs::wrapping_add(f, a), spec_k()[i]),
        x[msg_index(i)],
    );
    (d, u32_specs::wrapping_add(b, rotl(sum, spec_s()[i])), b, c)
}

/// The working registers after the first `n` of the 64 rounds, starting
/// from `w0`.
pub open spec fn rounds(x: Seq<u32>, w0: (u32, u32, u32, u32), n: nat) -> (u32, u32, u32, u32)
    recommends
        n <= 64,
        x.len() == 16,
    decreases n,
{
    if n == 0 {
        w0
    } else {
        round_step(x, rounds(x, w0, (n - 1) as nat), n - 1)
    }
}

/// A 64-byte block reinterpreted as sixteen little-endian 32-bit words.
pub open spec fn block_words(block: Seq<u8>) -> Seq<u32>
    recommends
        block.len() == 64,
{
    Seq::new(16, |i: int| spec_u32_from_le_bytes(block.subrange(4 * i, 4 * i + 4)))
}

/// The accumulator after folding one 64-byte block into `st`: 64 rounds over
/// the block's words, then a wrapping addition of the pre-round accumulator.
pub open spec fn spec_compress(st: MD5State, block: Seq<u8>) -> MD5State
    recommends
        block.len() == 64,
{
    let x = block_words(block);
    let (a, b, c, d) = rounds(x, (st.a, st.b, st.c, st.d), 64);
    MD5State {
        a: u32_specs::wrapping_add(st.a, a),
        b: u32_specs::wrapping_add(st.b, b),
        c: u32_specs::wrapping_add(st.c, c),
        d: u32_specs::wrapping_add(st.d, d),
    }
}

/// Folds one 64-byte block into the accumulator, exactly as `spec_compress`
/// describes.
#[verifier::loop_isolation(false)]
pub fn process_block(state: &mut MD5State, block: &[u8])
    requires
        block@.len() == 64,
    ensures
        *final(state) == spec_compress(*old(state), block@),
{
    let k = k_table();
    let s = s_table();

    let mut x: Vec<u32> = Vec::new();
    for i in 0..16
        invariant
            x@.len() == i,
            x@ == block_words(block@).subrange(0, i as int),
    {
        let w = u32_from_le_bytes(slice_subrange(block, 4 * i, 4 * i + 4));
        x.push(w);
        proof {
            assert(block_words(block@)[i as int] == w);
            assert(x@ =~= block_words(block@).subrange(0, i + 1));
        }
    }
    assert(x@ =~= block_words(block@));

    let mut a = state.a;
    let mut b = state.b;
    let mut c = state.c;
    let mut d = state.d;
    let ghost w0 = (state.a, state.b, state.c, state.d);

    for i in 0..64
        invariant
            (a, b, c, d) == rounds(x@, w0, i as nat),
    {
        let f: u32 = if i < 16 {
            (b & c) | (!b & d)
        } else if i < 32 {
            (d & b) | (!d & c)
        } else if i < 48 {
            b ^ c ^ d
        } else {
            c ^ (b | !d)
        };
        let g: usize = if i < 16 {
            i
        } else if i < 32 {
            (5 * i + 1) % 16
        } else if i < 48 {
            (3 * i + 5) % 16
        } else {
            (7 * i) % 16
        };
        let sum = f.wrapping_add(a).wrapping_add(k[i]).wrapping_add(x[g]);
        let rotated = rotate_word(sum, s[i]);
        a = d;
        d = c;
        c = b;
        b = b.wrapping_add(rotated);
        proof {
            assert((a, b, c, d) == round_step(x@, rounds(x@, w0, i as nat), i as int));
        }
    }

    state.a = state.a.wrapping_add(a);
    state.b = state.b.wrapping_add(b);
    state.c = state.c.wrapping_add(c);
    state.d = state.d.wrapping_add(d);
}

} // verus!
