use vstd::prelude::*;
use vstd::arithmetic::div_mod::lemma_fundamental_div_mod;
use vstd::bytes::lemma_auto_spec_u32_to_from_le_bytes;
use vstd::bytes::spec_u32_to_le_bytes;
use vstd::bytes::u32_to_le_bytes;
use vstd::slice::slice_subrange;

use crate::compress::process_block;
use crate::compress::spec_compress;
use crate::padding::lemma_padded_shape;
use crate::padding::pad_message;
use crate::padding::spec_pad;
use crate::state::init_state;
use crate::state::MD5State;

verus! {

/// The accumulator after the first `n` 64-byte blocks of `p` have been
/// folded, in order, into the fixed initial accumulator.
pub open spec fn blocks_state(p: Seq<u8>, n: nat) -> MD5State
    recommends
        64 * n <= p.len(),
    decreases n,
{
    if n == 0 {
        init_state()
    } else {
        spec_compress(
            blocks_state(p, (n - 1) as nat),
            p.subrange(64 * (n as int - 1), 64 * n as int),
        )
    }
}

/// The 16-byte serialization of an accumulator: A, B, C, D in order, each as
/// 4 little-endian bytes.
pub open spec fn state_bytes(st: MD5State) -> Seq<u8> {
    spec_u32_to_le_bytes(st.a) + spec_u32_to_le_bytes(st.b) + spec_u32_to_le_bytes(st.c)
        + spec_u32_to_le_bytes(st.d)
}

/// The MD5 digest of a byte sequence: pad, fold every 64-byte block into the
/// accumulator in order, then serialize the accumulator.
pub open spec fn spec_md5(msg: Seq<u8>) -> Seq<u8> {
    state_bytes(blocks_state(spec_pad(msg), spec_pad(msg).len() / 64))
}

/// Every digest is exactly 16 bytes long.
pub proof fn lemma_digest_len(msg: Seq<u8>)
    ensures
        spec_md5(msg).len() == 16,
{
    lemma_auto_spec_u32_to_from_le_bytes();
}

/// Determinism: two computations over identical input bytes produce
/// identical digests. Together with `handle_md5`'s contract, any two calls
/// on equal byte sequences return equal digest buffers.
pub proof fn lemma_deterministic(m1: Seq<u8>, m2: Seq<u8>)
    requires
        m1 == m2,
    ensures
        spec_md5(m1) == spec_md5(m2),
{
}

/// Computes the MD5 digest of `input`, exactly as `spec_md5` describes. The
/// length bound keeps the padded buffer's length within `usize`.
#[verifier::loop_isolation(false)]
pub fn handle_md5(input: &[u8]) -> (digest: Vec<u8>)
    requires
        input@.len() + 72 <= usize::MAX,
    ensures
        digest@ == spec_md5(input@),
        digest@.len() == 16,
{
    let mut state = MD5State::new();
    let msg = pad_message(input);
    proof {
        lemma_padded_shape(input@);
        lemma_fundamental_div_mod(msg@.len() as int, 64);
    }
    let n_blocks = msg.len() / 64;

    for i in 0..n_blocks
        invariant
            state == blocks_state(msg@, i as nat),
    {
        proof {
            assert(64 * (i + 1) <= 64 * n_blocks) by (nonlinear_arith)
                requires
                    i < n_blocks,
            ;
        }
        let block = slice_subrange(msg.as_slice(), 64 * i, 64 * i + 64);
        process_block(&mut state, block);
        proof {
            assert(state == blocks_state(msg@, (i + 1) as nat));
        }
    }

    let mut digest: Vec<u8> = Vec::new();
    let mut wa = u32_to_le_bytes(state.a);
    digest.append(&mut wa);
    let mut wb = u32_to_le_bytes(state.b);
    digest.append(&mut wb);
    let mut wc = u32_to_le_bytes(state.c);
    digest.append(&mut wc);
    let mut wd = u32_to_le_bytes(state.d);
    digest.append(&mut wd);
    proof {
        lemma_auto_spec_u32_to_from_le_bytes();
        assert(64 * n_blocks == msg@.len());
        assert(digest@ =~= spec_md5(input@));
    }
    digest
}

} // verus!
