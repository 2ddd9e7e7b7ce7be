use vstd::prelude::*;
use vstd::string::StringExecFns;

use crate::digest::handle_md5;
use crate::digest::lemma_digest_len;
use crate::digest::spec_md5;

verus! {

/// The lowercase hexadecimal character for a nibble.
pub open spec fn hex_char(n: u8) -> char
    recommends
        n < 16,
{
    if n == 0 {
        '0'
    } else if n == 1 {
        '1'
    } else if n == 2 {
        '2'
    } else if n == 3 {
        '3'
    } else if n == 4 {
        '4'
    } else if n == 5 {
        '5'
    } else if n == 6 {
        '6'
    } else if n == 7 {
        '7'
    } else if n == 8 {
        '8'
    } else if n == 9 {
        '9'
    } else if n == 10 {
        'a'
    } else if n == 11 {
        'b'
    } else if n == 12 {
        'c'
    } else if n == 13 {
        'd'
    } else if n == 14 {
        'e'
    } else {
        'f'
    }
}

/// Whether a character is a lowercase hexadecimal digit.
pub open spec fn is_hex_digit_char(ch: char) -> bool {
    ch == '0' || ch == '1' || ch == '2' || ch == '3' || ch == '4' || ch == '5' || ch == '6'
        || ch == '7' || ch == '8' || ch == '9' || ch == 'a' || ch == 'b' || ch == 'c' || ch == 'd'
        || ch == 'e' || ch == 'f'
}

/// The hexadecimal rendering of a byte sequence: two lowercase characters
/// per byte, high nibble first, in byte order.
pub open spec fn spec_hex(bytes: Seq<u8>) -> Seq<char> {
    Seq::new(
        2 * bytes.len(),
        |i: int|
            if i % 2 == 0 {
                hex_char(bytes[i / 2] >> 4)
            } else {
                hex_char(bytes[i / 2] & 0xf)
            },
    )
}

/// The hexadecimal rendering doubles the length, and every character of it
/// is a lowercase hexadecimal digit.
pub proof fn lemma_hex_shape(bytes: Seq<u8>)
    ensures
        spec_hex(bytes).len() == 2 * bytes.len(),
        forall|i: int|
            0 <= i < spec_hex(bytes).len() ==> is_hex_digit_char(#[trigger] spec_hex(bytes)[i]),
{
    assert(forall|b: u8| #[trigger] (b >> 4) < 16 && #[trigger] (b & 0xf) < 16) by (bit_vector);
}

/// A digest is 16 bytes, so its hexadecimal rendering is exactly 32
/// lowercase hexadecimal characters, for every input.
pub proof fn lemma_digest_hex_shape(msg: Seq<u8>)
    ensures
        spec_md5(msg).len() == 16,
        spec_hex(spec_md5(msg)).len() == 32,
        forall|i: int|
            0 <= i < 32 ==> is_hex_digit_char(#[trigger] spec_hex(spec_md5(msg))[i]),
{
    lemma_digest_len(msg);
    lemma_hex_shape(spec_md5(msg));
}

/// The one-character string for a nibble's hexadecimal digit.
fn hex_char_str(n: u8) -> (r: &'static str)
    requires
        n < 16,
    ensures
        r@.len() == 1,
        r@[0] == hex_char(n),
{
    proof {
        reveal_strlit("0");
        reveal_strlit("1");
        reveal_strlit("2");
        reveal_strlit("3");
        reveal_strlit("4");
        reveal_strlit("5");
        reveal_strlit("6");
        reveal_strlit("7");
        reveal_strlit("8");
        reveal_strlit("9");
        reveal_strlit("a");
        reveal_strlit("b");
        reveal_strlit("c");
        reveal_strlit("d");
        reveal_strlit("e");
        reveal_strlit("f");
    }
    if n == 0 {
        "0"
    } else if n == 1 {
        "1"
    } else if n == 2 {
        "2"
    } else if n == 3 {
        "3"
    } else if n == 4 {
        "4"
    } else if n == 5 {
        "5"
    } else if n == 6 {
        "6"
    } else if n == 7 {
        "7"
    } else if n == 8 {
        "8"
    } else if n == 9 {
        "9"
    } else if n == 10 {
        "a"
    } else if n == 11 {
        "b"
    } else if n == 12 {
        "c"
    } else if n == 13 {
        "d"
    } else if n == 14 {
        "e"
    } else {
        "f"
    }
}

/// Renders bytes as lowercase hexadecimal text, exactly as `spec_hex`
/// describes.
#[verifier::loop_isolation(false)]
pub fn hex_encode(bytes: &[u8]) -> (s: String)
    ensures
        s@ == spec_hex(bytes@),
{
    let mut s = String::new();
    let n = bytes.len();
    for i in 0..n
        invariant
            s@ == spec_hex(bytes@).subrange(0, 2 * i as int),
    {
        let b = bytes[i];
        proof {
            assert(b >> 4 < 16 && b & 0xf < 16) by (bit_vector);
        }
        s.append(hex_char_str(b >> 4));
        s.append(hex_char_str(b & 0xf));
        proof {
            assert(s@ =~= spec_hex(bytes@).subrange(0, 2 * (i + 1) as int));
        }
    }
    proof {
        assert(spec_hex(bytes@).subrange(0, 2 * n as int) =~= spec_hex(bytes@));
    }
    s
}

/// The digest of `input` rendered as exactly 32 lowercase hexadecimal
/// characters: the canonical text presentation of an MD5 digest.
pub fn md5_hex(input: &[u8]) -> (s: String)
    requires
        input@.len() + 72 <= usize::MAX,
    ensures
        s@ == spec_hex(spec_md5(input@)),
        s@.len() == 32,
{
    let digest = handle_md5(input);
    let s = hex_encode(digest.as_slice());
    proof {
        lemma_digest_hex_shape(input@);
    }
    s
}

} // verus!
