use md5_core::digest::handle_md5;
use md5_core::hex::hex_encode;
use md5_core::hex::md5_hex;
use md5_core::padding::pad_message;
use md5_core::compress::process_block;
use md5_core::MD5State;

fn hex_of(input: &[u8]) -> String {
    md5_hex(input)
}

#[test]
fn empty_input_vector() {
    assert_eq!(hex_of(b""), "d41d8cd98f00b204e9800998ecf8427e");
}

#[test]
fn hello_vector() {
    assert_eq!(hex_of(b"hello"), "5d41402abc4b2a76b9719d911017c592");
}

#[test]
fn abc_vector() {
    assert_eq!(hex_of(b"abc"), "900150983cd24fb0d6963f7d28e17f72");
}

#[test]
fn rfc_suite_vectors() {
    assert_eq!(hex_of(b"a"), "0cc175b9c0f1b6a831c399e269772661");
    assert_eq!(hex_of(b"message digest"), "f96b697d7cb7938d525a2f31aaf161d0");
    assert_eq!(
        hex_of(b"abcdefghijklmnopqrstuvwxyz"),
        "c3fcd3d76192e4007dfb496cca67e13b"
    );
    assert_eq!(
        hex_of(b"ABCDEFGHIJKLMNOPQRSTUVWXYZabcdefghijklmnopqrstuvwxyz0123456789"),
        "d174ab98d277d9f5a5611c2c9f419d9f"
    );
    assert_eq!(
        hex_of(
            b"12345678901234567890123456789012345678901234567890123456789012345678901234567890"
        ),
        "57edf4a22be3c955ac49da2e2107b67a"
    );
}

#[test]
fn fifty_six_byte_boundary_vector() {
    // 56 bytes: the 0x80 marker and the length bytes force a whole extra
    // 64-byte block of zero fill.
    let input = b"12345678901234567890123456789012345678901234567890123456";
    assert_eq!(input.len(), 56);
    assert_eq!(hex_of(input), "49f193adce178490e34d1b3a4ec0064c");

    let padded = pad_message(input);
    assert_eq!(padded.len(), 128);
}

#[test]
fn two_block_vectors() {
    let input: Vec<u8> = std::iter::repeat(b"ab")
        .take(32)
        .flat_map(|p| p.iter().copied())
        .collect();
    assert_eq!(input.len(), 64);
    assert_eq!(hex_of(&input), "28cd73447ffe5d9912a2edbbb90742dd");

    let zs = vec![b'z'; 64];
    assert_eq!(hex_of(&zs), "3ecc49f9d9d6c263b4f0de7fc3f38aed");
}

#[test]
fn digest_is_sixteen_bytes() {
    for input in [&b""[..], &b"hello"[..], &[0u8; 200][..]] {
        assert_eq!(handle_md5(input).len(), 16);
    }
}

#[test]
fn hex_is_thirty_two_lowercase_hex_chars() {
    for input in [&b""[..], &b"hello"[..], &[0xffu8; 100][..]] {
        let s = hex_of(input);
        assert_eq!(s.len(), 32);
        assert!(s.chars().all(|c| matches!(c, '0'..='9' | 'a'..='f')));
    }
}

#[test]
fn hex_encode_exact_values() {
    assert_eq!(hex_encode(&[]), "");
    assert_eq!(hex_encode(&[0x00, 0x7f, 0xff, 0x10]), "007fff10");
    assert_eq!(hex_encode(&[0xab]), "ab");
}

#[test]
fn deterministic_across_calls() {
    let input = b"determinism check";
    assert_eq!(handle_md5(input), handle_md5(input));
    assert_eq!(handle_md5(&input.to_vec()), handle_md5(input));
    assert_eq!(hex_of(input), hex_of(input));
}

#[test]
fn digest_of_abc_bytes() {
    let expected: Vec<u8> = vec![
        0x90, 0x01, 0x50, 0x98, 0x3c, 0xd2, 0x4f, 0xb0, 0xd6, 0x96, 0x3f, 0x7d, 0x28, 0xe1,
        0x7f, 0x72,
    ];
    assert_eq!(handle_md5(b"abc"), expected);
}

#[test]
fn padding_layout() {
    // 3-byte input: 0x80 marker at offset 3, zero fill to 56, then the
    // bit-length 24 as 8 little-endian bytes.
    let padded = pad_message(b"abc");
    assert_eq!(padded.len(), 64);
    assert_eq!(&padded[0..3], b"abc");
    assert_eq!(padded[3], 0x80);
    assert!(padded[4..56].iter().all(|&b| b == 0));
    assert_eq!(&padded[56..64], &[24, 0, 0, 0, 0, 0, 0, 0]);
}

#[test]
fn padding_invariant_over_lengths() {
    for n in 0..200usize {
        let input = vec![0x5au8; n];
        let padded = pad_message(&input);
        assert_eq!(padded.len() % 64, 0);
        assert!(padded.len() >= input.len() + 9);
        assert!(padded.len() <= input.len() + 72);
        assert_eq!(&padded[..n], &input[..]);
        assert_eq!(padded[n], 0x80);
        let bits = (n as u64) * 8;
        assert_eq!(&padded[padded.len() - 8..], &bits.to_le_bytes()[..]);
    }
}

#[test]
fn accumulator_initial_constants() {
    let st = MD5State::new();
    assert_eq!(st.a, 0x67452301);
    assert_eq!(st.b, 0xefcdab89);
    assert_eq!(st.c, 0x98badcfe);
    assert_eq!(st.d, 0x10325476);
}

#[test]
fn compress_single_padded_block() {
    // Folding the padded empty message into a fresh accumulator must yield
    // the words of the empty-input digest d41d8cd98f00b204e9800998ecf8427e.
    let mut st = MD5State::new();
    let padded = pad_message(b"");
    assert_eq!(padded.len(), 64);
    process_block(&mut st, &padded);
    assert_eq!(st.a, 0xd98c1dd4);
    assert_eq!(st.b, 0x04b2008f);
    assert_eq!(st.c, 0x980980e9);
    assert_eq!(st.d, 0x7e42f8ec);
}
