use sha256::hash;
use sha256::HashError;

fn hex(s: &str) -> [u8; 32] {
    let s: Vec<u8> = s.bytes().filter(|c| *c != b' ').collect();
    assert_eq!(s.len(), 64);
    let mut out = [0u8; 32];
    for i in 0..32 {
        let pair = std::str::from_utf8(&s[2 * i..2 * i + 2]).unwrap();
        out[i] = u8::from_str_radix(pair, 16).unwrap();
    }
    out
}

fn digest(m: &[u8]) -> [u8; 32] {
    match hash(m) {
        Ok(d) => d,
        Err(HashError::InputTooLarge) => panic!("message refused as too large"),
    }
}

#[test]
fn digest_is_32_bytes() {
    for n in [0usize, 1, 55, 56, 64, 100, 1000] {
        let m = vec![0x5au8; n];
        assert_eq!(digest(&m).len(), 32);
    }
}

#[test]
fn empty_message() {
    assert_eq!(
        digest(b""),
        hex("e3b0c442 98fc1c14 9afbf4c8 996fb924 27ae41e4 649b934c a495991b 7852b855")
    );
}

#[test]
fn abc() {
    assert_eq!(
        digest(b"abc"),
        hex("ba7816bf 8f01cfea 414140de 5dae2223 b00361a3 96177a9c b410ff61 f20015ad")
    );
}

#[test]
fn fifty_five_bytes_one_block() {
    let m = vec![b'a'; 55];
    assert_eq!(
        digest(&m),
        hex("9f4390f8 d30c2dd9 2ec9f095 b65e2b9a e9b0a925 a5258e24 1c9f1e91 0f734318")
    );
}

#[test]
fn fifty_six_bytes_two_blocks() {
    assert_eq!(
        digest(b"abcdbcdecdefdefgefghfghighijhijkijkljklmklmnlmnomnopnopq"),
        hex("248d6a61 d20638b8 e5c02693 0c3e6039 a33ce459 64ff2167 f6ecedd4 19db06c1")
    );
    let m = vec![b'a'; 56];
    assert_eq!(
        digest(&m),
        hex("b35439a4 ac6f0948 b6d6f9e3 c6af0f5f 590ce20f 1bde7090 ef797068 6ec6738a")
    );
}

#[test]
fn block_edges() {
    assert_eq!(
        digest(&vec![b'a'; 63]),
        hex("7d3e74a0 5d7db15b ce4ad9ec 0658ea98 e3f06eee cf16b4c6 fff2da45 7ddc2f34")
    );
    assert_eq!(
        digest(&vec![b'a'; 64]),
        hex("ffe054fe 7ae0cb6d c65c3af9 b61d5209 f439851d b43d0ba5 997337df 154668eb")
    );
    assert_eq!(
        digest(&vec![b'a'; 119]),
        hex("31eba51c 313a5c08 226adf18 d4a359cf dfd8d2e8 16b13f4a f952f7ea 6584dcfb")
    );
    assert_eq!(
        digest(&vec![b'a'; 120]),
        hex("2f3d3354 32c70b58 0af0e8e1 b3674a7c 020d683a a5f73aaa edfdc55a f904c21c")
    );
}

#[test]
fn quick_brown_fox() {
    assert_eq!(
        digest(b"The quick brown fox jumps over the lazy dog"),
        hex("d7a8fbb3 07d78094 69ca9abc b0082e4f 8d5651e4 6d3cdb76 2d02d0bf 37c9e592")
    );
}

#[test]
fn all_byte_values() {
    let m: Vec<u8> = (0..=255u8).collect();
    assert_eq!(
        digest(&m),
        hex("40aff2e9 d2d8922e 47afd464 8e696749 7158785f bd1da870 e7110266 bf944880")
    );
}

#[test]
fn one_million_a() {
    let m = vec![b'a'; 1_000_000];
    assert_eq!(
        digest(&m),
        hex("cdc76e5c 9914fb92 81a1c7e2 84d73e67 f1809a48 a497200e 046d39cc c7112cd0")
    );
}

#[test]
fn same_input_same_digest() {
    let m = b"determinism".to_vec();
    let copy = m.clone();
    let first = hash(&m);
    let _other = hash(b"something else in between");
    let second = hash(&copy);
    assert_eq!(first, second);
    assert!(first.is_ok());
}

#[test]
fn single_bit_flip_changes_about_half() {
    let mut seed: u64 = 0x0123_4567_89ab_cdef;
    let mut next = move || {
        seed = seed.wrapping_mul(6364136223846793005).wrapping_add(1442695040888963407);
        seed >> 33
    };
    let trials = 300u32;
    let mut total_changed: u32 = 0;
    for _ in 0..trials {
        let len = 1 + (next() % 150) as usize;
        let m: Vec<u8> = (0..len).map(|_| next() as u8).collect();
        let bit = (next() as usize) % (8 * len);
        let mut flipped = m.clone();
        flipped[bit / 8] ^= 1 << (bit % 8);
        let a = digest(&m);
        let b = digest(&flipped);
        assert_ne!(a, b);
        total_changed += a.iter().zip(b.iter()).map(|(x, y)| (x ^ y).count_ones()).sum::<u32>();
    }
    let mean = total_changed as f64 / trials as f64;
    assert!(mean > 120.0 && mean < 136.0, "mean changed bits {}", mean);
}
