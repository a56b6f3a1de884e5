use backup_photos::hashing::{hash_bytes, hash_bytes_chunked, to_hex_lower, HASH_CHUNK_SIZE};
use backup_photos::hashing::StreamingHasher;

#[test]
fn hash_of_abc_is_the_known_sha256_digest() {
    let h = hash_bytes(b"abc");
    assert_eq!(
        h,
        b"ba7816bf8f01cfea414140de5dae2223b00361a396177a9cb410ff61f20015ad".to_vec()
    );
}

#[test]
fn hash_of_empty_input_is_the_known_sha256_digest() {
    let h = hash_bytes(b"");
    assert_eq!(
        h,
        b"e3b0c44298fc1c149afbf4c8996fb92427ae41e4649b934ca495991b7852b855".to_vec()
    );
}

#[test]
fn hash_is_independent_of_chunk_size() {
    let data: Vec<u8> = (0..=255u8).cycle().take(1000).collect();
    let h1 = hash_bytes_chunked(&data, 1);
    let h7 = hash_bytes_chunked(&data, 7);
    let h256 = hash_bytes_chunked(&data, 256);
    let hbig = hash_bytes_chunked(&data, HASH_CHUNK_SIZE);
    assert_eq!(h1, h7);
    assert_eq!(h7, h256);
    assert_eq!(h256, hbig);
}

#[test]
fn hash_is_deterministic_across_calls() {
    let data = b"the same bytes every time".to_vec();
    assert_eq!(hash_bytes(&data), hash_bytes(&data));
}

#[test]
fn streaming_hasher_matches_whole_input_hash() {
    let mut h = StreamingHasher::new();
    h.update(b"hello ");
    h.update(b"world");
    let digest = h.finalize();
    let hex = to_hex_lower(&digest);
    assert_eq!(hex, hash_bytes(b"hello world"));
}

#[test]
fn hex_rendering_is_two_lowercase_digits_per_byte() {
    assert_eq!(to_hex_lower(&[0xab, 0x00, 0xff]), b"ab00ff".to_vec());
    assert_eq!(to_hex_lower(&[]), Vec::<u8>::new());
}

#[test]
fn content_hash_is_64_hex_chars() {
    let h = hash_bytes(b"whatever");
    assert_eq!(h.len(), 64);
    assert!(h.iter().all(|b| b.is_ascii_hexdigit() && !b.is_ascii_uppercase()));
}
