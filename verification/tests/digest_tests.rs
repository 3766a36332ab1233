use readwrite_flow::digest::{hash_bytes, hash_chunks, hash_streamed, FileHasher};

const HELLO_SHA256: &str = "2cf24dba5fb0a30e26e83b2ac5b9e29e1b161e5c1fa7425e73043362938b9824";
const EMPTY_SHA256: &str = "e3b0c44298fc1c149afbf4c8996fb92427ae41e4649b934ca495991b7852b855";
const ABC_SHA256: &str = "ba7816bf8f01cfea414140de5dae2223b00361a396177a9cb410ff61f20015ad";

fn sample(len: usize) -> Vec<u8> {
    let mut bytes = Vec::with_capacity(len);
    let mut i: usize = 0;
    while i < len {
        bytes.push(((i * 31 + 7) % 251) as u8);
        i += 1;
    }
    bytes
}

#[test]
fn hash_bytes_of_hello() {
    assert_eq!(hash_bytes(b"hello"), HELLO_SHA256);
}

#[test]
fn hash_bytes_of_nothing() {
    assert_eq!(hash_bytes(b""), EMPTY_SHA256);
}

#[test]
fn hash_bytes_of_abc() {
    assert_eq!(hash_bytes(b"abc"), ABC_SHA256);
}

#[test]
fn hash_is_lowercase_hex_of_64_digits() {
    let hex = hash_bytes(&sample(1000));
    assert_eq!(hex.len(), 64);
    assert!(hex.chars().all(|c| c.is_ascii_digit() || ('a'..='f').contains(&c)));
}

#[test]
fn every_way_of_hashing_gives_64_lowercase_hex_digits() {
    let data = sample(100);
    let mut hasher = FileHasher::new();
    hasher.update(&data);
    for hex in [hasher.finish(), hash_streamed(&data, 7), hash_chunks(&vec![data.clone()])] {
        assert_eq!(hex.len(), 64);
        assert!(hex.chars().all(|c| c.is_ascii_digit() || ('a'..='f').contains(&c)));
    }
}

#[test]
fn hash_chunks_matches_one_pass() {
    let chunks = vec![b"he".to_vec(), Vec::new(), b"l".to_vec(), b"lo".to_vec()];
    assert_eq!(hash_chunks(&chunks), HELLO_SHA256);
}

#[test]
fn hash_chunks_of_no_chunks_is_hash_of_nothing() {
    let chunks: Vec<Vec<u8>> = Vec::new();
    assert_eq!(hash_chunks(&chunks), EMPTY_SHA256);
}

#[test]
fn hash_chunks_depends_on_the_bytes_fed() {
    let chunks = vec![b"ab".to_vec(), b"c".to_vec()];
    assert_eq!(hash_chunks(&chunks), ABC_SHA256);
    assert_ne!(hash_chunks(&chunks), HELLO_SHA256);
}

#[test]
fn hash_streamed_is_transparent_for_every_piece_size() {
    let data = sample(12_345);
    let whole = hash_bytes(&data);
    assert_eq!(hash_streamed(&data, 1), whole);
    assert_eq!(hash_streamed(&data, 3), whole);
    assert_eq!(hash_streamed(&data, 8192), whole);
    assert_eq!(hash_streamed(&data, 12_345), whole);
    assert_eq!(hash_streamed(&data, usize::MAX), whole);
}

#[test]
fn hash_streamed_of_nothing() {
    assert_eq!(hash_streamed(b"", 8192), EMPTY_SHA256);
}

#[test]
fn file_hasher_update_then_finish() {
    let mut hasher = FileHasher::new();
    hasher.update(b"hel");
    hasher.update(b"lo");
    assert_eq!(hasher.finish(), HELLO_SHA256);
}

#[test]
fn file_hasher_fresh_is_hash_of_nothing() {
    assert_eq!(FileHasher::new().finish(), EMPTY_SHA256);
}

#[test]
fn absorb_read_takes_only_the_bytes_read() {
    let mut hasher = FileHasher::new();
    let buffer = *b"hello world, and more";
    assert!(hasher.absorb_read(&buffer, 5));
    assert_eq!(hasher.finish(), HELLO_SHA256);
}

#[test]
fn absorb_read_of_zero_bytes_ends_the_stream() {
    let mut hasher = FileHasher::new();
    let buffer = [7u8; 16];
    assert!(hasher.absorb_read(&buffer, 3) );
    assert!(!hasher.absorb_read(&buffer, 0));
    assert_eq!(hasher.finish(), hash_bytes(&[7u8, 7, 7]));
}

#[test]
fn absorb_read_loop_over_a_source_in_buffer_sized_reads() {
    let data = sample(12_345);
    let mut hasher = FileHasher::new();
    let mut buffer = [0u8; 8192];
    let mut offset: usize = 0;
    let mut fed: usize = 0;
    loop {
        let read = std::cmp::min(buffer.len(), data.len() - offset);
        buffer[..read].copy_from_slice(&data[offset..offset + read]);
        offset += read;
        if !hasher.absorb_read(&buffer, read) {
            break;
        }
        fed += read;
    }
    assert_eq!(fed, 12_345);
    assert_eq!(hasher.finish(), hash_bytes(&data));
}
