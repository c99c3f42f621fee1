use ftd_breadboard::guid::{ftd_uuid_to_uuid, Guid};
use ftd_breadboard::serializer::Serializer;

fn chunked(id: u16, data: &[u8]) -> Vec<u8> {
    let mut s = Serializer::new();
    s.push_chunked(id, data);
    s.into_inner()
}

/// Reads chunks as a reader of the format does: a chunk of 255 bytes is
/// followed by another chunk under the same id.
fn read_chunks(id: u16, bytes: &[u8]) -> Vec<Vec<u8>> {
    let mut chunks = Vec::new();
    let mut at = 0;
    while at < bytes.len() {
        assert_eq!(bytes[at], (id & 0xff) as u8);
        assert_eq!(bytes[at + 1], (id >> 8) as u8);
        let len = bytes[at + 2] as usize;
        chunks.push(bytes[at + 3..at + 3 + len].to_vec());
        at += 3 + len;
    }
    assert_eq!(at, bytes.len());
    chunks
}

fn length_words(length: usize) -> Vec<u16> {
    let mut s = Serializer::new();
    s.push_length_words(length);
    let bytes = s.into_inner();
    assert_eq!(bytes.len() % 2, 0);
    bytes.chunks(2).map(|w| u16::from_le_bytes([w[0], w[1]])).collect()
}

#[test]
fn guid_permutation_exchanges_the_four_pairs() {
    let id = Guid::from_bytes([0, 1, 2, 3, 4, 5, 6, 7, 8, 9, 10, 11, 12, 13, 14, 15]);
    let converted = ftd_uuid_to_uuid(id);
    assert_eq!(
        converted.into_bytes(),
        [3, 2, 1, 0, 5, 4, 7, 6, 8, 9, 10, 11, 12, 13, 14, 15]
    );
}

#[test]
fn guid_permutation_twice_is_identity() {
    let samples: [[u8; 16]; 3] = [
        [0; 16],
        [0x91, 0x42, 0xc7, 0x0d, 0x78, 0x33, 0x41, 0xcd, 0x80, 0x4d, 0x55, 0x4e, 0x99, 0x0b, 0x69, 0x04],
        [255, 254, 253, 252, 251, 250, 249, 248, 247, 246, 245, 244, 243, 242, 241, 240],
    ];
    for bytes in samples {
        let id = Guid::from_bytes(bytes);
        assert_eq!(ftd_uuid_to_uuid(ftd_uuid_to_uuid(id)), id);
    }
}

#[test]
fn guid_permutation_of_a_type_identifier() {
    let id = Guid::from_bytes([
        0x91, 0x42, 0xc7, 0x0d, 0x78, 0x33, 0x41, 0xcd, 0x80, 0x4d, 0x55, 0x4e, 0x99, 0x0b, 0x69, 0x04,
    ]);
    assert_eq!(
        ftd_uuid_to_uuid(id).into_bytes(),
        [0x0d, 0xc7, 0x42, 0x91, 0x33, 0x78, 0xcd, 0x41, 0x80, 0x4d, 0x55, 0x4e, 0x99, 0x0b, 0x69, 0x04]
    );
}

#[test]
fn guid_same_compares_bytes() {
    let a = Guid::from_bytes([7; 16]);
    let mut other = [7u8; 16];
    assert!(a.same(&Guid::from_bytes(other)));
    other[15] = 8;
    assert!(!a.same(&Guid::from_bytes(other)));
}

#[test]
fn word_swapped_offset_is_high_half_first() {
    let mut s = Serializer::new();
    s.push_wierd_u32(0x12345678);
    assert_eq!(s.into_inner(), vec![0x34, 0x12, 0x78, 0x56]);
}

#[test]
fn word_swapped_offset_of_small_and_large_values() {
    let mut s = Serializer::new();
    s.push_wierd_u32(12);
    s.push_wierd_u32(0xffff_0001);
    assert_eq!(s.into_inner(), vec![0, 0, 12, 0, 0xff, 0xff, 1, 0]);
}

#[test]
fn fixed_width_integers_are_little_endian() {
    let mut s = Serializer::new();
    s.push_u8(0xab);
    s.push_u16(0x1234);
    s.push_u24(0x123456);
    s.push_u32(0x89abcdef);
    s.push_u64(0x0102030405060708);
    s.push_i32(-2);
    s.push_i64(-2);
    assert_eq!(s.len(), 1 + 2 + 3 + 4 + 8 + 4 + 8);
    assert_eq!(
        s.into_inner(),
        vec![
            0xab, 0x34, 0x12, 0x56, 0x34, 0x12, 0xef, 0xcd, 0xab, 0x89, 8, 7, 6, 5, 4, 3, 2, 1,
            0xfe, 0xff, 0xff, 0xff, 0xfe, 0xff, 0xff, 0xff, 0xff, 0xff, 0xff, 0xff,
        ]
    );
}

#[test]
fn push_bytes_appends() {
    let mut s = Serializer::new();
    s.push_u8(1);
    s.push_bytes(&[2, 3, 4]);
    s.push_bytes(&[]);
    assert_eq!(s.as_slice(), &[1, 2, 3, 4]);
}

#[test]
fn chunking_an_empty_payload_gives_one_empty_chunk() {
    assert_eq!(chunked(0x0102, &[]), vec![0x02, 0x01, 0]);
}

#[test]
fn chunking_a_short_payload_gives_one_chunk() {
    assert_eq!(chunked(7, &[9, 8, 7]), vec![7, 0, 3, 9, 8, 7]);
}

#[test]
fn chunking_counts_and_reconstructs() {
    for length in [0usize, 1, 2, 254, 255, 256, 509, 510, 511, 765, 766, 1000] {
        let data: Vec<u8> = (0..length).map(|i| (i * 7 % 251) as u8).collect();
        let chunks = read_chunks(0x1234, &chunked(0x1234, &data));
        let expected = if length == 0 { 1 } else { (length + 254) / 255 };
        assert_eq!(chunks.len(), expected, "length {}", length);
        for (i, chunk) in chunks.iter().enumerate() {
            assert!(chunk.len() <= 255);
            if i + 1 < chunks.len() {
                assert_eq!(chunk.len(), 255);
            }
        }
        assert_eq!(chunks.concat(), data);
    }
}

#[test]
fn chunking_255_bytes_gives_exactly_one_chunk() {
    let data = vec![0x55u8; 255];
    let bytes = chunked(1, &data);
    assert_eq!(bytes.len(), 3 + 255);
    assert_eq!(&bytes[..3], &[1, 0, 255]);
}

#[test]
fn chunking_256_bytes_repeats_the_id() {
    let data = vec![0x55u8; 256];
    let bytes = chunked(0x0a0b, &data);
    assert_eq!(bytes.len(), 3 + 255 + 3 + 1);
    assert_eq!(&bytes[..3], &[0x0b, 0x0a, 255]);
    assert_eq!(&bytes[258..], &[0x0b, 0x0a, 1, 0x55]);
}

#[test]
fn length_words_of_small_bodies() {
    assert_eq!(length_words(0), vec![0]);
    assert_eq!(length_words(1), vec![1]);
    assert_eq!(length_words(65534), vec![65534]);
}

#[test]
fn length_words_at_the_word_limit() {
    assert_eq!(length_words(65535), vec![65535, 0]);
    assert_eq!(length_words(65536), vec![65535, 1]);
    assert_eq!(length_words(131070), vec![65535, 65535, 0]);
    assert_eq!(length_words(200000), vec![65535, 65535, 65535, 3395]);
}

#[test]
fn length_words_sum_to_the_length_and_terminate() {
    for length in [0usize, 5, 65534, 65535, 65536, 100000, 131069, 131070, 131071, 1_000_000] {
        let words = length_words(length);
        let total: usize = words.iter().map(|w| *w as usize).sum();
        assert_eq!(total, length);
        assert!(*words.last().unwrap() < 65535);
        for word in &words[..words.len() - 1] {
            assert_eq!(*word, 65535);
        }
        assert_eq!(words.len(), length / 65535 + 1);
    }
}
