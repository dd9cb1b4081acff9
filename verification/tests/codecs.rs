use serenityjs_leveldb::error::MAX_LEVEL;
use serenityjs_leveldb::{Codec, CodecError, RawZlibCompressor, ZlibCompressor};

fn pseudo_random(len: usize, seed: u32) -> Vec<u8> {
    let mut state = seed;
    let mut out = Vec::with_capacity(len);
    for _ in 0..len {
        state = state.wrapping_mul(1664525).wrapping_add(1013904223);
        out.push((state >> 24) as u8);
    }
    out
}

fn corpus() -> Vec<Vec<u8>> {
    vec![
        Vec::new(),
        vec![0x5a],
        vec![0x01, 0x02],
        vec![0u8; 10_000],
        b"abcabcabcabcabcabcabcabcabcabcabcabcabcabcabcabc".repeat(50),
        pseudo_random(1, 7),
        pseudo_random(300, 1),
        pseudo_random(5_000, 42),
        pseudo_random(70_000, 99),
    ]
}

fn all_codecs(level: u8) -> Vec<Codec> {
    vec![
        Codec::none(),
        Codec::zlib(level).unwrap(),
        Codec::raw_deflate(level).unwrap(),
    ]
}

const DEFLATE_LATE: [u8; 11] = [
    0x73, 0x49, 0x4d, 0xcb, 0x49, 0x2c, 0x49, 0x55, 0x00, 0x11, 0x00,
];

#[test]
fn round_trip_every_codec_every_level() {
    for level in 0..=MAX_LEVEL {
        for codec in all_codecs(level) {
            for data in corpus() {
                let stored = codec.encode(data.clone());
                assert_eq!(codec.decode(stored), Ok(data));
            }
        }
    }
}

#[test]
fn decode_does_not_depend_on_level() {
    let data = b"abcabcabcabcabcabcabcabcabcabcabcabcabcabc".repeat(20);
    for level in 0..=MAX_LEVEL {
        let zlib = ZlibCompressor::new(level).unwrap().encode(data.clone());
        let raw = RawZlibCompressor::new(level).unwrap().encode(data.clone());
        for other in 0..=MAX_LEVEL {
            assert_eq!(ZlibCompressor::new(other).unwrap().decode(zlib.clone()), Ok(data.clone()));
            assert_eq!(RawZlibCompressor::new(other).unwrap().decode(raw.clone()), Ok(data.clone()));
        }
    }
}

#[test]
fn identity_codec_hands_the_block_back() {
    let codec = Codec::none();
    assert_eq!(codec, Codec::Identity);
    for data in corpus() {
        assert_eq!(codec.encode(data.clone()), data);
        assert_eq!(codec.decode(data.clone()), Ok(data));
    }
}

#[test]
fn raw_deflate_known_stream() {
    let data = b"Deflate late".to_vec();
    let low = RawZlibCompressor::new(1).unwrap();
    let high = RawZlibCompressor::new(9).unwrap();
    assert_eq!(low.encode(data.clone()), DEFLATE_LATE.to_vec());
    assert_eq!(high.encode(data.clone()), DEFLATE_LATE.to_vec());
    assert_eq!(low.decode(DEFLATE_LATE.to_vec()), Ok(data.clone()));
    assert_eq!(Codec::raw_deflate(1).unwrap().encode(data), DEFLATE_LATE.to_vec());
}

#[test]
fn zlib_known_stream() {
    let data = b"Deflate late".to_vec();
    let stored = ZlibCompressor::new(1).unwrap().encode(data.clone());
    assert_eq!(stored.len(), 2 + DEFLATE_LATE.len() + 4);
    assert_eq!(stored[0], 0x78);
    assert_eq!((u16::from(stored[0]) * 256 + u16::from(stored[1])) % 31, 0);
    assert_eq!(&stored[2..13], &DEFLATE_LATE[..]);
    assert_eq!(&stored[13..], &[0x1c, 0xad, 0x04, 0x7c]);
    assert_eq!(Codec::zlib(1).unwrap().decode(stored), Ok(data));
}

#[test]
fn zlib_container_is_six_bytes_longer_than_the_bare_stream() {
    for level in 0..=MAX_LEVEL {
        for data in corpus() {
            let zlib = ZlibCompressor::new(level).unwrap().encode(data.clone());
            let raw = RawZlibCompressor::new(level).unwrap().encode(data);
            assert_eq!(zlib.len(), raw.len() + 6);
            assert_eq!(&zlib[2..zlib.len() - 4], &raw[..]);
        }
    }
}

#[test]
fn level_eleven_is_rejected() {
    assert_eq!(ZlibCompressor::new(11), Err(CodecError::InvalidLevel(11)));
    assert_eq!(RawZlibCompressor::new(11), Err(CodecError::InvalidLevel(11)));
    assert_eq!(Codec::zlib(11), Err(CodecError::InvalidLevel(11)));
    assert_eq!(Codec::raw_deflate(11), Err(CodecError::InvalidLevel(11)));
    assert_eq!(ZlibCompressor::new(255), Err(CodecError::InvalidLevel(255)));
    assert_eq!(RawZlibCompressor::new(12), Err(CodecError::InvalidLevel(12)));
}

#[test]
fn level_zero_and_ten_are_accepted_and_round_trip() {
    for level in [0u8, 10u8] {
        let zlib = ZlibCompressor::new(level).unwrap();
        let raw = RawZlibCompressor::new(level).unwrap();
        assert_eq!(zlib.level(), level);
        assert_eq!(raw.level(), level);
        for data in corpus() {
            assert_eq!(zlib.decode(zlib.encode(data.clone())), Ok(data.clone()));
            assert_eq!(raw.decode(raw.encode(data.clone())), Ok(data));
        }
    }
}

#[test]
fn every_level_up_to_ten_is_accepted() {
    for level in 0..=MAX_LEVEL {
        assert_eq!(ZlibCompressor::new(level).unwrap().level(), level);
        assert_eq!(RawZlibCompressor::new(level).unwrap().level(), level);
    }
}

#[test]
fn zlib_block_is_corrupt_for_raw_deflate() {
    let zlib = ZlibCompressor::new(6).unwrap();
    let raw = RawZlibCompressor::new(6).unwrap();
    for data in corpus() {
        assert_eq!(raw.decode(zlib.encode(data)), Err(CodecError::CorruptBlock));
    }
}

#[test]
fn raw_deflate_block_is_corrupt_for_zlib() {
    let zlib = ZlibCompressor::new(6).unwrap();
    let raw = RawZlibCompressor::new(6).unwrap();
    for data in corpus() {
        assert_eq!(zlib.decode(raw.encode(data)), Err(CodecError::CorruptBlock));
    }
}

#[test]
fn truncated_stream_is_corrupt() {
    let data = pseudo_random(300, 3);
    let zlib = ZlibCompressor::new(6).unwrap();
    let raw = RawZlibCompressor::new(6).unwrap();
    let mut z = zlib.encode(data.clone());
    z.truncate(z.len() - 5);
    assert_eq!(zlib.decode(z), Err(CodecError::CorruptBlock));
    let mut r = raw.encode(data);
    r.truncate(r.len() / 2);
    assert_eq!(raw.decode(r), Err(CodecError::CorruptBlock));
    assert_eq!(zlib.decode(Vec::new()), Err(CodecError::CorruptBlock));
    assert_eq!(raw.decode(Vec::new()), Err(CodecError::CorruptBlock));
}

#[test]
fn zlib_checksum_mismatch_is_corrupt() {
    let zlib = ZlibCompressor::new(6).unwrap();
    let mut stored = zlib.encode(b"Deflate late".to_vec());
    let last = stored.len() - 1;
    stored[last] ^= 0xff;
    assert_eq!(zlib.decode(stored), Err(CodecError::CorruptBlock));
}

#[test]
fn malformed_header_is_corrupt() {
    let zlib = Codec::zlib(6).unwrap();
    let raw = Codec::raw_deflate(6).unwrap();
    assert_eq!(zlib.decode(vec![0x00, 0x00, 0x01, 0x02]), Err(CodecError::CorruptBlock));
    assert_eq!(raw.decode(vec![0xff, 0xff, 0xff, 0xff]), Err(CodecError::CorruptBlock));
}
