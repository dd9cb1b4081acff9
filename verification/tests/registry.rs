use serenityjs_leveldb::registry::{NONE_ID, RAW_DEFLATE_ID, ZLIB_ID};
use serenityjs_leveldb::{Codec, CodecError, CodecRegistry};

#[test]
fn format_identifiers() {
    assert_eq!(NONE_ID, 0);
    assert_eq!(ZLIB_ID, 2);
    assert_eq!(RAW_DEFLATE_ID, 4);
}

#[test]
fn empty_registry_knows_no_identifier() {
    let registry = CodecRegistry::new();
    for id in 0..=255u8 {
        assert!(!registry.is_registered(id));
        assert_eq!(registry.lookup(id), Err(CodecError::UnknownCompressor(id)));
    }
}

#[test]
fn lookup_of_unregistered_identifier_is_unknown() {
    let mut registry = CodecRegistry::new();
    registry.register(0, Codec::none());
    registry.register(4, Codec::raw_deflate(6).unwrap());
    assert_eq!(registry.lookup(2), Err(CodecError::UnknownCompressor(2)));
    assert_eq!(registry.lookup(1), Err(CodecError::UnknownCompressor(1)));
    assert_eq!(registry.lookup(5), Err(CodecError::UnknownCompressor(5)));
    assert_eq!(registry.lookup(255), Err(CodecError::UnknownCompressor(255)));
    assert_eq!(registry.lookup(0), Ok(Codec::Identity));
    assert_eq!(registry.lookup(4), Ok(Codec::raw_deflate(6).unwrap()));
}

#[test]
fn register_overwrites_the_earlier_binding() {
    let mut registry = CodecRegistry::new();
    registry.register(2, Codec::zlib(1).unwrap());
    registry.register(7, Codec::none());
    registry.register(2, Codec::raw_deflate(9).unwrap());
    assert_eq!(registry.lookup(2), Ok(Codec::raw_deflate(9).unwrap()));
    assert_eq!(registry.lookup(7), Ok(Codec::Identity));
    assert!(registry.is_registered(2));
    assert!(!registry.is_registered(3));
}

#[test]
fn register_under_the_highest_identifier() {
    let mut registry = CodecRegistry::new();
    registry.register(255, Codec::zlib(10).unwrap());
    assert_eq!(registry.lookup(255), Ok(Codec::zlib(10).unwrap()));
    for id in 0..255u8 {
        assert_eq!(registry.lookup(id), Err(CodecError::UnknownCompressor(id)));
    }
}

#[test]
fn standard_registry_binds_zero_two_and_four() {
    let registry = CodecRegistry::standard(6).unwrap();
    for id in 0..=255u8 {
        let expected = match id {
            0 => Ok(Codec::Identity),
            2 => Ok(Codec::zlib(6).unwrap()),
            4 => Ok(Codec::raw_deflate(6).unwrap()),
            other => Err(CodecError::UnknownCompressor(other)),
        };
        assert_eq!(registry.lookup(id), expected);
    }
}

#[test]
fn standard_registry_rejects_level_eleven() {
    assert!(matches!(CodecRegistry::standard(11), Err(CodecError::InvalidLevel(11))));
    assert!(CodecRegistry::standard(0).is_ok());
    assert!(CodecRegistry::standard(10).is_ok());
}
