use crate::compression::raw_zlib_compressor::RawZlibCompressor;
use crate::compression::zlib_compressor::ZlibCompressor;
use crate::error::{CodecError, MAX_LEVEL};
use vstd::prelude::*;

verus! {

/// One of the compressors a block can be stored with.
#[derive(Clone, Copy, Debug, PartialEq, Eq)]
pub enum Codec {
    /// Stores the block as it is.
    Identity,
    /// Stores the block in a zlib container.
    Zlib(ZlibCompressor),
    /// Stores the block as a bare deflate stream.
    RawDeflate(RawZlibCompressor),
}

impl Codec {
    /// The bytes `encode` produces for `block`.
    pub open spec fn encoded(self, block: Seq<u8>) -> Seq<u8> {
        match self {
            Codec::Identity => block,
            Codec::Zlib(c) => c.encoded(block),
            Codec::RawDeflate(c) => c.encoded(block),
        }
    }

    /// The bytes `decode` recovers from `block`, or `None` where `block` is
    /// not a valid stream for this compressor.
    pub open spec fn decoded(self, block: Seq<u8>) -> Option<Seq<u8>> {
        match self {
            Codec::Identity => Some(block),
            Codec::Zlib(c) => c.decoded(block),
            Codec::RawDeflate(c) => c.decoded(block),
        }
    }

    /// The compressor that stores a block as it is.
    pub fn none() -> (out: Self)
        ensures
            out == Codec::Identity,
    {
        Codec::Identity
    }

    /// The zlib compressor at `level`, which must be at most `MAX_LEVEL`.
    pub fn zlib(level: u8) -> (out: Result<Self, CodecError>)
        ensures
            level <= MAX_LEVEL ==> out == Ok::<Self, CodecError>(
                Codec::Zlib(ZlibCompressor::at_level(level)),
            ),
            level > MAX_LEVEL ==> out == Err::<Self, CodecError>(CodecError::InvalidLevel(level)),
    {
        match ZlibCompressor::new(level) {
            Ok(c) => Ok(Codec::Zlib(c)),
            Err(e) => Err(e),
        }
    }

    /// The bare deflate compressor at `level`, which must be at most
    /// `MAX_LEVEL`.
    pub fn raw_deflate(level: u8) -> (out: Result<Self, CodecError>)
        ensures
            level <= MAX_LEVEL ==> out == Ok::<Self, CodecError>(
                Codec::RawDeflate(RawZlibCompressor::at_level(level)),
            ),
            level > MAX_LEVEL ==> out == Err::<Self, CodecError>(CodecError::InvalidLevel(level)),
    {
        match RawZlibCompressor::new(level) {
            Ok(c) => Ok(Codec::RawDeflate(c)),
            Err(e) => Err(e),
        }
    }

    /// Transforms a block into the bytes that are stored for it.
    pub fn encode(&self, block: Vec<u8>) -> (out: Vec<u8>)
        ensures
            out@ == self.encoded(block@),
    {
        match self {
            Codec::Identity => block,
            Codec::Zlib(c) => c.encode(block),
            Codec::RawDeflate(c) => c.encode(block),
        }
    }

    /// Recovers a block from the bytes that were stored for it. Fails with
    /// `CorruptBlock`, and with nothing else, exactly where the bytes are not
    /// a valid stream for this compressor.
    pub fn decode(&self, block: Vec<u8>) -> (out: Result<Vec<u8>, CodecError>)
        ensures
            match out {
                Ok(bytes) => self.decoded(block@) == Some(bytes@),
                Err(e) => e == CodecError::CorruptBlock && self.decoded(block@) is None,
            },
    {
        match self {
            Codec::Identity => Ok(block),
            Codec::Zlib(c) => c.decode(block),
            Codec::RawDeflate(c) => c.decode(block),
        }
    }

    /// Storing a block as it is and reading it back gives the block.
    pub proof fn lemma_none_round_trip(block: Seq<u8>)
        ensures
            Codec::Identity.decoded(Codec::Identity.encoded(block)) == Some(block),
    {
    }
}

} // verus!
