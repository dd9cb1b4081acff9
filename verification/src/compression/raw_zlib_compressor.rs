use crate::error::{CodecError, MAX_LEVEL};
use vstd::prelude::*;

verus! {

/// The bare deflate stream that miniz_oxide's `compress_to_vec` produces for
/// `input` at `level`.
pub uninterp spec fn deflate_stream(input: Seq<u8>, level: u8) -> Seq<u8>;

/// What miniz_oxide's `decompress_to_vec` makes of `input`: the inflated
/// bytes, or `None` where it reports an error.
pub uninterp spec fn inflated_stream(input: Seq<u8>) -> Option<Seq<u8>>;

/// Calls `miniz_oxide::deflate::compress_to_vec`. The contract only names the
/// output: it is the function's result for these bytes and this level.
#[verifier::external_body]
fn deflate(block: &Vec<u8>, level: u8) -> (out: Vec<u8>)
    requires
        level <= MAX_LEVEL,
    ensures
        out@ == deflate_stream(block@, level),
{
    miniz_oxide::deflate::compress_to_vec(block.as_slice(), level)
}

/// Calls `miniz_oxide::inflate::decompress_to_vec`. The contract names the
/// output on success and says that an error comes exactly where the named
/// result is `None`.
#[verifier::external_body]
fn inflate(block: &Vec<u8>) -> (out: Result<Vec<u8>, miniz_oxide::inflate::DecompressError>)
    ensures
        match out {
            Ok(bytes) => inflated_stream(block@) == Some(bytes@),
            Err(_) => inflated_stream(block@) is None,
        },
{
    miniz_oxide::inflate::decompress_to_vec(block.as_slice())
}

/// A compressor that stores a block as a bare deflate stream, without
/// container header or checksum.
#[derive(Clone, Copy, Debug, PartialEq, Eq)]
pub struct RawZlibCompressor {
    level: u8,
}

impl RawZlibCompressor {
    #[verifier::type_invariant]
    spec fn level_in_range(self) -> bool {
        self.level <= MAX_LEVEL
    }

    /// The compressor that `new` builds for `level`.
    pub closed spec fn at_level(level: u8) -> Self {
        Self { level }
    }

    /// The level this compressor was built with.
    pub closed spec fn spec_level(&self) -> u8 {
        self.level
    }

    /// A compressor built for a level has that level.
    pub proof fn lemma_level_of_at_level(level: u8)
        ensures
            Self::at_level(level).spec_level() == level,
    {
    }

    /// The bytes `encode` produces for `block`.
    pub open spec fn encoded(self, block: Seq<u8>) -> Seq<u8> {
        deflate_stream(block, self.spec_level())
    }

    /// The bytes `decode` recovers from `block`, or `None` where `block` is
    /// not a valid deflate stream.
    pub open spec fn decoded(self, block: Seq<u8>) -> Option<Seq<u8>> {
        inflated_stream(block)
    }

    /// Builds a compressor for `level`, which must be at most `MAX_LEVEL`.
    pub fn new(level: u8) -> (out: Result<Self, CodecError>)
        ensures
            level <= MAX_LEVEL ==> out == Ok::<Self, CodecError>(Self::at_level(level)),
            out is Ok ==> out->Ok_0.spec_level() == level,
            level > MAX_LEVEL ==> out == Err::<Self, CodecError>(CodecError::InvalidLevel(level)),
    {
        if level > MAX_LEVEL {
            Err(CodecError::InvalidLevel(level))
        } else {
            Ok(Self { level })
        }
    }

    #[verifier::when_used_as_spec(spec_level)]
    pub fn level(&self) -> (out: u8)
        ensures
            out == self.spec_level(),
            out <= MAX_LEVEL,
    {
        proof {
            use_type_invariant(self);
        }
        self.level
    }

    /// Compresses `block` into a bare deflate stream.
    pub fn encode(&self, block: Vec<u8>) -> (out: Vec<u8>)
        ensures
            out@ == self.encoded(block@),
    {
        proof {
            use_type_invariant(self);
        }
        deflate(&block, self.level)
    }

    /// Inflates a bare deflate stream, whatever level it was written at.
    pub fn decode(&self, block: Vec<u8>) -> (out: Result<Vec<u8>, CodecError>)
        ensures
            match out {
                Ok(bytes) => self.decoded(block@) == Some(bytes@),
                Err(e) => e == CodecError::CorruptBlock && self.decoded(block@) is None,
            },
    {
        match inflate(&block) {
            Ok(bytes) => Ok(bytes),
            Err(_) => Err(CodecError::CorruptBlock),
        }
    }
}

} // verus!
