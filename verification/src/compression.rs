use vstd::prelude::*;

pub mod codec;
pub mod raw_zlib_compressor;
pub mod zlib_compressor;

verus! {

/// What miniz_oxide's `decompress_to_vec` and `decompress_to_vec_zlib` return
/// on failure. It is only told apart from success, never looked into.
#[verifier::external_type_specification]
#[verifier::external_body]
pub struct ExDecompressError(miniz_oxide::inflate::DecompressError);

} // verus!
