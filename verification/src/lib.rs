//! Block compressors for the LevelDB table variant that tags every stored
//! block with a one-byte compressor identifier, the registry that binds
//! identifiers to compressors, and the policy that picks the identifier a
//! block is stored under.

pub mod compression;
pub mod error;
pub mod registry;
pub mod table_format;

pub use crate::compression::codec::Codec;
pub use crate::compression::raw_zlib_compressor::RawZlibCompressor;
pub use crate::compression::zlib_compressor::ZlibCompressor;
pub use crate::error::CodecError;
pub use crate::registry::CodecRegistry;
pub use crate::table_format::{StoredBlock, TableFormatAdapter};
