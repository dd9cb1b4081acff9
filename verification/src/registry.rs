use crate::compression::codec::Codec;
use crate::compression::raw_zlib_compressor::RawZlibCompressor;
use crate::compression::zlib_compressor::ZlibCompressor;
use crate::error::{CodecError, MAX_LEVEL};
use vstd::prelude::*;

verus! {

/// The identifier of blocks that are stored as they are.
pub const NONE_ID: u8 = 0;

/// The identifier of blocks stored in a zlib container.
pub const ZLIB_ID: u8 = 2;

/// The identifier of blocks stored as a bare deflate stream.
pub const RAW_DEFLATE_ID: u8 = 4;

/// What looking `identifier` up gives in a registry with the bindings
/// `bindings`: the compressor bound to it, or `UnknownCompressor` with the
/// identifier where nothing is bound to it.
pub open spec fn lookup_in(bindings: Map<u8, Codec>, identifier: u8) -> Result<Codec, CodecError> {
    if bindings.contains_key(identifier) {
        Ok(bindings[identifier])
    } else {
        Err(CodecError::UnknownCompressor(identifier))
    }
}

/// The bindings every reader and writer of the format agrees on, with both
/// compressors at `level`.
pub open spec fn standard_bindings(level: u8) -> Map<u8, Codec> {
    Map::<u8, Codec>::empty().insert(NONE_ID, Codec::Identity).insert(
        ZLIB_ID,
        Codec::Zlib(ZlibCompressor::at_level(level)),
    ).insert(RAW_DEFLATE_ID, Codec::RawDeflate(RawZlibCompressor::at_level(level)))
}

/// The compressors of a database, each under the identifier that blocks
/// stored with it are tagged with.
pub struct CodecRegistry {
    slots: Vec<Option<Codec>>,
}

impl View for CodecRegistry {
    type V = Map<u8, Codec>;

    closed spec fn view(&self) -> Map<u8, Codec> {
        Map::new(
            |id: u8| id < self.slots@.len() && self.slots@[id as int] is Some,
            |id: u8| self.slots@[id as int]->Some_0,
        )
    }
}

impl CodecRegistry {
    /// A registry with no compressor in it.
    pub fn new() -> (out: Self)
        ensures
            out@ == Map::<u8, Codec>::empty(),
    {
        let out = Self { slots: Vec::new() };
        assert(out@ =~= Map::<u8, Codec>::empty());
        out
    }

    /// Binds `codec` to `identifier`. A compressor bound to it before is
    /// replaced; every other binding stays.
    pub fn register(&mut self, identifier: u8, codec: Codec)
        ensures
            final(self)@ == old(self)@.insert(identifier, codec),
    {
        let slot: usize = identifier as usize;
        while self.slots.len() <= slot
            invariant
                self@ =~= old(self)@,
            decreases slot + 1 - self.slots@.len(),
        {
            self.slots.push(None);
        }
        self.slots.set(slot, Some(codec));
        assert(self@ =~= old(self)@.insert(identifier, codec));
    }

    /// Whether a compressor is bound to `identifier`.
    pub fn is_registered(&self, identifier: u8) -> (out: bool)
        ensures
            out == self@.contains_key(identifier),
    {
        let slot: usize = identifier as usize;
        slot < self.slots.len() && self.slots[slot].is_some()
    }

    /// The compressor bound to `identifier`. Where none is bound to it the
    /// lookup fails with `UnknownCompressor`: no other compressor stands in.
    pub fn lookup(&self, identifier: u8) -> (out: Result<Codec, CodecError>)
        ensures
            out == lookup_in(self@, identifier),
    {
        let slot: usize = identifier as usize;
        if slot < self.slots.len() {
            match self.slots[slot] {
                Some(codec) => Ok(codec),
                None => Err(CodecError::UnknownCompressor(identifier)),
            }
        } else {
            Err(CodecError::UnknownCompressor(identifier))
        }
    }

    /// The registry of the format: blocks stored as they are under
    /// `NONE_ID`, zlib under `ZLIB_ID` and bare deflate under
    /// `RAW_DEFLATE_ID`, both at `level`. Fails with `InvalidLevel` exactly
    /// where `level` is above `MAX_LEVEL`.
    pub fn standard(level: u8) -> (out: Result<Self, CodecError>)
        ensures
            level <= MAX_LEVEL ==> out is Ok && out->Ok_0@ == standard_bindings(level),
            level > MAX_LEVEL ==> out is Err && out->Err_0 == CodecError::InvalidLevel(level),
    {
        let zlib = match Codec::zlib(level) {
            Ok(c) => c,
            Err(e) => { return Err(e); },
        };
        let raw = match Codec::raw_deflate(level) {
            Ok(c) => c,
            Err(e) => { return Err(e); },
        };
        let mut registry = Self::new();
        registry.register(NONE_ID, Codec::none());
        registry.register(ZLIB_ID, zlib);
        registry.register(RAW_DEFLATE_ID, raw);
        assert(registry@ == standard_bindings(level));
        Ok(registry)
    }

    /// A lookup finds exactly what the last `register` under that
    /// identifier bound to it.
    pub proof fn lemma_last_register_wins(
        bindings: Map<u8, Codec>,
        identifier: u8,
        first: Codec,
        second: Codec,
    )
        ensures
            lookup_in(bindings.insert(identifier, first).insert(identifier, second), identifier)
                == Ok::<Codec, CodecError>(second),
    {
    }

    /// Registering under one identifier changes no lookup of another: an
    /// identifier that nothing was registered under stays unknown.
    pub proof fn lemma_register_isolated(
        bindings: Map<u8, Codec>,
        identifier: u8,
        codec: Codec,
        other: u8,
    )
        requires
            other != identifier,
        ensures
            lookup_in(bindings.insert(identifier, codec), other) == lookup_in(bindings, other),
    {
    }

    /// In a registry with no compressor every lookup is unknown.
    pub proof fn lemma_empty_knows_nothing(identifier: u8)
        ensures
            lookup_in(Map::<u8, Codec>::empty(), identifier) == Err::<Codec, CodecError>(
                CodecError::UnknownCompressor(identifier),
            ),
    {
    }
}

} // verus!
