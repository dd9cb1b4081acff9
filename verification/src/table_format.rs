use crate::compression::codec::Codec;
use crate::error::CodecError;
use crate::registry::{lookup_in, standard_bindings, CodecRegistry, NONE_ID, RAW_DEFLATE_ID};
use vstd::prelude::*;

verus! {

/// The identifier that new blocks are tagged with unless a database is
/// opened with another.
pub const DEFAULT_IDENTIFIER: u8 = RAW_DEFLATE_ID;

/// The level of the compressors in the registry of a database that is
/// opened without one of its own.
pub const DEFAULT_LEVEL: u8 = 6;

/// A block as it goes to disk: the bytes, and the identifier of the
/// compressor that reads them back.
#[derive(Debug, PartialEq, Eq)]
pub struct StoredBlock {
    pub identifier: u8,
    pub bytes: Vec<u8>,
}

impl View for StoredBlock {
    type V = (u8, Seq<u8>);

    open spec fn view(&self) -> (u8, Seq<u8>) {
        (self.identifier, self.bytes@)
    }
}

/// What is stored for the block `raw`, given what the default compressor
/// made of it: the compressed bytes under the default identifier where they
/// are shorter than the block, else the block itself under `NONE_ID`.
pub open spec fn stored_form(default_identifier: u8, raw: Seq<u8>, compressed: Seq<u8>) -> (
    u8,
    Seq<u8>,
) {
    if compressed.len() < raw.len() {
        (default_identifier, compressed)
    } else {
        (NONE_ID, raw)
    }
}

/// What a writer with the bindings `bindings` and the default identifier
/// `default_identifier` stores for the block `raw`.
pub open spec fn write_form(bindings: Map<u8, Codec>, default_identifier: u8, raw: Seq<u8>) -> (
    u8,
    Seq<u8>,
) {
    stored_form(default_identifier, raw, bindings[default_identifier].encoded(raw))
}

/// What a reader with the bindings `bindings` makes of the bytes `payload`
/// tagged with `identifier`: `UnknownCompressor` where nothing is bound to
/// the identifier, `CorruptBlock` where the compressor bound to it rejects
/// the bytes, else what that compressor recovers.
pub open spec fn read_form(bindings: Map<u8, Codec>, identifier: u8, payload: Seq<u8>) -> Result<
    Seq<u8>,
    CodecError,
> {
    match lookup_in(bindings, identifier) {
        Err(e) => Err(e),
        Ok(codec) => match codec.decoded(payload) {
            Some(bytes) => Ok(bytes),
            None => Err(CodecError::CorruptBlock),
        },
    }
}

/// The view of what `read_block` returns.
pub open spec fn read_view(out: Result<Vec<u8>, CodecError>) -> Result<Seq<u8>, CodecError> {
    match out {
        Ok(bytes) => Ok(bytes@),
        Err(e) => Err(e),
    }
}

/// Picks what is stored for the block `raw`, of which the default
/// compressor made `compressed`.
pub fn select_stored(default_identifier: u8, raw: Vec<u8>, compressed: Vec<u8>) -> (out:
    StoredBlock)
    ensures
        out@ == stored_form(default_identifier, raw@, compressed@),
{
    if compressed.len() < raw.len() {
        StoredBlock { identifier: default_identifier, bytes: compressed }
    } else {
        StoredBlock { identifier: NONE_ID, bytes: raw }
    }
}

/// The compressors of an open database and the identifier that it tags new
/// blocks with.
pub struct TableFormatAdapter {
    registry: CodecRegistry,
    default_identifier: u8,
}

impl TableFormatAdapter {
    #[verifier::type_invariant]
    spec fn default_is_registered(self) -> bool {
        self.registry@.contains_key(self.default_identifier)
    }

    /// The compressors by identifier.
    pub closed spec fn bindings(&self) -> Map<u8, Codec> {
        self.registry@
    }

    /// The identifier that new blocks are tagged with.
    pub closed spec fn spec_default_identifier(&self) -> u8 {
        self.default_identifier
    }

    /// An adapter over `registry` that tags new blocks with
    /// `default_identifier`. Fails with `UnknownCompressor` exactly where
    /// the registry has no compressor under that identifier.
    pub fn new(registry: CodecRegistry, default_identifier: u8) -> (out: Result<Self, CodecError>)
        ensures
            registry@.contains_key(default_identifier) ==> out is Ok && out->Ok_0.bindings()
                == registry@ && out->Ok_0.spec_default_identifier() == default_identifier,
            !registry@.contains_key(default_identifier) ==> out is Err && out->Err_0
                == CodecError::UnknownCompressor(default_identifier),
    {
        if registry.is_registered(default_identifier) {
            Ok(Self { registry, default_identifier })
        } else {
            Err(CodecError::UnknownCompressor(default_identifier))
        }
    }

    /// The adapter of a database that is opened without a configuration of
    /// its own: the registry of the format at `DEFAULT_LEVEL`, new blocks
    /// tagged with `DEFAULT_IDENTIFIER`.
    pub fn standard() -> (out: Self)
        ensures
            out.bindings() == standard_bindings(DEFAULT_LEVEL),
            out.spec_default_identifier() == DEFAULT_IDENTIFIER,
    {
        let registry = CodecRegistry::standard(DEFAULT_LEVEL).unwrap();
        Self { registry, default_identifier: DEFAULT_IDENTIFIER }
    }

    #[verifier::when_used_as_spec(spec_default_identifier)]
    pub fn default_identifier(&self) -> (out: u8)
        ensures
            out == self.spec_default_identifier(),
            self.bindings().contains_key(out),
    {
        proof {
            use_type_invariant(self);
        }
        self.default_identifier
    }

    /// The registry that blocks are read with.
    pub fn registry(&self) -> (out: &CodecRegistry)
        ensures
            out@ == self.bindings(),
    {
        &self.registry
    }

    /// Compresses `raw` with the default compressor and picks what is
    /// stored: the compressed bytes under the default identifier where they
    /// are shorter than `raw`, else `raw` itself under `NONE_ID`.
    pub fn write_block(&self, raw: Vec<u8>) -> (out: StoredBlock)
        ensures
            out@ == write_form(self.bindings(), self.spec_default_identifier(), raw@),
    {
        proof {
            use_type_invariant(self);
        }
        let codec = self.registry.lookup(self.default_identifier).unwrap();
        let copy = raw.clone();
        assert(copy@ =~= raw@);
        let compressed = codec.encode(copy);
        select_stored(self.default_identifier, raw, compressed)
    }

    /// Recovers a block from the bytes `payload` that were stored under
    /// `identifier`.
    pub fn read_block(&self, identifier: u8, payload: Vec<u8>) -> (out: Result<Vec<u8>, CodecError>)
        ensures
            read_view(out) == read_form(self.bindings(), identifier, payload@),
    {
        match self.registry.lookup(identifier) {
            Ok(codec) => codec.decode(payload),
            Err(e) => Err(e),
        }
    }

    /// A stored block is tagged with `NONE_ID` or with the default
    /// identifier, and with no other.
    pub proof fn lemma_tag_is_none_or_default(
        default_identifier: u8,
        raw: Seq<u8>,
        compressed: Seq<u8>,
    )
        ensures
            stored_form(default_identifier, raw, compressed).0 == NONE_ID || stored_form(
                default_identifier,
                raw,
                compressed,
            ).0 == default_identifier,
    {
    }

    /// A block that its compressed form is not shorter than is stored as it
    /// is, under `NONE_ID`.
    pub proof fn lemma_fallback_stores_raw(
        default_identifier: u8,
        raw: Seq<u8>,
        compressed: Seq<u8>,
    )
        requires
            compressed.len() >= raw.len(),
        ensures
            stored_form(default_identifier, raw, compressed) == (NONE_ID, raw),
    {
    }

    /// A block whose compressed form is shorter is stored compressed, under
    /// the default identifier.
    pub proof fn lemma_shorter_stores_compressed(
        default_identifier: u8,
        raw: Seq<u8>,
        compressed: Seq<u8>,
    )
        requires
            compressed.len() < raw.len(),
        ensures
            stored_form(default_identifier, raw, compressed) == (default_identifier, compressed),
    {
    }

    /// Where `NONE_ID` is bound to the compressor that stores a block as it
    /// is, a block that was stored as it is reads back unchanged, whatever
    /// the default identifier is.
    pub proof fn lemma_fallback_reads_back(
        bindings: Map<u8, Codec>,
        default_identifier: u8,
        raw: Seq<u8>,
    )
        requires
            bindings.contains_key(NONE_ID),
            bindings[NONE_ID] == Codec::Identity,
            bindings[default_identifier].encoded(raw).len() >= raw.len(),
        ensures
            read_form(
                bindings,
                write_form(bindings, default_identifier, raw).0,
                write_form(bindings, default_identifier, raw).1,
            ) == Ok::<Seq<u8>, CodecError>(raw),
    {
    }

    /// A block that was stored compressed reads back as what the default
    /// compressor recovers from its own output.
    pub proof fn lemma_compressed_reads_as_decoded(
        bindings: Map<u8, Codec>,
        default_identifier: u8,
        raw: Seq<u8>,
    )
        requires
            bindings.contains_key(default_identifier),
            bindings[default_identifier].encoded(raw).len() < raw.len(),
        ensures
            read_form(
                bindings,
                write_form(bindings, default_identifier, raw).0,
                write_form(bindings, default_identifier, raw).1,
            ) == match bindings[default_identifier].decoded(
                bindings[default_identifier].encoded(raw),
            ) {
                Some(bytes) => Ok::<Seq<u8>, CodecError>(bytes),
                None => Err::<Seq<u8>, CodecError>(CodecError::CorruptBlock),
            },
    {
    }

    /// With the compressor that stores a block as it is as the default,
    /// every block is stored as it is, under `NONE_ID`.
    pub proof fn lemma_identity_default_stores_raw(
        bindings: Map<u8, Codec>,
        default_identifier: u8,
        raw: Seq<u8>,
    )
        requires
            bindings[default_identifier] == Codec::Identity,
        ensures
            write_form(bindings, default_identifier, raw) == (NONE_ID, raw),
    {
    }
}

} // verus!
