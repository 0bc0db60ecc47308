//! Stateless block codec for event batches, backed by zstd.

use vstd::prelude::*;
use crate::error::EngineError;

verus! {

/// What zstd's stream decoder yields for a byte string: the decoded bytes,
/// or `None` where the input is not a well-formed stream.
pub uninterp spec fn zstd_decoded(frame: Seq<u8>) -> Option<Seq<u8>>;

/// The zstd stream `zstd::encode_all` writes for `data` at `level`.
pub uninterp spec fn zstd_encoded(data: Seq<u8>, level: i32) -> Seq<u8>;

/// Relies on `zstd::encode_all`: reading from a byte slice into a `Vec`
/// at a level zstd accepts, nothing in it fails; its output depends on the
/// bytes and the level alone, and is a zstd stream whose decoding is the
/// input (the codec is lossless at every level).
#[verifier::external_body]
fn zstd_encode(data: &[u8], level: i32) -> (r: Result<Vec<u8>, String>)
    requires
        1 <= level <= 19,
    ensures
        r is Ok,
        r matches Ok(c) ==> c@ == zstd_encoded(data@, level),
        r matches Ok(c) ==> zstd_decoded(c@) == Some(data@),
{
    match zstd::encode_all(data, level) {
        Ok(c) => Ok(c),
        Err(e) => Err(e.to_string()),
    }
}

/// Relies on `zstd::decode_all`: it succeeds exactly on well-formed input,
/// with the decoded bytes; the result depends on the input alone.
#[verifier::external_body]
fn zstd_decode(frame: &[u8]) -> (r: Result<Vec<u8>, String>)
    ensures
        r is Ok <==> zstd_decoded(frame@) is Some,
        r matches Ok(d) ==> zstd_decoded(frame@) == Some(d@),
{
    match zstd::decode_all(frame) {
        Ok(d) => Ok(d),
        Err(e) => Err(e.to_string()),
    }
}

/// Compression strength.
#[derive(Debug, Clone, Copy, PartialEq, Eq, Structural)]
pub enum CompressionLevel {
    /// Level 1.
    Fast,
    /// Level 3.
    Balanced,
    /// Level 19.
    Best,
}

pub open spec fn level_number(l: CompressionLevel) -> i32 {
    match l {
        CompressionLevel::Fast => 1,
        CompressionLevel::Balanced => 3,
        CompressionLevel::Best => 19,
    }
}

impl CompressionLevel {
    /// The codec's level integer.
    pub fn as_i32(&self) -> (r: i32)
        ensures
            r == level_number(*self),
    {
        match self {
            CompressionLevel::Fast => 1,
            CompressionLevel::Balanced => 3,
            CompressionLevel::Best => 19,
        }
    }
}

/// `c` is a compressed form of `x`: decompressing `c` gives `x`.
pub open spec fn is_compressed_form(c: Seq<u8>, x: Seq<u8>) -> bool {
    zstd_decoded(c) == Some(x)
}

/// What decompressing `c` yields, if it is well-formed.
pub open spec fn decompressed(c: Seq<u8>) -> Option<Seq<u8>> {
    zstd_decoded(c)
}

/// Block compressor; it keeps no state between calls.
pub struct Compressor {
    level: CompressionLevel,
}

impl Compressor {
    pub closed spec fn level_spec(&self) -> CompressionLevel {
        self.level
    }

    pub fn new(level: CompressionLevel) -> (r: Self)
        ensures
            r.level_spec() == level,
    {
        Compressor { level }
    }

    /// Compresses `data` at this compressor's level. It always succeeds;
    /// the bytes depend on `data` and the level alone and decompress to
    /// `data`.
    pub fn compress(&self, data: &[u8]) -> (r: Result<Vec<u8>, EngineError>)
        ensures
            r is Ok,
            r matches Ok(c) ==> c@ == zstd_encoded(data@, level_number(self.level_spec())),
            r matches Ok(c) ==> is_compressed_form(c@, data@),
    {
        match zstd_encode(data, self.level.as_i32()) {
            Ok(c) => Ok(c),
            Err(msg) => Err(EngineError::CompressionFailed(msg)),
        }
    }

    /// Decompresses `data`: succeeds exactly when `data` is well-formed,
    /// with its decoded bytes; otherwise `CompressionFailed`.
    pub fn decompress(&self, data: &[u8]) -> (r: Result<Vec<u8>, EngineError>)
        ensures
            r is Ok <==> decompressed(data@) is Some,
            r matches Ok(d) ==> decompressed(data@) == Some(d@),
            r matches Err(e) ==> e is CompressionFailed,
    {
        match zstd_decode(data) {
            Ok(d) => Ok(d),
            Err(msg) => Err(EngineError::CompressionFailed(msg)),
        }
    }

    /// A rough guess of the compressed size from typical ratios: one fifth
    /// at the fast level, one tenth balanced, one fifteenth at best.
    pub fn estimate_compressed_size(&self, data: &[u8]) -> (r: usize)
        ensures
            r == data@.len() / match self.level_spec() {
                CompressionLevel::Fast => 5nat,
                CompressionLevel::Balanced => 10nat,
                CompressionLevel::Best => 15nat,
            },
    {
        match self.level {
            CompressionLevel::Fast => data.len() / 5,
            CompressionLevel::Balanced => data.len() / 10,
            CompressionLevel::Best => data.len() / 15,
        }
    }
}

impl Default for Compressor {
    fn default() -> (r: Self)
        ensures
            r.level_spec() == CompressionLevel::Balanced,
    {
        Compressor::new(CompressionLevel::Balanced)
    }
}

/// Round trip: whatever `compress` produced from `x`, at any level,
/// `decompress` turns back into exactly `x`, whatever level the
/// decompressing side was made with.
pub proof fn lemma_round_trip(x: Seq<u8>, c: Seq<u8>)
    requires
        is_compressed_form(c, x),
    ensures
        decompressed(c) == Some(x),
{
}

} // verus!
