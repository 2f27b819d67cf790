//! Markers for the certificate compression algorithms that a TLS handshake
//! can advertise (RFC 8879). The handshake layer does the compressing.
use vstd::prelude::*;

verus! {

/// Brotli certificate compression, which the Chromium family advertises.
#[derive(Debug, Clone, Copy, PartialEq, Eq, Structural)]
pub struct BrotliCompressor;

impl BrotliCompressor {
    pub fn new() -> (r: Self)
        ensures
            r == BrotliCompressor,
    {
        BrotliCompressor
    }
}

/// Zlib certificate compression, which Safari advertises.
#[derive(Debug, Clone, Copy, PartialEq, Eq, Structural)]
pub struct ZlibCompressor;

impl ZlibCompressor {
    pub fn new() -> (r: Self)
        ensures
            r == ZlibCompressor,
    {
        ZlibCompressor
    }
}

} // verus!
