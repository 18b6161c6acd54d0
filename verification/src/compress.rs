//! The trusted boundary around the outside compressors. Each stream type
//! couples one outside streaming encoder, writing into an in-memory buffer,
//! with the ghost history of the bytes fed to it and the bytes already
//! drained from it. The one substantive assumption stands on `finish`: the
//! drained output plus the final flush decodes, under the matching
//! decompressor, to exactly the bytes fed.

use vstd::prelude::*;

verus! {

#[verifier::external_body]
struct GzipBackend(flate2::write::GzEncoder<Vec<u8>>);

#[verifier::external_body]
struct DeflateBackend(flate2::write::ZlibEncoder<Vec<u8>>);

#[verifier::external_body]
struct BrotliBackend(brotli2::write::BrotliEncoder<Vec<u8>>);

/// What gzip decompression (flate2::read::GzDecoder) yields on a complete
/// gzip stream; a function of the compressed bytes alone.
pub uninterp spec fn gzip_plain_of(data: Seq<u8>) -> Seq<u8>;

/// What zlib decompression (flate2::read::ZlibDecoder) yields on a complete
/// zlib stream; a function of the compressed bytes alone.
pub uninterp spec fn zlib_plain_of(data: Seq<u8>) -> Seq<u8>;

/// What brotli decompression (brotli2::read::BrotliDecoder) yields on a
/// complete brotli stream; a function of the compressed bytes alone.
pub uninterp spec fn brotli_plain_of(data: Seq<u8>) -> Seq<u8>;

/// Relies on flate2::write::GzEncoder::new over an empty in-memory buffer,
/// at the fast compression level.
#[verifier::external_body]
fn new_gzip_backend() -> (e: GzipBackend) {
    GzipBackend(flate2::write::GzEncoder::new(Vec::new(), flate2::Compression::fast()))
}

/// Relies on flate2::write::ZlibEncoder::new over an empty in-memory buffer,
/// at the fast compression level.
#[verifier::external_body]
fn new_deflate_backend() -> (e: DeflateBackend) {
    DeflateBackend(flate2::write::ZlibEncoder::new(Vec::new(), flate2::Compression::fast()))
}

/// Relies on brotli2::write::BrotliEncoder::new over an empty in-memory
/// buffer, at quality 3.
#[verifier::external_body]
fn new_brotli_backend() -> (e: BrotliBackend) {
    BrotliBackend(brotli2::write::BrotliEncoder::new(Vec::new(), 3))
}

/// A gzip compression stream: bytes written in are compressed into an
/// internal buffer that is drained with `take` and completed with `finish`.
pub struct GzipStream {
    inner: GzipBackend,
    fed: Ghost<Seq<u8>>,
    taken: Ghost<Seq<u8>>,
}

impl GzipStream {
    /// All bytes written to this stream so far.
    pub closed spec fn fed(&self) -> Seq<u8> {
        self.fed@
    }

    /// All compressed bytes already drained out of this stream.
    pub closed spec fn taken(&self) -> Seq<u8> {
        self.taken@
    }

    /// A fresh stream with nothing written and nothing buffered.
    pub(crate) fn new() -> (s: Self)
        ensures
            s.fed() == Seq::<u8>::empty(),
            s.taken() == Seq::<u8>::empty(),
    {
        GzipStream { inner: new_gzip_backend(), fed: Ghost(Seq::empty()), taken: Ghost(Seq::empty()) }
    }

    /// Relies on flate2::write::GzEncoder's Write::write_all: on success all
    /// of `data` has been accepted into the stream; output stays buffered.
    #[verifier::external_body]
    pub(crate) fn write(&mut self, data: &[u8]) -> (r: Result<(), String>)
        ensures
            r is Ok ==> final(self).fed() == old(self).fed() + data@ && final(self).taken()
                == old(self).taken(),
    {
        match std::io::Write::write_all(&mut self.inner.0, data) {
            Ok(()) => Ok(()),
            Err(e) => Err(format!("{}", e)),
        }
    }

    /// Relies on flate2::write::GzEncoder::get_mut: draining the buffer hands
    /// out the next piece of the compressed stream, in order.
    #[verifier::external_body]
    pub(crate) fn take(&mut self) -> (v: Vec<u8>)
        ensures
            final(self).fed() == old(self).fed(),
            final(self).taken() == old(self).taken() + v@,
    {
        std::mem::take(self.inner.0.get_mut())
    }

    /// Relies on flate2::write::GzEncoder::finish and on flate2's gzip round
    /// trip: the drained bytes followed by the final flush form a complete
    /// gzip stream that decodes to exactly the bytes written.
    #[verifier::external_body]
    pub(crate) fn finish(self) -> (r: Result<Vec<u8>, String>)
        ensures
            r matches Ok(v) ==> gzip_plain_of(self.taken() + v@) == self.fed(),
    {
        match self.inner.0.finish() {
            Ok(buf) => Ok(buf),
            Err(e) => Err(format!("{}", e)),
        }
    }
}

/// A deflate (zlib) compression stream; same shape as `GzipStream`.
pub struct DeflateStream {
    inner: DeflateBackend,
    fed: Ghost<Seq<u8>>,
    taken: Ghost<Seq<u8>>,
}

impl DeflateStream {
    /// All bytes written to this stream so far.
    pub closed spec fn fed(&self) -> Seq<u8> {
        self.fed@
    }

    /// All compressed bytes already drained out of this stream.
    pub closed spec fn taken(&self) -> Seq<u8> {
        self.taken@
    }

    /// A fresh stream with nothing written and nothing buffered.
    pub(crate) fn new() -> (s: Self)
        ensures
            s.fed() == Seq::<u8>::empty(),
            s.taken() == Seq::<u8>::empty(),
    {
        DeflateStream { inner: new_deflate_backend(), fed: Ghost(Seq::empty()), taken: Ghost(Seq::empty()) }
    }

    /// Relies on flate2::write::ZlibEncoder's Write::write_all: on success
    /// all of `data` has been accepted into the stream; output stays
    /// buffered.
    #[verifier::external_body]
    pub(crate) fn write(&mut self, data: &[u8]) -> (r: Result<(), String>)
        ensures
            r is Ok ==> final(self).fed() == old(self).fed() + data@ && final(self).taken()
                == old(self).taken(),
    {
        match std::io::Write::write_all(&mut self.inner.0, data) {
            Ok(()) => Ok(()),
            Err(e) => Err(format!("{}", e)),
        }
    }

    /// Relies on flate2::write::ZlibEncoder::get_mut: draining the buffer
    /// hands out the next piece of the compressed stream, in order.
    #[verifier::external_body]
    pub(crate) fn take(&mut self) -> (v: Vec<u8>)
        ensures
            final(self).fed() == old(self).fed(),
            final(self).taken() == old(self).taken() + v@,
    {
        std::mem::take(self.inner.0.get_mut())
    }

    /// Relies on flate2::write::ZlibEncoder::finish and on flate2's zlib
    /// round trip: the drained bytes followed by the final flush form a
    /// complete zlib stream that decodes to exactly the bytes written.
    #[verifier::external_body]
    pub(crate) fn finish(self) -> (r: Result<Vec<u8>, String>)
        ensures
            r matches Ok(v) ==> zlib_plain_of(self.taken() + v@) == self.fed(),
    {
        match self.inner.0.finish() {
            Ok(buf) => Ok(buf),
            Err(e) => Err(format!("{}", e)),
        }
    }
}

/// A brotli compression stream; same shape as `GzipStream`.
pub struct BrotliStream {
    inner: BrotliBackend,
    fed: Ghost<Seq<u8>>,
    taken: Ghost<Seq<u8>>,
}

impl BrotliStream {
    /// All bytes written to this stream so far.
    pub closed spec fn fed(&self) -> Seq<u8> {
        self.fed@
    }

    /// All compressed bytes already drained out of this stream.
    pub closed spec fn taken(&self) -> Seq<u8> {
        self.taken@
    }

    /// A fresh stream with nothing written and nothing buffered.
    pub(crate) fn new() -> (s: Self)
        ensures
            s.fed() == Seq::<u8>::empty(),
            s.taken() == Seq::<u8>::empty(),
    {
        BrotliStream { inner: new_brotli_backend(), fed: Ghost(Seq::empty()), taken: Ghost(Seq::empty()) }
    }

    /// Relies on brotli2::write::BrotliEncoder's Write::write_all: on
    /// success all of `data` has been accepted into the stream; output stays
    /// buffered.
    #[verifier::external_body]
    pub(crate) fn write(&mut self, data: &[u8]) -> (r: Result<(), String>)
        ensures
            r is Ok ==> final(self).fed() == old(self).fed() + data@ && final(self).taken()
                == old(self).taken(),
    {
        match std::io::Write::write_all(&mut self.inner.0, data) {
            Ok(()) => Ok(()),
            Err(e) => Err(format!("{}", e)),
        }
    }

    /// Relies on brotli2::write::BrotliEncoder::get_mut: draining the buffer
    /// hands out the next piece of the compressed stream, in order.
    #[verifier::external_body]
    pub(crate) fn take(&mut self) -> (v: Vec<u8>)
        ensures
            final(self).fed() == old(self).fed(),
            final(self).taken() == old(self).taken() + v@,
    {
        std::mem::take(self.inner.0.get_mut())
    }

    /// Relies on brotli2::write::BrotliEncoder::finish and on brotli2's
    /// round trip: the drained bytes followed by the final flush form a
    /// complete brotli stream that decodes to exactly the bytes written.
    #[verifier::external_body]
    pub(crate) fn finish(self) -> (r: Result<Vec<u8>, String>)
        ensures
            r matches Ok(v) ==> brotli_plain_of(self.taken() + v@) == self.fed(),
    {
        match self.inner.0.finish() {
            Ok(buf) => Ok(buf),
            Err(e) => Err(format!("{}", e)),
        }
    }
}

} // verus!
