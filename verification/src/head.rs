//! The slice of the response head that content encoding reads and writes:
//! the status code, the content-encoding header and the chunked-transfer
//! flag. The full header model lives with the wire codec outside this crate.

use vstd::prelude::*;

verus! {

/// The negotiated content encoding of a response body.
/// `Identity` and `Auto` never trigger compression.
#[derive(Clone, Copy, PartialEq, Eq, Structural, Debug)]
pub enum ContentEncoding {
    /// Let the negotiation pick; never compresses by itself.
    Auto,
    /// Brotli.
    Br,
    /// Deflate (zlib framing).
    Deflate,
    /// Gzip.
    Gzip,
    /// No encoding.
    Identity,
}

/// What a response head carries, reduced to the fields that the encoding
/// decision reads and writes.
#[derive(Debug)]
pub struct ResponseHead {
    /// The response status code.
    pub status: u16,
    /// The content-encoding header, if one is set.
    pub content_encoding: Option<ContentEncoding>,
    /// Whether the body is sent with chunked framing.
    pub chunked: bool,
}

impl ResponseHead {
    /// A head with the given status, no content-encoding header and
    /// length-based framing.
    pub fn new(status: u16) -> (r: Self)
        ensures
            r == (ResponseHead { status, content_encoding: None, chunked: false }),
    {
        ResponseHead { status, content_encoding: None, chunked: false }
    }
}

/// Records the negotiated encoding in the content-encoding header;
/// everything else in the head is untouched.
pub fn update_head(encoding: ContentEncoding, head: &mut ResponseHead)
    ensures
        *final(head) == (ResponseHead { content_encoding: Some(encoding), ..*old(head) }),
{
    head.content_encoding = Some(encoding);
}

} // verus!
