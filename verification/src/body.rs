//! The streaming-body model: size hints and the errors that end a body
//! stream or an offloaded compression job.

use vstd::prelude::*;

verus! {

/// Size hint of a streaming body, as reported to the transport.
#[derive(Clone, Copy, PartialEq, Eq, Structural, Debug)]
pub enum BodySize {
    /// There is no body at all.
    NoBody,
    /// The body is known to be empty.
    Empty,
    /// The body is exactly this many bytes long.
    Sized(u64),
    /// The length is unknown; the transport must use chunked framing.
    Stream,
}

/// An error that terminates a body stream. Both variants are fatal: the
/// stream ends mid-response and is never resumed.
#[derive(Debug)]
pub enum BodyError {
    /// The active compressor failed to accept or to flush bytes.
    Io(String),
    /// An offloaded compression job was dropped before it completed.
    Canceled,
}

impl Clone for BodyError {
    fn clone(&self) -> (r: Self)
        ensures
            r == self,
    {
        match self {
            BodyError::Io(s) => BodyError::Io(s.clone()),
            BodyError::Canceled => BodyError::Canceled,
        }
    }
}

/// How an offloaded compression job can fail, as reported by the offload
/// collaborator that ran it.
#[derive(Debug)]
pub enum JobError {
    /// The job ran and the compressor reported an error.
    Failure(String),
    /// The job was dropped before it ran, e.g. because the pool shut down.
    Canceled,
}

/// The body-stream error under which a failed offload job surfaces:
/// a compressor failure keeps its message, a cancellation is reported as a
/// generic I/O-class failure rather than silently dropped.
pub open spec fn body_error_of_job(e: JobError) -> BodyError {
    match e {
        JobError::Failure(s) => BodyError::Io(s),
        JobError::Canceled => BodyError::Canceled,
    }
}

} // verus!
