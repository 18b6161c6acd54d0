//! The adaptive encoder: a streaming-body decorator that compresses an inner
//! stream with gzip, deflate or brotli, compressing small chunks inline and
//! handing large ones to an offload collaborator.
//!
//! The inner stream and the offload pool are collaborators owned by the
//! surrounding connection task. Each call of `poll_chunk` takes one event —
//! nothing to report, the result of polling the inner stream, or the result
//! of polling an offloaded job — and answers with the next step: a chunk to
//! emit, the end of the stream, an error, or the one thing the caller must
//! do next (poll the inner stream, poll the job, submit a job, or simply
//! call again).
//!
//! The ghost history of the encoder keeps the concatenation of all bytes
//! pulled from the source and of all bytes emitted. When the stream ends
//! cleanly, the emitted bytes decode, under the negotiated encoding, to
//! exactly the pulled bytes.

use vstd::prelude::*;

use crate::body::{body_error_of_job, BodyError, BodySize, JobError};
use crate::compress::{brotli_plain_of, gzip_plain_of, zlib_plain_of};
use crate::compress::{BrotliStream, DeflateStream, GzipStream};
use crate::head::{update_head, ContentEncoding, ResponseHead};

verus! {

/// Chunks shorter than this are compressed inline on the polling path;
/// chunks at least this long are handed to the offload pool.
pub const INPLACE: usize = 1024;

/// What decompressing a complete encoded stream yields. `Identity` and
/// `Auto` do not encode, so they decode to the stream itself.
pub open spec fn plain_of(enc: ContentEncoding, data: Seq<u8>) -> Seq<u8> {
    match enc {
        ContentEncoding::Gzip => gzip_plain_of(data),
        ContentEncoding::Deflate => zlib_plain_of(data),
        ContentEncoding::Br => brotli_plain_of(data),
        ContentEncoding::Identity => data,
        ContentEncoding::Auto => data,
    }
}

/// The active compressor: one of the three concrete compression streams.
pub enum ContentEncoder {
    Deflate(DeflateStream),
    Gzip(GzipStream),
    Br(BrotliStream),
}

impl ContentEncoder {
    /// The encoding this compressor produces.
    pub open spec fn alg(&self) -> ContentEncoding {
        match self {
            ContentEncoder::Deflate(_) => ContentEncoding::Deflate,
            ContentEncoder::Gzip(_) => ContentEncoding::Gzip,
            ContentEncoder::Br(_) => ContentEncoding::Br,
        }
    }

    /// All bytes written into this compressor so far.
    pub open spec fn fed(&self) -> Seq<u8> {
        match self {
            ContentEncoder::Deflate(s) => s.fed(),
            ContentEncoder::Gzip(s) => s.fed(),
            ContentEncoder::Br(s) => s.fed(),
        }
    }

    /// All compressed bytes already drained out of this compressor.
    pub open spec fn taken(&self) -> Seq<u8> {
        match self {
            ContentEncoder::Deflate(s) => s.taken(),
            ContentEncoder::Gzip(s) => s.taken(),
            ContentEncoder::Br(s) => s.taken(),
        }
    }

    /// A fresh compressor for the given encoding, if one exists: `Identity`
    /// and `Auto` have none and never compress.
    pub fn encoder(encoding: ContentEncoding) -> (r: Option<ContentEncoder>)
        ensures
            match encoding {
                ContentEncoding::Gzip | ContentEncoding::Deflate | ContentEncoding::Br => (
                r matches Some(c) && c.alg() == encoding && c.fed() == Seq::<u8>::empty()
                    && c.taken() == Seq::<u8>::empty()),
                ContentEncoding::Identity | ContentEncoding::Auto => r is None,
            },
    {
        match encoding {
            ContentEncoding::Deflate => Some(ContentEncoder::Deflate(DeflateStream::new())),
            ContentEncoding::Gzip => Some(ContentEncoder::Gzip(GzipStream::new())),
            ContentEncoding::Br => Some(ContentEncoder::Br(BrotliStream::new())),
            ContentEncoding::Identity => None,
            ContentEncoding::Auto => None,
        }
    }

    /// Feed `data` into the compressor; its output stays buffered until the
    /// next `take` or `finish`.
    pub fn write(&mut self, data: &[u8]) -> (r: Result<(), BodyError>)
        ensures
            final(self).alg() == old(self).alg(),
            r is Ok ==> final(self).fed() == old(self).fed() + data@ && final(self).taken()
                == old(self).taken(),
            r matches Err(e) ==> e is Io,
    {
        let out = match self {
            ContentEncoder::Deflate(s) => s.write(data),
            ContentEncoder::Gzip(s) => s.write(data),
            ContentEncoder::Br(s) => s.write(data),
        };
        match out {
            Ok(_) => Ok(()),
            Err(m) => Err(BodyError::Io(m)),
        }
    }

    /// Drain the compressor's accumulation buffer: the next piece of the
    /// compressed stream, possibly empty.
    pub fn take(&mut self) -> (v: Vec<u8>)
        ensures
            final(self).alg() == old(self).alg(),
            final(self).fed() == old(self).fed(),
            final(self).taken() == old(self).taken() + v@,
    {
        match self {
            ContentEncoder::Deflate(s) => s.take(),
            ContentEncoder::Gzip(s) => s.take(),
            ContentEncoder::Br(s) => s.take(),
        }
    }

    /// Finalize the stream, consuming the compressor. On success, the bytes
    /// drained so far followed by the returned tail form a complete encoded
    /// stream that decodes to exactly the bytes fed.
    pub fn finish(self) -> (r: Result<Vec<u8>, BodyError>)
        ensures
            r matches Ok(v) ==> plain_of(self.alg(), self.taken() + v@) == self.fed(),
            r matches Err(e) ==> e is Io,
    {
        let out = match self {
            ContentEncoder::Deflate(s) => s.finish(),
            ContentEncoder::Gzip(s) => s.finish(),
            ContentEncoder::Br(s) => s.finish(),
        };
        match out {
            Ok(v) => Ok(v),
            Err(m) => Err(BodyError::Io(m)),
        }
    }
}

/// The source an encoder draws from, chosen at construction and never
/// changed: an in-memory buffer served as one final chunk, or a generic or
/// boxed streaming body that the caller polls, carrying its size hint.
pub enum EncoderBody {
    Bytes(Vec<u8>),
    Stream(BodySize),
    BoxedStream(BodySize),
}

/// Whether the body stream is still running, has ended, or has failed.
enum StreamState {
    Active,
    Ended,
    Failed(BodyError),
}

/// The result of polling an offloaded compression job.
pub enum JobPoll {
    /// The job has not completed yet.
    Pending,
    /// The job completed and hands the compressor back.
    Done(ContentEncoder),
    /// The job failed or was dropped.
    Failed(JobError),
}

/// The result of polling the inner streaming body.
pub enum InnerPoll {
    /// The inner body is not ready yet.
    Pending,
    /// The inner body produced a chunk.
    Chunk(Vec<u8>),
    /// The inner body ended.
    End,
    /// The inner body failed; the stream ends in this error.
    Failed(BodyError),
}

/// What the caller reports to `poll_chunk`.
pub enum Event {
    /// Nothing to report; the encoder says what to do next.
    Start,
    /// The result of polling the outstanding offloaded job.
    Job(JobPoll),
    /// The result of polling the inner streaming body.
    Inner(InnerPoll),
}

/// What one call of `poll_chunk` decides.
pub enum Step {
    /// Emit this chunk to the consumer.
    Emit(Vec<u8>),
    /// The stream has ended; every later poll reports the same.
    Done,
    /// The stream has failed; every later poll reports the same error.
    Failed(BodyError),
    /// Suspend; the caller resumes when the awaited collaborator wakes it.
    Pending,
    /// Poll the inner body and call again with the outcome.
    NeedInner,
    /// Poll the offloaded job and call again with the outcome.
    NeedJob,
    /// Submit an offload job that feeds the chunk to the compressor, then
    /// call again with the outcome; the compressor is owned by the job until
    /// it completes.
    Offload(ContentEncoder, Vec<u8>),
    /// Nothing produced yet; call again.
    Continue,
}

/// The adaptive encoder: the body source, the optional active compressor
/// (absent means passthrough), whether an offloaded job is outstanding, the
/// stream's terminal state, and the ghost history of pulled and emitted
/// bytes.
pub struct Encoder {
    body: EncoderBody,
    encoder: Option<ContentEncoder>,
    awaiting: bool,
    state: StreamState,
    pulled: Ghost<Seq<u8>>,
    emitted: Ghost<Seq<u8>>,
    chosen: Ghost<ContentEncoding>,
}

impl Encoder {
    /// The encoding of the emitted stream; `Identity` means passthrough.
    pub closed spec fn encoding(&self) -> ContentEncoding {
        self.chosen@
    }

    /// The concatenation of all bytes consumed from the source so far.
    pub closed spec fn pulled(&self) -> Seq<u8> {
        self.pulled@
    }

    /// The concatenation of all bytes emitted so far.
    pub closed spec fn emitted(&self) -> Seq<u8> {
        self.emitted@
    }

    /// Whether a compressor is currently installed.
    pub closed spec fn installed(&self) -> bool {
        self.encoder is Some
    }

    /// Whether an offloaded compression job is outstanding.
    pub closed spec fn awaiting_job(&self) -> bool {
        self.awaiting
    }

    /// Whether the stream is still running.
    pub closed spec fn active(&self) -> bool {
        self.state is Active
    }

    /// Whether the stream has ended cleanly.
    pub closed spec fn ended(&self) -> bool {
        self.state is Ended
    }

    /// The error the stream ended in, if it failed.
    pub closed spec fn failure(&self) -> Option<BodyError> {
        match self.state {
            StreamState::Failed(e) => Some(e),
            _ => None,
        }
    }

    /// Whether the source is the in-memory buffer.
    pub closed spec fn from_buffer(&self) -> bool {
        self.body is Bytes
    }

    /// Whether the source is a streaming body that the caller polls.
    pub closed spec fn from_stream(&self) -> bool {
        self.body is Stream || self.body is BoxedStream
    }

    /// What remains of the in-memory buffer source.
    pub closed spec fn buffered_input(&self) -> Seq<u8> {
        match self.body {
            EncoderBody::Bytes(b) => b@,
            _ => Seq::<u8>::empty(),
        }
    }

    /// The size hint this encoder reports: any active compressor makes the
    /// length unknowable, otherwise the source's own hint.
    pub closed spec fn spec_size(&self) -> BodySize {
        if self.encoder is Some {
            BodySize::Stream
        } else {
            match self.body {
                EncoderBody::Bytes(b) => BodySize::Sized(b@.len() as u64),
                EncoderBody::Stream(h) => h,
                EncoderBody::BoxedStream(h) => h,
            }
        }
    }

    /// The encoder's invariant. An installed compressor has been fed exactly
    /// the pulled bytes and drained of exactly the emitted bytes; at most
    /// one job is outstanding and it owns the compressor; a passthrough
    /// encoder has emitted exactly what it pulled; a cleanly ended stream's
    /// emitted bytes decode to its pulled bytes.
    pub closed spec fn wf(&self) -> bool {
        &&& (self.encoder matches Some(c) ==> {
            &&& !self.awaiting
            &&& self.state is Active
            &&& c.alg() == self.chosen@
            &&& c.fed() == self.pulled@
            &&& c.taken() == self.emitted@
        })
        &&& (self.awaiting ==> self.encoder is None && self.state is Active)
        &&& (self.chosen@ is Identity ==> self.encoder is None && !self.awaiting
            && self.emitted@ == self.pulled@)
        &&& !(self.chosen@ is Auto)
        &&& (self.state is Active && !self.awaiting && self.encoder is None ==> self.chosen@
            is Identity)
        &&& (self.state is Ended ==> self.encoder is None && !self.awaiting && plain_of(
            self.chosen@,
            self.emitted@,
        ) == self.pulled@)
    }

    /// Which events the encoder is prepared for: a job outcome only while a
    /// job is outstanding (and a completed job hands back the compressor the
    /// encoder gave out, fed with the chunk it was given); an inner-body
    /// outcome only while the stream runs on a polled source with no job
    /// outstanding.
    pub open spec fn accepts(&self, ev: Event) -> bool {
        match ev {
            Event::Start => true,
            Event::Job(jp) => self.awaiting_job() && (jp matches JobPoll::Done(c) ==> c.alg()
                == self.encoding() && c.fed() == self.pulled() && c.taken() == self.emitted()),
            Event::Inner(_) => self.active() && !self.awaiting_job() && self.from_stream(),
        }
    }
}

/// The bytes one call of `poll_chunk` consumes from the source: the chunk an
/// inner-body poll produced, or the whole in-memory buffer the moment it is
/// served.
pub open spec fn intake(pre: Encoder, ev: Event) -> Seq<u8> {
    match ev {
        Event::Inner(p) => match p {
            InnerPoll::Chunk(c) => c@,
            _ => Seq::<u8>::empty(),
        },
        Event::Start => if pre.active() && !pre.awaiting_job() && pre.from_buffer() {
            pre.buffered_input()
        } else {
            Seq::<u8>::empty()
        },
        Event::Job(_) => Seq::<u8>::empty(),
    }
}

impl Encoder {
    /// Consume one chunk of source bytes: emit it unchanged when no
    /// compressor is installed; below the inline threshold compress it on
    /// the spot and emit whatever output appeared; at or above the threshold
    /// hand compressor and chunk to the offload collaborator.
    fn consume_chunk(&mut self, c: Vec<u8>) -> (r: Step)
        requires
            old(self).wf(),
            old(self).active(),
            !old(self).awaiting_job(),
        ensures
            final(self).wf(),
            final(self).encoding() == old(self).encoding(),
            final(self).pulled() == old(self).pulled() + c@,
            r matches Step::Emit(v) ==> final(self).emitted() == old(self).emitted() + v@,
            !(r is Emit) ==> final(self).emitted() == old(self).emitted(),
            (r is Offload) <==> (old(self).installed() && c@.len() >= INPLACE),
            r matches Step::Offload(enc, data) ==> final(self).awaiting_job() && enc.alg()
                == old(self).encoding() && enc.fed() + data@ == final(self).pulled()
                && enc.taken() == final(self).emitted() && data@ == c@,
            !old(self).installed() ==> (r matches Step::Emit(v) && v@ == c@),
            r is Emit || r is Offload || r is Continue || r is NeedInner || r is Failed,
            r is Continue ==> final(self).from_buffer(),
            r is NeedInner ==> final(self).from_stream(),
            r matches Step::Failed(e) ==> final(self).failure() == Some(e) && e is Io,
            !(r is Failed) ==> final(self).active(),
            !final(self).ended(),
            final(self).awaiting_job() == (r is Offload),
            final(self).from_buffer() == old(self).from_buffer(),
            final(self).from_stream() == old(self).from_stream(),
            !(r is Failed) && !(r is Offload) ==> final(self).installed() == old(self).installed(),
    {
        self.pulled = Ghost(self.pulled@ + c@);
        let enc_opt = self.encoder.take();
        match enc_opt {
            None => {
                self.emitted = Ghost(self.emitted@ + c@);
                Step::Emit(c)
            },
            Some(mut enc) => {
                if c.len() < INPLACE {
                    match enc.write(c.as_slice()) {
                        Err(e) => {
                            let e2 = e.clone();
                            self.state = StreamState::Failed(e);
                            Step::Failed(e2)
                        },
                        Ok(_) => {
                            let t = enc.take();
                            self.encoder = Some(enc);
                            if t.len() > 0 {
                                self.emitted = Ghost(self.emitted@ + t@);
                                Step::Emit(t)
                            } else {
                                proof {
                                    assert(self.emitted@ + t@ =~= self.emitted@);
                                }
                                match &self.body {
                                    EncoderBody::Bytes(_) => Step::Continue,
                                    _ => Step::NeedInner,
                                }
                            }
                        },
                    }
                } else {
                    self.awaiting = true;
                    Step::Offload(enc, c)
                }
            },
        }
    }

    /// End of the source: finalize any installed compressor and emit its
    /// tail if it is non-empty; with no compressor the stream simply ends.
    fn finish_stream(&mut self) -> (r: Step)
        requires
            old(self).wf(),
            old(self).active(),
            !old(self).awaiting_job(),
        ensures
            final(self).wf(),
            final(self).encoding() == old(self).encoding(),
            final(self).pulled() == old(self).pulled(),
            r matches Step::Emit(v) ==> final(self).emitted() == old(self).emitted() + v@
                && v@.len() > 0,
            !(r is Emit) ==> final(self).emitted() == old(self).emitted(),
            r is Done || r is Emit || r is Failed,
            !(r is Failed) ==> final(self).ended(),
            r matches Step::Failed(e) ==> final(self).failure() == Some(e) && e is Io,
            !old(self).installed() ==> r is Done,
            !final(self).awaiting_job(),
            final(self).from_buffer() == old(self).from_buffer(),
            final(self).from_stream() == old(self).from_stream(),
    {
        let enc_opt = self.encoder.take();
        match enc_opt {
            None => {
                self.state = StreamState::Ended;
                Step::Done
            },
            Some(enc) => {
                match enc.finish() {
                    Err(e) => {
                        let e2 = e.clone();
                        self.state = StreamState::Failed(e);
                        Step::Failed(e2)
                    },
                    Ok(tail) => {
                        if tail.len() > 0 {
                            self.emitted = Ghost(self.emitted@ + tail@);
                            self.state = StreamState::Ended;
                            Step::Emit(tail)
                        } else {
                            proof {
                                assert(self.emitted@ + tail@ =~= self.emitted@);
                            }
                            self.state = StreamState::Ended;
                            Step::Done
                        }
                    },
                }
            },
        }
    }

    /// One turn of the per-chunk algorithm, driven by the caller's event.
    ///
    /// The stream's terminal results are permanent; bytes are consumed and
    /// emitted in order; a chunk at or above the inline threshold is routed
    /// through the offload path exactly once, and no new source chunk is
    /// pulled while that job is outstanding; when the stream ends cleanly
    /// the emitted bytes decode, under the negotiated encoding, to exactly
    /// the bytes the source produced.
    pub fn poll_chunk(&mut self, ev: Event) -> (r: Step)
        requires
            old(self).wf(),
            old(self).accepts(ev),
        ensures
            final(self).wf(),
            final(self).encoding() == old(self).encoding(),
            final(self).pulled() == old(self).pulled() + intake(*old(self), ev),
            r matches Step::Emit(v) ==> final(self).emitted() == old(self).emitted() + v@,
            !(r is Emit) ==> final(self).emitted() == old(self).emitted(),
            old(self).ended() ==> r is Done && *final(self) == *old(self),
            old(self).failure() matches Some(e) ==> (r matches Step::Failed(e2) && e2 == e)
                && *final(self) == *old(self),
            r is Done ==> final(self).ended(),
            final(self).ended() ==> r is Done || r is Emit,
            r matches Step::Failed(e) ==> final(self).failure() == Some(e),
            final(self).ended() ==> plain_of(final(self).encoding(), final(self).emitted())
                == final(self).pulled(),
            (r is Offload) <==> (old(self).active() && old(self).installed() && intake(
                *old(self),
                ev,
            ).len() >= INPLACE),
            r matches Step::Offload(enc, data) ==> final(self).awaiting_job()
                && enc.alg() == old(self).encoding()
                && enc.fed() + data@ == final(self).pulled()
                && enc.taken() == final(self).emitted()
                && data@ == intake(*old(self), ev),
            old(self).awaiting_job() && ev == Event::Start ==> r is NeedJob
                && *final(self) == *old(self),
            ev matches Event::Inner(InnerPoll::Chunk(c)) ==> (old(self).active()
                && !old(self).awaiting_job() && !old(self).installed() ==> (r matches Step::Emit(
                v) && v@ == c@)),
            old(self).active() && !old(self).awaiting_job() && !old(self).installed()
                && old(self).from_buffer() && old(self).buffered_input().len() > 0
                && ev == Event::Start ==> (r matches Step::Emit(v) && v@ == old(
                self).buffered_input()),
            old(self).active() && !old(self).awaiting_job() && old(self).from_stream() && ev
                == Event::Start ==> r is NeedInner && *final(self) == *old(self),
            ev == Event::Inner(InnerPoll::Pending) || ev == Event::Job(JobPoll::Pending) ==> r
                is Pending && *final(self) == *old(self),
            ev matches Event::Inner(InnerPoll::Failed(e)) ==> r == Step::Failed(e),
            ev matches Event::Job(JobPoll::Failed(je)) ==> r == Step::Failed(body_error_of_job(je)),
            ev matches Event::Job(JobPoll::Done(enc)) ==> final(self).installed()
                && !final(self).awaiting_job() && (r is Emit || r is Continue || r is NeedInner),
            old(self).installed() && ev == Event::Inner(InnerPoll::End) ==> r is Done || (
            r matches Step::Emit(v) && v@.len() > 0) || r is Failed,
            old(self).active() && !old(self).awaiting_job() && !old(self).installed() && ev
                == Event::Inner(InnerPoll::End) ==> r is Done,
            final(self).from_buffer() == old(self).from_buffer(),
            final(self).from_stream() == old(self).from_stream(),
            r is Pending || r is NeedJob || r is NeedInner || r is Continue || r is Offload
                ==> final(self).active(),
            ev matches Event::Inner(InnerPoll::Chunk(c3)) ==> (!(r is Failed) ==> final(
                self).active()) && (!(r is Failed) && !(r is Offload) ==> final(self).installed()
                == old(self).installed()),
            final(self).awaiting_job() <==> (r is Offload || (old(self).awaiting_job() && (r
                is Pending || r is NeedJob))),
    {
        match &self.state {
            StreamState::Ended => {
                proof {
                    assert(self.pulled@ + intake(*self, ev) =~= self.pulled@);
                }
                return Step::Done;
            },
            StreamState::Failed(e) => {
                let e2 = e.clone();
                proof {
                    assert(self.pulled@ + intake(*self, ev) =~= self.pulled@);
                }
                return Step::Failed(e2);
            },
            StreamState::Active => {},
        }
        match ev {
            Event::Start => {
                if self.awaiting {
                    proof {
                        assert(self.pulled@ + intake(*self, Event::Start) =~= self.pulled@);
                    }
                    return Step::NeedJob;
                }
                let mut buffered: Option<Vec<u8>> = None;
                match &mut self.body {
                    EncoderBody::Bytes(b) => {
                        if b.len() > 0 {
                            let mut tmp: Vec<u8> = Vec::new();
                            std::mem::swap(b, &mut tmp);
                            buffered = Some(tmp);
                        }
                    },
                    EncoderBody::Stream(_) => {
                        return Step::NeedInner;
                    },
                    EncoderBody::BoxedStream(_) => {
                        return Step::NeedInner;
                    },
                }
                match buffered {
                    Some(c) => self.consume_chunk(c),
                    None => {
                        proof {
                            assert(self.pulled@ + intake(*old(self), Event::Start)
                                =~= self.pulled@);
                        }
                        self.finish_stream()
                    },
                }
            },
            Event::Job(jp) => {
                match jp {
                    JobPoll::Pending => Step::Pending,
                    JobPoll::Failed(je) => {
                        self.awaiting = false;
                        let e = match je {
                            JobError::Failure(s) => BodyError::Io(s),
                            JobError::Canceled => BodyError::Canceled,
                        };
                        let e2 = e.clone();
                        self.state = StreamState::Failed(e);
                        Step::Failed(e2)
                    },
                    JobPoll::Done(mut enc) => {
                        self.awaiting = false;
                        let t = enc.take();
                        self.encoder = Some(enc);
                        if t.len() > 0 {
                            self.emitted = Ghost(self.emitted@ + t@);
                            Step::Emit(t)
                        } else {
                            proof {
                                assert(self.emitted@ + t@ =~= self.emitted@);
                            }
                            match &self.body {
                                EncoderBody::Bytes(_) => Step::Continue,
                                _ => Step::NeedInner,
                            }
                        }
                    },
                }
            },
            Event::Inner(p) => {
                match p {
                    InnerPoll::Pending => Step::Pending,
                    InnerPoll::Failed(e) => {
                        let e2 = e.clone();
                        self.encoder = None;
                        self.state = StreamState::Failed(e);
                        Step::Failed(e2)
                    },
                    InnerPoll::End => self.finish_stream(),
                    InnerPoll::Chunk(c) => self.consume_chunk(c),
                }
            },
        }
    }
}

/// The body of a response before encoding is decided: a typed streaming
/// body with its size hint, or one of the other body forms.
pub enum ResponseBody {
    /// A typed streaming body that the caller polls, with its size hint.
    Body(BodySize),
    /// Any other body form.
    Other(InnerBody),
}

/// The body forms that are not typed streaming bodies.
pub enum InnerBody {
    /// No body at all.
    NoBody,
    /// A body known to be empty.
    Empty,
    /// A complete in-memory body.
    Bytes(Vec<u8>),
    /// A boxed streaming body that the caller polls, with its size hint.
    Message(BodySize),
}

/// The body of a response after the encoding decision: wrapped in an
/// encoder, or passed through untouched.
pub enum EncodedBody {
    /// The body, wrapped in an encoder (possibly a passthrough one).
    Body(Encoder),
    /// The body, untouched.
    Other(InnerBody),
}

/// Whether a response is eligible for compression: it is not when a
/// content-encoding header is already set, when the status is 101
/// (switching protocols) or 204 (no content), or when the negotiated
/// encoding is `Identity` or `Auto`.
pub open spec fn can_encode(encoding: ContentEncoding, head: ResponseHead) -> bool {
    !(head.content_encoding is Some || head.status == 101u16 || head.status == 204u16 || encoding
        is Identity || encoding is Auto)
}

impl Encoder {
    /// The size hint this encoder reports to the transport.
    pub fn size(&self) -> (s: BodySize)
        ensures
            s == self.spec_size(),
    {
        if self.encoder.is_some() {
            BodySize::Stream
        } else {
            match &self.body {
                EncoderBody::Bytes(b) => BodySize::Sized(b.len() as u64),
                EncoderBody::Stream(h) => *h,
                EncoderBody::BoxedStream(h) => *h,
            }
        }
    }

    /// The construction decision. When the response is eligible and a
    /// concrete compressor exists for the negotiated encoding, the
    /// content-encoding header is set, chunked framing is forced, and the
    /// body is wrapped in a compressing encoder. Otherwise the head is left
    /// untouched: bodies with nothing to produce and in-memory bodies pass
    /// through as they are, and streaming bodies are wrapped in a
    /// passthrough encoder that emits their chunks unchanged.
    pub fn response(encoding: ContentEncoding, head: &mut ResponseHead, body: ResponseBody) -> (r:
        EncodedBody)
        ensures
            !can_encode(encoding, *old(head)) ==> *final(head) == *old(head),
            body matches ResponseBody::Other(InnerBody::NoBody) ==> r == EncodedBody::Other(
                InnerBody::NoBody,
            ) && *final(head) == *old(head),
            body matches ResponseBody::Other(InnerBody::Empty) ==> r == EncodedBody::Other(
                InnerBody::Empty,
            ) && *final(head) == *old(head),
            body matches ResponseBody::Other(InnerBody::Bytes(b)) ==> (!can_encode(
                encoding,
                *old(head),
            ) ==> (r matches EncodedBody::Other(InnerBody::Bytes(b2)) && b2@ == b@)),
            r matches EncodedBody::Body(e) ==> {
                &&& e.wf()
                &&& e.active()
                &&& !e.awaiting_job()
                &&& e.pulled() == Seq::<u8>::empty()
                &&& e.emitted() == Seq::<u8>::empty()
                &&& (e.installed() <==> can_encode(encoding, *old(head)))
                &&& e.encoding() == (if can_encode(encoding, *old(head)) {
                    encoding
                } else {
                    ContentEncoding::Identity
                })
            },
            body matches ResponseBody::Body(h) ==> (r matches EncodedBody::Body(e)
                && e.from_stream() && (!can_encode(encoding, *old(head)) ==> e.spec_size() == h)),
            body matches ResponseBody::Other(InnerBody::Message(h)) ==> (r
                matches EncodedBody::Body(e) && e.from_stream() && (!can_encode(
                encoding,
                *old(head),
            ) ==> e.spec_size() == h)),
            body matches ResponseBody::Other(InnerBody::Bytes(b)) ==> (can_encode(
                encoding,
                *old(head),
            ) ==> (r matches EncodedBody::Body(e) && e.from_buffer() && e.buffered_input() == b@)),
            can_encode(encoding, *old(head)) && !(body matches ResponseBody::Other(
                InnerBody::NoBody,
            )) && !(body matches ResponseBody::Other(InnerBody::Empty)) ==> *final(head) == (
            ResponseHead { content_encoding: Some(encoding), chunked: true, ..*old(head) }),
    {
        let can = !(head.content_encoding.is_some() || head.status == 101 || head.status == 204
            || encoding == ContentEncoding::Identity || encoding == ContentEncoding::Auto);
        let ebody = match body {
            ResponseBody::Other(b) => match b {
                InnerBody::NoBody => {
                    return EncodedBody::Other(InnerBody::NoBody);
                },
                InnerBody::Empty => {
                    return EncodedBody::Other(InnerBody::Empty);
                },
                InnerBody::Bytes(buf) => {
                    if can {
                        EncoderBody::Bytes(buf)
                    } else {
                        return EncodedBody::Other(InnerBody::Bytes(buf));
                    }
                },
                InnerBody::Message(h) => EncoderBody::BoxedStream(h),
            },
            ResponseBody::Body(h) => EncoderBody::Stream(h),
        };
        if can {
            if let Some(enc) = ContentEncoder::encoder(encoding) {
                update_head(encoding, head);
                head.chunked = true;
                return EncodedBody::Body(
                    Encoder {
                        body: ebody,
                        encoder: Some(enc),
                        awaiting: false,
                        state: StreamState::Active,
                        pulled: Ghost(Seq::empty()),
                        emitted: Ghost(Seq::empty()),
                        chosen: Ghost(encoding),
                    },
                );
            }
        }
        EncodedBody::Body(
            Encoder {
                body: ebody,
                encoder: None,
                awaiting: false,
                state: StreamState::Active,
                pulled: Ghost(Seq::empty()),
                emitted: Ghost(Seq::empty()),
                chosen: Ghost(ContentEncoding::Identity),
            },
        )
    }
}

/// Round trip: when an encoder has ended cleanly, decoding everything it
/// emitted under its negotiated encoding yields exactly the bytes its source
/// produced, whatever the chunking of the source was.
pub proof fn lemma_round_trip(e: Encoder)
    requires
        e.wf(),
        e.ended(),
    ensures
        plain_of(e.encoding(), e.emitted()) == e.pulled(),
{
}

/// Bypass is a no-op: an encoder without a compressor emits exactly the
/// bytes it pulls, at every point of the stream, not only at its end.
pub proof fn lemma_passthrough_identity(e: Encoder)
    requires
        e.wf(),
        e.encoding() is Identity,
    ensures
        e.emitted() == e.pulled(),
{
}

} // verus!
