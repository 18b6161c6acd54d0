use std::io::Read;

use ntex_core::body::{BodyError, BodySize, JobError};
use ntex_core::encoder::{
    EncodedBody, Encoder, Event, InnerBody, InnerPoll, JobPoll, ResponseBody, Step,
};
use ntex_core::head::{update_head, ContentEncoding, ResponseHead};

/// Drives an encoder over a polled source: acts as the connection task,
/// handing the encoder inner-body chunks, completing offloaded jobs
/// synchronously, and collecting the emitted chunks. Returns the emitted
/// chunks and the number of chunks that went through the offload path.
fn drive(e: &mut Encoder, chunks: Vec<Vec<u8>>) -> (Vec<Vec<u8>>, usize) {
    let mut out: Vec<Vec<u8>> = Vec::new();
    let mut offloads: usize = 0;
    let mut iter = chunks.into_iter();
    let mut done = false;
    while !done {
        let mut step = e.poll_chunk(Event::Start);
        loop {
            match step {
                Step::Emit(v) => {
                    out.push(v);
                    break;
                }
                Step::Done => {
                    done = true;
                    break;
                }
                Step::Failed(_) => panic!("stream failed"),
                Step::Pending => panic!("no collaborator reported pending"),
                Step::NeedInner => {
                    let ev = match iter.next() {
                        Some(c) => InnerPoll::Chunk(c),
                        None => InnerPoll::End,
                    };
                    step = e.poll_chunk(Event::Inner(ev));
                }
                Step::NeedJob => panic!("jobs are completed synchronously here"),
                Step::Offload(mut enc, chunk) => {
                    offloads += 1;
                    enc.write(&chunk).unwrap();
                    step = e.poll_chunk(Event::Job(JobPoll::Done(enc)));
                }
                Step::Continue => {
                    step = e.poll_chunk(Event::Start);
                }
            }
        }
    }
    (out, offloads)
}

fn concat(chunks: &[Vec<u8>]) -> Vec<u8> {
    let mut all = Vec::new();
    for c in chunks {
        all.extend_from_slice(c);
    }
    all
}

fn compressing(encoding: ContentEncoding) -> Encoder {
    let mut head = ResponseHead::new(200);
    match Encoder::response(encoding, &mut head, ResponseBody::Body(BodySize::Stream)) {
        EncodedBody::Body(e) => e,
        _ => panic!("expected a wrapped body"),
    }
}

fn gunzip(data: &[u8]) -> Vec<u8> {
    let mut d = flate2::read::GzDecoder::new(data);
    let mut out = Vec::new();
    d.read_to_end(&mut out).unwrap();
    out
}

fn inflate(data: &[u8]) -> Vec<u8> {
    let mut d = flate2::read::ZlibDecoder::new(data);
    let mut out = Vec::new();
    d.read_to_end(&mut out).unwrap();
    out
}

fn unbrotli(data: &[u8]) -> Vec<u8> {
    let mut d = brotli2::read::BrotliDecoder::new(data);
    let mut out = Vec::new();
    d.read_to_end(&mut out).unwrap();
    out
}

fn patterned(n: usize) -> Vec<u8> {
    (0..n).map(|i| (i % 251) as u8).collect()
}

#[test]
fn round_trip_gzip_small_chunks() {
    let mut e = compressing(ContentEncoding::Gzip);
    let input = vec![b"hello ".to_vec(), b"streaming ".to_vec(), b"world".to_vec()];
    let expected = concat(&input);
    let (out, offloads) = drive(&mut e, input);
    assert_eq!(offloads, 0);
    assert_eq!(gunzip(&concat(&out)), expected);
}

#[test]
fn round_trip_gzip_large_chunks() {
    let mut e = compressing(ContentEncoding::Gzip);
    let input = vec![patterned(5000), b"tail".to_vec(), patterned(2048)];
    let expected = concat(&input);
    let (out, offloads) = drive(&mut e, input);
    assert_eq!(offloads, 2);
    assert_eq!(gunzip(&concat(&out)), expected);
}

#[test]
fn round_trip_deflate() {
    let mut e = compressing(ContentEncoding::Deflate);
    let input = vec![b"abc".to_vec(), patterned(4000), b"xyz".to_vec()];
    let expected = concat(&input);
    let (out, offloads) = drive(&mut e, input);
    assert_eq!(offloads, 1);
    assert_eq!(inflate(&concat(&out)), expected);
}

#[test]
fn round_trip_brotli() {
    let mut e = compressing(ContentEncoding::Br);
    let input = vec![patterned(1500), b"ending".to_vec()];
    let expected = concat(&input);
    let (out, offloads) = drive(&mut e, input);
    assert_eq!(offloads, 1);
    assert_eq!(unbrotli(&concat(&out)), expected);
}

#[test]
fn round_trip_empty_input() {
    let mut e = compressing(ContentEncoding::Gzip);
    let (out, offloads) = drive(&mut e, Vec::new());
    assert_eq!(offloads, 0);
    assert_eq!(gunzip(&concat(&out)), Vec::<u8>::new());
}

#[test]
fn threshold_small_chunk_stays_inline() {
    let mut e = compressing(ContentEncoding::Gzip);
    let input = vec![patterned(1023)];
    let expected = concat(&input);
    let (out, offloads) = drive(&mut e, input);
    assert_eq!(offloads, 0);
    assert_eq!(gunzip(&concat(&out)), expected);
}

#[test]
fn threshold_large_chunk_offloaded_once() {
    let mut e = compressing(ContentEncoding::Gzip);
    let input = vec![patterned(1024)];
    let expected = concat(&input);
    let (out, offloads) = drive(&mut e, input);
    assert_eq!(offloads, 1);
    assert_eq!(gunzip(&concat(&out)), expected);
}

#[test]
fn offload_waits_before_next_pull() {
    let mut e = compressing(ContentEncoding::Gzip);
    let step = e.poll_chunk(Event::Inner(InnerPoll::Chunk(patterned(1024))));
    let enc = match step {
        Step::Offload(enc, chunk) => {
            assert_eq!(chunk.len(), 1024);
            enc
        }
        _ => panic!("a chunk at the threshold must be offloaded"),
    };
    // while the job is outstanding the encoder asks for the job, not for input
    assert!(matches!(e.poll_chunk(Event::Start), Step::NeedJob));
    assert!(matches!(e.poll_chunk(Event::Job(JobPoll::Pending)), Step::Pending));
    let mut enc = enc;
    enc.write(&patterned(1024)).unwrap();
    assert!(matches!(
        e.poll_chunk(Event::Job(JobPoll::Done(enc))),
        Step::Emit(_) | Step::NeedInner
    ));
}

#[test]
fn bypass_identity_bytes_unchanged() {
    let mut head = ResponseHead::new(200);
    let body = ResponseBody::Other(InnerBody::Bytes(b"payload".to_vec()));
    match Encoder::response(ContentEncoding::Identity, &mut head, body) {
        EncodedBody::Other(InnerBody::Bytes(b)) => assert_eq!(b, b"payload".to_vec()),
        _ => panic!("identity must pass the buffer through"),
    }
    assert_eq!(head.content_encoding, None);
    assert!(!head.chunked);
}

#[test]
fn bypass_auto_stream_unchanged() {
    let mut head = ResponseHead::new(200);
    let body = ResponseBody::Body(BodySize::Sized(9));
    let mut e = match Encoder::response(ContentEncoding::Auto, &mut head, body) {
        EncodedBody::Body(e) => e,
        _ => panic!("a streaming body is wrapped even when not encoded"),
    };
    assert_eq!(head.content_encoding, None);
    assert_eq!(e.size(), BodySize::Sized(9));
    let input = vec![b"unchanged".to_vec()];
    let (out, offloads) = drive(&mut e, input);
    assert_eq!(offloads, 0);
    assert_eq!(concat(&out), b"unchanged".to_vec());
}

#[test]
fn bypass_status_no_content() {
    let mut head = ResponseHead::new(204);
    let body = ResponseBody::Other(InnerBody::Bytes(b"x".to_vec()));
    match Encoder::response(ContentEncoding::Gzip, &mut head, body) {
        EncodedBody::Other(InnerBody::Bytes(b)) => assert_eq!(b, b"x".to_vec()),
        _ => panic!("status 204 must bypass compression"),
    }
    assert_eq!(head.content_encoding, None);
}

#[test]
fn bypass_status_switching_protocols() {
    let mut head = ResponseHead::new(101);
    let mut e = match Encoder::response(
        ContentEncoding::Gzip,
        &mut head,
        ResponseBody::Body(BodySize::Stream),
    ) {
        EncodedBody::Body(e) => e,
        _ => panic!("a streaming body is wrapped even when not encoded"),
    };
    assert_eq!(head.content_encoding, None);
    let (out, offloads) = drive(&mut e, vec![b"ws".to_vec()]);
    assert_eq!(offloads, 0);
    assert_eq!(concat(&out), b"ws".to_vec());
}

#[test]
fn bypass_header_already_present() {
    let mut head = ResponseHead { status: 200, content_encoding: Some(ContentEncoding::Br), chunked: false };
    let body = ResponseBody::Other(InnerBody::Bytes(b"done".to_vec()));
    match Encoder::response(ContentEncoding::Gzip, &mut head, body) {
        EncodedBody::Other(InnerBody::Bytes(b)) => assert_eq!(b, b"done".to_vec()),
        _ => panic!("a present content-encoding header must bypass compression"),
    }
    assert_eq!(head.content_encoding, Some(ContentEncoding::Br));
}

#[test]
fn bypass_body_none_and_empty() {
    let mut head = ResponseHead::new(200);
    match Encoder::response(
        ContentEncoding::Gzip,
        &mut head,
        ResponseBody::Other(InnerBody::NoBody),
    ) {
        EncodedBody::Other(InnerBody::NoBody) => {}
        _ => panic!("a missing body stays missing"),
    }
    match Encoder::response(
        ContentEncoding::Gzip,
        &mut head,
        ResponseBody::Other(InnerBody::Empty),
    ) {
        EncodedBody::Other(InnerBody::Empty) => {}
        _ => panic!("an empty body stays empty"),
    }
    assert_eq!(head.content_encoding, None);
}

#[test]
fn response_sets_header_and_chunking() {
    let mut head = ResponseHead::new(200);
    let e = match Encoder::response(
        ContentEncoding::Gzip,
        &mut head,
        ResponseBody::Body(BodySize::Sized(100)),
    ) {
        EncodedBody::Body(e) => e,
        _ => panic!("expected a wrapped body"),
    };
    assert_eq!(head.content_encoding, Some(ContentEncoding::Gzip));
    assert!(head.chunked);
    assert_eq!(head.status, 200);
    // any active compressor makes the length unknowable
    assert_eq!(e.size(), BodySize::Stream);
}

#[test]
fn update_head_records_encoding() {
    let mut head = ResponseHead::new(200);
    update_head(ContentEncoding::Deflate, &mut head);
    assert_eq!(head.content_encoding, Some(ContentEncoding::Deflate));
    assert_eq!(head.status, 200);
    assert!(!head.chunked);
}

#[test]
fn buffer_body_round_trip() {
    let mut head = ResponseHead::new(200);
    let data = patterned(700);
    let body = ResponseBody::Other(InnerBody::Bytes(data.clone()));
    let mut e = match Encoder::response(ContentEncoding::Gzip, &mut head, body) {
        EncodedBody::Body(e) => e,
        _ => panic!("an eligible buffer body is wrapped"),
    };
    let (out, offloads) = drive(&mut e, Vec::new());
    assert_eq!(offloads, 0);
    assert_eq!(gunzip(&concat(&out)), data);
}

#[test]
fn buffer_body_offloaded_round_trip() {
    let mut head = ResponseHead::new(200);
    let data = patterned(3000);
    let body = ResponseBody::Other(InnerBody::Bytes(data.clone()));
    let mut e = match Encoder::response(ContentEncoding::Deflate, &mut head, body) {
        EncodedBody::Body(e) => e,
        _ => panic!("an eligible buffer body is wrapped"),
    };
    let (out, offloads) = drive(&mut e, Vec::new());
    assert_eq!(offloads, 1);
    assert_eq!(inflate(&concat(&out)), data);
}

#[test]
fn end_is_permanent() {
    let mut e = compressing(ContentEncoding::Gzip);
    let (_, _) = drive(&mut e, vec![b"bytes".to_vec()]);
    for _ in 0..3 {
        assert!(matches!(e.poll_chunk(Event::Start), Step::Done));
    }
}

#[test]
fn finish_tail_is_single_and_nonempty() {
    let mut e = compressing(ContentEncoding::Gzip);
    // one small chunk, then the end of the source
    let mut tail_chunks: usize = 0;
    let mut step = e.poll_chunk(Event::Inner(InnerPoll::Chunk(b"tiny".to_vec())));
    loop {
        match step {
            Step::Emit(v) => {
                assert!(!v.is_empty());
                tail_chunks += 1;
                step = e.poll_chunk(Event::Start);
            }
            Step::NeedInner => {
                step = e.poll_chunk(Event::Inner(InnerPoll::End));
            }
            Step::Done => break,
            _ => panic!("unexpected step"),
        }
    }
    assert!(tail_chunks >= 1);
    assert!(matches!(e.poll_chunk(Event::Start), Step::Done));
}

#[test]
fn job_cancellation_is_fatal() {
    let mut e = compressing(ContentEncoding::Gzip);
    match e.poll_chunk(Event::Inner(InnerPoll::Chunk(patterned(2000)))) {
        Step::Offload(_, _) => {}
        _ => panic!("a large chunk must be offloaded"),
    }
    assert!(matches!(
        e.poll_chunk(Event::Job(JobPoll::Failed(JobError::Canceled))),
        Step::Failed(BodyError::Canceled)
    ));
    // the failure is terminal and repeats
    assert!(matches!(e.poll_chunk(Event::Start), Step::Failed(BodyError::Canceled)));
}

#[test]
fn job_failure_keeps_its_message() {
    let mut e = compressing(ContentEncoding::Gzip);
    match e.poll_chunk(Event::Inner(InnerPoll::Chunk(patterned(2000)))) {
        Step::Offload(_, _) => {}
        _ => panic!("a large chunk must be offloaded"),
    }
    match e.poll_chunk(Event::Job(JobPoll::Failed(JobError::Failure(String::from("boom"))))) {
        Step::Failed(BodyError::Io(m)) => assert_eq!(m, "boom"),
        _ => panic!("a failed job ends the stream in its error"),
    }
}

#[test]
fn inner_error_ends_stream() {
    let mut e = compressing(ContentEncoding::Gzip);
    match e.poll_chunk(Event::Inner(InnerPoll::Failed(BodyError::Io(String::from("bad"))))) {
        Step::Failed(BodyError::Io(m)) => assert_eq!(m, "bad"),
        _ => panic!("an inner failure ends the stream"),
    }
    assert!(matches!(e.poll_chunk(Event::Start), Step::Failed(BodyError::Io(_))));
}

#[test]
fn passthrough_size_hints() {
    let mut head = ResponseHead::new(200);
    let e = match Encoder::response(
        ContentEncoding::Identity,
        &mut head,
        ResponseBody::Other(InnerBody::Message(BodySize::Empty)),
    ) {
        EncodedBody::Body(e) => e,
        _ => panic!("a boxed streaming body is wrapped even when not encoded"),
    };
    assert_eq!(e.size(), BodySize::Empty);
}
