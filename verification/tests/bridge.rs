//! Tests that drive the body adapter and the connection wrapper on concrete
//! values: round trips through both faces, the lossy direction's absent
//! trailers, end-of-stream consistency, readiness behaviour, and the
//! equivalence of the two dispatch paths.

use tower_hyper::body::{
    buf_poll_of_data_poll, data_poll_of_buf_poll, trailers_poll_of_pull, BufPoll, DataPoll,
    LiftBody, PullSource, PushSource, Trailers, TrailersPoll, TransportError,
};
use tower_hyper::client::connection::{Connection, Dispatch, ReadyPoll, Request, Response};

fn bytes(s: &str) -> Vec<u8> {
    s.as_bytes().to_vec()
}

fn chunks(parts: &[&str]) -> Vec<Vec<u8>> {
    parts.iter().map(|p| bytes(p)).collect()
}

#[test]
fn round_trip_pull_face_equals_native() {
    let script = chunks(&["ab", "cd", "ef"]);
    let mut native = PushSource::new(script.clone(), None, None);
    let (native_chunks, native_err) = native.read_to_end();

    let mut lifted = LiftBody::new(PushSource::new(script.clone(), None, None));
    let (lifted_chunks, lifted_err) = lifted.read_to_end();

    assert_eq!(native_chunks, script);
    assert_eq!(lifted_chunks, native_chunks);
    assert!(native_err.is_none());
    assert!(lifted_err.is_none());
}

#[test]
fn round_trip_empty_body() {
    let mut native = PushSource::new(Vec::new(), None, None);
    let mut lifted = LiftBody::new(PushSource::new(Vec::new(), None, None));
    let (native_chunks, native_err) = native.read_to_end();
    let (lifted_chunks, lifted_err) = lifted.read_to_end();
    assert!(native_chunks.is_empty());
    assert!(lifted_chunks.is_empty());
    assert!(native_err.is_none());
    assert!(lifted_err.is_none());
}

#[test]
fn round_trip_forwards_failure_verbatim() {
    let err = TransportError { code: 42 };
    let mut native = PushSource::new(chunks(&["ab"]), None, Some(err));
    let mut lifted = LiftBody::new(PushSource::new(chunks(&["ab"]), None, Some(err)));
    let (native_chunks, native_err) = native.read_to_end();
    let (lifted_chunks, lifted_err) = lifted.read_to_end();
    assert_eq!(native_chunks, chunks(&["ab"]));
    assert_eq!(lifted_chunks, native_chunks);
    assert_eq!(native_err, Some(err));
    assert_eq!(lifted_err, Some(err));
}

#[test]
fn lossy_face_reports_no_trailers() {
    // Fresh stream, mid-stream, after the end, and a failing stream: the
    // push-style face over a pull-style stream never reports trailers.
    let mut fresh = LiftBody::new(PullSource::new(chunks(&["ab", "cd"]), None));
    assert!(matches!(fresh.poll_trailers(), TrailersPoll::NoTrailers));

    let _ = fresh.poll_data();
    assert!(matches!(fresh.poll_trailers(), TrailersPoll::NoTrailers));

    let _ = fresh.read_to_end();
    assert!(matches!(fresh.poll_trailers(), TrailersPoll::NoTrailers));

    let mut failing = LiftBody::new(PullSource::new(
        Vec::new(),
        Some(TransportError { code: 7 }),
    ));
    assert!(matches!(failing.poll_trailers(), TrailersPoll::NoTrailers));
}

#[test]
fn lossy_face_preserves_data_and_errors() {
    let script = chunks(&["ab", "cd", "ef"]);
    let mut native = PullSource::new(script.clone(), None);
    let mut lifted = LiftBody::new(PullSource::new(script.clone(), None));
    let (native_bufs, native_err) = native.read_to_end();
    let (lifted_chunks, lifted_err) = lifted.read_to_end();
    assert_eq!(native_bufs, script);
    assert_eq!(lifted_chunks, native_bufs);
    assert!(native_err.is_none());
    assert!(lifted_err.is_none());

    let err = TransportError { code: 9 };
    let mut failing = LiftBody::new(PullSource::new(chunks(&["xy"]), Some(err)));
    let (got, got_err) = failing.read_to_end();
    assert_eq!(got, chunks(&["xy"]));
    assert_eq!(got_err, Some(err));
}

#[test]
fn end_stream_consistency() {
    // True exactly when the wrapped stream's next poll would report the end.
    let mut lifted = LiftBody::new(PullSource::new(chunks(&["ab"]), None));
    assert!(!lifted.is_end_stream());
    assert!(matches!(lifted.poll_data(), DataPoll::Chunk(_)));
    assert!(lifted.is_end_stream());

    let empty = LiftBody::new(PullSource::new(Vec::new(), None));
    assert!(empty.is_end_stream());

    // A failing stream's next poll yields the failure, not the end.
    let failing = LiftBody::new(PullSource::new(
        Vec::new(),
        Some(TransportError { code: 3 }),
    ));
    assert!(!failing.is_end_stream());
}

#[test]
fn push_source_trailers_after_data() {
    let trailers = Trailers {
        fields: vec![(bytes("grpc-status"), bytes("0"))],
    };
    let mut body = PushSource::new(chunks(&["ab"]), Some(trailers), None);

    // Trailers are pending while data is left.
    assert!(matches!(body.poll_trailers(), TrailersPoll::Pending));
    assert!(!body.is_end_stream());

    let (got, err) = body.read_to_end();
    assert_eq!(got, chunks(&["ab"]));
    assert!(err.is_none());

    // After the data the trailers come, once.
    match body.poll_trailers() {
        TrailersPoll::Trailers(t) => {
            assert_eq!(t.fields, vec![(bytes("grpc-status"), bytes("0"))]);
        }
        _ => panic!("expected the scripted trailers"),
    }
    assert!(matches!(body.poll_trailers(), TrailersPoll::NoTrailers));
    assert!(body.is_end_stream());
}

#[test]
fn translation_is_exact_per_arm() {
    let err = TransportError { code: 5 };

    assert!(matches!(
        buf_poll_of_data_poll::<Vec<u8>, TransportError>(DataPoll::Pending),
        BufPoll::Pending
    ));
    match buf_poll_of_data_poll::<Vec<u8>, TransportError>(DataPoll::Chunk(bytes("ab"))) {
        BufPoll::Buf(d) => assert_eq!(d, bytes("ab")),
        _ => panic!("a chunk must come out as a buffer"),
    }
    assert!(matches!(
        buf_poll_of_data_poll::<Vec<u8>, TransportError>(DataPoll::End),
        BufPoll::End
    ));
    match buf_poll_of_data_poll::<Vec<u8>, TransportError>(DataPoll::Fail(err)) {
        BufPoll::Fail(e) => assert_eq!(e, err),
        _ => panic!("a failure must be forwarded verbatim"),
    }

    assert!(matches!(
        data_poll_of_buf_poll::<Vec<u8>, TransportError>(BufPoll::Pending),
        DataPoll::Pending
    ));
    match data_poll_of_buf_poll::<Vec<u8>, TransportError>(BufPoll::Buf(bytes("cd"))) {
        DataPoll::Chunk(d) => assert_eq!(d, bytes("cd")),
        _ => panic!("a buffer must come out as a chunk"),
    }
    assert!(matches!(
        data_poll_of_buf_poll::<Vec<u8>, TransportError>(BufPoll::End),
        DataPoll::End
    ));
    match data_poll_of_buf_poll::<Vec<u8>, TransportError>(BufPoll::Fail(err)) {
        DataPoll::Fail(e) => assert_eq!(e, err),
        _ => panic!("a failure must be forwarded verbatim"),
    }

    assert!(matches!(
        trailers_poll_of_pull::<Trailers, TransportError>(),
        TrailersPoll::NoTrailers
    ));
}

#[test]
fn lift_and_unwrap_recover_the_body() {
    let mut body = LiftBody::new(PushSource::new(chunks(&["ab", "cd"]), None, None)).into_inner();
    let (got, err) = body.read_to_end();
    assert_eq!(got, chunks(&["ab", "cd"]));
    assert!(err.is_none());
}

#[test]
fn poll_ready_is_idempotent() {
    let mut conn = Connection::new(Dispatch::Native);
    assert!(matches!(
        conn.poll_ready::<TransportError>(ReadyPoll::Pending),
        ReadyPoll::Pending
    ));
    assert!(matches!(
        conn.poll_ready::<TransportError>(ReadyPoll::Pending),
        ReadyPoll::Pending
    ));
    assert!(matches!(
        conn.poll_ready::<TransportError>(ReadyPoll::Ready),
        ReadyPoll::Ready
    ));
    assert!(matches!(
        conn.poll_ready::<TransportError>(ReadyPoll::Ready),
        ReadyPoll::Ready
    ));
}

#[test]
fn poll_ready_forwards_the_transport_error() {
    let mut conn = Connection::new(Dispatch::Lifted);
    let err = TransportError { code: 11 };
    match conn.poll_ready::<TransportError>(ReadyPoll::Fail(err)) {
        ReadyPoll::Fail(e) => assert_eq!(e, err),
        _ => panic!("the transport's fatal error must be surfaced verbatim"),
    }
}

#[test]
fn not_ready_consumes_no_request() {
    // A transport that reports "not ready": the wrapper reports the same,
    // and a disciplined caller therefore sends nothing.
    let mut conn = Connection::new(Dispatch::Native);
    let mut sent_requests: usize = 0;

    let transport_answer: ReadyPoll<TransportError> = ReadyPoll::Pending;
    match conn.poll_ready(transport_answer) {
        ReadyPoll::Ready => {
            let req = Request {
                method: bytes("GET"),
                uri: bytes("/"),
                body: PushSource::new(Vec::new(), None, None),
            };
            let _ = conn.request_to_send_native(req);
            sent_requests += 1;
        }
        ReadyPoll::Pending => {}
        ReadyPoll::Fail(_) => panic!("the scripted transport does not fail"),
    }
    assert_eq!(sent_requests, 0);
}

#[test]
fn native_path_passes_through_unchanged() {
    let conn = Connection::new(Dispatch::Native);
    let req = Request {
        method: bytes("GET"),
        uri: bytes("/index"),
        body: PushSource::new(chunks(&["ab"]), None, None),
    };
    let mut sent = conn.request_to_send_native(req);
    assert_eq!(sent.method, bytes("GET"));
    assert_eq!(sent.uri, bytes("/index"));
    let (got, err) = sent.body.read_to_end();
    assert_eq!(got, chunks(&["ab"]));
    assert!(err.is_none());

    let resp = Response {
        status: 200,
        body: PushSource::new(chunks(&["xy"]), None, None),
    };
    let mut delivered = conn.response_to_deliver_native(resp);
    assert_eq!(delivered.status, 200);
    let (got, err) = delivered.body.read_to_end();
    assert_eq!(got, chunks(&["xy"]));
    assert!(err.is_none());
}

#[test]
fn scenario_lifted_three_chunk_request() {
    // A request with body ["ab", "cd", "ef"] submitted via the lifted path:
    // the transport must receive the same three chunks in the same order.
    let conn = Connection::new(Dispatch::Lifted);
    let req = Request {
        method: bytes("POST"),
        uri: bytes("/upload"),
        body: LiftBody::new(PushSource::new(chunks(&["ab", "cd", "ef"]), None, None)),
    };
    let mut sent = conn.request_to_send_lifted(req);
    assert_eq!(sent.method, bytes("POST"));
    assert_eq!(sent.uri, bytes("/upload"));
    let (transport_saw, err) = sent.body.read_to_end();
    assert_eq!(transport_saw, chunks(&["ab", "cd", "ef"]));
    assert!(err.is_none());

    // A response with chunks ["xy", "z"]: the caller, reading through the
    // lifted adapter, observes exactly ["xy", "z"], and no trailers exist on
    // the face it reads through.
    let resp = Response {
        status: 200,
        body: PushSource::new(chunks(&["xy", "z"]), None, None),
    };
    let mut delivered = conn.response_to_deliver_lifted(resp);
    assert_eq!(delivered.status, 200);
    let (caller_saw, err) = delivered.body.read_to_end();
    assert_eq!(caller_saw, chunks(&["xy", "z"]));
    assert!(err.is_none());
}

#[test]
fn dual_paths_agree_on_content_and_errors() {
    // The same transport behaviour behind both paths: the request body to
    // read and the response body produced are scripted identically.
    let req_script = chunks(&["ab", "cd"]);
    let resp_script = chunks(&["xy", "z"]);
    let resp_err = TransportError { code: 13 };

    // Native path.
    let native = Connection::new(Dispatch::Native);
    let req = Request {
        method: bytes("PUT"),
        uri: bytes("/item"),
        body: PushSource::new(req_script.clone(), None, None),
    };
    let mut sent = native.request_to_send_native(req);
    let native_transport_read = sent.body.read_to_end();
    let resp = Response {
        status: 500,
        body: PushSource::new(resp_script.clone(), None, Some(resp_err)),
    };
    let mut delivered = native.response_to_deliver_native(resp);
    let native_caller_read = delivered.body.read_to_end();

    // Lifted path, against the same scripted behaviour.
    let lifted = Connection::new(Dispatch::Lifted);
    let req = Request {
        method: bytes("PUT"),
        uri: bytes("/item"),
        body: LiftBody::new(PushSource::new(req_script.clone(), None, None)),
    };
    let mut sent = lifted.request_to_send_lifted(req);
    let lifted_transport_read = sent.body.read_to_end();
    let resp = Response {
        status: 500,
        body: PushSource::new(resp_script.clone(), None, Some(resp_err)),
    };
    let mut delivered = lifted.response_to_deliver_lifted(resp);
    let lifted_caller_read = delivered.body.read_to_end();

    assert_eq!(native_transport_read.0, lifted_transport_read.0);
    assert_eq!(native_transport_read.1, lifted_transport_read.1);
    assert_eq!(native_caller_read.0, lifted_caller_read.0);
    assert_eq!(native_caller_read.1, lifted_caller_read.1);

    // And both agree with the scripted behaviour itself.
    assert_eq!(native_transport_read.0, req_script);
    assert_eq!(native_caller_read.0, resp_script);
    assert_eq!(native_caller_read.1, Some(resp_err));
}
