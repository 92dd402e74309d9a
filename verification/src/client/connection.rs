//! The connection service wrapper.
//!
//! A wrapper instance stands for one live transport connection and exposes
//! the two-phase service contract: a non-blocking readiness check, then a
//! call that submits one request and yields the response. The implicit state
//! machine — idle, then ready for a call once readiness is confirmed, then
//! awaiting the response — is enforced by caller discipline, not by internal
//! flags: a caller must confirm readiness before each call, and the wrapper
//! does not defend against a call issued while not ready.
//!
//! Two dispatch paths exist, selected once, at construction. On the *native*
//! path request and response already use the transport's own body type and
//! pass through unchanged. On the *lifted* path the request's body is
//! unwrapped back to the transport's native type before it is sent, and the
//! response's body is re-wrapped in [`LiftBody`] before the caller sees it.
//!
//! The transport itself — the collaborator that owns the wire — is driven
//! outside this library; the functions here take each of its answers as an
//! argument and are verified for every answer it could give. Transport
//! failures are forwarded verbatim: the wrapper retries nothing, classifies
//! nothing and recovers nothing.

use vstd::prelude::*;
use crate::body::LiftBody;
use crate::body::PullModel;
use crate::body::PushModel;
use crate::body::lemma_lossy_direction_data;
use crate::body::lemma_round_trip;
use crate::body::pull_face_read;
use crate::body::pull_read;
use crate::body::push_face_read;
use crate::body::push_read;

verus! {

/// One outcome of the transport's readiness check.
#[derive(Debug)]
pub enum ReadyPoll<E> {
    /// The transport can accept a new request now.
    Ready,
    /// The transport cannot accept a request yet; check again later.
    Pending,
    /// The transport is no longer usable; the error is forwarded verbatim.
    Fail(E),
}

/// Which of the two dispatch paths a connection wrapper uses, fixed at
/// construction.
#[derive(Clone, Copy, Debug, PartialEq, Eq, Structural)]
pub enum Dispatch {
    /// Request and response use the transport's native body type and pass
    /// through unchanged.
    Native,
    /// The request's body is unwrapped before sending and the response's
    /// body is re-wrapped before delivery.
    Lifted,
}

/// A request: what identifies it to the transport, and its body.
#[derive(Debug)]
pub struct Request<B> {
    /// The request method.
    pub method: Vec<u8>,
    /// The request target.
    pub uri: Vec<u8>,
    /// The request body.
    pub body: B,
}

/// A response: its status and its body.
#[derive(Debug)]
pub struct Response<B> {
    /// The response status code.
    pub status: u16,
    /// The response body.
    pub body: B,
}

/// What one readiness decision of the wrapper yields: the transport's own
/// answer, forwarded verbatim, and the wrapper exactly as it was. Nothing is
/// consumed and nothing is sent by checking readiness.
pub open spec fn ready_step<E>(c: Connection, transport: ReadyPoll<E>) -> (
    ReadyPoll<E>,
    Connection,
) {
    (transport, c)
}

/// The connection service wrapper. It holds the dispatch path chosen at
/// construction; the transport sender it drives stays with the caller, which
/// hands each of the transport's answers in and carries each decision out.
#[derive(Debug)]
pub struct Connection {
    dispatch: Dispatch,
}

impl Connection {
    /// The dispatch path this wrapper was built for.
    pub closed spec fn mode(&self) -> Dispatch {
        self.dispatch
    }

    /// A wrapper for one live connection, with the dispatch path fixed here
    /// and never changed afterwards.
    pub fn new(dispatch: Dispatch) -> (r: Self)
        ensures
            r.mode() == dispatch,
    {
        Connection { dispatch }
    }

    /// The readiness check: delegated to the transport's own, whose answer is
    /// forwarded verbatim — not ready exactly when the transport cannot
    /// accept a request, the transport's error exactly when it is no longer
    /// usable. The wrapper is left untouched: polling readiness consumes no
    /// request.
    pub fn poll_ready<E>(&mut self, transport: ReadyPoll<E>) -> (r: ReadyPoll<E>)
        ensures
            r == ready_step(*old(self), transport).0,
            *final(self) == ready_step(*old(self), transport).1,
    {
        transport
    }

    /// Native path: the request is handed to the transport unchanged — same
    /// method, same target, the very body.
    pub fn request_to_send_native<B>(&self, req: Request<B>) -> (r: Request<B>)
        requires
            self.mode() == Dispatch::Native,
        ensures
            r == req,
    {
        req
    }

    /// Native path: the transport's response is handed to the caller
    /// unchanged.
    pub fn response_to_deliver_native<B>(&self, resp: Response<B>) -> (r: Response<B>)
        requires
            self.mode() == Dispatch::Native,
        ensures
            r == resp,
    {
        resp
    }

    /// Lifted path: the request's lifted body is unwrapped back to the
    /// transport's native body type before the request is sent; method and
    /// target are untouched.
    pub fn request_to_send_lifted<B>(&self, req: Request<LiftBody<B>>) -> (r: Request<B>)
        requires
            self.mode() == Dispatch::Lifted,
        ensures
            r.method == req.method,
            r.uri == req.uri,
            r.body == req.body.unwrapped(),
    {
        let Request { method, uri, body } = req;
        Request { method, uri, body: body.into_inner() }
    }

    /// Lifted path: the response's body is re-wrapped in [`LiftBody`] before
    /// the caller sees the response; the status is untouched.
    pub fn response_to_deliver_lifted<B>(&self, resp: Response<B>) -> (r: Response<LiftBody<B>>)
        requires
            self.mode() == Dispatch::Lifted,
        ensures
            r.status == resp.status,
            r.body.unwrapped() == resp.body,
    {
        let Response { status, body } = resp;
        Response { status, body: LiftBody::new(body) }
    }
}

/// Readiness polling is idempotent: polling again, with no call in between
/// and the transport giving the same answer, returns the same outcome and
/// leaves the wrapper exactly where the first poll left it — which is where
/// it started.
pub proof fn lemma_poll_ready_idempotent<E>(c: Connection, transport: ReadyPoll<E>)
    ensures
        ({
            let (r1, c1) = ready_step(c, transport);
            let (r2, c2) = ready_step(c1, transport);
            &&& r2 == r1
            &&& c2 == c1
            &&& c1 == c
        }),
{
}

/// Dual-path equivalence: driven against the same transport behaviour — the
/// same request body to read, the same response body produced — the native
/// path and the lifted path give byte-identical body content and the
/// identical error outcome on both sides.
///
/// On the native path the request and the response pass through unchanged,
/// and on the lifted path the dispatch contracts hand the transport the very
/// body that was unwrapped and hand the caller the very body that was
/// wrapped; so what remains to equate is each adapter face against the native
/// read. The first clause covers the request the transport reads through the
/// push-style face, the second the response the caller reads through the
/// pull-style face.
pub proof fn lemma_dual_path_equivalence(req_body: PullModel, resp_body: PushModel)
    ensures
        push_face_read(req_body) == pull_read(req_body),
        pull_face_read(resp_body) == push_read(resp_body),
{
    lemma_lossy_direction_data(req_body);
    lemma_round_trip(resp_body);
}

} // verus!
