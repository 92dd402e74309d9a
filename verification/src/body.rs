//! The body adapter: a stateless wrapper that lets a push-style body be read
//! through a pull-style face and a pull-style stream be read through a
//! push-style face.
//!
//! Two asynchronous streaming abstractions are reconciled here. The
//! *push-style* body hands out data chunks on demand and may end with trailing
//! metadata; the *pull-style* stream hands out buffers until exhausted and has
//! no trailer concept. Neither is a superset of the other, so the adapter is
//! asymmetric: a push-style body is presented as pull-style losslessly, while
//! a pull-style stream presented as push-style never reports trailers.
//!
//! The poll outcomes exchanged with a real transport are carried by the
//! generic [`DataPoll`], [`BufPoll`] and [`TrailersPoll`] enums; the
//! translation functions on them are the adapter's whole per-poll logic and
//! are verified for every data and error type. [`PushSource`] and
//! [`PullSource`] hold a body as plain values (its chunks, trailers and
//! failure), so that whole reads through either face are verified end to end.

use vstd::prelude::*;

verus! {

/// A transport-level failure, identified by its code. Every layer here
/// forwards such a failure verbatim and never produces one of its own.
#[derive(Clone, Copy, Debug, PartialEq, Eq, Structural)]
pub struct TransportError {
    /// Identifies the failure; the adapter never reads it.
    pub code: u64,
}

/// Trailing metadata of a push-style body: name/value pairs.
#[derive(Debug)]
pub struct Trailers {
    /// The trailer fields, in order.
    pub fields: Vec<(Vec<u8>, Vec<u8>)>,
}

impl View for Trailers {
    type V = Seq<(Seq<u8>, Seq<u8>)>;

    open spec fn view(&self) -> Seq<(Seq<u8>, Seq<u8>)> {
        self.fields@.map_values(|f: (Vec<u8>, Vec<u8>)| (f.0@, f.1@))
    }
}

/// One outcome of polling a push-style body for data.
#[derive(Debug)]
pub enum DataPoll<D, E> {
    /// No outcome yet; poll again later.
    Pending,
    /// The next chunk of data.
    Chunk(D),
    /// The data is over.
    End,
    /// The producer failed; the error is forwarded verbatim.
    Fail(E),
}

/// One outcome of polling a pull-style stream for a buffer.
#[derive(Debug)]
pub enum BufPoll<D, E> {
    /// No outcome yet; poll again later.
    Pending,
    /// The next buffer.
    Buf(D),
    /// The stream is exhausted.
    End,
    /// The producer failed; the error is forwarded verbatim.
    Fail(E),
}

/// One outcome of polling a push-style body for its trailers.
#[derive(Debug)]
pub enum TrailersPoll<T, E> {
    /// No outcome yet; poll again later.
    Pending,
    /// The trailing metadata.
    Trailers(T),
    /// The body ends without trailing metadata.
    NoTrailers,
    /// The producer failed; the error is forwarded verbatim.
    Fail(E),
}

/// What the pull-style face answers for each outcome of the wrapped body's
/// data poll: the same content, in the buffer vocabulary.
pub open spec fn buf_poll_of_data_poll_spec<D, E>(p: DataPoll<D, E>) -> BufPoll<D, E> {
    match p {
        DataPoll::Pending => BufPoll::Pending,
        DataPoll::Chunk(d) => BufPoll::Buf(d),
        DataPoll::End => BufPoll::End,
        DataPoll::Fail(e) => BufPoll::Fail(e),
    }
}

/// What the push-style face answers for each outcome of the wrapped stream's
/// buffer poll: the same content, in the chunk vocabulary.
pub open spec fn data_poll_of_buf_poll_spec<D, E>(p: BufPoll<D, E>) -> DataPoll<D, E> {
    match p {
        BufPoll::Pending => DataPoll::Pending,
        BufPoll::Buf(d) => DataPoll::Chunk(d),
        BufPoll::End => DataPoll::End,
        BufPoll::Fail(e) => DataPoll::Fail(e),
    }
}

/// The pull-style face's one decision: a data poll outcome of the wrapped
/// push-style body becomes the buffer poll outcome with the same content.
/// Chunks, the end and failures pass through unchanged; nothing is buffered,
/// reordered or dropped.
pub fn buf_poll_of_data_poll<D, E>(p: DataPoll<D, E>) -> (r: BufPoll<D, E>)
    ensures
        r == buf_poll_of_data_poll_spec(p),
{
    match p {
        DataPoll::Pending => BufPoll::Pending,
        DataPoll::Chunk(d) => BufPoll::Buf(d),
        DataPoll::End => BufPoll::End,
        DataPoll::Fail(e) => BufPoll::Fail(e),
    }
}

/// The push-style face's data decision: a buffer poll outcome of the wrapped
/// pull-style stream becomes the data poll outcome with the same content.
pub fn data_poll_of_buf_poll<D, E>(p: BufPoll<D, E>) -> (r: DataPoll<D, E>)
    ensures
        r == data_poll_of_buf_poll_spec(p),
{
    match p {
        BufPoll::Pending => DataPoll::Pending,
        BufPoll::Buf(d) => DataPoll::Chunk(d),
        BufPoll::End => DataPoll::End,
        BufPoll::Fail(e) => DataPoll::Fail(e),
    }
}

/// The push-style face's trailer decision: a pull-style stream has no trailer
/// concept, so the face reports "no trailers", immediately and whatever the
/// wrapped stream has produced or will produce.
pub fn trailers_poll_of_pull<T, E>() -> (r: TrailersPoll<T, E>)
    ensures
        r is NoTrailers,
{
    TrailersPoll::NoTrailers
}

/// Lifts a body value so that the other streaming face can be exposed over it.
///
/// The wrapper owns exactly one inner value and never buffers data itself:
/// every read passes straight through to the inner value.
#[derive(Debug)]
pub struct LiftBody<T> {
    inner: T,
}

impl<T> LiftBody<T> {
    /// The wrapped value; the wrapper holds exactly this and nothing else.
    pub closed spec fn unwrapped(self) -> T {
        self.inner
    }

    /// Lifts the inner `T`. Cannot fail and performs no validation.
    pub fn new(inner: T) -> (r: Self)
        ensures
            r.unwrapped() == inner,
    {
        LiftBody { inner }
    }

    /// Recovers the wrapped value, consuming the wrapper.
    pub fn into_inner(self) -> (r: T)
        ensures
            r == self.unwrapped(),
    {
        self.inner
    }
}

/// The mathematical model of one poll outcome: the data as a byte sequence,
/// the error as its code.
pub ghost enum PollModel {
    /// No outcome yet.
    Pending,
    /// The next piece of data.
    Item(Seq<u8>),
    /// Nothing more.
    End,
    /// A forwarded failure.
    Fail(u64),
}

/// The mathematical model of a push-style body: the chunks still to yield,
/// the trailers that follow the data, and the failure that takes the place of
/// the end, if any.
pub ghost struct PushModel {
    /// The data chunks still to come, in order.
    pub chunks: Seq<Seq<u8>>,
    /// The trailing metadata reported after the data, if any.
    pub trailers: Option<Seq<(Seq<u8>, Seq<u8>)>>,
    /// The failure reported once the data is exhausted, if any.
    pub fail: Option<u64>,
}

/// The mathematical model of a pull-style stream: the buffers still to yield
/// and the failure that takes the place of the end, if any.
pub ghost struct PullModel {
    /// The buffers still to come, in order.
    pub bufs: Seq<Seq<u8>>,
    /// The failure reported once the buffers are exhausted, if any.
    pub fail: Option<u64>,
}

/// The model of a data poll outcome over byte chunks and transport errors.
pub open spec fn data_poll_model(p: DataPoll<Vec<u8>, TransportError>) -> PollModel {
    match p {
        DataPoll::Pending => PollModel::Pending,
        DataPoll::Chunk(d) => PollModel::Item(d@),
        DataPoll::End => PollModel::End,
        DataPoll::Fail(e) => PollModel::Fail(e.code),
    }
}

/// The model of a buffer poll outcome over byte buffers and transport errors.
pub open spec fn buf_poll_model(p: BufPoll<Vec<u8>, TransportError>) -> PollModel {
    match p {
        BufPoll::Pending => PollModel::Pending,
        BufPoll::Buf(d) => PollModel::Item(d@),
        BufPoll::End => PollModel::End,
        BufPoll::Fail(e) => PollModel::Fail(e.code),
    }
}

/// The model of a chunk list.
pub open spec fn chunks_model(cs: Seq<Vec<u8>>) -> Seq<Seq<u8>> {
    cs.map_values(|c: Vec<u8>| c@)
}

/// The model of an optional failure.
pub open spec fn fail_model(e: Option<TransportError>) -> Option<u64> {
    match e {
        Option::Some(err) => Option::Some(err.code),
        Option::None => Option::None,
    }
}

/// The model of optional trailing metadata.
pub open spec fn trailers_model(t: Option<Trailers>) -> Option<Seq<(Seq<u8>, Seq<u8>)>> {
    match t {
        Option::Some(tr) => Option::Some(tr@),
        Option::None => Option::None,
    }
}

/// The mathematical model of one trailers poll outcome.
pub ghost enum TrailersPollModel {
    /// No outcome yet.
    Pending,
    /// The trailing metadata.
    Trailers(Seq<(Seq<u8>, Seq<u8>)>),
    /// The body ends without trailing metadata.
    NoTrailers,
    /// A forwarded failure.
    Fail(u64),
}

/// The model of a trailers poll outcome over trailers and transport errors.
pub open spec fn trailers_poll_model(p: TrailersPoll<Trailers, TransportError>) -> TrailersPollModel {
    match p {
        TrailersPoll::Pending => TrailersPollModel::Pending,
        TrailersPoll::Trailers(t) => TrailersPollModel::Trailers(t@),
        TrailersPoll::NoTrailers => TrailersPollModel::NoTrailers,
        TrailersPoll::Fail(e) => TrailersPollModel::Fail(e.code),
    }
}

/// What one native trailers poll of a push-style body yields, and the body
/// that remains: pending while data is left; after the data, the scripted
/// failure if one is set, else the trailers, handed out once, or the report
/// that there are none.
pub open spec fn push_trailers_step(m: PushModel) -> (TrailersPollModel, PushModel) {
    if m.chunks.len() > 0 {
        (TrailersPollModel::Pending, m)
    } else {
        match m.fail {
            Option::Some(code) => (TrailersPollModel::Fail(code), m),
            Option::None => match m.trailers {
                Option::Some(t) => (
                    TrailersPollModel::Trailers(t),
                    PushModel { chunks: m.chunks, trailers: Option::None, fail: m.fail },
                ),
                Option::None => (TrailersPollModel::NoTrailers, m),
            },
        }
    }
}

/// What one native data poll of a push-style body yields, and the body that
/// remains: the first chunk while data is left, then the failure if one is
/// scripted, else the end. The body never changes once its data is exhausted.
pub open spec fn push_data_step(m: PushModel) -> (PollModel, PushModel) {
    if m.chunks.len() > 0 {
        (
            PollModel::Item(m.chunks[0]),
            PushModel { chunks: m.chunks.drop_first(), trailers: m.trailers, fail: m.fail },
        )
    } else {
        match m.fail {
            Option::Some(code) => (PollModel::Fail(code), m),
            Option::None => (PollModel::End, m),
        }
    }
}

/// What one native buffer poll of a pull-style stream yields, and the stream
/// that remains.
pub open spec fn pull_buf_step(m: PullModel) -> (PollModel, PullModel) {
    if m.bufs.len() > 0 {
        (PollModel::Item(m.bufs[0]), PullModel { bufs: m.bufs.drop_first(), fail: m.fail })
    } else {
        match m.fail {
            Option::Some(code) => (PollModel::Fail(code), m),
            Option::None => (PollModel::End, m),
        }
    }
}

/// The push-style completion hint: true exactly when nothing more — no data,
/// no trailers, no failure — will ever come.
pub open spec fn push_at_end(m: PushModel) -> bool {
    m.chunks.len() == 0 && m.fail is None && m.trailers is None
}

/// The pull-style completion signal: true exactly when the next buffer poll
/// would report the end.
pub open spec fn pull_at_end(m: PullModel) -> bool {
    m.bufs.len() == 0 && m.fail is None
}

/// A push-style body held as plain values: the chunks it will yield in order,
/// the trailers it reports after the data, and the failure that takes the
/// place of the end, if any.
#[derive(Debug)]
pub struct PushSource {
    chunks: Vec<Vec<u8>>,
    trailers: Option<Trailers>,
    fail: Option<TransportError>,
}

impl View for PushSource {
    type V = PushModel;

    closed spec fn view(&self) -> PushModel {
        PushModel {
            chunks: chunks_model(self.chunks@),
            trailers: trailers_model(self.trailers),
            fail: fail_model(self.fail),
        }
    }
}

impl PushSource {
    /// A push-style body that will yield exactly `chunks`, then `trailers`,
    /// unless `fail` is set, in which case the failure takes the place of the
    /// end of the data.
    pub fn new(
        chunks: Vec<Vec<u8>>,
        trailers: Option<Trailers>,
        fail: Option<TransportError>,
    ) -> (r: Self)
        ensures
            r@.chunks == chunks_model(chunks@),
            r@.trailers == trailers_model(trailers),
            r@.fail == fail_model(fail),
    {
        PushSource { chunks, trailers, fail }
    }

    /// One native data poll: yields the next chunk while data is left, then
    /// the scripted failure or the end, and advances the body accordingly.
    pub fn poll_data(&mut self) -> (r: DataPoll<Vec<u8>, TransportError>)
        ensures
            data_poll_model(r) == push_data_step(old(self)@).0,
            final(self)@ == push_data_step(old(self)@).1,
    {
        if self.chunks.len() > 0 {
            let c = self.chunks.remove(0);
            proof {
                assert(final(self)@.chunks =~= push_data_step(old(self)@).1.chunks);
            }
            DataPoll::Chunk(c)
        } else {
            match self.fail {
                Option::Some(e) => DataPoll::Fail(e),
                Option::None => DataPoll::End,
            }
        }
    }

    /// One native trailers poll: pending while data is left; after the data,
    /// the scripted failure if one is set, else the trailers, handed out
    /// once, or the report that there are none.
    pub fn poll_trailers(&mut self) -> (r: TrailersPoll<Trailers, TransportError>)
        ensures
            trailers_poll_model(r) == push_trailers_step(old(self)@).0,
            final(self)@ == push_trailers_step(old(self)@).1,
    {
        if self.chunks.len() > 0 {
            TrailersPoll::Pending
        } else {
            match self.fail {
                Option::Some(e) => TrailersPoll::Fail(e),
                Option::None => {
                    match self.trailers.take() {
                        Option::Some(t) => TrailersPoll::Trailers(t),
                        Option::None => TrailersPoll::NoTrailers,
                    }
                },
            }
        }
    }

    /// The native completion hint.
    pub fn is_end_stream(&self) -> (r: bool)
        ensures
            r == push_at_end(self@),
    {
        self.chunks.len() == 0 && self.fail.is_none() && self.trailers.is_none()
    }
}

/// A pull-style stream held as plain values: the buffers it will yield in
/// order and the failure that takes the place of the end, if any.
#[derive(Debug)]
pub struct PullSource {
    bufs: Vec<Vec<u8>>,
    fail: Option<TransportError>,
}

impl View for PullSource {
    type V = PullModel;

    closed spec fn view(&self) -> PullModel {
        PullModel { bufs: chunks_model(self.bufs@), fail: fail_model(self.fail) }
    }
}

impl PullSource {
    /// A pull-style stream that will yield exactly `bufs`, then end, unless
    /// `fail` is set, in which case the failure takes the place of the end.
    pub fn new(bufs: Vec<Vec<u8>>, fail: Option<TransportError>) -> (r: Self)
        ensures
            r@.bufs == chunks_model(bufs@),
            r@.fail == fail_model(fail),
    {
        PullSource { bufs, fail }
    }

    /// One native buffer poll: yields the next buffer while any is left, then
    /// the scripted failure or the end, and advances the stream accordingly.
    pub fn poll_buf(&mut self) -> (r: BufPoll<Vec<u8>, TransportError>)
        ensures
            buf_poll_model(r) == pull_buf_step(old(self)@).0,
            final(self)@ == pull_buf_step(old(self)@).1,
    {
        if self.bufs.len() > 0 {
            let b = self.bufs.remove(0);
            proof {
                assert(final(self)@.bufs =~= pull_buf_step(old(self)@).1.bufs);
            }
            BufPoll::Buf(b)
        } else {
            match self.fail {
                Option::Some(e) => BufPoll::Fail(e),
                Option::None => BufPoll::End,
            }
        }
    }

    /// The stream's own completion signal: true exactly when the next buffer
    /// poll would report the end.
    pub fn is_exhausted(&self) -> (r: bool)
        ensures
            r == pull_at_end(self@),
    {
        self.bufs.len() == 0 && self.fail.is_none()
    }
}

impl LiftBody<PushSource> {
    /// The pull-style face over a push-style body: one buffer poll, delegated
    /// directly to the wrapped body's data poll. The outcome carries exactly
    /// the content a native data poll would have carried, and the wrapped
    /// body advances exactly as it would have natively.
    pub fn poll_buf(&mut self) -> (r: BufPoll<Vec<u8>, TransportError>)
        ensures
            buf_poll_model(r) == push_data_step(old(self).unwrapped()@).0,
            final(self).unwrapped()@ == push_data_step(old(self).unwrapped()@).1,
    {
        buf_poll_of_data_poll(self.inner.poll_data())
    }
}

impl LiftBody<PullSource> {
    /// The push-style face over a pull-style stream: one data poll, delegated
    /// directly to the wrapped stream's buffer poll.
    pub fn poll_data(&mut self) -> (r: DataPoll<Vec<u8>, TransportError>)
        ensures
            data_poll_model(r) == pull_buf_step(old(self).unwrapped()@).0,
            final(self).unwrapped()@ == pull_buf_step(old(self).unwrapped()@).1,
    {
        data_poll_of_buf_poll(self.inner.poll_buf())
    }

    /// The push-style face never reports trailers: the wrapped pull-style
    /// stream has none to offer, so the answer is "no trailers", immediately,
    /// whatever the stream holds and in whatever state it is.
    pub fn poll_trailers(&mut self) -> (r: TrailersPoll<Trailers, TransportError>)
        ensures
            r is NoTrailers,
            *final(self) == *old(self),
    {
        trailers_poll_of_pull()
    }

    /// The push-style completion hint, delegated to the wrapped stream's own
    /// completion signal: true exactly when the stream's next poll would
    /// report the end.
    pub fn is_end_stream(&self) -> (r: bool)
        ensures
            r == (pull_buf_step(self.unwrapped()@).0 is End),
    {
        self.inner.is_exhausted()
    }
}

/// The lossless translation at model level: each poll outcome keeps exactly
/// its content when it is carried from one vocabulary into the other.
pub open spec fn poll_content_translate(p: PollModel) -> PollModel {
    match p {
        PollModel::Pending => PollModel::Pending,
        PollModel::Item(c) => PollModel::Item(c),
        PollModel::End => PollModel::End,
        PollModel::Fail(code) => PollModel::Fail(code),
    }
}

/// What one poll of the pull-style face over a push-style body yields: the
/// native data poll outcome, carried through the translation into the buffer
/// vocabulary, while the wrapped body advances natively.
pub open spec fn pull_face_step(m: PushModel) -> (PollModel, PushModel) {
    (poll_content_translate(push_data_step(m).0), push_data_step(m).1)
}

/// What one poll of the push-style face over a pull-style stream yields: the
/// native buffer poll outcome, carried through the translation into the chunk
/// vocabulary, while the wrapped stream advances natively.
pub open spec fn push_face_step(m: PullModel) -> (PollModel, PullModel) {
    (poll_content_translate(pull_buf_step(m).0), pull_buf_step(m).1)
}

/// Everything a push-style body yields when its data is polled natively until
/// it ends or fails: the chunks, in order, and the failure if one takes the
/// place of the end.
pub open spec fn push_read(m: PushModel) -> (Seq<Seq<u8>>, Option<u64>)
    decreases m.chunks.len(),
{
    if m.chunks.len() > 0 {
        let rest = push_read(push_data_step(m).1);
        (seq![m.chunks[0]] + rest.0, rest.1)
    } else {
        (Seq::empty(), m.fail)
    }
}

/// Everything a pull-style stream yields when polled natively until it ends
/// or fails: the buffers, in order, and the failure if one takes the place of
/// the end.
pub open spec fn pull_read(m: PullModel) -> (Seq<Seq<u8>>, Option<u64>)
    decreases m.bufs.len(),
{
    if m.bufs.len() > 0 {
        let rest = pull_read(pull_buf_step(m).1);
        (seq![m.bufs[0]] + rest.0, rest.1)
    } else {
        (Seq::empty(), m.fail)
    }
}

/// Everything the pull-style face over a push-style body yields when polled
/// until it ends or fails, each poll going through the translation.
pub open spec fn pull_face_read(m: PushModel) -> (Seq<Seq<u8>>, Option<u64>)
    decreases m.chunks.len(),
{
    match pull_face_step(m).0 {
        PollModel::Item(c) => {
            let rest = pull_face_read(pull_face_step(m).1);
            (seq![c] + rest.0, rest.1)
        },
        PollModel::Fail(code) => (Seq::empty(), Option::Some(code)),
        _ => (Seq::empty(), Option::None),
    }
}

/// Everything the push-style face over a pull-style stream yields when its
/// data is polled until it ends or fails, each poll going through the
/// translation.
pub open spec fn push_face_read(m: PullModel) -> (Seq<Seq<u8>>, Option<u64>)
    decreases m.bufs.len(),
{
    match push_face_step(m).0 {
        PollModel::Item(c) => {
            let rest = push_face_read(push_face_step(m).1);
            (seq![c] + rest.0, rest.1)
        },
        PollModel::Fail(code) => (Seq::empty(), Option::Some(code)),
        _ => (Seq::empty(), Option::None),
    }
}

/// Round trip, the lossless direction: reading a push-style body through the
/// pull-style face of the adapter yields exactly the same chunk sequence, in
/// the same order, and the same failure outcome as reading the body natively.
pub proof fn lemma_round_trip(m: PushModel)
    ensures
        pull_face_read(m) == push_read(m),
    decreases m.chunks.len(),
{
    if m.chunks.len() > 0 {
        lemma_round_trip(push_data_step(m).1);
    }
}

/// Data is preserved on the lossy direction too: reading a pull-style stream
/// through the push-style face yields exactly the same buffer sequence and
/// the same failure outcome as reading the stream natively. Only the
/// trailers are absent on this face, and the stream never had any.
pub proof fn lemma_lossy_direction_data(m: PullModel)
    ensures
        push_face_read(m) == pull_read(m),
    decreases m.bufs.len(),
{
    if m.bufs.len() > 0 {
        lemma_lossy_direction_data(pull_buf_step(m).1);
    }
}

impl PushSource {
    /// Polls the body natively for data until it reports the end or a
    /// failure: the chunks, in order, and the failure if one came.
    pub fn read_to_end(&mut self) -> (r: (Vec<Vec<u8>>, Option<TransportError>))
        ensures
            chunks_model(r.0@) == push_read(old(self)@).0,
            fail_model(r.1) == push_read(old(self)@).1,
    {
        let mut out: Vec<Vec<u8>> = Vec::new();
        loop
            invariant
                push_read(old(self)@).0 == chunks_model(out@) + push_read(self@).0,
                push_read(old(self)@).1 == push_read(self@).1,
            decreases self@.chunks.len(),
        {
            let ghost out_prev = out@;
            let ghost m_prev = self@;
            match self.poll_data() {
                DataPoll::Chunk(c) => {
                    let ghost cm = c@;
                    out.push(c);
                    proof {
                        assert(chunks_model(out@) =~= chunks_model(out_prev) + seq![cm]);
                        assert(chunks_model(out_prev) + seq![cm] + push_read(self@).0
                            =~= chunks_model(out_prev) + (seq![cm] + push_read(self@).0));
                    }
                },
                DataPoll::End => {
                    proof {
                        assert(chunks_model(out@) + push_read(self@).0 =~= chunks_model(out@));
                    }
                    return (out, Option::None);
                },
                DataPoll::Fail(e) => {
                    proof {
                        assert(chunks_model(out@) + push_read(self@).0 =~= chunks_model(out@));
                    }
                    return (out, Option::Some(e));
                },
                DataPoll::Pending => unreached(),
            }
        }
    }
}

impl PullSource {
    /// Polls the stream natively until it reports the end or a failure: the
    /// buffers, in order, and the failure if one came.
    pub fn read_to_end(&mut self) -> (r: (Vec<Vec<u8>>, Option<TransportError>))
        ensures
            chunks_model(r.0@) == pull_read(old(self)@).0,
            fail_model(r.1) == pull_read(old(self)@).1,
    {
        let mut out: Vec<Vec<u8>> = Vec::new();
        loop
            invariant
                pull_read(old(self)@).0 == chunks_model(out@) + pull_read(self@).0,
                pull_read(old(self)@).1 == pull_read(self@).1,
            decreases self@.bufs.len(),
        {
            let ghost out_prev = out@;
            match self.poll_buf() {
                BufPoll::Buf(b) => {
                    let ghost bm = b@;
                    out.push(b);
                    proof {
                        assert(chunks_model(out@) =~= chunks_model(out_prev) + seq![bm]);
                        assert(chunks_model(out_prev) + seq![bm] + pull_read(self@).0
                            =~= chunks_model(out_prev) + (seq![bm] + pull_read(self@).0));
                    }
                },
                BufPoll::End => {
                    proof {
                        assert(chunks_model(out@) + pull_read(self@).0 =~= chunks_model(out@));
                    }
                    return (out, Option::None);
                },
                BufPoll::Fail(e) => {
                    proof {
                        assert(chunks_model(out@) + pull_read(self@).0 =~= chunks_model(out@));
                    }
                    return (out, Option::Some(e));
                },
                BufPoll::Pending => unreached(),
            }
        }
    }
}

impl LiftBody<PushSource> {
    /// Polls the pull-style face until it reports the end or a failure: the
    /// buffers, in order, and the failure if one came — exactly the read the
    /// face promises, chunk for chunk.
    pub fn read_to_end(&mut self) -> (r: (Vec<Vec<u8>>, Option<TransportError>))
        ensures
            chunks_model(r.0@) == pull_face_read(old(self).unwrapped()@).0,
            fail_model(r.1) == pull_face_read(old(self).unwrapped()@).1,
    {
        let mut out: Vec<Vec<u8>> = Vec::new();
        loop
            invariant
                pull_face_read(old(self).unwrapped()@).0 == chunks_model(out@) + pull_face_read(
                    self.unwrapped()@,
                ).0,
                pull_face_read(old(self).unwrapped()@).1 == pull_face_read(self.unwrapped()@).1,
            decreases self.unwrapped()@.chunks.len(),
        {
            let ghost out_prev = out@;
            match self.poll_buf() {
                BufPoll::Buf(b) => {
                    let ghost bm = b@;
                    out.push(b);
                    proof {
                        assert(chunks_model(out@) =~= chunks_model(out_prev) + seq![bm]);
                        assert(chunks_model(out_prev) + seq![bm] + pull_face_read(
                            self.unwrapped()@,
                        ).0 =~= chunks_model(out_prev) + (seq![bm] + pull_face_read(
                            self.unwrapped()@,
                        ).0));
                    }
                },
                BufPoll::End => {
                    proof {
                        assert(chunks_model(out@) + pull_face_read(self.unwrapped()@).0
                            =~= chunks_model(out@));
                    }
                    return (out, Option::None);
                },
                BufPoll::Fail(e) => {
                    proof {
                        assert(chunks_model(out@) + pull_face_read(self.unwrapped()@).0
                            =~= chunks_model(out@));
                    }
                    return (out, Option::Some(e));
                },
                BufPoll::Pending => unreached(),
            }
        }
    }
}

impl LiftBody<PullSource> {
    /// Polls the push-style face for data until it reports the end or a
    /// failure: the chunks, in order, and the failure if one came — exactly
    /// the read the face promises, buffer for buffer.
    pub fn read_to_end(&mut self) -> (r: (Vec<Vec<u8>>, Option<TransportError>))
        ensures
            chunks_model(r.0@) == push_face_read(old(self).unwrapped()@).0,
            fail_model(r.1) == push_face_read(old(self).unwrapped()@).1,
    {
        let mut out: Vec<Vec<u8>> = Vec::new();
        loop
            invariant
                push_face_read(old(self).unwrapped()@).0 == chunks_model(out@) + push_face_read(
                    self.unwrapped()@,
                ).0,
                push_face_read(old(self).unwrapped()@).1 == push_face_read(self.unwrapped()@).1,
            decreases self.unwrapped()@.bufs.len(),
        {
            let ghost out_prev = out@;
            match self.poll_data() {
                DataPoll::Chunk(c) => {
                    let ghost cm = c@;
                    out.push(c);
                    proof {
                        assert(chunks_model(out@) =~= chunks_model(out_prev) + seq![cm]);
                        assert(chunks_model(out_prev) + seq![cm] + push_face_read(
                            self.unwrapped()@,
                        ).0 =~= chunks_model(out_prev) + (seq![cm] + push_face_read(
                            self.unwrapped()@,
                        ).0));
                    }
                },
                DataPoll::End => {
                    proof {
                        assert(chunks_model(out@) + push_face_read(self.unwrapped()@).0
                            =~= chunks_model(out@));
                    }
                    return (out, Option::None);
                },
                DataPoll::Fail(e) => {
                    proof {
                        assert(chunks_model(out@) + push_face_read(self.unwrapped()@).0
                            =~= chunks_model(out@));
                    }
                    return (out, Option::Some(e));
                },
                DataPoll::Pending => unreached(),
            }
        }
    }
}

} // verus!
