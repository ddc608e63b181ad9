use std::collections::VecDeque;
use vstd::prelude::*;
use vstd::std_specs::iter::IteratorSpec;
use vstd::string::StrSliceExecFns;

use crate::error::{DynError, DynErrorView};
use crate::full::{full_data, full_into_bytes};
use crate::head::{default_head, head_status, head_with_status, status_of};

verus! {

/// What a body gives at one step: the bytes of a frame, or the failure of the
/// step that should have produced it.
pub type Frame = Result<Vec<u8>, DynError>;

/// The mathematical value of a [`Frame`].
pub type FrameView = Result<Seq<u8>, DynErrorView>;

/// The value of one frame.
pub open spec fn frame_view(frame: Frame) -> FrameView {
    match frame {
        Ok(data) => Ok(data@),
        Err(error) => Err(error@),
    }
}

/// The values of a sequence of frames, in order.
pub open spec fn frames_view(frames: Seq<Frame>) -> Seq<FrameView> {
    Seq::new(frames.len(), |i: int| frame_view(frames[i]))
}

/// The frames of `frames` up to and including the first failure: all of them
/// where none fails.
pub open spec fn until_failure(frames: Seq<FrameView>) -> Seq<FrameView>
    decreases frames.len(),
{
    if frames.len() == 0 {
        frames
    } else if frames[0] is Err {
        seq![frames[0]]
    } else {
        seq![frames[0]] + until_failure(frames.drop_first())
    }
}

/// What a buffered payload gives: one frame that holds it, or nothing where
/// it is empty.
pub open spec fn buffered(data: Seq<u8>) -> Seq<FrameView> {
    if data.len() == 0 {
        Seq::empty()
    } else {
        seq![Ok(data)]
    }
}

/// Where the frames of a lazily produced stream come from: each call
/// produces the next frame, or `None` when there is no more. What a source
/// produces is its own affair; every iterator over frames is a source.
pub trait FrameSource: Send + Sync {
    /// Produces the next frame.
    fn produce(&mut self) -> Option<Frame>;
}

impl<I> FrameSource for I where I: Iterator<Item = Frame> + Send + Sync {
    /// The next item of the iterator. Of an iterator that keeps the laws of
    /// iteration it is the first of the items that remain, and `None` where
    /// none remains.
    fn produce(&mut self) -> (produced: Option<Frame>)
        ensures
            <I as IteratorSpec>::obeys_prophetic_iter_laws(old(self)) ==> (if <I as
                IteratorSpec>::remaining(old(self)).len() > 0 {
                produced == Some(<I as IteratorSpec>::remaining(old(self))[0]) && <I as
                    IteratorSpec>::remaining(final(self)) == <I as IteratorSpec>::remaining(
                    old(self),
                ).drop_first()
            } else {
                produced is None
            }),
    {
        self.next()
    }
}

/// Whether the last of `frames` is a failure.
pub open spec fn ends_in_failure(frames: Seq<FrameView>) -> bool {
    frames.len() > 0 && frames.last() is Err
}

/// The frames that a body has yet to give once `frame` is offered to one
/// that had `frames` yet to give: `frame` comes last, unless a failure
/// stands before it.
pub open spec fn offered(frames: Seq<FrameView>, frame: FrameView) -> Seq<FrameView> {
    if ends_in_failure(frames) {
        frames
    } else {
        frames.push(frame)
    }
}

/// A frame put behind others is given behind them, unless one of them is a
/// failure.
pub proof fn lemma_until_failure_push(frames: Seq<FrameView>, frame: FrameView)
    ensures
        until_failure(frames.push(frame)) == offered(until_failure(frames), frame),
    decreases frames.len(),
{
    if frames.len() == 0 {
        assert(frames.push(frame).drop_first() =~= frames);
        assert(until_failure(frames.push(frame)) =~= offered(until_failure(frames), frame));
    } else if frames[0] is Ok {
        let rest = frames.drop_first();
        lemma_until_failure_push(rest, frame);
        assert(frames.push(frame).drop_first() =~= rest.push(frame));
        assert(until_failure(frames.push(frame)) =~= offered(until_failure(frames), frame));
    } else {
        assert(until_failure(frames.push(frame)) =~= offered(until_failure(frames), frame));
    }
}

/// A response body of one of two shapes, both read by [`RespBody::next_frame`].
pub enum RespBody {
    /// A sequence of frames that is handed out one by one and ends with the
    /// first failure. `frames` are those produced and not yet handed out;
    /// `source` produces the frames behind them, one at a time and only when
    /// one is asked for, and is gone once the sequence has ended.
    Stream { frames: VecDeque<Frame>, source: Option<Box<dyn FrameSource>> },
    /// One payload held in memory; empty once it has been handed out.
    Full { data: Vec<u8> },
}

impl View for RespBody {
    type V = Seq<FrameView>;

    /// The frames that the body holds and has yet to give, in order.
    open spec fn view(&self) -> Seq<FrameView> {
        match self {
            RespBody::Stream { frames, source } => until_failure(frames_view(frames@)),
            RespBody::Full { data } => buffered(data@),
        }
    }
}

impl RespBody {
    /// Whether the body is a stream whose source may still produce frames.
    pub open spec fn is_open(&self) -> bool {
        self matches RespBody::Stream { source, .. } && source is Some
    }

    /// A buffered body that holds `data`.
    pub fn full(data: Vec<u8>) -> (body: RespBody)
        ensures
            body is Full,
            body@ == buffered(data@),
    {
        RespBody::Full { data }
    }

    /// A buffered body without content.
    pub fn empty() -> (body: RespBody)
        ensures
            body is Full,
            body@ == Seq::<FrameView>::empty(),
    {
        RespBody::Full { data: Vec::new() }
    }

    /// A streamed body that gives `frames` in their order, up to and including
    /// the first failure, and then ends.
    pub fn stream(frames: Vec<Frame>) -> (body: RespBody)
        ensures
            body is Stream,
            !body.is_open(),
            body@ == until_failure(frames_view(frames@)),
    {
        let ghost all = frames@;
        let mut rest = frames;
        let mut queue: VecDeque<Frame> = VecDeque::new();
        while rest.len() > 0
            invariant
                rest@ + queue@ == all,
            decreases rest.len(),
        {
            let ghost before = rest@;
            let ghost queued = queue@;
            let frame = rest.pop().unwrap();
            queue.push_front(frame);
            assert(rest@ + queue@ =~= before + queued);
        }
        assert(queue@ =~= all);
        RespBody::Stream { frames: queue, source: None }
    }

    /// A streamed body that gives the frames that `source` produces, in the
    /// order in which it produces them. A frame is produced only when it is
    /// asked for, so the sequence need not have an end.
    pub fn lazy(source: Box<dyn FrameSource>) -> (body: RespBody)
        ensures
            body is Stream,
            body.is_open(),
            body@ == Seq::<FrameView>::empty(),
    {
        RespBody::Stream { frames: VecDeque::new(), source: Some(source) }
    }

    /// Whether the body has to ask its source before it can give a frame: it
    /// is an open stream that holds no frame.
    pub fn wants_frame(&self) -> (wants: bool)
        ensures
            wants == (self.is_open() && self@.len() == 0),
    {
        match self {
            RespBody::Stream { frames, source } => frames.len() == 0 && source.is_some(),
            RespBody::Full { data } => false,
        }
    }

    /// Asks the source of an open stream for its next frame. Nothing is said
    /// of what it produces; the body holds what it held.
    fn produce(&mut self) -> (produced: Option<Frame>)
        ensures
            final(self)@ == old(self)@,
            final(self).is_open() == old(self).is_open(),
            *final(self) is Stream <==> *old(self) is Stream,
    {
        match self {
            RespBody::Stream { frames, source } => match source {
                Some(producer) => producer.produce(),
                None => None,
            },
            RespBody::Full { data } => None,
        }
    }

    /// Takes what the source of an open stream produced. A frame is put
    /// behind the frames that the body holds; a failure ends the sequence,
    /// and so does `None`, with which the source says that it has no more.
    /// A body that is no open stream stays as it is: what is offered behind
    /// the end of a sequence is never given.
    pub fn offer(&mut self, produced: Option<Frame>)
        ensures
            !old(self).is_open() ==> *final(self) == *old(self),
            old(self).is_open() ==> match produced {
                Some(frame) => final(self)@ == offered(old(self)@, frame_view(frame))
                    && (final(self).is_open() <==> frame is Ok),
                None => final(self)@ == old(self)@ && !final(self).is_open(),
            },
            *final(self) is Stream <==> *old(self) is Stream,
    {
        match self {
            RespBody::Stream { frames, source } => {
                if source.is_some() {
                    match produced {
                        Some(frame) => {
                            proof {
                                lemma_until_failure_push(frames_view(frames@), frame_view(frame));
                                assert(frames_view(frames@.push(frame)) =~= frames_view(
                                    frames@,
                                ).push(frame_view(frame)));
                            }
                            if frame.is_err() {
                                *source = None;
                            }
                            frames.push_back(frame);
                        },
                        None => {
                            *source = None;
                        },
                    }
                }
            },
            RespBody::Full { data } => {},
        }
    }

    /// Gives the first of the frames that the body holds, if it holds one. A
    /// failure ends the sequence.
    fn take(&mut self) -> (next: Option<Frame>)
        ensures
            old(self)@.len() == 0 ==> next is None && final(self)@ == old(self)@,
            old(self)@.len() > 0 ==> (next matches Some(frame) && frame_view(frame) == old(self)@[0]
                && final(self)@ == old(self)@.drop_first()),
            next matches Some(Err(_)) ==> !final(self).is_open(),
            !(next matches Some(Err(_))) ==> final(self).is_open() == old(self).is_open(),
            *final(self) is Stream <==> *old(self) is Stream,
    {
        match self {
            RespBody::Stream { frames, source } => {
                let ghost before = frames@;
                match frames.pop_front() {
                    None => {
                        assert(frames@ =~= before);
                        None
                    },
                    Some(Ok(data)) => {
                        proof {
                            assert(frames_view(frames@) =~= frames_view(before).drop_first());
                        }
                        Some(Ok(data))
                    },
                    Some(Err(error)) => {
                        frames.clear();
                        *source = None;
                        proof {
                            assert(until_failure(frames_view(before)).drop_first() =~= Seq::<
                                FrameView,
                            >::empty());
                        }
                        Some(Err(error))
                    },
                }
            },
            RespBody::Full { data } => {
                if data.len() == 0 {
                    None
                } else {
                    let mut taken: Vec<u8> = Vec::new();
                    core::mem::swap(data, &mut taken);
                    proof {
                        assert(buffered(taken@).drop_first() =~= Seq::<FrameView>::empty());
                    }
                    Some(Ok(taken))
                }
            },
        }
    }

    /// Gives the next frame, or `None` where the body has ended. A body
    /// that holds a frame gives the first that it holds. An open stream that
    /// holds none asks its source for one frame and gives what that
    /// produces, through [`RespBody::offer`]. A failure is the last thing
    /// that a body gives.
    pub fn next_frame(&mut self) -> (next: Option<Frame>)
        ensures
            old(self)@.len() > 0 ==> (next matches Some(frame) && frame_view(frame) == old(self)@[0]
                && final(self)@ == old(self)@.drop_first()),
            old(self)@.len() == 0 ==> final(self)@.len() == 0,
            old(self)@.len() == 0 && !old(self).is_open() ==> next is None,
            next is None ==> !final(self).is_open(),
            next matches Some(Err(_)) ==> !final(self).is_open(),
            !old(self).is_open() ==> !final(self).is_open(),
            *final(self) is Stream <==> *old(self) is Stream,
    {
        if self.wants_frame() {
            let produced = self.produce();
            self.offer(produced);
        }
        self.take()
    }
}

/// The order law of a streamed body. The frames that it gives are the frames
/// that were put into it, in their order, up to the first failure: a failure
/// is the last frame given, and what was enqueued behind it is never given.
/// It holds of a list of frames given at once and of frames offered one by
/// one, which [`lemma_until_failure_push`] puts behind those held.
pub proof fn law_stream_order(frames: Seq<FrameView>)
    ensures
        until_failure(frames).len() <= frames.len(),
        forall|i: int|
            0 <= i < until_failure(frames).len() ==> #[trigger] until_failure(frames)[i]
                == frames[i],
        forall|i: int| 0 <= i < until_failure(frames).len() - 1 ==> (#[trigger] frames[i]) is Ok,
        until_failure(frames).len() < frames.len() ==> frames[until_failure(frames).len() - 1] is Err,
    decreases frames.len(),
{
    if frames.len() > 0 && frames[0] is Ok {
        let rest = frames.drop_first();
        law_stream_order(rest);
        assert forall|i: int| 0 <= i < until_failure(frames).len() implies #[trigger] until_failure(
            frames,
        )[i] == frames[i] by {
            if i > 0 {
                assert(until_failure(rest)[i - 1] == rest[i - 1]);
            }
        }
        assert forall|i: int| 0 <= i < until_failure(frames).len() - 1 implies (
        #[trigger] frames[i]) is Ok by {
            if i > 0 {
                assert(rest[i - 1] is Ok);
            }
        }
        if until_failure(frames).len() < frames.len() {
            assert(rest[until_failure(rest).len() - 1] is Err);
        }
    }
}

/// What can be made into a response body.
pub trait IntoBody {
    /// The frames that the body made of this value gives.
    spec fn body_view(&self) -> Seq<FrameView>;

    /// Whether the body made of this value is of the streamed shape; it is
    /// of the buffered shape where it is not.
    spec fn streamed(&self) -> bool;

    /// Makes the value into a body of the shape that `streamed` names,
    /// without copying where it holds its bytes already.
    fn into_body(self) -> (body: RespBody)
        ensures
            body@ == self.body_view(),
            body is Stream <==> self.streamed(),
    ;
}

impl IntoBody for RespBody {
    open spec fn body_view(&self) -> Seq<FrameView> {
        self@
    }

    open spec fn streamed(&self) -> bool {
        self is Stream
    }

    /// A body stays the body that it is.
    fn into_body(self) -> (body: RespBody)
        ensures
            body == self,
    {
        self
    }
}

impl IntoBody for Vec<u8> {
    open spec fn body_view(&self) -> Seq<FrameView> {
        buffered(self@)
    }

    open spec fn streamed(&self) -> bool {
        false
    }

    fn into_body(self) -> (body: RespBody)
        ensures
            body is Full,
    {
        RespBody::Full { data: self }
    }
}

impl IntoBody for http_body_util::Full<hyper::body::Bytes> {
    /// The bytes that the body holds, buffered.
    open spec fn body_view(&self) -> Seq<FrameView> {
        buffered(full_data(*self))
    }

    open spec fn streamed(&self) -> bool {
        false
    }

    fn into_body(self) -> (body: RespBody)
        ensures
            body is Full,
    {
        RespBody::Full { data: full_into_bytes(self) }
    }
}

/// `String::into_bytes`: the bytes of the text, which are its UTF-8 encoding,
/// in the buffer that the text held. Not proved.
#[verifier::external_body]
fn text_into_bytes(text: String) -> (bytes: Vec<u8>)
    ensures
        bytes@ == vstd::utf8::encode_utf8(text@),
{
    text.into_bytes()
}

impl IntoBody for String {
    /// The text as its UTF-8 bytes, buffered.
    open spec fn body_view(&self) -> Seq<FrameView> {
        buffered(vstd::utf8::encode_utf8(self@))
    }

    open spec fn streamed(&self) -> bool {
        false
    }

    fn into_body(self) -> (body: RespBody)
        ensures
            body is Full,
    {
        RespBody::Full { data: text_into_bytes(self) }
    }
}

impl IntoBody for &'static str {
    /// The text as its UTF-8 bytes, buffered.
    open spec fn body_view(&self) -> Seq<FrameView> {
        buffered(vstd::utf8::encode_utf8(self@))
    }

    open spec fn streamed(&self) -> bool {
        false
    }

    fn into_body(self) -> (body: RespBody)
        ensures
            body is Full,
    {
        RespBody::Full { data: self.as_bytes_vec() }
    }
}

/// The status of the response to a request that no route matches.
pub const NOT_FOUND: u16 = 404;

/// A response: the head that `http` defines, and a body.
pub struct Response<B> {
    pub head: http::response::Parts,
    pub body: B,
}

impl<B> Response<B> {
    /// A response with the default head, whose status is 200, and `body`.
    pub fn new(body: B) -> (response: Response<B>)
        ensures
            response.status_code() == 200,
            response.body == body,
    {
        Response { head: default_head(), body }
    }

    /// The status code of the response, as a number.
    pub open spec fn status_code(&self) -> u16 {
        head_status(self.head)
    }

    /// The status code of the response, as a number.
    pub fn status(&self) -> (code: u16)
        ensures
            code == self.status_code(),
    {
        status_of(&self.head)
    }
}

impl Response<RespBody> {
    /// The response to a request that no route matches: the status is 404 and
    /// the body is empty.
    pub fn not_found() -> (response: Response<RespBody>)
        ensures
            response.status_code() == 404,
            response.body is Full,
            response.body@ == Seq::<FrameView>::empty(),
    {
        Response { head: head_with_status(NOT_FOUND), body: RespBody::empty() }
    }
}

} // verus!
