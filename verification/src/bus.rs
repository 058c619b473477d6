//! The conversation with the bus.
//!
//! The library does not talk to the bus itself. An operation is a function of
//! the replies that the bus has given so far: it returns the next request to
//! put on the bus, or, once nothing more is to be asked, what the operation
//! amounts to. The caller performs each request, appends the reply to the
//! history and asks again.

use crate::channel::{DeviceChannel, CBM_CHANNEL_CTRL};
use crate::error::{
    DeviceError, DeviceErrorView, Rs1541Error, Rs1541ErrorView, TransportError, TransportErrorView,
};
use crate::string::bytes_to_vec;
use vstd::prelude::*;

verus! {

/// A request to put on the bus.
#[derive(Debug, PartialEq)]
pub enum BusRequest {
    /// Reset the whole bus.
    Reset,
    /// Tell a device to talk on a channel.
    Talk(DeviceChannel),
    /// Tell a device to listen on a channel.
    Listen(DeviceChannel),
    /// Tell the talker to stop.
    Untalk,
    /// Tell the listeners to stop.
    Unlisten,
    /// Open a channel of a device; the name of the file is written next.
    Open(DeviceChannel),
    /// Close a channel of a device.
    Close(DeviceChannel),
    /// Write bytes to the listeners.
    Write(Vec<u8>),
    /// Read at most so many bytes from the talker.
    Read(usize),
    /// Read from the talker up to and including the first occurrence of
    /// `pattern`, and at most `limit` bytes.
    ReadUntil { limit: usize, pattern: Vec<u8> },
}

/// The mathematical value of a [`BusRequest`].
pub enum BusRequestView {
    Reset,
    Talk(DeviceChannel),
    Listen(DeviceChannel),
    Untalk,
    Unlisten,
    Open(DeviceChannel),
    Close(DeviceChannel),
    Write(Seq<u8>),
    Read(usize),
    ReadUntil { limit: usize, pattern: Seq<u8> },
}

impl View for BusRequest {
    type V = BusRequestView;

    open spec fn view(&self) -> BusRequestView {
        match self {
            BusRequest::Reset => BusRequestView::Reset,
            BusRequest::Talk(dc) => BusRequestView::Talk(*dc),
            BusRequest::Listen(dc) => BusRequestView::Listen(*dc),
            BusRequest::Untalk => BusRequestView::Untalk,
            BusRequest::Unlisten => BusRequestView::Unlisten,
            BusRequest::Open(dc) => BusRequestView::Open(*dc),
            BusRequest::Close(dc) => BusRequestView::Close(*dc),
            BusRequest::Write(bytes) => BusRequestView::Write(bytes@),
            BusRequest::Read(limit) => BusRequestView::Read(*limit),
            BusRequest::ReadUntil { limit, pattern } => BusRequestView::ReadUntil {
                limit: *limit,
                pattern: pattern@,
            },
        }
    }
}

/// What the bus answered to a request.
#[derive(Debug, PartialEq)]
pub enum BusReply {
    /// The request was carried out. `data` holds the bytes that a read
    /// returned, `written` the number of bytes that a write reported, and
    /// `talking` the channel that the bus had in talk mode when a read
    /// returned. What a request does not give is empty, zero or `None`.
    Completed { data: Vec<u8>, written: usize, talking: Option<DeviceChannel> },
    /// The transport failed to carry the request out.
    Failed(TransportError),
}

/// The mathematical value of a [`BusReply`].
pub enum BusReplyView {
    Completed { data: Seq<u8>, written: usize, talking: Option<DeviceChannel> },
    Failed(TransportErrorView),
}

impl View for BusReply {
    type V = BusReplyView;

    open spec fn view(&self) -> BusReplyView {
        match self {
            BusReply::Completed { data, written, talking } => BusReplyView::Completed {
                data: data@,
                written: *written,
                talking: *talking,
            },
            BusReply::Failed(e) => BusReplyView::Failed(e@),
        }
    }
}

/// The values of the replies of a history.
pub open spec fn replies(history: Seq<BusReply>) -> Seq<BusReplyView> {
    history.map_values(|r: BusReply| r@)
}

/// Where an operation stands: it asks for a request to be performed, or it is
/// finished and has a result.
#[derive(Debug, PartialEq)]
pub enum Step<T> {
    /// Perform this request, add the reply to the history and ask again.
    Request(BusRequest),
    /// Nothing more is to be asked.
    Finished(T),
}

/// Where a part of an operation stands, in mathematical terms: it asks for a
/// request, or it has a value and has used the history up to an index.
pub enum Flow<V> {
    Ask(BusRequestView),
    Value(V, int),
}

impl BusReplyView {
    /// The failure of the transport, where the reply is one.
    pub open spec fn failure(self) -> Option<TransportErrorView> {
        match self {
            BusReplyView::Failed(e) => Some(e),
            BusReplyView::Completed { .. } => None,
        }
    }

    /// What a read that got this reply amounts to on the channel `dc`.
    ///
    /// A failure of the transport is passed on. A read that returned no byte
    /// while the bus was talking on the control channel means that the device
    /// is not there. Every other read gives its bytes.
    pub open spec fn read_outcome(self, dc: DeviceChannel) -> Result<Seq<u8>, Rs1541ErrorView> {
        match self {
            BusReplyView::Failed(e) => Err(Rs1541ErrorView::Xum1541(e)),
            BusReplyView::Completed { data, talking, .. } => if data.len() == 0 && talking is Some
                && talking->0.spec_channel() == CBM_CHANNEL_CTRL {
                Err(
                    Rs1541ErrorView::Device {
                        device: dc.spec_device(),
                        error: DeviceErrorView::NoDevice,
                    },
                )
            } else {
                Ok(data)
            },
        }
    }
}

/// The reply at index `at` of the history, with `at` moved behind it; or
/// `None`, with `at` left alone, where the history ends before that.
pub fn next_reply<'a>(history: &'a [BusReply], at: &mut usize) -> (reply: Option<&'a BusReply>)
    ensures
        *old(at) < history@.len() ==> reply == Some(&history@[*old(at) as int]) && *final(at)
            == *old(at) + 1,
        *old(at) >= history@.len() ==> reply is None && *final(at) == *old(at),
{
    if *at < history.len() {
        let reply = &history[*at];
        *at = *at + 1;
        Some(reply)
    } else {
        None
    }
}

/// What a read that got the reply `reply` amounts to on the channel `dc`.
pub fn handle_read_result(reply: &BusReply, dc: DeviceChannel) -> (r: Result<Vec<u8>, Rs1541Error>)
    ensures
        match r {
            Ok(data) => reply@.read_outcome(dc) == Ok::<Seq<u8>, Rs1541ErrorView>(data@),
            Err(e) => reply@.read_outcome(dc) == Err::<Seq<u8>, Rs1541ErrorView>(e@),
        },
{
    match reply {
        BusReply::Failed(e) => Err(Rs1541Error::Xum1541(e.clone())),
        BusReply::Completed { data, talking, .. } => {
            let on_control: bool = match talking {
                Some(talker) => talker.channel() == CBM_CHANNEL_CTRL,
                None => false,
            };
            if data.len() == 0 && on_control {
                Err(DeviceError::no_device(dc.device()))
            } else {
                Ok(bytes_to_vec(data.as_slice()))
            }
        },
    }
}

/// The failure of the transport that the reply `reply` reports, as an error
/// of the library; or nothing where the request was carried out.
pub fn transport_failure(reply: &BusReply) -> (r: Option<Rs1541Error>)
    ensures
        match r {
            Some(e) => reply@.failure() == Some(e@->Xum1541_0) && e@ is Xum1541,
            None => reply@.failure() is None,
        },
{
    match reply {
        BusReply::Failed(e) => Some(Rs1541Error::Xum1541(e.clone())),
        BusReply::Completed { .. } => None,
    }
}


/// Where a part of an operation stands: it asks for a request, or it has a
/// value. The index up to which it has used the history is kept beside it.
pub enum Turn<T> {
    Ask(BusRequest),
    Value(T),
}

impl<T> Turn<T> {
    /// The turn as a step of a whole operation.
    pub fn finish(self) -> (step: Step<T>)
        ensures
            match self {
                Turn::Ask(request) => step == Step::<T>::Request(request),
                Turn::Value(value) => step == Step::Finished(value),
            },
    {
        match self {
            Turn::Ask(request) => Step::Request(request),
            Turn::Value(value) => Step::Finished(value),
        }
    }
}

/// Where an operation stands, in mathematical terms.
pub enum StepView<V> {
    Request(BusRequestView),
    Finished(V),
}

/// Puts the request `request` at index `at` of the conversation: where the
/// history holds no reply at that index yet, the request is to be asked now;
/// where it does, `then` says how to go on with the reply.
pub open spec fn ask<V>(
    h: Seq<BusReplyView>,
    at: int,
    request: BusRequestView,
    then: spec_fn(BusReplyView) -> Flow<V>,
) -> Flow<V> {
    if 0 <= at < h.len() {
        then(h[at])
    } else {
        Flow::Ask(request)
    }
}

/// Puts the requests `requests` on the bus from index `at` on, one after the
/// other and whatever the replies are.
pub open spec fn best_effort(
    h: Seq<BusReplyView>,
    at: int,
    requests: Seq<BusRequestView>,
) -> Flow<()>
    decreases requests.len(),
{
    if requests.len() == 0 {
        Flow::Value((), at)
    } else if 0 <= at < h.len() {
        best_effort(h, at + 1, requests.drop_first())
    } else {
        Flow::Ask(requests[0])
    }
}

/// Goes on with `then` once `first` has a value.
pub open spec fn and_then<A, B>(first: Flow<A>, then: spec_fn(A, int) -> Flow<B>) -> Flow<B> {
    match first {
        Flow::Ask(request) => Flow::Ask(request),
        Flow::Value(value, at) => then(value, at),
    }
}

/// What an operation as a whole amounts to: the request it asks for, or its
/// result.
pub open spec fn outcome<V>(flow: Flow<V>) -> StepView<V> {
    match flow {
        Flow::Ask(request) => StepView::Request(request),
        Flow::Value(value, _) => StepView::Finished(value),
    }
}

/// Whether the turn `turn`, taken with the history used up to `at`, is what
/// `flow` says; values are compared through `view`.
pub open spec fn turn_is<T, V>(
    turn: Turn<T>,
    at: usize,
    flow: Flow<V>,
    view: spec_fn(T) -> V,
) -> bool {
    match turn {
        Turn::Ask(request) => flow == Flow::<V>::Ask(request@),
        Turn::Value(value) => flow == Flow::Value(view(value), at as int),
    }
}

/// Whether the step `step` is what `expected` says; results are compared
/// through `view`.
pub open spec fn step_is<T, V>(
    step: Step<T>,
    expected: StepView<V>,
    view: spec_fn(T) -> V,
) -> bool {
    match step {
        Step::Request(request) => expected == StepView::<V>::Request(request@),
        Step::Finished(value) => expected == StepView::Finished(view(value)),
    }
}

/// The values of the requests of a list.
pub open spec fn requests(list: Seq<BusRequest>) -> Seq<BusRequestView> {
    list.map_values(|q: BusRequest| q@)
}

/// Puts the requests `pending` on the bus one after the other, whatever the
/// replies are. Returns the request to ask now, or `None` once the history
/// holds a reply to each of them.
pub fn undo(history: &[BusReply], at: &mut usize, pending: Vec<BusRequest>) -> (ask: Option<
    BusRequest,
>)
    requires
        *old(at) <= history@.len(),
    ensures
        *final(at) <= history@.len(),
        match ask {
            Some(request) => best_effort(replies(history@), *old(at) as int, requests(pending@))
                == Flow::<()>::Ask(request@),
            None => best_effort(replies(history@), *old(at) as int, requests(pending@))
                == Flow::Value((), *final(at) as int),
        },
{
    let mut rest = pending;
    let ghost all = requests(rest@);
    let ghost start = *at;
    while rest.len() > 0
        invariant
            start == *old(at),
            all == requests(pending@),
            start <= *at <= history@.len(),
            best_effort(replies(history@), start as int, all) == best_effort(
                replies(history@),
                *at as int,
                requests(rest@),
            ),
        decreases rest@.len(),
    {
        let ghost before = requests(rest@);
        proof {
            assert(before.len() == rest@.len());
            assert(replies(history@).len() == history@.len());
        }
        let request = rest.remove(0);
        proof {
            assert(requests(rest@) =~= before.drop_first());
            assert(request@ == before[0]);
        }
        if *at >= history.len() {
            return Some(request);
        }
        *at = *at + 1;
    }
    None
}


/// Whether `shorter` is what a part of an operation says of a history that
/// holds the first `k` replies only, given that it says `whole` of the whole
/// history: a part that has a value after `end` replies has that same value
/// once `k` reaches `end`, and asks before that; a part that still asks has
/// asked all along.
pub open spec fn settled<V>(whole: Flow<V>, shorter: Flow<V>, at: int, k: int, len: int) -> bool {
    match whole {
        Flow::Value(value, end) => at <= end <= len && if k >= end {
            shorter == whole
        } else {
            shorter is Ask
        },
        Flow::Ask(_) => k < len ==> shorter is Ask,
    }
}

/// Requests that are put on the bus whatever the replies are take one reply
/// each, in order.
pub proof fn lemma_best_effort_settles(
    h: Seq<BusReplyView>,
    at: int,
    requests: Seq<BusRequestView>,
    k: int,
)
    requires
        0 <= at <= k <= h.len(),
    ensures
        settled(best_effort(h, at, requests), best_effort(h.take(k), at, requests), at, k,
            h.len() as int),
        best_effort(h, at, requests) matches Flow::Value(_, end) ==> end == at + requests.len(),
    decreases requests.len(),
{
    if requests.len() > 0 {
        if at < h.len() {
            if at < k {
                lemma_best_effort_settles(h, at + 1, requests.drop_first(), k);
            } else {
                lemma_best_effort_end(h, at + 1, requests.drop_first());
            }
        }
    }
}

/// Requests that are put on the bus whatever the replies are have their value
/// once each has a reply.
pub proof fn lemma_best_effort_end(h: Seq<BusReplyView>, at: int, requests: Seq<BusRequestView>)
    requires
        0 <= at <= h.len(),
    ensures
        best_effort(h, at, requests) matches Flow::Value(_, end) ==> end == at + requests.len()
            && end <= h.len(),
    decreases requests.len(),
{
    if requests.len() > 0 && at < h.len() {
        lemma_best_effort_end(h, at + 1, requests.drop_first());
    }
}

} // verus!
