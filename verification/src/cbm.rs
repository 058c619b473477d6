//! The operations on a drive, each as a conversation with the bus.
//!
//! Every operation takes the replies that the bus has given so far and
//! returns the next request, or its result once it needs no further request.
//! Whatever fails in the middle of an operation, the steps taken before are
//! undone as far as they can be before the failure is reported: a talker is
//! told to stop, listeners are released, an opened channel is closed. A
//! failure of such a step is passed over, so that the first failure is the
//! one that is reported.

use crate::bus::{
    and_then, ask, best_effort, handle_read_result, next_reply, outcome, replies, requests,
    step_is, transport_failure, turn_is, undo, BusReply, BusReplyView, BusRequest, BusRequestView,
    Flow, Step, StepView, Turn,
};
use crate::cbmtype::{parse_status, status_view, CbmStatus, CbmStatusView};
use crate::channel::{valid_device_channel, DeviceChannel, CBM_CHANNEL_CTRL, CBM_CHANNEL_LOAD};
use crate::error::{
    error_view, DeviceError, DeviceErrorView, Rs1541Error, Rs1541ErrorView, TransportErrorKind,
};
use crate::string::{bytes_to_vec, AsciiString, CbmString, PetsciiString};
use std::collections::HashMap;
use vstd::prelude::*;
use vstd::string::StringExecFns;

verus! {

/// The longest status line that is read from a drive.
pub const STATUS_LIMIT: usize = 64;

/// The text that `String::from_utf8_lossy` makes of `bytes`.
pub uninterp spec fn utf8_lossy(bytes: Seq<u8>) -> Seq<char>;

/// Calls `String::from_utf8_lossy`, which decodes `bytes` as UTF-8 and puts
/// the replacement character in place of what is no valid UTF-8. Bytes that
/// are valid UTF-8 give the text that they encode.
#[verifier::external_body]
fn lossy_text(bytes: &[u8]) -> (text: String)
    ensures
        text@ == utf8_lossy(bytes@),
        vstd::utf8::valid_utf8(bytes@) ==> text@ == vstd::utf8::decode_utf8(bytes@),
{
    String::from_utf8_lossy(bytes).into_owned()
}

/// The error of the library for a failure of the transport.
pub open spec fn transport(e: crate::error::TransportErrorView) -> Rs1541ErrorView {
    Rs1541ErrorView::Xum1541(e)
}

/// Sending the command `cmd` on the channel `dc`: listen, write, unlisten.
///
/// A failure to listen ends it. After a failure to write, the listeners are
/// still released before the failure is reported.
pub open spec fn send_command_flow(
    dc: DeviceChannel,
    cmd: Seq<u8>,
    h: Seq<BusReplyView>,
    at: int,
) -> Flow<
    Result<(), Rs1541ErrorView>,
> {
    ask(
        h,
        at,
        BusRequestView::Listen(dc),
        |listen: BusReplyView|
            match listen.failure() {
                Some(e) => Flow::Value(Err(transport(e)), at + 1),
                None => ask(
                    h,
                    at + 1,
                    BusRequestView::Write(cmd),
                    |write: BusReplyView|
                        match write.failure() {
                            Some(e) => and_then(
                                best_effort(h, at + 2, seq![BusRequestView::Unlisten]),
                                |u: (), end: int| Flow::Value(Err(transport(e)), end),
                            ),
                            None => ask(
                                h,
                                at + 2,
                                BusRequestView::Unlisten,
                                |unlisten: BusReplyView|
                                    match unlisten.failure() {
                                        Some(e) => Flow::Value(Err(transport(e)), at + 3),
                                        None => Flow::Value(Ok(()), at + 3),
                                    },
                            ),
                        },
                ),
            },
    )
}

/// Reading the status of device `device`: talk on the control channel `dc`,
/// read up to the first carriage return or 64 bytes, untalk, and parse what
/// was read.
///
/// A failure to talk ends it. After a failed read, and after a read of no
/// byte at all, which means that the device is not there, the talker is still
/// told to stop before the failure is reported.
pub open spec fn status_flow(device: u8, dc: DeviceChannel, h: Seq<BusReplyView>, at: int) -> Flow<
    Result<CbmStatusView, Rs1541ErrorView>,
> {
    ask(
        h,
        at,
        BusRequestView::Talk(dc),
        |talk: BusReplyView|
            match talk.failure() {
                Some(e) => Flow::Value(Err(transport(e)), at + 1),
                None => ask(
                    h,
                    at + 1,
                    BusRequestView::ReadUntil { limit: STATUS_LIMIT, pattern: seq![13u8] },
                    |read: BusReplyView|
                        match read.read_outcome(dc) {
                            Err(e) => and_then(
                                best_effort(h, at + 2, seq![BusRequestView::Untalk]),
                                |u: (), end: int| Flow::Value(Err(e), end),
                            ),
                            Ok(line) => ask(
                                h,
                                at + 2,
                                BusRequestView::Untalk,
                                |untalk: BusReplyView|
                                    match untalk.failure() {
                                        Some(e) => Flow::Value(Err(transport(e)), at + 3),
                                        None => Flow::Value(
                                            parse_status(utf8_lossy(line), device),
                                            at + 3,
                                        ),
                                    },
                            ),
                        },
                ),
            },
    )
}

/// Sends the command `cmd` on the channel `dc`.
pub fn send_command_petscii_locked(
    history: &[BusReply],
    at: &mut usize,
    dc: DeviceChannel,
    cmd: &PetsciiString,
) -> (turn: Turn<Result<(), Rs1541Error>>)
    requires
        *old(at) <= history@.len(),
    ensures
        *final(at) <= history@.len(),
        turn_is(
            turn,
            *final(at),
            send_command_flow(dc, cmd@, replies(history@), *old(at) as int),
            |r: Result<(), Rs1541Error>| error_view(r),
        ),
{
    let listen = match next_reply(history, at) {
        Some(reply) => reply,
        None => {
            return Turn::Ask(BusRequest::Listen(dc));
        },
    };
    match transport_failure(listen) {
        Some(e) => {
            return Turn::Value(Err(e));
        },
        None => {},
    }
    let write = match next_reply(history, at) {
        Some(reply) => reply,
        None => {
            return Turn::Ask(BusRequest::Write(bytes_to_vec(cmd.as_bytes())));
        },
    };
    match transport_failure(write) {
        Some(e) => {
            let mut pending: Vec<BusRequest> = Vec::new();
            pending.push(BusRequest::Unlisten);
            proof {
                assert(requests(pending@) =~= seq![BusRequestView::Unlisten]);
            }
            return match undo(history, at, pending) {
                Some(request) => Turn::Ask(request),
                None => Turn::Value(Err(e)),
            };
        },
        None => {},
    }
    let unlisten = match next_reply(history, at) {
        Some(reply) => reply,
        None => {
            return Turn::Ask(BusRequest::Unlisten);
        },
    };
    match transport_failure(unlisten) {
        Some(e) => Turn::Value(Err(e)),
        None => Turn::Value(Ok(())),
    }
}


/// A list that holds the one request `request`.
fn just(request: BusRequest) -> (list: Vec<BusRequest>)
    ensures
        requests(list@) == seq![request@],
{
    let mut list: Vec<BusRequest> = Vec::new();
    list.push(request);
    proof {
        assert(requests(list@) =~= seq![request@]);
    }
    list
}

/// A list that holds the two requests `first` and `second`.
fn pair(first: BusRequest, second: BusRequest) -> (list: Vec<BusRequest>)
    ensures
        requests(list@) == seq![first@, second@],
{
    let mut list: Vec<BusRequest> = Vec::new();
    list.push(first);
    list.push(second);
    proof {
        assert(requests(list@) =~= seq![first@, second@]);
    }
    list
}

/// Reads the status of the device of the control channel `dc`.
pub fn get_status_locked(history: &[BusReply], at: &mut usize, dc: DeviceChannel) -> (turn: Turn<
    Result<CbmStatus, Rs1541Error>,
>)
    requires
        *old(at) <= history@.len(),
    ensures
        *final(at) <= history@.len(),
        turn_is(
            turn,
            *final(at),
            status_flow(dc.spec_device(), dc, replies(history@), *old(at) as int),
            |r: Result<CbmStatus, Rs1541Error>| status_view(r),
        ),
{
    let talk = match next_reply(history, at) {
        Some(reply) => reply,
        None => {
            return Turn::Ask(BusRequest::Talk(dc));
        },
    };
    match transport_failure(talk) {
        Some(e) => {
            return Turn::Value(Err(e));
        },
        None => {},
    }
    let read = match next_reply(history, at) {
        Some(reply) => reply,
        None => {
            let mut pattern: Vec<u8> = Vec::new();
            pattern.push(13u8);
            proof {
                assert(pattern@ =~= seq![13u8]);
            }
            return Turn::Ask(BusRequest::ReadUntil { limit: STATUS_LIMIT, pattern });
        },
    };
    let line = match handle_read_result(read, dc) {
        Ok(line) => line,
        Err(e) => {
            return match undo(history, at, just(BusRequest::Untalk)) {
                Some(request) => Turn::Ask(request),
                None => Turn::Value(Err(e)),
            };
        },
    };
    let untalk = match next_reply(history, at) {
        Some(reply) => reply,
        None => {
            return Turn::Ask(BusRequest::Untalk);
        },
    };
    match transport_failure(untalk) {
        Some(e) => Turn::Value(Err(e)),
        None => {
            let text = lossy_text(line.as_slice());
            Turn::Value(CbmStatus::new(text.as_str(), dc.device()))
        },
    }
}

/// The error that a failed reading of the status of device `device` is
/// reported as where the status was only read to check it: that the device is
/// not there is passed on, and everything else becomes a failure to get the
/// status, with the text of what went wrong.
pub open spec fn status_failure(
    device: u8,
    prefix: Seq<char>,
    e: Rs1541ErrorView,
) -> Rs1541ErrorView {
    match e {
        Rs1541ErrorView::Device { device: absent, error: DeviceErrorView::NoDevice } =>
            Rs1541ErrorView::Device { device: absent, error: DeviceErrorView::NoDevice },
        _ => Rs1541ErrorView::Device {
            device,
            error: DeviceErrorView::GetStatusFailure { message: prefix + e.text() },
        },
    }
}

/// Whether a status lets an operation go on: a success does, and the drive's
/// greeting, number 73, does where `accept_73` says so and nothing else does.
pub open spec fn status_verdict(status: CbmStatusView, accept_73: bool) -> Result<
    (),
    Rs1541ErrorView,
> {
    if accept_73 {
        if status.class() == crate::cbmtype::CbmErrorNumberOk::Number73 {
            Ok(())
        } else {
            Err(Rs1541ErrorView::Status { status })
        }
    } else {
        if status.class() == crate::cbmtype::CbmErrorNumberOk::Okay {
            Ok(())
        } else {
            Err(Rs1541ErrorView::Status { status })
        }
    }
}

/// Reading the status of the device of `dc` and checking it.
pub open spec fn status_check_flow(
    dc: DeviceChannel,
    accept_73: bool,
    h: Seq<BusReplyView>,
    at: int,
) -> Flow<
    Result<(), Rs1541ErrorView>,
> {
    and_then(
        status_flow(dc.spec_device(), dc, h, at),
        |read: Result<CbmStatusView, Rs1541ErrorView>, end: int|
            Flow::Value(
                match read {
                    Err(e) => Err(status_failure(dc.spec_device(), "Failed to get status: "@, e)),
                    Ok(status) => status_verdict(status, accept_73),
                },
                end,
            ),
    )
}

/// The error that a failed reading of the status of device `device` is
/// reported as, with `prefix` in front of the text of what went wrong.
fn status_failure_of(device: u8, prefix: &str, e: Rs1541Error) -> (reported: Rs1541Error)
    ensures
        reported@ == status_failure(device, prefix@, e@),
{
    let absent: Option<u8> = match &e {
        Rs1541Error::Device { device: absent, error: DeviceError::NoDevice } => Some(*absent),
        _ => None,
    };
    match absent {
        Some(absent) => DeviceError::no_device(absent),
        None => {
            let mut message = String::new();
            message.append(prefix);
            message.append(e.to_string().as_str());
            DeviceError::get_status_failure(device, message)
        },
    }
}

/// Reads the status of the device of the control channel `dc` and checks that
/// it lets an operation go on.
pub fn check_for_status_ok(
    history: &[BusReply],
    at: &mut usize,
    dc: DeviceChannel,
    accept_73: bool,
) -> (turn: Turn<Result<(), Rs1541Error>>)
    requires
        *old(at) <= history@.len(),
    ensures
        *final(at) <= history@.len(),
        turn_is(
            turn,
            *final(at),
            status_check_flow(dc, accept_73, replies(history@), *old(at) as int),
            |r: Result<(), Rs1541Error>| error_view(r),
        ),
{
    match get_status_locked(history, at, dc) {
        Turn::Ask(request) => Turn::Ask(request),
        Turn::Value(Err(e)) => Turn::Value(
            Err(status_failure_of(dc.device(), "Failed to get status: ", e)),
        ),
        Turn::Value(Ok(status)) => {
            if accept_73 {
                Turn::Value(status.into_73_ok())
            } else {
                Turn::Value(status.into_result())
            }
        },
    }
}

/// Whether the step `step` reports that the transport refused the pair of
/// `device` and `channel`.
pub open spec fn refused<T>(step: Step<Result<T, Rs1541Error>>, device: u8, channel: u8) -> bool {
    step matches Step::Finished(Err(e)) && crate::channel::is_refusal(e, device, channel)
}

/// Whether `device` is a device number of the bus.
pub open spec fn valid_device(device: u8) -> bool {
    valid_device_channel(device, CBM_CHANNEL_CTRL)
}

/// The control channel of device `device`.
pub open spec fn control(device: u8) -> DeviceChannel {
    DeviceChannel::of(device, CBM_CHANNEL_CTRL)
}

/// Resetting the bus: the one request, whose failure is the failure of the
/// operation.
pub open spec fn reset_flow(h: Seq<BusReplyView>, at: int) -> Flow<Result<(), Rs1541ErrorView>> {
    ask(
        h,
        at,
        BusRequestView::Reset,
        |reset: BusReplyView|
            match reset.failure() {
                Some(e) => Flow::Value(Err(transport(e)), at + 1),
                None => Flow::Value(Ok(()), at + 1),
            },
    )
}

/// Finding out whether the device of the control channel `dc` is there: it is
/// told to listen. Where the adapter answers that with an error status value,
/// no device is there, which is no failure. Where the device listens, it is
/// released again, and it is there.
pub open spec fn exists_flow(dc: DeviceChannel, h: Seq<BusReplyView>, at: int) -> Flow<
    Result<bool, Rs1541ErrorView>,
> {
    ask(
        h,
        at,
        BusRequestView::Listen(dc),
        |listen: BusReplyView|
            match listen.failure() {
                Some(e) => if e.kind == TransportErrorKind::StatusValue {
                    Flow::Value(Ok(false), at + 1)
                } else {
                    Flow::Value(Err(transport(e)), at + 1)
                },
                None => ask(
                    h,
                    at + 1,
                    BusRequestView::Unlisten,
                    |unlisten: BusReplyView|
                        match unlisten.failure() {
                            Some(e) => Flow::Value(Err(transport(e)), at + 2),
                            None => Flow::Value(Ok(true), at + 2),
                        },
                ),
            },
    )
}

/// Finds out whether the device of the control channel `dc` is there.
pub fn drive_exists_locked(history: &[BusReply], at: &mut usize, dc: DeviceChannel) -> (turn: Turn<
    Result<bool, Rs1541Error>,
>)
    requires
        *old(at) <= history@.len(),
    ensures
        *final(at) <= history@.len(),
        turn_is(
            turn,
            *final(at),
            exists_flow(dc, replies(history@), *old(at) as int),
            |r: Result<bool, Rs1541Error>| error_view(r),
        ),
{
    let listen = match next_reply(history, at) {
        Some(reply) => reply,
        None => {
            return Turn::Ask(BusRequest::Listen(dc));
        },
    };
    match listen {
        BusReply::Failed(e) => {
            if e.kind == TransportErrorKind::StatusValue {
                return Turn::Value(Ok(false));
            }
            return Turn::Value(Err(Rs1541Error::Xum1541(e.clone())));
        },
        BusReply::Completed { .. } => {},
    }
    let unlisten = match next_reply(history, at) {
        Some(reply) => reply,
        None => {
            return Turn::Ask(BusRequest::Unlisten);
        },
    };
    match transport_failure(unlisten) {
        Some(e) => Turn::Value(Err(e)),
        None => Turn::Value(Ok(true)),
    }
}


/// The number of bytes that are read from a file, or written to it, at a time:
/// what one block of a disk holds.
pub const BLOCK: usize = 254;

/// The number of bytes still to ask for where `got` of `size` are there.
pub open spec fn remaining(size: usize, got: nat) -> usize {
    if got <= size {
        (size - got) as usize
    } else {
        0
    }
}

/// The reads of [`drive_read_flow`]: what is missing of `size` bytes is asked
/// for until a read returns nothing or returns all `size` bytes at once. A
/// failed read ends it, after the talker has been told to stop.
pub open spec fn drive_read_loop(
    dc: DeviceChannel,
    size: usize,
    h: Seq<BusReplyView>,
    at: int,
    got: Seq<u8>,
) -> Flow<Result<Seq<u8>, Rs1541ErrorView>>
    decreases h.len() - at,
{
    if 0 <= at < h.len() {
        match h[at].read_outcome(dc) {
            Err(e) => and_then(
                best_effort(h, at + 1, seq![BusRequestView::Untalk]),
                |u: (), end: int| Flow::Value(Err(e), end),
            ),
            Ok(bytes) => if bytes.len() == 0 || bytes.len() == size {
                Flow::Value(Ok(got + bytes), at + 1)
            } else {
                drive_read_loop(dc, size, h, at + 1, got + bytes)
            },
        }
    } else {
        Flow::Ask(BusRequestView::Read(remaining(size, got.len())))
    }
}

/// The error for a read on `dc` that gave `got` bytes in place of `size`.
pub open spec fn short_read(dc: DeviceChannel, size: usize, got: nat) -> Rs1541ErrorView {
    Rs1541ErrorView::Device {
        device: dc.spec_device(),
        error: DeviceErrorView::Read {
            channel: dc.spec_channel(),
            message: "Failed to read "@ + crate::text::decimal(size as nat) + " bytes, read "@
                + crate::text::decimal(got),
        },
    }
}

/// The error for a request to read no bytes at all, with `what` saying from
/// where.
pub open spec fn nothing_to_read(what: Seq<char>) -> Rs1541ErrorView {
    Rs1541ErrorView::Validation { message: what }
}

/// Reading `size` bytes from the channel `dc`: talk, read, untalk.
///
/// A request for no bytes is refused. Where fewer bytes came than were asked
/// for, that is an error if `read_all` says so, and the bytes that came are
/// the result if not.
pub open spec fn drive_read_flow(
    dc: DeviceChannel,
    size: usize,
    read_all: bool,
    h: Seq<BusReplyView>,
    at: int,
) -> Flow<Result<Seq<u8>, Rs1541ErrorView>> {
    if size == 0 {
        Flow::Value(Err(nothing_to_read("Asked to read 0 bytes from "@ + dc.text())), at)
    } else {
        ask(
            h,
            at,
            BusRequestView::Talk(dc),
            |talk: BusReplyView|
                match talk.failure() {
                    Some(e) => Flow::Value(Err(transport(e)), at + 1),
                    None => and_then(
                        drive_read_loop(dc, size, h, at + 1, Seq::empty()),
                        |read: Result<Seq<u8>, Rs1541ErrorView>, end: int|
                            match read {
                                Err(e) => Flow::Value(Err(e), end),
                                Ok(data) => ask(
                                    h,
                                    end,
                                    BusRequestView::Untalk,
                                    |untalk: BusReplyView|
                                        match untalk.failure() {
                                            Some(e) => Flow::Value(Err(transport(e)), end + 1),
                                            None => Flow::Value(
                                                if data.len() != size && read_all {
                                                    Err(short_read(dc, size, data.len()))
                                                } else {
                                                    Ok(data)
                                                },
                                                end + 1,
                                            ),
                                        },
                                ),
                            },
                    ),
                },
        )
    }
}

/// A result that holds bytes, with both sides taken by their values.
pub open spec fn bytes_view(r: Result<Vec<u8>, Rs1541Error>) -> Result<Seq<u8>, Rs1541ErrorView> {
    match r {
        Ok(bytes) => Ok(bytes@),
        Err(e) => Err(e@),
    }
}

/// Appends the bytes `more` to `data`.
fn append_bytes(data: &mut Vec<u8>, more: &[u8])
    ensures
        final(data)@ == old(data)@ + more@,
{
    let mut i: usize = 0;
    while i < more.len()
        invariant
            i <= more.len(),
            data@ == old(data)@ + more@.take(i as int),
        decreases more.len() - i,
    {
        data.push(more[i]);
        proof {
            assert(more@.take(i + 1) == more@.take(i as int).push(more@[i as int]));
        }
        i = i + 1;
    }
    proof {
        assert(more@.take(more.len() as int) == more@);
    }
}

/// The reads of [`read_from_drive_locked`], with `data` holding what came so
/// far.
fn drive_read_rounds(
    history: &[BusReply],
    at: &mut usize,
    dc: DeviceChannel,
    size: usize,
    data: Vec<u8>,
) -> (turn: Turn<Result<Vec<u8>, Rs1541Error>>)
    requires
        *old(at) <= history@.len(),
    ensures
        *final(at) <= history@.len(),
        turn_is(
            turn,
            *final(at),
            drive_read_loop(dc, size, replies(history@), *old(at) as int, data@),
            |r: Result<Vec<u8>, Rs1541Error>| bytes_view(r),
        ),
    decreases history@.len() - *old(at),
{
    let mut data = data;
    proof {
        assert(replies(history@).len() == history@.len());
    }
    let read = match next_reply(history, at) {
        Some(reply) => reply,
        None => {
            let want: usize = if data.len() <= size {
                size - data.len()
            } else {
                0
            };
            return Turn::Ask(BusRequest::Read(want));
        },
    };
    match handle_read_result(read, dc) {
        Err(e) => match undo(history, at, just(BusRequest::Untalk)) {
            Some(request) => Turn::Ask(request),
            None => Turn::Value(Err(e)),
        },
        Ok(bytes) => {
            append_bytes(&mut data, bytes.as_slice());
            if bytes.len() == 0 || bytes.len() == size {
                Turn::Value(Ok(data))
            } else {
                drive_read_rounds(history, at, dc, size, data)
            }
        },
    }
}

/// Reads `size` bytes from the channel `dc`.
pub fn read_from_drive_locked(
    history: &[BusReply],
    at: &mut usize,
    dc: DeviceChannel,
    size: usize,
    read_all: bool,
) -> (turn: Turn<Result<Vec<u8>, Rs1541Error>>)
    requires
        *old(at) <= history@.len(),
    ensures
        *final(at) <= history@.len(),
        turn_is(
            turn,
            *final(at),
            drive_read_flow(dc, size, read_all, replies(history@), *old(at) as int),
            |r: Result<Vec<u8>, Rs1541Error>| bytes_view(r),
        ),
{
    if size == 0 {
        let mut message = String::new();
        message.append("Asked to read 0 bytes from ");
        message.append(dc.to_string().as_str());
        return Turn::Value(Err(Rs1541Error::Validation { message }));
    }
    let talk = match next_reply(history, at) {
        Some(reply) => reply,
        None => {
            return Turn::Ask(BusRequest::Talk(dc));
        },
    };
    match transport_failure(talk) {
        Some(e) => {
            return Turn::Value(Err(e));
        },
        None => {},
    }
    let data = match drive_read_rounds(history, at, dc, size, Vec::new()) {
        Turn::Ask(request) => {
            return Turn::Ask(request);
        },
        Turn::Value(Err(e)) => {
            return Turn::Value(Err(e));
        },
        Turn::Value(Ok(data)) => data,
    };
    let untalk = match next_reply(history, at) {
        Some(reply) => reply,
        None => {
            return Turn::Ask(BusRequest::Untalk);
        },
    };
    match transport_failure(untalk) {
        Some(e) => Turn::Value(Err(e)),
        None => {
            if data.len() != size && read_all {
                let mut message = String::new();
                message.append("Failed to read ");
                crate::text::push_decimal(&mut message, size as u64);
                message.append(" bytes, read ");
                crate::text::push_decimal(&mut message, data.len() as u64);
                Turn::Value(Err(DeviceError::read_error(dc, message)))
            } else {
                Turn::Value(Ok(data))
            }
        },
    }
}

/// Opening the file `name` on the channel `dc`: open, write the name,
/// unlisten, and check that the status of the drive is a success.
///
/// Whatever fails after the channel was opened, the channel is closed again
/// before the failure is reported, and after a failed write the listeners are
/// released before that.
pub open spec fn open_flow(dc: DeviceChannel, name: Seq<u8>, h: Seq<BusReplyView>, at: int) -> Flow<
    Result<(), Rs1541ErrorView>,
> {
    ask(
        h,
        at,
        BusRequestView::Open(dc),
        |open: BusReplyView|
            match open.failure() {
                Some(e) => Flow::Value(Err(transport(e)), at + 1),
                None => ask(
                    h,
                    at + 1,
                    BusRequestView::Write(name),
                    |write: BusReplyView|
                        match write.failure() {
                            Some(e) => and_then(
                                best_effort(
                                    h,
                                    at + 2,
                                    seq![BusRequestView::Unlisten, BusRequestView::Close(dc)],
                                ),
                                |u: (), end: int| Flow::Value(Err(transport(e)), end),
                            ),
                            None => ask(
                                h,
                                at + 2,
                                BusRequestView::Unlisten,
                                |unlisten: BusReplyView|
                                    match unlisten.failure() {
                                        Some(e) => and_then(
                                            best_effort(h, at + 3, seq![BusRequestView::Close(dc)]),
                                            |u: (), end: int| Flow::Value(Err(transport(e)), end),
                                        ),
                                        None => and_then(
                                            status_check_flow(
                                                control(dc.spec_device()),
                                                false,
                                                h,
                                                at + 3,
                                            ),
                                            |checked: Result<(), Rs1541ErrorView>, end: int|
                                                match checked {
                                                    Err(e) => and_then(
                                                        best_effort(
                                                            h,
                                                            end,
                                                            seq![BusRequestView::Close(dc)],
                                                        ),
                                                        |u: (), last: int|
                                                            Flow::Value(Err(e), last),
                                                    ),
                                                    Ok(_) => Flow::Value(Ok(()), end),
                                                },
                                        ),
                                    },
                            ),
                        },
                ),
            },
    )
}

/// Opens the file `filename` on the channel `dc`.
pub fn open_file_petscii_locked(
    history: &[BusReply],
    at: &mut usize,
    dc: DeviceChannel,
    filename: &PetsciiString,
) -> (turn: Turn<Result<(), Rs1541Error>>)
    requires
        *old(at) <= history@.len(),
    ensures
        *final(at) <= history@.len(),
        turn_is(
            turn,
            *final(at),
            open_flow(dc, filename@, replies(history@), *old(at) as int),
            |r: Result<(), Rs1541Error>| error_view(r),
        ),
{
    let open = match next_reply(history, at) {
        Some(reply) => reply,
        None => {
            return Turn::Ask(BusRequest::Open(dc));
        },
    };
    match transport_failure(open) {
        Some(e) => {
            return Turn::Value(Err(e));
        },
        None => {},
    }
    let write = match next_reply(history, at) {
        Some(reply) => reply,
        None => {
            return Turn::Ask(BusRequest::Write(bytes_to_vec(filename.as_bytes())));
        },
    };
    match transport_failure(write) {
        Some(e) => {
            return match undo(history, at, pair(BusRequest::Unlisten, BusRequest::Close(dc))) {
                Some(request) => Turn::Ask(request),
                None => Turn::Value(Err(e)),
            };
        },
        None => {},
    }
    let unlisten = match next_reply(history, at) {
        Some(reply) => reply,
        None => {
            return Turn::Ask(BusRequest::Unlisten);
        },
    };
    match transport_failure(unlisten) {
        Some(e) => {
            return match undo(history, at, just(BusRequest::Close(dc))) {
                Some(request) => Turn::Ask(request),
                None => Turn::Value(Err(e)),
            };
        },
        None => {},
    }
    match check_for_status_ok(history, at, dc.control(), false) {
        Turn::Ask(request) => Turn::Ask(request),
        Turn::Value(Err(e)) => match undo(history, at, just(BusRequest::Close(dc))) {
            Some(request) => Turn::Ask(request),
            None => Turn::Value(Err(e)),
        },
        Turn::Value(Ok(_)) => Turn::Value(Ok(())),
    }
}

/// Closing the channel `dc`: the one request, whose failure is the failure of
/// the operation.
pub open spec fn close_flow(dc: DeviceChannel, h: Seq<BusReplyView>, at: int) -> Flow<
    Result<(), Rs1541ErrorView>,
> {
    ask(
        h,
        at,
        BusRequestView::Close(dc),
        |close: BusReplyView|
            match close.failure() {
                Some(e) => Flow::Value(Err(transport(e)), at + 1),
                None => Flow::Value(Ok(()), at + 1),
            },
    )
}

/// Closes the channel `dc`.
pub fn close_file_locked(history: &[BusReply], at: &mut usize, dc: DeviceChannel) -> (turn: Turn<
    Result<(), Rs1541Error>,
>)
    requires
        *old(at) <= history@.len(),
    ensures
        *final(at) <= history@.len(),
        turn_is(
            turn,
            *final(at),
            close_flow(dc, replies(history@), *old(at) as int),
            |r: Result<(), Rs1541Error>| error_view(r),
        ),
{
    let close = match next_reply(history, at) {
        Some(reply) => reply,
        None => {
            return Turn::Ask(BusRequest::Close(dc));
        },
    };
    match transport_failure(close) {
        Some(e) => Turn::Value(Err(e)),
        None => Turn::Value(Ok(())),
    }
}


/// The reads of [`load_flow`]: a block at a time until a read returns nothing.
/// A failed read ends it, after the talker has been told to stop and the
/// channel has been closed.
pub open spec fn load_loop(dc: DeviceChannel, h: Seq<BusReplyView>, at: int, got: Seq<u8>) -> Flow<
    Result<Seq<u8>, Rs1541ErrorView>,
>
    decreases h.len() - at,
{
    if 0 <= at < h.len() {
        match h[at].read_outcome(dc) {
            Err(e) => and_then(
                best_effort(h, at + 1, seq![BusRequestView::Untalk, BusRequestView::Close(dc)]),
                |u: (), end: int| Flow::Value(Err(e), end),
            ),
            Ok(bytes) => if bytes.len() == 0 {
                Flow::Value(Ok(got), at + 1)
            } else {
                load_loop(dc, h, at + 1, got + bytes)
            },
        }
    } else {
        Flow::Ask(BusRequestView::Read(BLOCK))
    }
}

/// Loading the file `name` through the channel `dc`: open, talk, read to the
/// end, untalk, close. The result is what was read.
///
/// Whatever fails once the file is open, the channel is closed before the
/// failure is reported, and a talker is told to stop before that.
pub open spec fn load_flow(dc: DeviceChannel, name: Seq<u8>, h: Seq<BusReplyView>, at: int) -> Flow<
    Result<Seq<u8>, Rs1541ErrorView>,
> {
    and_then(
        open_flow(dc, name, h, at),
        |opened: Result<(), Rs1541ErrorView>, begin: int|
            match opened {
                Err(e) => Flow::Value(Err(e), begin),
                Ok(_) => ask(
                    h,
                    begin,
                    BusRequestView::Talk(dc),
                    |talk: BusReplyView|
                        match talk.failure() {
                            Some(e) => and_then(
                                best_effort(h, begin + 1, seq![BusRequestView::Close(dc)]),
                                |u: (), end: int| Flow::Value(Err(transport(e)), end),
                            ),
                            None => and_then(
                                load_loop(dc, h, begin + 1, Seq::empty()),
                                |read: Result<Seq<u8>, Rs1541ErrorView>, end: int|
                                    match read {
                                        Err(e) => Flow::Value(Err(e), end),
                                        Ok(data) => load_end(dc, data, h, end),
                                    },
                            ),
                        },
                ),
            },
    )
}

/// The end of [`load_flow`]: untalk and close, with `data` as the result.
pub open spec fn load_end(dc: DeviceChannel, data: Seq<u8>, h: Seq<BusReplyView>, at: int) -> Flow<
    Result<Seq<u8>, Rs1541ErrorView>,
> {
    ask(
        h,
        at,
        BusRequestView::Untalk,
        |untalk: BusReplyView|
            match untalk.failure() {
                Some(e) => and_then(
                    best_effort(h, at + 1, seq![BusRequestView::Close(dc)]),
                    |u: (), end: int| Flow::Value(Err(transport(e)), end),
                ),
                None => ask(
                    h,
                    at + 1,
                    BusRequestView::Close(dc),
                    |close: BusReplyView|
                        match close.failure() {
                            Some(e) => Flow::Value(Err(transport(e)), at + 2),
                            None => Flow::Value(Ok(data), at + 2),
                        },
                ),
            },
    )
}

/// The reads of [`load_file_petscii_locked`], with `data` holding what came
/// so far.
fn load_rounds(history: &[BusReply], at: &mut usize, dc: DeviceChannel, data: Vec<u8>) -> (turn:
    Turn<Result<Vec<u8>, Rs1541Error>>)
    requires
        *old(at) <= history@.len(),
    ensures
        *final(at) <= history@.len(),
        turn_is(
            turn,
            *final(at),
            load_loop(dc, replies(history@), *old(at) as int, data@),
            |r: Result<Vec<u8>, Rs1541Error>| bytes_view(r),
        ),
    decreases history@.len() - *old(at),
{
    let mut data = data;
    proof {
        assert(replies(history@).len() == history@.len());
    }
    let read = match next_reply(history, at) {
        Some(reply) => reply,
        None => {
            return Turn::Ask(BusRequest::Read(BLOCK));
        },
    };
    match handle_read_result(read, dc) {
        Err(e) => match undo(history, at, pair(BusRequest::Untalk, BusRequest::Close(dc))) {
            Some(request) => Turn::Ask(request),
            None => Turn::Value(Err(e)),
        },
        Ok(bytes) => {
            if bytes.len() == 0 {
                Turn::Value(Ok(data))
            } else {
                append_bytes(&mut data, bytes.as_slice());
                load_rounds(history, at, dc, data)
            }
        },
    }
}

/// Loads the file `filename` through the channel `dc`.
pub fn load_file_petscii_locked(
    history: &[BusReply],
    at: &mut usize,
    dc: DeviceChannel,
    filename: &PetsciiString,
) -> (turn: Turn<Result<Vec<u8>, Rs1541Error>>)
    requires
        *old(at) <= history@.len(),
    ensures
        *final(at) <= history@.len(),
        turn_is(
            turn,
            *final(at),
            load_flow(dc, filename@, replies(history@), *old(at) as int),
            |r: Result<Vec<u8>, Rs1541Error>| bytes_view(r),
        ),
{
    match open_file_petscii_locked(history, at, dc, filename) {
        Turn::Ask(request) => {
            return Turn::Ask(request);
        },
        Turn::Value(Err(e)) => {
            return Turn::Value(Err(e));
        },
        Turn::Value(Ok(_)) => {},
    }
    let talk = match next_reply(history, at) {
        Some(reply) => reply,
        None => {
            return Turn::Ask(BusRequest::Talk(dc));
        },
    };
    match transport_failure(talk) {
        Some(e) => {
            return match undo(history, at, just(BusRequest::Close(dc))) {
                Some(request) => Turn::Ask(request),
                None => Turn::Value(Err(e)),
            };
        },
        None => {},
    }
    let data = match load_rounds(history, at, dc, Vec::new()) {
        Turn::Ask(request) => {
            return Turn::Ask(request);
        },
        Turn::Value(Err(e)) => {
            return Turn::Value(Err(e));
        },
        Turn::Value(Ok(data)) => data,
    };
    let untalk = match next_reply(history, at) {
        Some(reply) => reply,
        None => {
            return Turn::Ask(BusRequest::Untalk);
        },
    };
    match transport_failure(untalk) {
        Some(e) => {
            return match undo(history, at, just(BusRequest::Close(dc))) {
                Some(request) => Turn::Ask(request),
                None => Turn::Value(Err(e)),
            };
        },
        None => {},
    }
    let close = match next_reply(history, at) {
        Some(reply) => reply,
        None => {
            return Turn::Ask(BusRequest::Close(dc));
        },
    };
    match transport_failure(close) {
        Some(e) => Turn::Value(Err(e)),
        None => Turn::Value(Ok(data)),
    }
}

/// The load channel of device `device`.
pub open spec fn load_channel(device: u8) -> DeviceChannel {
    DeviceChannel::of(device, CBM_CHANNEL_LOAD)
}

/// Whether the step `step` reports the validation error for a device number
/// that is not on the bus.
pub open spec fn bad_device<T>(step: Step<Result<T, Rs1541Error>>, device: u8) -> bool {
    step matches Step::Finished(Err(e)) && crate::validate::validate_device_spec(
        Some(device),
        crate::validate::DeviceValidation::Required,
    ) == Err::<Option<u8>, Rs1541ErrorView>(e@)
}


/// The address `offset` bytes behind `addr`. Addresses have 16 bits: behind
/// `0xffff` comes `0x0000`.
pub open spec fn address(addr: u16, offset: nat) -> u16 {
    ((addr as nat + offset) % 65536) as u16
}

/// The command that reads the byte at the address `a` of a drive's memory:
/// `M-R`, then the low and the high byte of the address.
pub open spec fn memory_read_command(a: u16) -> Seq<u8> {
    seq![0x4du8, 0x2du8, 0x52u8, (a % 256) as u8, (a / 256) as u8]
}

/// The command that writes `byte` to the address `a` of a drive's memory:
/// `M-W`, the low and the high byte of the address, and the byte.
pub open spec fn memory_write_command(a: u16, byte: u8) -> Seq<u8> {
    seq![0x4du8, 0x2du8, 0x57u8, (a % 256) as u8, (a / 256) as u8, byte]
}

/// The reads of [`memory_read_flow`] from byte `index` on: for each byte, the
/// command to read it is sent and one byte is read from the control channel.
/// The first failure ends it.
pub open spec fn peek_loop(
    dc: DeviceChannel,
    addr: u16,
    index: nat,
    size: nat,
    h: Seq<BusReplyView>,
    at: int,
    got: Seq<u8>,
) -> Flow<Result<Seq<u8>, Rs1541ErrorView>>
    decreases size - index,
{
    if index >= size {
        Flow::Value(Ok(got), at)
    } else {
        match send_command_flow(dc, memory_read_command(address(addr, index)), h, at) {
            Flow::Ask(request) => Flow::Ask(request),
            Flow::Value(Err(e), mid) => Flow::Value(Err(e), mid),
            Flow::Value(Ok(_), mid) => match drive_read_flow(dc, 1, true, h, mid) {
                Flow::Ask(request) => Flow::Ask(request),
                Flow::Value(Err(e), end) => Flow::Value(Err(e), end),
                Flow::Value(Ok(bytes), end) => peek_loop(
                    dc,
                    addr,
                    index + 1,
                    size,
                    h,
                    end,
                    got + bytes,
                ),
            },
        }
    }
}

/// The text of the error for a request to read no byte of a drive's memory.
pub open spec fn empty_peek(device: u8, addr: u16) -> Seq<char> {
    "Asked to read 0 bytes from device "@ + crate::text::decimal(device as nat)
        + " memory address 0x"@ + crate::text::hex4(addr)
}

/// What the reading of the status behind a memory read makes of the result
/// `result` of the read.
///
/// The command that reads memory leaves the drive in a state in which its
/// status does not parse, so a status that does not parse is what is
/// expected, and a status that does is let pass. Any other failure to read
/// the status takes the place of the result.
pub open spec fn after_peek(
    device: u8,
    result: Result<Seq<u8>, Rs1541ErrorView>,
    status: Result<CbmStatusView, Rs1541ErrorView>,
) -> Result<Seq<u8>, Rs1541ErrorView> {
    match status {
        Ok(_) => result,
        Err(Rs1541ErrorView::Parse { .. }) => result,
        Err(e) => Err(status_failure(device, "Failed to get status after identify: "@, e)),
    }
}

/// Reading `size` bytes of the memory of the device of the control channel
/// `dc`, from the address `addr` on.
///
/// The bytes are read one at a time. Whether or not that succeeds, the status
/// of the drive is read afterwards, to bring the drive back to order.
pub open spec fn memory_read_flow(
    dc: DeviceChannel,
    addr: u16,
    size: usize,
    h: Seq<BusReplyView>,
    at: int,
) -> Flow<Result<Seq<u8>, Rs1541ErrorView>> {
    if size == 0 {
        Flow::Value(Err(nothing_to_read(empty_peek(dc.spec_device(), addr))), at)
    } else {
        and_then(
            peek_loop(dc, addr, 0, size as nat, h, at, Seq::empty()),
            |result: Result<Seq<u8>, Rs1541ErrorView>, mid: int|
                and_then(
                    status_flow(dc.spec_device(), dc, h, mid),
                    |status: Result<CbmStatusView, Rs1541ErrorView>, end: int|
                        Flow::Value(after_peek(dc.spec_device(), result, status), end),
                ),
        )
    }
}

/// The command that reads the byte at the address `a` of a drive's memory.
fn memory_read_command_of(a: u16) -> (cmd: PetsciiString)
    ensures
        cmd@ == memory_read_command(a),
{
    let mut bytes: Vec<u8> = Vec::new();
    bytes.push(0x4d);
    bytes.push(0x2d);
    bytes.push(0x52);
    bytes.push((a % 256) as u8);
    bytes.push((a / 256) as u8);
    proof {
        assert(bytes@ =~= memory_read_command(a));
    }
    PetsciiString::from_bytes_unchecked(bytes)
}

/// The address `offset` bytes behind `addr`.
fn address_of(addr: u16, offset: usize) -> (a: u16)
    ensures
        a == address(addr, offset as nat),
{
    let wrapped: usize = offset % 65536;
    let sum: u32 = addr as u32 + wrapped as u32;
    proof {
        assert((addr as nat + offset as nat) % 65536 == (addr as nat + wrapped as nat) % 65536)
            by (nonlinear_arith)
            requires
                wrapped == offset % 65536,
        ;
    }
    (sum % 65536) as u16
}

/// The reads of [`read_drive_memory_locked`] from byte `index` on, with
/// `data` holding the bytes in front of it.
fn peek_rounds(
    history: &[BusReply],
    at: &mut usize,
    dc: DeviceChannel,
    addr: u16,
    index: usize,
    size: usize,
    data: Vec<u8>,
) -> (turn: Turn<Result<Vec<u8>, Rs1541Error>>)
    requires
        *old(at) <= history@.len(),
        index <= size,
        data@.len() == index,
    ensures
        *final(at) <= history@.len(),
        turn_is(
            turn,
            *final(at),
            peek_loop(
                dc,
                addr,
                index as nat,
                size as nat,
                replies(history@),
                *old(at) as int,
                data@,
            ),
            |r: Result<Vec<u8>, Rs1541Error>| bytes_view(r),
        ),
        turn matches Turn::Value(Ok(all)) ==> all@.len() == size,
    decreases size - index,
{
    if index >= size {
        return Turn::Value(Ok(data));
    }
    let cmd = memory_read_command_of(address_of(addr, index));
    match send_command_petscii_locked(history, at, dc, &cmd) {
        Turn::Ask(request) => {
            return Turn::Ask(request);
        },
        Turn::Value(Err(e)) => {
            return Turn::Value(Err(e));
        },
        Turn::Value(Ok(_)) => {},
    }
    match read_from_drive_locked(history, at, dc, 1, true) {
        Turn::Ask(request) => Turn::Ask(request),
        Turn::Value(Err(e)) => Turn::Value(Err(e)),
        Turn::Value(Ok(bytes)) => {
            let mut data = data;
            append_bytes(&mut data, bytes.as_slice());
            peek_rounds(history, at, dc, addr, index + 1, size, data)
        },
    }
}

/// Reads `size` bytes of the memory of the device of the control channel
/// `dc`, from the address `addr` on.
pub fn read_drive_memory_locked(
    history: &[BusReply],
    at: &mut usize,
    dc: DeviceChannel,
    addr: u16,
    size: usize,
) -> (turn: Turn<Result<Vec<u8>, Rs1541Error>>)
    requires
        *old(at) <= history@.len(),
    ensures
        *final(at) <= history@.len(),
        turn_is(
            turn,
            *final(at),
            memory_read_flow(dc, addr, size, replies(history@), *old(at) as int),
            |r: Result<Vec<u8>, Rs1541Error>| bytes_view(r),
        ),
        turn matches Turn::Value(Ok(all)) ==> all@.len() == size,
{
    if size == 0 {
        let mut message = String::new();
        message.append("Asked to read 0 bytes from device ");
        crate::text::push_decimal(&mut message, dc.device() as u64);
        message.append(" memory address 0x");
        crate::text::push_hex4(&mut message, addr);
        return Turn::Value(Err(Rs1541Error::Validation { message }));
    }
    let result = match peek_rounds(history, at, dc, addr, 0, size, Vec::new()) {
        Turn::Ask(request) => {
            return Turn::Ask(request);
        },
        Turn::Value(result) => result,
    };
    match get_status_locked(history, at, dc) {
        Turn::Ask(request) => Turn::Ask(request),
        Turn::Value(Ok(_)) => Turn::Value(result),
        Turn::Value(Err(Rs1541Error::Parse { .. })) => Turn::Value(result),
        Turn::Value(Err(e)) => Turn::Value(
            Err(status_failure_of(dc.device(), "Failed to get status after identify: ", e)),
        ),
    }
}

/// Whether the step `step` reports that the status of device `device` could
/// not be had because the transport refused the device number.
pub open spec fn no_status<T>(step: Step<Result<T, Rs1541Error>>, device: u8) -> bool {
    step matches Step::Finished(Err(e)) && e@ == (Rs1541ErrorView::Device {
        device,
        error: DeviceErrorView::GetStatusFailure {
            message: "Failed to get status after identify: "@ + crate::channel::refusal_text(
                device,
                CBM_CHANNEL_CTRL,
            ),
        },
    })
}


/// Writing the bytes of `data` from index `index` on to the memory of the
/// device of the control channel `dc`, the first of them to the address
/// `addr` plus `index`.
///
/// For each byte the command to write it is sent, and the device is told to
/// talk and to stop again. The first failure ends it.
pub open spec fn poke_loop(
    dc: DeviceChannel,
    addr: u16,
    data: Seq<u8>,
    index: nat,
    h: Seq<BusReplyView>,
    at: int,
) -> Flow<Result<(), Rs1541ErrorView>>
    decreases data.len() - index,
{
    if index >= data.len() {
        Flow::Value(Ok(()), at)
    } else {
        match send_command_flow(
            dc,
            memory_write_command(address(addr, index), data[index as int]),
            h,
            at,
        ) {
            Flow::Ask(request) => Flow::Ask(request),
            Flow::Value(Err(e), mid) => Flow::Value(Err(e), mid),
            Flow::Value(Ok(_), mid) => if mid < 0 || mid >= h.len() {
                Flow::Ask(BusRequestView::Talk(dc))
            } else if h[mid].failure() is Some {
                Flow::Value(Err(transport(h[mid].failure()->0)), mid + 1)
            } else if mid + 1 >= h.len() {
                Flow::Ask(BusRequestView::Untalk)
            } else if h[mid + 1].failure() is Some {
                Flow::Value(Err(transport(h[mid + 1].failure()->0)), mid + 2)
            } else {
                poke_loop(dc, addr, data, index + 1, h, mid + 2)
            },
        }
    }
}

/// The command that writes `byte` to the address `a` of a drive's memory.
fn memory_write_command_of(a: u16, byte: u8) -> (cmd: PetsciiString)
    ensures
        cmd@ == memory_write_command(a, byte),
{
    let mut bytes: Vec<u8> = Vec::new();
    bytes.push(0x4d);
    bytes.push(0x2d);
    bytes.push(0x57);
    bytes.push((a % 256) as u8);
    bytes.push((a / 256) as u8);
    bytes.push(byte);
    proof {
        assert(bytes@ =~= memory_write_command(a, byte));
    }
    PetsciiString::from_bytes_unchecked(bytes)
}

/// Writes the bytes of `data` from index `index` on to the memory of the
/// device of the control channel `dc`.
pub fn write_drive_memory_locked(
    history: &[BusReply],
    at: &mut usize,
    dc: DeviceChannel,
    addr: u16,
    data: &[u8],
    index: usize,
) -> (turn: Turn<Result<(), Rs1541Error>>)
    requires
        *old(at) <= history@.len(),
        index <= data@.len(),
    ensures
        *final(at) <= history@.len(),
        turn_is(
            turn,
            *final(at),
            poke_loop(dc, addr, data@, index as nat, replies(history@), *old(at) as int),
            |r: Result<(), Rs1541Error>| error_view(r),
        ),
    decreases data@.len() - index,
{
    proof {
        assert(replies(history@).len() == history@.len());
    }
    if index >= data.len() {
        return Turn::Value(Ok(()));
    }
    let cmd = memory_write_command_of(address_of(addr, index), data[index]);
    match send_command_petscii_locked(history, at, dc, &cmd) {
        Turn::Ask(request) => {
            return Turn::Ask(request);
        },
        Turn::Value(Err(e)) => {
            return Turn::Value(Err(e));
        },
        Turn::Value(Ok(_)) => {},
    }
    let talk = match next_reply(history, at) {
        Some(reply) => reply,
        None => {
            return Turn::Ask(BusRequest::Talk(dc));
        },
    };
    match transport_failure(talk) {
        Some(e) => {
            return Turn::Value(Err(e));
        },
        None => {},
    }
    let untalk = match next_reply(history, at) {
        Some(reply) => reply,
        None => {
            return Turn::Ask(BusRequest::Untalk);
        },
    };
    match transport_failure(untalk) {
        Some(e) => {
            return Turn::Value(Err(e));
        },
        None => {},
    }
    write_drive_memory_locked(history, at, dc, addr, data, index + 1)
}

/// The 16-bit number that two bytes hold, the low byte first.
pub open spec fn word(bytes: Seq<u8>) -> u16 {
    (bytes[0] as nat + 256 * bytes[1] as nat) as u16
}

/// The address of the first signature of a drive.
pub const MAGIC_ADDRESS: u16 = 0xff40;

/// The address of the second signature of a drive.
pub const SECOND_MAGIC_ADDRESS: u16 = 0xfffe;

/// The address of the signature that tells a 1540 from a 1541.
pub const THIRD_MAGIC_ADDRESS: u16 = 0xe5c4;

/// Identifying the device of the control channel `dc` by the signatures in
/// its memory.
///
/// Two bytes are read at `0xff40`. Where they are `0xaaaa`, two more are read
/// at `0xfffe`; those are the second signature unless they are `0x67 0xfe`,
/// in which case the second signature is read at `0xe5c4`. Where the first
/// are `0x01ba`, the second signature is read at `0xfffe`. Every other first
/// signature stands alone. The first failed read ends it.
pub open spec fn identify_flow(dc: DeviceChannel, h: Seq<BusReplyView>, at: int) -> Flow<
    Result<crate::cbmtype::CbmDeviceInfoView, Rs1541ErrorView>,
> {
    and_then(
        memory_read_flow(dc, MAGIC_ADDRESS, 2, h, at),
        |first: Result<Seq<u8>, Rs1541ErrorView>, one: int|
            match first {
                Err(e) => Flow::Value(Err(e), one),
                Ok(bytes) => if word(bytes) == 0xaaaa {
                    and_then(
                        memory_read_flow(dc, SECOND_MAGIC_ADDRESS, 2, h, one),
                        |second: Result<Seq<u8>, Rs1541ErrorView>, two: int|
                            match second {
                                Err(e) => Flow::Value(Err(e), two),
                                Ok(more) => if more[0] != 0x67 || more[1] != 0xfe {
                                    Flow::Value(
                                        Ok(
                                            crate::cbmtype::device_for_magic(
                                                word(bytes),
                                                Some(word(more)),
                                            ),
                                        ),
                                        two,
                                    )
                                } else {
                                    second_signature(
                                        dc,
                                        word(bytes),
                                        THIRD_MAGIC_ADDRESS,
                                        h,
                                        two,
                                    )
                                },
                            },
                    )
                } else if word(bytes) == 0x01ba {
                    second_signature(dc, word(bytes), SECOND_MAGIC_ADDRESS, h, one)
                } else {
                    Flow::Value(Ok(crate::cbmtype::device_for_magic(word(bytes), None)), one)
                },
            },
    )
}

/// Reading the second signature at the address `addr` and naming the device
/// by it and by the first signature `magic`.
pub open spec fn second_signature(
    dc: DeviceChannel,
    magic: u16,
    addr: u16,
    h: Seq<BusReplyView>,
    at: int,
) -> Flow<Result<crate::cbmtype::CbmDeviceInfoView, Rs1541ErrorView>> {
    and_then(
        memory_read_flow(dc, addr, 2, h, at),
        |read: Result<Seq<u8>, Rs1541ErrorView>, end: int|
            match read {
                Err(e) => Flow::Value(Err(e), end),
                Ok(more) => Flow::Value(
                    Ok(crate::cbmtype::device_for_magic(magic, Some(word(more)))),
                    end,
                ),
            },
    )
}

/// A result that holds the description of a device, with both sides taken by
/// their values.
pub open spec fn info_view(r: Result<crate::cbmtype::CbmDeviceInfo, Rs1541Error>) -> Result<
    crate::cbmtype::CbmDeviceInfoView,
    Rs1541ErrorView,
> {
    match r {
        Ok(info) => Ok(info@),
        Err(e) => Err(e@),
    }
}

/// The 16-bit number that the first two bytes of `bytes` hold, the low byte
/// first.
fn word_of(bytes: &Vec<u8>) -> (w: u16)
    requires
        bytes@.len() >= 2,
    ensures
        w == word(bytes@),
{
    bytes[0] as u16 + 256 * (bytes[1] as u16)
}

/// Reads the second signature at the address `addr` and names the device.
fn second_signature_of(
    history: &[BusReply],
    at: &mut usize,
    dc: DeviceChannel,
    magic: u16,
    addr: u16,
) -> (turn: Turn<Result<crate::cbmtype::CbmDeviceInfo, Rs1541Error>>)
    requires
        *old(at) <= history@.len(),
    ensures
        *final(at) <= history@.len(),
        turn_is(
            turn,
            *final(at),
            second_signature(dc, magic, addr, replies(history@), *old(at) as int),
            |r: Result<crate::cbmtype::CbmDeviceInfo, Rs1541Error>| info_view(r),
        ),
{
    match read_drive_memory_locked(history, at, dc, addr, 2) {
        Turn::Ask(request) => Turn::Ask(request),
        Turn::Value(Err(e)) => Turn::Value(Err(e)),
        Turn::Value(Ok(more)) => Turn::Value(
            Ok(crate::cbmtype::CbmDeviceInfo::from_magic(magic, Some(word_of(&more)))),
        ),
    }
}

/// Identifies the device of the control channel `dc`.
pub fn identify_locked(history: &[BusReply], at: &mut usize, dc: DeviceChannel) -> (turn: Turn<
    Result<crate::cbmtype::CbmDeviceInfo, Rs1541Error>,
>)
    requires
        *old(at) <= history@.len(),
    ensures
        *final(at) <= history@.len(),
        turn_is(
            turn,
            *final(at),
            identify_flow(dc, replies(history@), *old(at) as int),
            |r: Result<crate::cbmtype::CbmDeviceInfo, Rs1541Error>| info_view(r),
        ),
{
    let bytes = match read_drive_memory_locked(history, at, dc, MAGIC_ADDRESS, 2) {
        Turn::Ask(request) => {
            return Turn::Ask(request);
        },
        Turn::Value(Err(e)) => {
            return Turn::Value(Err(e));
        },
        Turn::Value(Ok(bytes)) => bytes,
    };
    let magic: u16 = word_of(&bytes);
    if magic == 0xaaaa {
        let more = match read_drive_memory_locked(history, at, dc, SECOND_MAGIC_ADDRESS, 2) {
            Turn::Ask(request) => {
                return Turn::Ask(request);
            },
            Turn::Value(Err(e)) => {
                return Turn::Value(Err(e));
            },
            Turn::Value(Ok(more)) => more,
        };
        if more[0] != 0x67 || more[1] != 0xfe {
            Turn::Value(
                Ok(crate::cbmtype::CbmDeviceInfo::from_magic(magic, Some(word_of(&more)))),
            )
        } else {
            second_signature_of(history, at, dc, magic, THIRD_MAGIC_ADDRESS)
        }
    } else if magic == 0x01ba {
        second_signature_of(history, at, dc, magic, SECOND_MAGIC_ADDRESS)
    } else {
        Turn::Value(Ok(crate::cbmtype::CbmDeviceInfo::from_magic(magic, None)))
    }
}


/// Sending the command `cmd` to the device of the control channel `dc` and
/// reading its status after that. The operation succeeds where the command
/// was sent and the status counts as success.
pub open spec fn command_flow(
    dc: DeviceChannel,
    cmd: Seq<u8>,
    h: Seq<BusReplyView>,
    at: int,
) -> Flow<
    Result<(), Rs1541ErrorView>,
> {
    and_then(
        send_command_flow(dc, cmd, h, at),
        |sent: Result<(), Rs1541ErrorView>, mid: int|
            match sent {
                Err(e) => Flow::Value(Err(e), mid),
                Ok(_) => and_then(
                    status_flow(dc.spec_device(), dc, h, mid),
                    |status: Result<CbmStatusView, Rs1541ErrorView>, end: int|
                        Flow::Value(
                            match status {
                                Err(e) => Err(e),
                                Ok(status) => status_verdict(status, false),
                            },
                            end,
                        ),
                ),
            },
    )
}

/// Sends the command `cmd` to the device of the control channel `dc` and
/// reads its status after that.
pub fn command_locked(
    history: &[BusReply],
    at: &mut usize,
    dc: DeviceChannel,
    cmd: &PetsciiString,
) -> (turn:
    Turn<Result<(), Rs1541Error>>)
    requires
        *old(at) <= history@.len(),
    ensures
        *final(at) <= history@.len(),
        turn_is(
            turn,
            *final(at),
            command_flow(dc, cmd@, replies(history@), *old(at) as int),
            |r: Result<(), Rs1541Error>| error_view(r),
        ),
{
    match send_command_petscii_locked(history, at, dc, cmd) {
        Turn::Ask(request) => {
            return Turn::Ask(request);
        },
        Turn::Value(Err(e)) => {
            return Turn::Value(Err(e));
        },
        Turn::Value(Ok(_)) => {},
    }
    match get_status_locked(history, at, dc) {
        Turn::Ask(request) => Turn::Ask(request),
        Turn::Value(Err(e)) => Turn::Value(Err(e)),
        Turn::Value(Ok(status)) => Turn::Value(status.into_result()),
    }
}

/// The bytes of the command that validates a disk: the letter `v`.
pub open spec fn validate_command() -> Seq<u8> {
    crate::string::encode_bytes(seq![0x76u8])
}

/// The bytes of the command that deletes the file `name`: `s0:` and the name.
pub open spec fn delete_command(name: Seq<u8>) -> Seq<u8> {
    crate::string::encode_bytes(seq![0x73u8, 0x30u8, 0x3au8] + name)
}

/// The bytes of the command that formats a disk with the name `name` and the
/// id `id`: `n0:`, the name, a comma and the id.
pub open spec fn format_command(name: Seq<u8>, id: Seq<u8>) -> Seq<u8> {
    crate::string::encode_bytes(seq![0x6eu8, 0x30u8, 0x3au8] + name + seq![0x2cu8] + id)
}

/// The bytes of the command that opens the file `name` for writing, in place
/// of a file of that name if there is one: `@:` and the name.
pub open spec fn overwrite_command(name: Seq<u8>) -> Seq<u8> {
    crate::string::encode_bytes(seq![0x40u8, 0x3au8] + name)
}

/// The PETSCII encoding of the ASCII bytes `prefix` followed by `rest`.
fn prefixed(prefix: &[u8], rest: &[u8]) -> (cmd: PetsciiString)
    requires
        crate::string::is_ascii_bytes(prefix@),
        crate::string::is_ascii_bytes(rest@),
    ensures
        cmd@ == crate::string::encode_bytes(prefix@ + rest@),
{
    let mut bytes: Vec<u8> = Vec::new();
    append_bytes(&mut bytes, prefix);
    append_bytes(&mut bytes, rest);
    proof {
        assert(bytes@ =~= prefix@ + rest@);
    }
    AsciiString::from_bytes_unchecked(bytes).to_petscii()
}

/// The error for a disk id of `length` characters in place of two.
pub open spec fn bad_disk_id(device: u8, length: nat) -> Rs1541ErrorView {
    Rs1541ErrorView::Validation {
        message: "Device "@ + crate::text::decimal(device as nat)
            + " format error: Disk ID must be 2 characters, not "@ + crate::text::decimal(length),
    }
}

/// The error for a command that is no ASCII text.
pub open spec fn not_ascii(command: Seq<char>) -> Rs1541ErrorView {
    Rs1541ErrorView::Validation {
        message: "Unable to parse requested command as ASCII "@ + command
            + ": String contains non-ASCII characters"@,
    }
}


/// The channel through which files are read and written.
pub const CBM_CHANNEL_FILE: u8 = 2;

/// The file channel of device `device`.
pub open spec fn file_channel(device: u8) -> DeviceChannel {
    DeviceChannel::of(device, CBM_CHANNEL_FILE)
}

/// The error for a step of reading or writing a file that failed: `prefix`
/// says which step, and the text of what went wrong follows it.
pub open spec fn file_failure(
    device: u8,
    prefix: Seq<char>,
    e: Rs1541ErrorView,
) -> Rs1541ErrorView {
    Rs1541ErrorView::File { device, message: prefix + e.text() }
}

/// The reads of [`read_file_flow`]: a block at a time until a read returns
/// less than a block. A failed read ends it, after the talker has been told
/// to stop.
pub open spec fn file_read_loop(
    dc: DeviceChannel,
    h: Seq<BusReplyView>,
    at: int,
    got: Seq<u8>,
) -> Flow<
    Result<Seq<u8>, Rs1541ErrorView>,
>
    decreases h.len() - at,
{
    if 0 <= at < h.len() {
        match h[at].read_outcome(dc) {
            Err(e) => and_then(
                best_effort(h, at + 1, seq![BusRequestView::Untalk]),
                |u: (), end: int|
                    Flow::Value(Err(file_failure(dc.spec_device(), "Read failed: "@, e)), end),
            ),
            Ok(bytes) => if bytes.len() < BLOCK {
                Flow::Value(Ok(got + bytes), at + 1)
            } else {
                file_read_loop(dc, h, at + 1, got + bytes)
            },
        }
    } else {
        Flow::Ask(BusRequestView::Read(BLOCK))
    }
}

/// Reading the file `name` from the device of the control channel `control`
/// through the channel `dc`: the name is sent as a command, the status is
/// checked, and the file is read between talk and untalk.
pub open spec fn read_file_flow(
    control: DeviceChannel,
    dc: DeviceChannel,
    name: Seq<u8>,
    h: Seq<BusReplyView>,
    at: int,
) -> Flow<Result<Seq<u8>, Rs1541ErrorView>> {
    and_then(
        command_flow(control, crate::string::encode_bytes(name), h, at),
        |ready: Result<(), Rs1541ErrorView>, begin: int|
            match ready {
                Err(e) => Flow::Value(Err(e), begin),
                Ok(_) => ask(
                    h,
                    begin,
                    BusRequestView::Talk(dc),
                    |talk: BusReplyView|
                        match talk.failure() {
                            Some(e) => Flow::Value(
                                Err(file_failure(dc.spec_device(), "Talk failed: "@, transport(e))),
                                begin + 1,
                            ),
                            None => and_then(
                                file_read_loop(dc, h, begin + 1, Seq::empty()),
                                |read: Result<Seq<u8>, Rs1541ErrorView>, end: int|
                                    match read {
                                        Err(e) => Flow::Value(Err(e), end),
                                        Ok(data) => ask(
                                            h,
                                            end,
                                            BusRequestView::Untalk,
                                            |untalk: BusReplyView|
                                                match untalk.failure() {
                                                    Some(e) => Flow::Value(
                                                        Err(
                                                            file_failure(
                                                                dc.spec_device(),
                                                                "Untalk failed: "@,
                                                                transport(e),
                                                            ),
                                                        ),
                                                        end + 1,
                                                    ),
                                                    None => Flow::Value(Ok(data), end + 1),
                                                },
                                        ),
                                    },
                            ),
                        },
                ),
            },
    )
}

/// The error for a step of reading or writing a file that failed.
fn file_failure_of(device: u8, prefix: &str, e: &Rs1541Error) -> (reported: Rs1541Error)
    ensures
        reported@ == file_failure(device, prefix@, e@),
{
    let mut message = String::new();
    message.append(prefix);
    message.append(e.to_string().as_str());
    Rs1541Error::File { device, message }
}

/// The reads of [`read_file_locked`], with `data` holding what came so far.
fn file_read_rounds(
    history: &[BusReply],
    at: &mut usize,
    dc: DeviceChannel,
    data: Vec<u8>,
) -> (turn:
    Turn<Result<Vec<u8>, Rs1541Error>>)
    requires
        *old(at) <= history@.len(),
    ensures
        *final(at) <= history@.len(),
        turn_is(
            turn,
            *final(at),
            file_read_loop(dc, replies(history@), *old(at) as int, data@),
            |r: Result<Vec<u8>, Rs1541Error>| bytes_view(r),
        ),
    decreases history@.len() - *old(at),
{
    let mut data = data;
    proof {
        assert(replies(history@).len() == history@.len());
    }
    let read = match next_reply(history, at) {
        Some(reply) => reply,
        None => {
            return Turn::Ask(BusRequest::Read(BLOCK));
        },
    };
    match handle_read_result(read, dc) {
        Err(e) => match undo(history, at, just(BusRequest::Untalk)) {
            Some(request) => Turn::Ask(request),
            None => Turn::Value(Err(file_failure_of(dc.device(), "Read failed: ", &e))),
        },
        Ok(bytes) => {
            append_bytes(&mut data, bytes.as_slice());
            if bytes.len() < BLOCK {
                Turn::Value(Ok(data))
            } else {
                file_read_rounds(history, at, dc, data)
            }
        },
    }
}

/// Reads the file `filename` through the channel `dc`.
pub fn read_file_locked(
    history: &[BusReply],
    at: &mut usize,
    dc: DeviceChannel,
    filename: &AsciiString,
) -> (turn: Turn<Result<Vec<u8>, Rs1541Error>>)
    requires
        *old(at) <= history@.len(),
    ensures
        *final(at) <= history@.len(),
        turn_is(
            turn,
            *final(at),
            read_file_flow(
                control(dc.spec_device()),
                dc,
                filename@,
                replies(history@),
                *old(at) as int,
            ),
            |r: Result<Vec<u8>, Rs1541Error>| bytes_view(r),
        ),
{
    let name = filename.to_petscii();
    match command_locked(history, at, dc.control(), &name) {
        Turn::Ask(request) => {
            return Turn::Ask(request);
        },
        Turn::Value(Err(e)) => {
            return Turn::Value(Err(e));
        },
        Turn::Value(Ok(_)) => {},
    }
    let talk = match next_reply(history, at) {
        Some(reply) => reply,
        None => {
            return Turn::Ask(BusRequest::Talk(dc));
        },
    };
    match transport_failure(talk) {
        Some(e) => {
            return Turn::Value(Err(file_failure_of(dc.device(), "Talk failed: ", &e)));
        },
        None => {},
    }
    let data = match file_read_rounds(history, at, dc, Vec::new()) {
        Turn::Ask(request) => {
            return Turn::Ask(request);
        },
        Turn::Value(Err(e)) => {
            return Turn::Value(Err(e));
        },
        Turn::Value(Ok(data)) => data,
    };
    let untalk = match next_reply(history, at) {
        Some(reply) => reply,
        None => {
            return Turn::Ask(BusRequest::Untalk);
        },
    };
    match transport_failure(untalk) {
        Some(e) => Turn::Value(Err(file_failure_of(dc.device(), "Untalk failed: ", &e))),
        None => Turn::Value(Ok(data)),
    }
}

/// The end of the block of `data` that starts at `offset`.
pub open spec fn block_end(data: Seq<u8>, offset: nat) -> nat {
    if offset + BLOCK <= data.len() {
        offset + BLOCK as nat
    } else {
        data.len()
    }
}

/// The error for a write that took fewer bytes than it was given.
pub open spec fn short_write(device: u8) -> Rs1541ErrorView {
    Rs1541ErrorView::File { device, message: "Failed to write complete chunk"@ }
}

/// The writes of [`write_file_flow`] from the byte `offset` of `data` on: a
/// block at a time. A write that fails, or that takes fewer bytes than it was
/// given, ends it, after the listeners have been released.
pub open spec fn file_write_loop(
    dc: DeviceChannel,
    data: Seq<u8>,
    offset: nat,
    h: Seq<BusReplyView>,
    at: int,
) -> Flow<Result<(), Rs1541ErrorView>>
    decreases data.len() - offset,
{
    let end = block_end(data, offset);
    if offset >= data.len() {
        Flow::Value(Ok(()), at)
    } else if 0 <= at < h.len() {
        match h[at] {
            BusReplyView::Failed(e) => and_then(
                best_effort(h, at + 1, seq![BusRequestView::Unlisten]),
                |u: (), last: int|
                    Flow::Value(
                        Err(file_failure(dc.spec_device(), "Write failed: "@, transport(e))),
                        last,
                    ),
            ),
            BusReplyView::Completed { written, .. } => if written != end - offset {
                and_then(
                    best_effort(h, at + 1, seq![BusRequestView::Unlisten]),
                    |u: (), last: int| Flow::Value(Err(short_write(dc.spec_device())), last),
                )
            } else {
                file_write_loop(dc, data, end, h, at + 1)
            },
        }
    } else {
        Flow::Ask(BusRequestView::Write(data.subrange(offset as int, end as int)))
    }
}

/// Writing `data` to the file `name` on the device of the control channel
/// `control` through the channel `dc`: the command to write the file, in
/// place of one of that name, is sent, the status is checked, and the data is
/// written between listen and unlisten.
pub open spec fn write_file_flow(
    control: DeviceChannel,
    dc: DeviceChannel,
    name: Seq<u8>,
    data: Seq<u8>,
    h: Seq<BusReplyView>,
    at: int,
) -> Flow<Result<(), Rs1541ErrorView>> {
    and_then(
        command_flow(control, overwrite_command(name), h, at),
        |ready: Result<(), Rs1541ErrorView>, begin: int|
            match ready {
                Err(e) => Flow::Value(Err(e), begin),
                Ok(_) => ask(
                    h,
                    begin,
                    BusRequestView::Listen(dc),
                    |listen: BusReplyView|
                        match listen.failure() {
                            Some(e) => Flow::Value(
                                Err(
                                    file_failure(
                                        dc.spec_device(),
                                        "Listen failed: "@,
                                        transport(e),
                                    ),
                                ),
                                begin + 1,
                            ),
                            None => and_then(
                                file_write_loop(dc, data, 0, h, begin + 1),
                                |wrote: Result<(), Rs1541ErrorView>, end: int|
                                    match wrote {
                                        Err(e) => Flow::Value(Err(e), end),
                                        Ok(_) => ask(
                                            h,
                                            end,
                                            BusRequestView::Unlisten,
                                            |unlisten: BusReplyView|
                                                match unlisten.failure() {
                                                    Some(e) => Flow::Value(
                                                        Err(
                                                            file_failure(
                                                                dc.spec_device(),
                                                                "Unlisten failed: "@,
                                                                transport(e),
                                                            ),
                                                        ),
                                                        end + 1,
                                                    ),
                                                    None => Flow::Value(Ok(()), end + 1),
                                                },
                                        ),
                                    },
                            ),
                        },
                ),
            },
    )
}

/// The writes of [`write_file_locked`] from the byte `offset` of `data` on.
fn file_write_rounds(
    history: &[BusReply],
    at: &mut usize,
    dc: DeviceChannel,
    data: &[u8],
    offset: usize,
) -> (turn: Turn<Result<(), Rs1541Error>>)
    requires
        *old(at) <= history@.len(),
        offset <= data@.len(),
    ensures
        *final(at) <= history@.len(),
        turn_is(
            turn,
            *final(at),
            file_write_loop(dc, data@, offset as nat, replies(history@), *old(at) as int),
            |r: Result<(), Rs1541Error>| error_view(r),
        ),
    decreases data@.len() - offset,
{
    proof {
        assert(replies(history@).len() == history@.len());
    }
    if offset >= data.len() {
        return Turn::Value(Ok(()));
    }
    let end: usize = if data.len() - offset >= BLOCK {
        offset + BLOCK
    } else {
        data.len()
    };
    let reply = match next_reply(history, at) {
        Some(reply) => reply,
        None => {
            return Turn::Ask(
                BusRequest::Write(crate::string::bytes_to_vec_range(data, offset, end)),
            );
        },
    };
    match reply {
        BusReply::Failed(e) => {
            let failure = Rs1541Error::Xum1541(e.clone());
            match undo(history, at, just(BusRequest::Unlisten)) {
                Some(request) => Turn::Ask(request),
                None => Turn::Value(Err(file_failure_of(dc.device(), "Write failed: ", &failure))),
            }
        },
        BusReply::Completed { written, .. } => {
            if *written != end - offset {
                match undo(history, at, just(BusRequest::Unlisten)) {
                    Some(request) => Turn::Ask(request),
                    None => {
                        let mut message = String::new();
                        message.append("Failed to write complete chunk");
                        Turn::Value(Err(Rs1541Error::File { device: dc.device(), message }))
                    },
                }
            } else {
                file_write_rounds(history, at, dc, data, end)
            }
        },
    }
}

/// Writes `data` to the file `filename` through the channel `dc`.
pub fn write_file_locked(
    history: &[BusReply],
    at: &mut usize,
    dc: DeviceChannel,
    filename: &AsciiString,
    data: &[u8],
) -> (turn: Turn<Result<(), Rs1541Error>>)
    requires
        *old(at) <= history@.len(),
    ensures
        *final(at) <= history@.len(),
        turn_is(
            turn,
            *final(at),
            write_file_flow(
                control(dc.spec_device()),
                dc,
                filename@,
                data@,
                replies(history@),
                *old(at) as int,
            ),
            |r: Result<(), Rs1541Error>| error_view(r),
        ),
{
    let mut prefix: Vec<u8> = Vec::new();
    prefix.push(0x40);
    prefix.push(0x3a);
    proof {
        assert(prefix@ =~= seq![0x40u8, 0x3au8]);
    }
    let cmd = prefixed(prefix.as_slice(), filename.as_bytes());
    match command_locked(history, at, dc.control(), &cmd) {
        Turn::Ask(request) => {
            return Turn::Ask(request);
        },
        Turn::Value(Err(e)) => {
            return Turn::Value(Err(e));
        },
        Turn::Value(Ok(_)) => {},
    }
    let listen = match next_reply(history, at) {
        Some(reply) => reply,
        None => {
            return Turn::Ask(BusRequest::Listen(dc));
        },
    };
    match transport_failure(listen) {
        Some(e) => {
            return Turn::Value(Err(file_failure_of(dc.device(), "Listen failed: ", &e)));
        },
        None => {},
    }
    match file_write_rounds(history, at, dc, data, 0) {
        Turn::Ask(request) => {
            return Turn::Ask(request);
        },
        Turn::Value(Err(e)) => {
            return Turn::Value(Err(e));
        },
        Turn::Value(Ok(_)) => {},
    }
    let unlisten = match next_reply(history, at) {
        Some(reply) => reply,
        None => {
            return Turn::Ask(BusRequest::Unlisten);
        },
    };
    match transport_failure(unlisten) {
        Some(e) => Turn::Value(Err(file_failure_of(dc.device(), "Unlisten failed: ", &e))),
        None => Turn::Value(Ok(())),
    }
}


/// The index of the first zero byte of `data` at or behind `from`, or the
/// length of `data` where there is none.
pub open spec fn name_end(data: Seq<u8>, from: int) -> int
    decreases data.len() - from,
{
    if from < 0 || from >= data.len() {
        data.len() as int
    } else if data[from] == 0 {
        from
    } else {
        name_end(data, from + 1)
    }
}

/// The line of text for one record of a directory: the size in a field of
/// four, a space, the name as it is displayed, and a newline.
pub open spec fn record_line(size: u16, name: Seq<u8>) -> Seq<char> {
    crate::text::pad_left(crate::text::decimal(size as nat), 4, ' ') + " "@
        + crate::string::bytes_as_chars(crate::string::decode_bytes(name)) + "\n"@
}

/// The text of the records of a directory that start at index `cursor` of
/// `data`.
///
/// A record is two bytes that are passed over, two bytes of size, the low
/// byte first, and a name that ends with a zero byte. What is left where the
/// data ends in the middle of a record is passed over.
pub open spec fn records_text(data: Seq<u8>, cursor: int) -> Seq<char>
    decreases data.len() - cursor,
{
    let end = name_end(data, cursor + 4);
    if cursor < 0 || cursor + 4 > data.len() || end < cursor + 4 || end >= data.len() {
        Seq::empty()
    } else {
        record_line(
            (data[cursor + 2] as nat + 256 * data[cursor + 3] as nat) as u16,
            data.subrange(cursor + 4, end),
        ) + records_text(data, end + 1)
    }
}

/// The text of a directory that a drive sent as the bytes `data`: the records
/// behind the two bytes of the load address, one line for each.
pub open spec fn dir_text_spec(data: Seq<u8>) -> Seq<char> {
    records_text(data, 2)
}

/// The end of a name lies behind its start and within the data.
pub proof fn lemma_name_end(data: Seq<u8>, from: int)
    requires
        0 <= from <= data.len(),
    ensures
        from <= name_end(data, from) <= data.len(),
        name_end(data, from) < data.len() ==> data[name_end(data, from)] == 0,
        forall|i: int| from <= i < name_end(data, from) ==> data[i] != 0,
    decreases data.len() - from,
{
    if from < data.len() && data[from] != 0 {
        lemma_name_end(data, from + 1);
    }
}

/// Turns the bytes `data` of a directory, as a drive sends them, into text.
pub fn dir_text(data: &[u8]) -> (text: String)
    ensures
        text@ == dir_text_spec(data@),
{
    let mut text = String::new();
    let mut cursor: usize = 2;
    proof {
        assert(text@ + records_text(data@, 2) == records_text(data@, 2));
    }
    while cursor <= data.len() && data.len() - cursor >= 4
        invariant
            2 <= cursor,
            dir_text_spec(data@) == text@ + records_text(data@, cursor as int),
        decreases data.len() - cursor,
    {
        let start: usize = cursor + 4;
        let mut end: usize = start;
        proof {
            lemma_name_end(data@, start as int);
        }
        while end < data.len() && data[end] != 0
            invariant
                start <= end <= data.len(),
                name_end(data@, start as int) == name_end(data@, end as int),
            decreases data.len() - end,
        {
            end = end + 1;
        }
        if end >= data.len() {
            proof {
                assert(records_text(data@, cursor as int) == Seq::<char>::empty());
                assert(text@ + Seq::<char>::empty() == text@);
            }
            return text;
        }
        let size: u16 = data[cursor + 2] as u16 + 256 * (data[cursor + 3] as u16);
        let name = PetsciiString::from_petscii_bytes(
            crate::string::bytes_to_vec_range(data, start, end).as_slice(),
        );
        let ghost before = text@;
        crate::text::push_decimal_padded(&mut text, size as u64, 4, ' ');
        text.append(" ");
        text.append(name.to_string().as_str());
        text.append("\n");
        proof {
            assert(text@ == before + record_line(size, data@.subrange(start as int, end as int)));
            assert(before + (record_line(size, data@.subrange(start as int, end as int))
                + records_text(data@, end + 1)) == text@ + records_text(data@, end + 1));
        }
        cursor = end + 1;
    }
    proof {
        assert(records_text(data@, cursor as int) == Seq::<char>::empty());
        assert(text@ + Seq::<char>::empty() == text@);
    }
    text
}

/// The name of the file that stands for the directory of drive `drive` of a
/// unit, or of the unit as a whole: a dollar sign, with the digit of the
/// drive behind it where one is named.
pub open spec fn dir_name(drive: Option<u8>) -> Seq<u8> {
    match drive {
        Some(number) => seq![0x24u8, (0x30 + number) as u8],
        None => seq![0x24u8],
    }
}

/// A result that holds a directory, taken from the bytes that were loaded.
pub open spec fn listing_of(loaded: Result<Seq<u8>, Rs1541ErrorView>) -> Result<
    crate::disk::CbmDirListingView,
    Rs1541ErrorView,
> {
    match loaded {
        Err(e) => Err(e),
        Ok(data) => crate::disk::parse_listing(dir_text_spec(data)),
    }
}

/// Reading the directory of drive `drive` of the device of the load channel
/// `dc`: the file that stands for the directory is loaded and parsed.
pub open spec fn dir_flow(
    dc: DeviceChannel,
    drive: Option<u8>,
    h: Seq<BusReplyView>,
    at: int,
) -> Flow<
    Result<crate::disk::CbmDirListingView, Rs1541ErrorView>,
> {
    and_then(
        load_flow(dc, dir_name(drive), h, at),
        |loaded: Result<Seq<u8>, Rs1541ErrorView>, end: int| Flow::Value(listing_of(loaded), end),
    )
}

/// The error for a drive number that no unit has.
pub open spec fn bad_drive(device: u8, drive: u8) -> Rs1541ErrorView {
    Rs1541ErrorView::Device { device, error: DeviceErrorView::InvalidDrive { drive_num: drive } }
}

/// The name of the file that stands for the directory of drive `drive`.
fn dir_name_of(drive: Option<u8>) -> (name: PetsciiString)
    requires
        drive matches Some(number) ==> number <= 1,
    ensures
        name@ == dir_name(drive),
{
    let mut bytes: Vec<u8> = Vec::new();
    bytes.push(0x24);
    match drive {
        Some(number) => {
            bytes.push(0x30 + number);
        },
        None => {},
    }
    proof {
        assert(bytes@ =~= dir_name(drive));
    }
    PetsciiString::from_bytes_unchecked(bytes)
}

/// Reads the directory of drive `drive` of the device of the load channel
/// `dc`.
pub fn dir_locked(
    history: &[BusReply],
    at: &mut usize,
    dc: DeviceChannel,
    drive: Option<u8>,
) -> (turn:
    Turn<Result<crate::disk::CbmDirListing, Rs1541Error>>)
    requires
        *old(at) <= history@.len(),
        drive matches Some(number) ==> number <= 1,
    ensures
        *final(at) <= history@.len(),
        turn_is(
            turn,
            *final(at),
            dir_flow(dc, drive, replies(history@), *old(at) as int),
            |r: Result<crate::disk::CbmDirListing, Rs1541Error>| crate::disk::listing_view(r),
        ),
{
    let name = dir_name_of(drive);
    match load_file_petscii_locked(history, at, dc, &name) {
        Turn::Ask(request) => Turn::Ask(request),
        Turn::Value(Err(e)) => Turn::Value(Err(e)),
        Turn::Value(Ok(data)) => {
            let text = dir_text(data.as_slice());
            Turn::Value(crate::disk::CbmDirListing::parse(text.as_str()))
        },
    }
}


/// The devices that a scan found, each taken by its value.
pub open spec fn devices_view(found: Map<u8, crate::cbmtype::CbmDeviceInfo>) -> Map<
    u8,
    crate::cbmtype::CbmDeviceInfoView,
> {
    found.map_values(|info: crate::cbmtype::CbmDeviceInfo| info@)
}

/// A result that holds the devices that a scan found, with both sides taken
/// by their values.
pub open spec fn scan_view(
    r: Result<HashMap<u8, crate::cbmtype::CbmDeviceInfo>, Rs1541Error>,
) -> Result<
    Map<u8, crate::cbmtype::CbmDeviceInfoView>,
    Rs1541ErrorView,
> {
    match r {
        Ok(found) => Ok(devices_view(found@)),
        Err(e) => Err(e@),
    }
}

/// Scanning the devices from `device` to `last` for drives, with `found`
/// holding what was found below `device`.
///
/// Each device in turn is asked whether it is there. One that is there is
/// identified and recorded. An error of the device itself in identifying it
/// leaves the device out and the scan goes on; every other failure ends the
/// scan.
pub open spec fn scan_loop(
    device: int,
    last: u8,
    h: Seq<BusReplyView>,
    at: int,
    found: Map<u8, crate::cbmtype::CbmDeviceInfoView>,
) -> Flow<Result<Map<u8, crate::cbmtype::CbmDeviceInfoView>, Rs1541ErrorView>>
    decreases last - device + 1,
{
    if device > last || device < 0 {
        Flow::Value(Ok(found), at)
    } else {
        match exists_flow(control(device as u8), h, at) {
            Flow::Ask(request) => Flow::Ask(request),
            Flow::Value(Err(e), mid) => Flow::Value(Err(e), mid),
            Flow::Value(Ok(there), mid) => if !there {
                scan_loop(device + 1, last, h, mid, found)
            } else {
                match identify_flow(control(device as u8), h, mid) {
                    Flow::Ask(request) => Flow::Ask(request),
                    Flow::Value(Err(Rs1541ErrorView::Device { .. }), end) => scan_loop(
                        device + 1,
                        last,
                        h,
                        end,
                        found,
                    ),
                    Flow::Value(Err(e), end) => Flow::Value(Err(e), end),
                    Flow::Value(Ok(info), end) => scan_loop(
                        device + 1,
                        last,
                        h,
                        end,
                        found.insert(device as u8, info),
                    ),
                }
            },
        }
    }
}

/// Scans the devices from `device` to `last`, with `found` holding what was
/// found below `device`.
fn scan_rounds(
    history: &[BusReply],
    at: &mut usize,
    device: u8,
    last: u8,
    found: HashMap<u8, crate::cbmtype::CbmDeviceInfo>,
) -> (turn: Turn<Result<HashMap<u8, crate::cbmtype::CbmDeviceInfo>, Rs1541Error>>)
    requires
        *old(at) <= history@.len(),
        crate::channel::DEVICE_MIN_NUM <= device,
        last <= crate::channel::DEVICE_MAX_NUM,
    ensures
        *final(at) <= history@.len(),
        turn_is(
            turn,
            *final(at),
            scan_loop(
                device as int,
                last,
                replies(history@),
                *old(at) as int,
                devices_view(found@),
            ),
            |r: Result<HashMap<u8, crate::cbmtype::CbmDeviceInfo>, Rs1541Error>| scan_view(r),
        ),
    decreases last - device + 1,
{
    broadcast use vstd::std_specs::hash::group_hash_axioms;

    if device > last {
        return Turn::Value(Ok(found));
    }
    let dc = match DeviceChannel::new(device, CBM_CHANNEL_CTRL) {
        Ok(dc) => dc,
        Err(e) => {
            return Turn::Value(Err(e));
        },
    };
    let there: bool = match drive_exists_locked(history, at, dc) {
        Turn::Ask(request) => {
            return Turn::Ask(request);
        },
        Turn::Value(Err(e)) => {
            return Turn::Value(Err(e));
        },
        Turn::Value(Ok(there)) => there,
    };
    if !there {
        return scan_rounds(history, at, device + 1, last, found);
    }
    match identify_locked(history, at, dc) {
        Turn::Ask(request) => Turn::Ask(request),
        Turn::Value(Err(Rs1541Error::Device { .. })) => scan_rounds(
            history,
            at,
            device + 1,
            last,
            found,
        ),
        Turn::Value(Err(e)) => Turn::Value(Err(e)),
        Turn::Value(Ok(info)) => {
            let mut found = found;
            let ghost before = found@;
            found.insert(device, info);
            proof {
                assert(devices_view(found@) =~= devices_view(before).insert(device, info@));
            }
            scan_rounds(history, at, device + 1, last, found)
        },
    }
}

/// What a scan of the devices from `first` to `last` amounts to where `last`
/// lies beyond the last device number of the bus: the scan up to that number,
/// and, where that finds no failure, the transport's refusal of the number
/// behind it.
pub open spec fn scan_beyond<T>(
    step: Step<Result<T, Rs1541Error>>,
    within: StepView<Result<Map<u8, crate::cbmtype::CbmDeviceInfoView>, Rs1541ErrorView>>,
) -> bool {
    match within {
        StepView::Request(request) => step matches Step::Request(asked) && asked@ == request,
        StepView::Finished(Err(e)) => step matches Step::Finished(Err(failed)) && failed@ == e,
        StepView::Finished(Ok(_)) => refused(
            step,
            (crate::channel::DEVICE_MAX_NUM + 1) as u8,
            CBM_CHANNEL_CTRL,
        ),
    }
}


/// The conversation with the bus so far: the replies to the requests that the
/// operation under way has made, in order.
///
/// An operation is asked for its next step with the conversation as it
/// stands. While it answers with a request, the request is performed and the
/// reply is added with [`Cbm::reply`]. A new operation starts with a new
/// conversation.
#[derive(Debug)]
pub struct Cbm {
    history: Vec<BusReply>,
}

impl View for Cbm {
    type V = Seq<BusReplyView>;

    closed spec fn view(&self) -> Seq<BusReplyView> {
        replies(self.history@)
    }
}

impl Cbm {
    /// A conversation in which nothing has been said yet.
    pub fn new() -> (cbm: Self)
        ensures
            cbm@ == Seq::<BusReplyView>::empty(),
    {
        let cbm = Cbm { history: Vec::new() };
        proof {
            assert(cbm@ =~= Seq::<BusReplyView>::empty());
        }
        cbm
    }

    /// Adds the reply of the bus to the last request.
    pub fn reply(&mut self, reply: BusReply)
        ensures
            final(self)@ == old(self)@.push(reply@),
    {
        self.history.push(reply);
        proof {
            assert(self@ =~= old(self)@.push(reply@));
        }
    }

    /// The replies of the conversation.
    pub fn replies(&self) -> (history: &[BusReply])
        ensures
            replies(history@) == self@,
    {
        self.history.as_slice()
    }

    /// Gets the status of device `device`. A device number that is not on the bus
    /// is refused before anything is asked of the bus.
    pub fn get_status(&self, device: u8) -> (step: Step<Result<CbmStatus, Rs1541Error>>)
        ensures
            valid_device(device) ==> step_is(
                step,
                outcome(status_flow(device, control(device), self@, 0)),
                |r: Result<CbmStatus, Rs1541Error>| status_view(r),
            ),
            !valid_device(device) ==> refused(step, device, CBM_CHANNEL_CTRL),
    {
        let history = self.history.as_slice();
        let dc = match DeviceChannel::new(device, CBM_CHANNEL_CTRL) {
            Ok(dc) => dc,
            Err(e) => {
                return Step::Finished(Err(e));
            },
        };
        let mut at: usize = 0;
        get_status_locked(history, &mut at, dc).finish()
    }

    /// Sends the PETSCII command `cmd` to device `device` on its control channel.
    pub fn send_command_petscii(&self, device: u8, cmd: &PetsciiString) -> (step: Step<
        Result<(), Rs1541Error>,
    >)
        ensures
            valid_device(device) ==> step_is(
                step,
                outcome(send_command_flow(control(device), cmd@, self@, 0)),
                |r: Result<(), Rs1541Error>| error_view(r),
            ),
            !valid_device(device) ==> refused(step, device, CBM_CHANNEL_CTRL),
    {
        let history = self.history.as_slice();
        let dc = match DeviceChannel::new(device, CBM_CHANNEL_CTRL) {
            Ok(dc) => dc,
            Err(e) => {
                return Step::Finished(Err(e));
            },
        };
        let mut at: usize = 0;
        send_command_petscii_locked(history, &mut at, dc, cmd).finish()
    }

    /// Sends the command `cmd`, ASCII or PETSCII, to device `device`.
    pub fn send_command(&self, device: u8, cmd: &CbmString) -> (step: Step<
        Result<(), Rs1541Error>,
    >)
        ensures
            valid_device(device) ==> step_is(
                step,
                outcome(send_command_flow(control(device), cmd.petscii_bytes(), self@, 0)),
                |r: Result<(), Rs1541Error>| error_view(r),
            ),
            !valid_device(device) ==> refused(step, device, CBM_CHANNEL_CTRL),
    {
        let petscii = cmd.to_petscii();
        self.send_command_petscii(device, &petscii)
    }

    /// Sends the ASCII command `command` to device `device`, in PETSCII.
    pub fn send_command_ascii(&self, device: u8, command: &AsciiString) -> (step: Step<
        Result<(), Rs1541Error>,
    >)
        ensures
            valid_device(device) ==> step_is(
                step,
                outcome(
                    send_command_flow(
                        control(device),
                        crate::string::encode_bytes(command@),
                        self@,
                        0,
                    ),
                ),
                |r: Result<(), Rs1541Error>| error_view(r),
            ),
            !valid_device(device) ==> refused(step, device, CBM_CHANNEL_CTRL),
    {
        let petscii = command.to_petscii();
        self.send_command_petscii(device, &petscii)
    }

    /// Resets the whole bus.
    pub fn reset_bus(&self) -> (step: Step<Result<(), Rs1541Error>>)
        ensures
            step_is(
                step,
                outcome(reset_flow(self@, 0)),
                |r: Result<(), Rs1541Error>| error_view(r),
            ),
    {
        let history = self.history.as_slice();
        let mut at: usize = 0;
        let reset = match next_reply(history, &mut at) {
            Some(reply) => reply,
            None => {
                return Step::Request(BusRequest::Reset);
            },
        };
        match transport_failure(reset) {
            Some(e) => Step::Finished(Err(e)),
            None => Step::Finished(Ok(())),
        }
    }

    /// Finds out whether device `device` is there.
    pub fn drive_exists(&self, device: u8) -> (step: Step<Result<bool, Rs1541Error>>)
        ensures
            valid_device(device) ==> step_is(
                step,
                outcome(exists_flow(control(device), self@, 0)),
                |r: Result<bool, Rs1541Error>| error_view(r),
            ),
            !valid_device(device) ==> refused(step, device, CBM_CHANNEL_CTRL),
    {
        let history = self.history.as_slice();
        let dc = match DeviceChannel::new(device, CBM_CHANNEL_CTRL) {
            Ok(dc) => dc,
            Err(e) => {
                return Step::Finished(Err(e));
            },
        };
        let mut at: usize = 0;
        drive_exists_locked(history, &mut at, dc).finish()
    }

    /// Reads `size` bytes from the channel `dc`: talk, read, untalk.
    pub fn read_from_drive(&self, dc: DeviceChannel, size: usize, read_all: bool) -> (step:
        Step<Result<Vec<u8>, Rs1541Error>>)
        ensures
            step_is(
                step,
                outcome(drive_read_flow(dc, size, read_all, self@, 0)),
                |r: Result<Vec<u8>, Rs1541Error>| bytes_view(r),
            ),
    {
        let history = self.history.as_slice();
        let mut at: usize = 0;
        read_from_drive_locked(history, &mut at, dc, size, read_all).finish()
    }

    /// Opens the file with the ASCII name `filename` on the channel `dc`. The
    /// channel must be closed again once the file is done with.
    pub fn open_file(&self, dc: DeviceChannel, filename: &AsciiString) -> (step: Step<
        Result<(), Rs1541Error>,
    >)
        ensures
            step_is(
                step,
                outcome(open_flow(dc, crate::string::encode_bytes(filename@), self@, 0)),
                |r: Result<(), Rs1541Error>| error_view(r),
            ),
    {
        let history = self.history.as_slice();
        let petscii = filename.to_petscii();
        let mut at: usize = 0;
        open_file_petscii_locked(history, &mut at, dc, &petscii).finish()
    }

    /// Closes the channel `dc`, which was opened before.
    pub fn close_file(&self, dc: DeviceChannel) -> (step: Step<Result<(), Rs1541Error>>)
        ensures
            step_is(
                step,
                outcome(close_flow(dc, self@, 0)),
                |r: Result<(), Rs1541Error>| error_view(r),
            ),
    {
        let history = self.history.as_slice();
        let mut at: usize = 0;
        close_file_locked(history, &mut at, dc).finish()
    }

    /// Loads the whole file with the PETSCII name `filename` from device `device`
    /// through its load channel. A device number that is not on the bus is
    /// refused with a validation error before anything is asked of the bus.
    pub fn load_file_petscii(&self, device: u8, filename: &PetsciiString) -> (step: Step<
        Result<Vec<u8>, Rs1541Error>,
    >)
        ensures
            valid_device(device) ==> step_is(
                step,
                outcome(load_flow(load_channel(device), filename@, self@, 0)),
                |r: Result<Vec<u8>, Rs1541Error>| bytes_view(r),
            ),
            !valid_device(device) ==> bad_device(step, device),
    {
        let history = self.history.as_slice();
        match crate::validate::validate_device(
            Some(device),
            crate::validate::DeviceValidation::Required,
        ) {
            Ok(_) => {},
            Err(e) => {
                return Step::Finished(Err(e));
            },
        }
        let dc = match DeviceChannel::new(device, CBM_CHANNEL_LOAD) {
            Ok(dc) => dc,
            Err(e) => {
                return Step::Finished(Err(e));
            },
        };
        let mut at: usize = 0;
        load_file_petscii_locked(history, &mut at, dc, filename).finish()
    }

    /// Loads the whole file with the ASCII name `filename` from device `device`.
    pub fn load_file_ascii(&self, device: u8, filename: &AsciiString) -> (step: Step<
        Result<Vec<u8>, Rs1541Error>,
    >)
        ensures
            valid_device(device) ==> step_is(
                step,
                outcome(
                    load_flow(
                        load_channel(device),
                        crate::string::encode_bytes(filename@),
                        self@,
                        0,
                    ),
                ),
                |r: Result<Vec<u8>, Rs1541Error>| bytes_view(r),
            ),
            !valid_device(device) ==> bad_device(step, device),
    {
        let petscii = filename.to_petscii();
        self.load_file_petscii(device, &petscii)
    }

    /// Reads `size` bytes of the memory of device `device`, from the address
    /// `addr` on. The result holds exactly `size` bytes.
    ///
    /// A request for no bytes is refused. For a device number that is not on the
    /// bus nothing is asked of the bus, and the outcome is that the status of the
    /// device could not be had.
    pub fn read_drive_memory(&self, device: u8, addr: u16, size: usize) -> (step: Step<
        Result<Vec<u8>, Rs1541Error>,
    >)
        ensures
            valid_device(device) ==> step_is(
                step,
                outcome(memory_read_flow(control(device), addr, size, self@, 0)),
                |r: Result<Vec<u8>, Rs1541Error>| bytes_view(r),
            ),
            !valid_device(device) && size == 0 ==> step_is(
                step,
                StepView::Finished(
                    Err::<Seq<u8>, Rs1541ErrorView>(nothing_to_read(empty_peek(device, addr))),
                ),
                |r: Result<Vec<u8>, Rs1541Error>| bytes_view(r),
            ),
            !valid_device(device) && size != 0 ==> no_status(step, device),
            step matches Step::Finished(Ok(all)) ==> all@.len() == size,
    {
        let history = self.history.as_slice();
        proof {
            DeviceChannel::lemma_of(device, CBM_CHANNEL_CTRL);
        }
        if size == 0 {
            let mut message = String::new();
            message.append("Asked to read 0 bytes from device ");
            crate::text::push_decimal(&mut message, device as u64);
            message.append(" memory address 0x");
            crate::text::push_hex4(&mut message, addr);
            return Step::Finished(Err(Rs1541Error::Validation { message }));
        }
        let dc = match DeviceChannel::new(device, CBM_CHANNEL_CTRL) {
            Ok(dc) => dc,
            Err(e) => {
                return Step::Finished(
                    Err(status_failure_of(device, "Failed to get status after identify: ", e)),
                );
            },
        };
        let mut at: usize = 0;
        read_drive_memory_locked(history, &mut at, dc, addr, size).finish()
    }

    /// Writes the bytes of `data` to the memory of device `device`, from the
    /// address `addr` on, one byte at a time. Nothing is asked of the bus where
    /// there is nothing to write.
    pub fn write_drive_memory(&self, device: u8, addr: u16, data: &[u8]) -> (step: Step<
        Result<(), Rs1541Error>,
    >)
        ensures
            valid_device(device) || data@.len() == 0 ==> step_is(
                step,
                outcome(poke_loop(control(device), addr, data@, 0, self@, 0)),
                |r: Result<(), Rs1541Error>| error_view(r),
            ),
            !valid_device(device) && data@.len() != 0 ==> refused(step, device, CBM_CHANNEL_CTRL),
    {
        let history = self.history.as_slice();
        if data.len() == 0 {
            return Step::Finished(Ok(()));
        }
        let dc = match DeviceChannel::new(device, CBM_CHANNEL_CTRL) {
            Ok(dc) => dc,
            Err(e) => {
                return Step::Finished(Err(e));
            },
        };
        let mut at: usize = 0;
        write_drive_memory_locked(history, &mut at, dc, addr, data, 0).finish()
    }

    /// Identifies device `device` by the signatures in its memory. For a device
    /// number that is not on the bus nothing is asked of the bus, and the outcome
    /// is that the status of the device could not be had.
    pub fn identify(&self, device: u8) -> (step: Step<
        Result<crate::cbmtype::CbmDeviceInfo, Rs1541Error>,
    >)
        ensures
            valid_device(device) ==> step_is(
                step,
                outcome(identify_flow(control(device), self@, 0)),
                |r: Result<crate::cbmtype::CbmDeviceInfo, Rs1541Error>| info_view(r),
            ),
            !valid_device(device) ==> no_status(step, device),
    {
        let history = self.history.as_slice();
        let dc = match DeviceChannel::new(device, CBM_CHANNEL_CTRL) {
            Ok(dc) => dc,
            Err(e) => {
                return Step::Finished(
                    Err(status_failure_of(device, "Failed to get status after identify: ", e)),
                );
            },
        };
        let mut at: usize = 0;
        identify_locked(history, &mut at, dc).finish()
    }

    /// Validates the disk in device `device`: the drive checks and rebuilds its
    /// record of which blocks are in use.
    pub fn validate_disk(&self, device: u8) -> (step: Step<Result<(), Rs1541Error>>)
        ensures
            valid_device(device) ==> step_is(
                step,
                outcome(command_flow(control(device), validate_command(), self@, 0)),
                |r: Result<(), Rs1541Error>| error_view(r),
            ),
            !valid_device(device) ==> refused(step, device, CBM_CHANNEL_CTRL),
    {
        let history = self.history.as_slice();
        let dc = match DeviceChannel::new(device, CBM_CHANNEL_CTRL) {
            Ok(dc) => dc,
            Err(e) => {
                return Step::Finished(Err(e));
            },
        };
        let mut letter: Vec<u8> = Vec::new();
        letter.push(0x76);
        let empty: Vec<u8> = Vec::new();
        proof {
            assert(letter@ + empty@ =~= seq![0x76u8]);
        }
        let cmd = prefixed(letter.as_slice(), empty.as_slice());
        let mut at: usize = 0;
        command_locked(history, &mut at, dc, &cmd).finish()
    }

    /// Deletes the file `filename` from the disk in device `device`.
    pub fn delete_file(&self, device: u8, filename: &AsciiString) -> (step: Step<
        Result<(), Rs1541Error>,
    >)
        ensures
            valid_device(device) ==> step_is(
                step,
                outcome(
                    command_flow(control(device), delete_command(filename@), self@, 0),
                ),
                |r: Result<(), Rs1541Error>| error_view(r),
            ),
            !valid_device(device) ==> refused(step, device, CBM_CHANNEL_CTRL),
    {
        let history = self.history.as_slice();
        let dc = match DeviceChannel::new(device, CBM_CHANNEL_CTRL) {
            Ok(dc) => dc,
            Err(e) => {
                return Step::Finished(Err(e));
            },
        };
        let mut prefix: Vec<u8> = Vec::new();
        prefix.push(0x73);
        prefix.push(0x30);
        prefix.push(0x3a);
        proof {
            assert(prefix@ =~= seq![0x73u8, 0x30u8, 0x3au8]);
        }
        let cmd = prefixed(prefix.as_slice(), filename.as_bytes());
        let mut at: usize = 0;
        command_locked(history, &mut at, dc, &cmd).finish()
    }

    /// Formats the disk in device `device` with the name `name` and the id `id`.
    ///
    /// The id must have exactly two characters. An id of any other length is
    /// refused before anything is asked of the bus.
    pub fn format_disk(&self, device: u8, name: &AsciiString, id: &AsciiString) -> (step:
        Step<Result<(), Rs1541Error>>)
        ensures
            id@.len() != 2 ==> step_is(
                step,
                StepView::Finished(Err::<(), Rs1541ErrorView>(bad_disk_id(device, id@.len()))),
                |r: Result<(), Rs1541Error>| error_view(r),
            ),
            id@.len() == 2 && valid_device(device) ==> step_is(
                step,
                outcome(
                    command_flow(control(device), format_command(name@, id@), self@, 0),
                ),
                |r: Result<(), Rs1541Error>| error_view(r),
            ),
            id@.len() == 2 && !valid_device(device) ==> refused(step, device, CBM_CHANNEL_CTRL),
    {
        let history = self.history.as_slice();
        let id_len: usize = id.as_bytes().len();
        if id_len != 2 {
            let mut message = String::new();
            message.append("Device ");
            crate::text::push_decimal(&mut message, device as u64);
            message.append(" format error: Disk ID must be 2 characters, not ");
            crate::text::push_decimal(&mut message, id_len as u64);
            return Step::Finished(Err(Rs1541Error::Validation { message }));
        }
        let dc = match DeviceChannel::new(device, CBM_CHANNEL_CTRL) {
            Ok(dc) => dc,
            Err(e) => {
                return Step::Finished(Err(e));
            },
        };
        let mut text: Vec<u8> = Vec::new();
        text.push(0x6e);
        text.push(0x30);
        text.push(0x3a);
        append_bytes(&mut text, name.as_bytes());
        text.push(0x2c);
        let empty: Vec<u8> = Vec::new();
        proof {
            assert(text@ =~= seq![0x6eu8, 0x30u8, 0x3au8] + name@ + seq![0x2cu8]);
            assert(text@ + id@ =~= seq![0x6eu8, 0x30u8, 0x3au8] + name@ + seq![0x2cu8] + id@);
        }
        let cmd = prefixed(text.as_slice(), id.as_bytes());
        let mut at: usize = 0;
        command_locked(history, &mut at, dc, &cmd).finish()
    }

    /// Sends the command `command`, which must be ASCII text, to device `device`
    /// in PETSCII. A command that is not ASCII is refused before anything is
    /// asked of the bus.
    pub fn send_string_command_ascii(&self, device: u8, command: &str) -> (step: Step<
        Result<(), Rs1541Error>,
    >)
        ensures
            !vstd::utf8::is_ascii_chars(command@) ==> step_is(
                step,
                StepView::Finished(Err::<(), Rs1541ErrorView>(not_ascii(command@))),
                |r: Result<(), Rs1541Error>| error_view(r),
            ),
            vstd::utf8::is_ascii_chars(command@) && valid_device(device) ==> step_is(
                step,
                outcome(
                    send_command_flow(
                        control(device),
                        crate::string::encode_bytes(crate::string::chars_as_bytes(command@)),
                        self@,
                        0,
                    ),
                ),
                |r: Result<(), Rs1541Error>| error_view(r),
            ),
            vstd::utf8::is_ascii_chars(command@) && !valid_device(device) ==> refused(
                step,
                device,
                CBM_CHANNEL_CTRL,
            ),
    {
        match AsciiString::try_from(command) {
            Ok(ascii) => self.send_command_ascii(device, &ascii),
            Err(reason) => {
                let mut message = String::new();
                message.append("Unable to parse requested command as ASCII ");
                message.append(command);
                message.append(": String contains non-ASCII characters");
                Step::Finished(Err(Rs1541Error::Validation { message }))
            },
        }
    }

    /// Sends the bytes of `command`, which are taken to be PETSCII already, to
    /// device `device`.
    pub fn send_string_command_petscii(&self, device: u8, command: &str) -> (step: Step<
        Result<(), Rs1541Error>,
    >)
        ensures
            valid_device(device) ==> step_is(
                step,
                outcome(
                    send_command_flow(
                        control(device),
                        vstd::utf8::encode_utf8(command@),
                        self@,
                        0,
                    ),
                ),
                |r: Result<(), Rs1541Error>| error_view(r),
            ),
            !valid_device(device) ==> refused(step, device, CBM_CHANNEL_CTRL),
    {
        let petscii = PetsciiString::from_petscii_bytes(command.as_bytes());
        self.send_command_petscii(device, &petscii)
    }

    /// Reads the whole file `filename` from the disk in device `device`.
    pub fn read_file(&self, device: u8, filename: &AsciiString) -> (step: Step<
        Result<Vec<u8>, Rs1541Error>,
    >)
        ensures
            valid_device(device) ==> step_is(
                step,
                outcome(
                    read_file_flow(
                        control(device),
                        file_channel(device),
                        filename@,
                        self@,
                        0,
                    ),
                ),
                |r: Result<Vec<u8>, Rs1541Error>| bytes_view(r),
            ),
            !valid_device(device) ==> refused(step, device, CBM_CHANNEL_FILE),
    {
        let history = self.history.as_slice();
        let dc = match DeviceChannel::new(device, CBM_CHANNEL_FILE) {
            Ok(dc) => dc,
            Err(e) => {
                return Step::Finished(Err(e));
            },
        };
        let mut at: usize = 0;
        read_file_locked(history, &mut at, dc, filename).finish()
    }

    /// Writes `data` to the file `filename` on the disk in device `device`, in
    /// place of a file of that name if there is one.
    pub fn write_file(&self, device: u8, filename: &AsciiString, data: &[u8]) -> (step:
        Step<Result<(), Rs1541Error>>)
        ensures
            valid_device(device) ==> step_is(
                step,
                outcome(
                    write_file_flow(
                        control(device),
                        file_channel(device),
                        filename@,
                        data@,
                        self@,
                        0,
                    ),
                ),
                |r: Result<(), Rs1541Error>| error_view(r),
            ),
            !valid_device(device) ==> refused(step, device, CBM_CHANNEL_FILE),
    {
        let history = self.history.as_slice();
        let dc = match DeviceChannel::new(device, CBM_CHANNEL_FILE) {
            Ok(dc) => dc,
            Err(e) => {
                return Step::Finished(Err(e));
            },
        };
        let mut at: usize = 0;
        write_file_locked(history, &mut at, dc, filename, data).finish()
    }

    /// Reads the directory of the disk in device `device`: of drive `drive_num`
    /// of the unit where one is named, which must be 0 or 1.
    ///
    /// A drive number beyond 1 and a device number that is not on the bus are
    /// refused, in that order, before anything is asked of the bus.
    pub fn dir(&self, device: u8, drive_num: Option<u8>) -> (step: Step<
        Result<crate::disk::CbmDirListing, Rs1541Error>,
    >)
        ensures
            drive_num matches Some(number) && number > 1 ==> step_is(
                step,
                StepView::Finished(
                    Err::<crate::disk::CbmDirListingView, Rs1541ErrorView>(
                        bad_drive(device, drive_num->0),
                    ),
                ),
                |r: Result<crate::disk::CbmDirListing, Rs1541Error>| crate::disk::listing_view(r),
            ),
            !(drive_num matches Some(number) && number > 1) && !valid_device(device) ==> bad_device(
                step,
                device,
            ),
            !(drive_num matches Some(number) && number > 1) && valid_device(device) ==> step_is(
                step,
                outcome(dir_flow(load_channel(device), drive_num, self@, 0)),
                |r: Result<crate::disk::CbmDirListing, Rs1541Error>| crate::disk::listing_view(r),
            ),
    {
        let history = self.history.as_slice();
        match drive_num {
            Some(number) => {
                if number > 1 {
                    return Step::Finished(Err(DeviceError::invalid_drive_num(device, number)));
                }
            },
            None => {},
        }
        match crate::validate::validate_device(
            Some(device),
            crate::validate::DeviceValidation::Required,
        ) {
            Ok(_) => {},
            Err(e) => {
                return Step::Finished(Err(e));
            },
        }
        let dc = match DeviceChannel::new(device, CBM_CHANNEL_LOAD) {
            Ok(dc) => dc,
            Err(e) => {
                return Step::Finished(Err(e));
            },
        };
        let mut at: usize = 0;
        dir_locked(history, &mut at, dc, drive_num).finish()
    }

    /// Scans the devices with the numbers from `first` to `last` for drives and
    /// identifies each drive that is there.
    ///
    /// The numbers are taken in rising order. A number that is not on the bus is
    /// refused once the scan comes to it.
    pub fn scan_bus_range(&self, first: u8, last: u8) -> (step: Step<
        Result<HashMap<u8, crate::cbmtype::CbmDeviceInfo>, Rs1541Error>,
    >)
        ensures
            first > last || (valid_device(first) && valid_device(last)) ==> step_is(
                step,
                outcome(scan_loop(first as int, last, self@, 0, Map::empty())),
                |r: Result<HashMap<u8, crate::cbmtype::CbmDeviceInfo>, Rs1541Error>| scan_view(r),
            ),
            first <= last && !valid_device(first) ==> refused(step, first, CBM_CHANNEL_CTRL),
            first <= last && valid_device(first) && !valid_device(last) ==> scan_beyond(
                step,
                outcome(
                    scan_loop(
                        first as int,
                        crate::channel::DEVICE_MAX_NUM,
                        self@,
                        0,
                        Map::empty(),
                    ),
                ),
            ),
    {
        let history = self.history.as_slice();
        let found: HashMap<u8, crate::cbmtype::CbmDeviceInfo> = HashMap::new();
        proof {
            assert(devices_view(found@) =~= Map::empty());
        }
        if first > last {
            return Step::Finished(Ok(found));
        }
        match DeviceChannel::new(first, CBM_CHANNEL_CTRL) {
            Ok(_) => {},
            Err(e) => {
                return Step::Finished(Err(e));
            },
        }
        let mut at: usize = 0;
        if last <= crate::channel::DEVICE_MAX_NUM {
            return scan_rounds(history, &mut at, first, last, found).finish();
        }
        match scan_rounds(history, &mut at, first, crate::channel::DEVICE_MAX_NUM, found) {
            Turn::Ask(request) => Step::Request(request),
            Turn::Value(Err(e)) => Step::Finished(Err(e)),
            Turn::Value(Ok(found)) => match DeviceChannel::new(
                crate::channel::DEVICE_MAX_NUM + 1,
                CBM_CHANNEL_CTRL,
            ) {
                Ok(_) => Step::Finished(Ok(found)),
                Err(e) => Step::Finished(Err(e)),
            },
        }
    }

    /// Scans the whole bus, from device 8 to device 30, for drives.
    pub fn scan_bus(&self) -> (step: Step<
        Result<HashMap<u8, crate::cbmtype::CbmDeviceInfo>, Rs1541Error>,
    >)
        ensures
            step_is(
                step,
                outcome(
                    scan_loop(
                        crate::channel::DEVICE_MIN_NUM as int,
                        crate::channel::DEVICE_MAX_NUM,
                        self@,
                        0,
                        Map::empty(),
                    ),
                ),
                |r: Result<HashMap<u8, crate::cbmtype::CbmDeviceInfo>, Rs1541Error>| scan_view(r),
            ),
    {
        self.scan_bus_range(crate::channel::DEVICE_MIN_NUM, crate::channel::DEVICE_MAX_NUM)
    }
}

/// Once a device has been told to talk for its status, it is told to stop
/// when the read has been answered, whether the read succeeded or failed.
pub proof fn lemma_status_always_untalks(device: u8, dc: DeviceChannel, h: Seq<BusReplyView>)
    requires
        h.len() == 2,
        h[0].failure() is None,
    ensures
        status_flow(device, dc, h, 0) == Flow::<Result<CbmStatusView, Rs1541ErrorView>>::Ask(
            BusRequestView::Untalk,
        ),
{
    reveal_with_fuel(best_effort, 2);
}

/// A failed read of the status is what is reported, whatever the answer to
/// the untalk behind it is.
pub proof fn lemma_status_reports_the_first_failure(
    device: u8,
    dc: DeviceChannel,
    h: Seq<BusReplyView>,
    e: Rs1541ErrorView,
)
    requires
        h.len() >= 3,
        h[0].failure() is None,
        h[1].read_outcome(dc) == Err::<Seq<u8>, Rs1541ErrorView>(e),
    ensures
        outcome(status_flow(device, dc, h, 0)) == StepView::Finished(
            Err::<CbmStatusView, Rs1541ErrorView>(e),
        ),
{
    reveal_with_fuel(best_effort, 2);
}

/// Once a device has been told to listen for a command, the listeners are
/// released when the write has been answered, whether it succeeded or failed.
pub proof fn lemma_command_always_unlistens(dc: DeviceChannel, cmd: Seq<u8>, h: Seq<BusReplyView>)
    requires
        h.len() == 2,
        h[0].failure() is None,
    ensures
        send_command_flow(dc, cmd, h, 0) == Flow::<Result<(), Rs1541ErrorView>>::Ask(
            BusRequestView::Unlisten,
        ),
{
    reveal_with_fuel(best_effort, 2);
}

/// A failed write of a command is what is reported, whatever the answer to
/// the unlisten behind it is.
pub proof fn lemma_command_reports_the_first_failure(
    dc: DeviceChannel,
    cmd: Seq<u8>,
    h: Seq<BusReplyView>,
)
    requires
        h.len() >= 3,
        h[0].failure() is None,
        h[1].failure() is Some,
    ensures
        outcome(send_command_flow(dc, cmd, h, 0)) == StepView::Finished(
            Err::<(), Rs1541ErrorView>(transport(h[1].failure()->0)),
        ),
{
    reveal_with_fuel(best_effort, 2);
}

/// A file whose name could not be written is unlistened and then closed
/// before the failure is reported, and the failure of the write is what is
/// reported.
pub proof fn lemma_open_undoes_a_failed_write(
    dc: DeviceChannel,
    name: Seq<u8>,
    h: Seq<BusReplyView>,
)
    requires
        h.len() >= 2,
        h[0].failure() is None,
        h[1].failure() is Some,
    ensures
        h.len() == 2 ==> open_flow(dc, name, h, 0) == Flow::<Result<(), Rs1541ErrorView>>::Ask(
            BusRequestView::Unlisten,
        ),
        h.len() == 3 ==> open_flow(dc, name, h, 0) == Flow::<Result<(), Rs1541ErrorView>>::Ask(
            BusRequestView::Close(dc),
        ),
        h.len() >= 4 ==> outcome(open_flow(dc, name, h, 0)) == StepView::Finished(
            Err::<(), Rs1541ErrorView>(transport(h[1].failure()->0)),
        ),
{
    reveal_with_fuel(best_effort, 3);
    let undoing = seq![BusRequestView::Unlisten, BusRequestView::Close(dc)];
    assert(undoing.drop_first() =~= seq![BusRequestView::Close(dc)]);
    assert(undoing.drop_first().drop_first() =~= Seq::<BusRequestView>::empty());
}

/// The status of a drive is read behind every reading of its memory, whether
/// the reading succeeded or failed: once the history holds the replies to the
/// reading and no more, the next request is the talk that starts the status.
pub proof fn lemma_memory_read_is_followed_by_the_status(
    dc: DeviceChannel,
    addr: u16,
    size: usize,
    h: Seq<BusReplyView>,
    result: Result<Seq<u8>, Rs1541ErrorView>,
)
    requires
        size != 0,
        peek_loop(dc, addr, 0, size as nat, h, 0, Seq::empty()) == Flow::Value(
            result,
            h.len() as int,
        ),
    ensures
        memory_read_flow(dc, addr, size, h, 0) == Flow::<Result<Seq<u8>, Rs1541ErrorView>>::Ask(
            BusRequestView::Talk(dc),
        ),
{
}

/// A status that does not parse behind a reading of memory is what is
/// expected: it leaves the result of the reading as it is.
pub proof fn lemma_unparsed_status_is_expected(
    device: u8,
    result: Result<Seq<u8>, Rs1541ErrorView>,
    message: Seq<char>,
)
    ensures
        after_peek(device, result, Err(Rs1541ErrorView::Parse { message })) == result,
{
}


/// The sending of a command takes the replies in the order in which it asked
/// for them: with the first `k` replies only it still asks, until it has its
/// result, and further replies do not change the result.
pub proof fn lemma_send_command_settles(
    dc: DeviceChannel,
    cmd: Seq<u8>,
    h: Seq<BusReplyView>,
    at: int,
    k: int,
)
    requires
        0 <= at <= k <= h.len(),
    ensures
        crate::bus::settled(
            send_command_flow(dc, cmd, h, at),
            send_command_flow(dc, cmd, h.take(k), at),
            at,
            k,
            h.len() as int,
        ),
{
    if k >= at + 2 {
        crate::bus::lemma_best_effort_settles(h, at + 2, seq![BusRequestView::Unlisten], k);
    } else if h.len() >= at + 2 {
        crate::bus::lemma_best_effort_end(h, at + 2, seq![BusRequestView::Unlisten]);
    }
}


/// The reading of a status takes the replies in the order in which it asked
/// for them.
pub proof fn lemma_status_settles(
    device: u8,
    dc: DeviceChannel,
    h: Seq<BusReplyView>,
    at: int,
    k: int,
)
    requires
        0 <= at <= k <= h.len(),
    ensures
        crate::bus::settled(
            status_flow(device, dc, h, at),
            status_flow(device, dc, h.take(k), at),
            at,
            k,
            h.len() as int,
        ),
{
    if k >= at + 2 {
        crate::bus::lemma_best_effort_settles(h, at + 2, seq![BusRequestView::Untalk], k);
    } else if h.len() >= at + 2 {
        crate::bus::lemma_best_effort_end(h, at + 2, seq![BusRequestView::Untalk]);
    }
}

/// The checking of a status takes the replies in the order in which it asked
/// for them.
pub proof fn lemma_status_check_settles(
    dc: DeviceChannel,
    accept_73: bool,
    h: Seq<BusReplyView>,
    at: int,
    k: int,
)
    requires
        0 <= at <= k <= h.len(),
    ensures
        crate::bus::settled(
            status_check_flow(dc, accept_73, h, at),
            status_check_flow(dc, accept_73, h.take(k), at),
            at,
            k,
            h.len() as int,
        ),
{
    lemma_status_settles(dc.spec_device(), dc, h, at, k);
}

/// The probing of a device takes the replies in the order in which it asked
/// for them.
pub proof fn lemma_exists_settles(dc: DeviceChannel, h: Seq<BusReplyView>, at: int, k: int)
    requires
        0 <= at <= k <= h.len(),
    ensures
        crate::bus::settled(
            exists_flow(dc, h, at),
            exists_flow(dc, h.take(k), at),
            at,
            k,
            h.len() as int,
        ),
{
}

/// The closing of a channel and the reset of the bus take their one reply.
pub proof fn lemma_single_request_settles(dc: DeviceChannel, h: Seq<BusReplyView>, at: int, k: int)
    requires
        0 <= at <= k <= h.len(),
    ensures
        crate::bus::settled(
            close_flow(dc, h, at),
            close_flow(dc, h.take(k), at),
            at,
            k,
            h.len() as int,
        ),
        crate::bus::settled(reset_flow(h, at), reset_flow(h.take(k), at), at, k, h.len() as int),
{
}

/// The reads from a channel take the replies in the order in which they were
/// asked for.
pub proof fn lemma_drive_read_loop_settles(
    dc: DeviceChannel,
    size: usize,
    h: Seq<BusReplyView>,
    at: int,
    got: Seq<u8>,
    k: int,
)
    requires
        0 <= at <= k <= h.len(),
    ensures
        crate::bus::settled(
            drive_read_loop(dc, size, h, at, got),
            drive_read_loop(dc, size, h.take(k), at, got),
            at,
            k,
            h.len() as int,
        ),
    decreases h.len() - at,
{
    if at < h.len() {
        match h[at].read_outcome(dc) {
            Err(e) => {
                if k >= at + 1 {
                    crate::bus::lemma_best_effort_settles(
                        h,
                        at + 1,
                        seq![BusRequestView::Untalk],
                        k,
                    );
                } else {
                    crate::bus::lemma_best_effort_end(h, at + 1, seq![BusRequestView::Untalk]);
                }
            },
            Ok(bytes) => {
                if !(bytes.len() == 0 || bytes.len() == size) {
                    if k >= at + 1 {
                        lemma_drive_read_loop_settles(dc, size, h, at + 1, got + bytes, k);
                    } else {
                        lemma_drive_read_loop_settles(dc, size, h, at + 1, got + bytes, at + 1);
                    }
                }
            },
        }
    }
}

/// The reading from a channel takes the replies in the order in which it
/// asked for them.
pub proof fn lemma_drive_read_settles(
    dc: DeviceChannel,
    size: usize,
    read_all: bool,
    h: Seq<BusReplyView>,
    at: int,
    k: int,
)
    requires
        0 <= at <= k <= h.len(),
    ensures
        crate::bus::settled(
            drive_read_flow(dc, size, read_all, h, at),
            drive_read_flow(dc, size, read_all, h.take(k), at),
            at,
            k,
            h.len() as int,
        ),
{
    if size != 0 && at < h.len() && h[at].failure() is None {
        if k >= at + 1 {
            lemma_drive_read_loop_settles(dc, size, h, at + 1, Seq::empty(), k);
        } else {
            lemma_drive_read_loop_settles(dc, size, h, at + 1, Seq::empty(), at + 1);
        }
    }
}


/// The opening of a file takes the replies in the order in which it asked for
/// them.
pub proof fn lemma_open_settles(
    dc: DeviceChannel,
    name: Seq<u8>,
    h: Seq<BusReplyView>,
    at: int,
    k: int,
)
    requires
        0 <= at <= k <= h.len(),
    ensures
        crate::bus::settled(
            open_flow(dc, name, h, at),
            open_flow(dc, name, h.take(k), at),
            at,
            k,
            h.len() as int,
        ),
{
    let both = seq![BusRequestView::Unlisten, BusRequestView::Close(dc)];
    let close = seq![BusRequestView::Close(dc)];
    if h.len() >= at + 2 && h[at].failure() is None {
        if h[at + 1].failure() is Some {
            if k >= at + 2 {
                crate::bus::lemma_best_effort_settles(h, at + 2, both, k);
            } else {
                crate::bus::lemma_best_effort_end(h, at + 2, both);
            }
        } else if h.len() >= at + 3 {
            if h[at + 2].failure() is Some {
                if k >= at + 3 {
                    crate::bus::lemma_best_effort_settles(h, at + 3, close, k);
                } else {
                    crate::bus::lemma_best_effort_end(h, at + 3, close);
                }
            } else {
                let control = control(dc.spec_device());
                if k >= at + 3 {
                    lemma_status_check_settles(control, false, h, at + 3, k);
                } else {
                    lemma_status_check_settles(control, false, h, at + 3, at + 3);
                }
                match status_check_flow(control, false, h, at + 3) {
                    Flow::Value(Err(e), end) => {
                        if k >= end {
                            crate::bus::lemma_best_effort_settles(h, end, close, k);
                        } else {
                            crate::bus::lemma_best_effort_end(h, end, close);
                        }
                    },
                    _ => {},
                }
            }
        }
    }
}

/// The reads of a load take the replies in the order in which they were asked
/// for.
pub proof fn lemma_load_loop_settles(
    dc: DeviceChannel,
    h: Seq<BusReplyView>,
    at: int,
    got: Seq<u8>,
    k: int,
)
    requires
        0 <= at <= k <= h.len(),
    ensures
        crate::bus::settled(
            load_loop(dc, h, at, got),
            load_loop(dc, h.take(k), at, got),
            at,
            k,
            h.len() as int,
        ),
    decreases h.len() - at,
{
    let both = seq![BusRequestView::Untalk, BusRequestView::Close(dc)];
    if at < h.len() {
        match h[at].read_outcome(dc) {
            Err(e) => {
                if k >= at + 1 {
                    crate::bus::lemma_best_effort_settles(h, at + 1, both, k);
                } else {
                    crate::bus::lemma_best_effort_end(h, at + 1, both);
                }
            },
            Ok(bytes) => {
                if bytes.len() != 0 {
                    if k >= at + 1 {
                        lemma_load_loop_settles(dc, h, at + 1, got + bytes, k);
                    } else {
                        lemma_load_loop_settles(dc, h, at + 1, got + bytes, at + 1);
                    }
                }
            },
        }
    }
}

/// The end of a load takes the replies in the order in which it asked for
/// them.
pub proof fn lemma_load_end_settles(
    dc: DeviceChannel,
    data: Seq<u8>,
    h: Seq<BusReplyView>,
    at: int,
    k: int,
)
    requires
        0 <= at <= k <= h.len(),
    ensures
        crate::bus::settled(
            load_end(dc, data, h, at),
            load_end(dc, data, h.take(k), at),
            at,
            k,
            h.len() as int,
        ),
{
    let close = seq![BusRequestView::Close(dc)];
    if at < h.len() && h[at].failure() is Some {
        if k >= at + 1 {
            crate::bus::lemma_best_effort_settles(h, at + 1, close, k);
        } else {
            crate::bus::lemma_best_effort_end(h, at + 1, close);
        }
    }
}

/// The loading of a file takes the replies in the order in which it asked for
/// them.
pub proof fn lemma_load_settles(
    dc: DeviceChannel,
    name: Seq<u8>,
    h: Seq<BusReplyView>,
    at: int,
    k: int,
)
    requires
        0 <= at <= k <= h.len(),
    ensures
        crate::bus::settled(
            load_flow(dc, name, h, at),
            load_flow(dc, name, h.take(k), at),
            at,
            k,
            h.len() as int,
        ),
{
    let close = seq![BusRequestView::Close(dc)];
    lemma_open_settles(dc, name, h, at, k);
    match open_flow(dc, name, h, at) {
        Flow::Value(Ok(_), begin) => {
            if begin < h.len() {
                if h[begin].failure() is Some {
                    if k >= begin + 1 {
                        crate::bus::lemma_best_effort_settles(h, begin + 1, close, k);
                    } else {
                        crate::bus::lemma_best_effort_end(h, begin + 1, close);
                    }
                } else {
                    if k >= begin + 1 {
                        lemma_load_loop_settles(dc, h, begin + 1, Seq::empty(), k);
                    } else {
                        lemma_load_loop_settles(dc, h, begin + 1, Seq::empty(), begin + 1);
                    }
                    match load_loop(dc, h, begin + 1, Seq::empty()) {
                        Flow::Value(Ok(data), end) => {
                            if k >= end {
                                lemma_load_end_settles(dc, data, h, end, k);
                            } else {
                                lemma_load_end_settles(dc, data, h, end, end);
                            }
                        },
                        _ => {},
                    }
                }
            }
        },
        _ => {},
    }
}

/// The reads of memory take the replies in the order in which they were asked
/// for.
pub proof fn lemma_peek_loop_settles(
    dc: DeviceChannel,
    addr: u16,
    index: nat,
    size: nat,
    h: Seq<BusReplyView>,
    at: int,
    got: Seq<u8>,
    k: int,
)
    requires
        0 <= at <= k <= h.len(),
    ensures
        crate::bus::settled(
            peek_loop(dc, addr, index, size, h, at, got),
            peek_loop(dc, addr, index, size, h.take(k), at, got),
            at,
            k,
            h.len() as int,
        ),
    decreases size - index,
{
    if index < size {
        let cmd = memory_read_command(address(addr, index));
        lemma_send_command_settles(dc, cmd, h, at, k);
        match send_command_flow(dc, cmd, h, at) {
            Flow::Value(Ok(_), mid) => {
                let next = if k >= mid {
                    k
                } else {
                    mid
                };
                lemma_drive_read_settles(dc, 1, true, h, mid, next);
                match drive_read_flow(dc, 1, true, h, mid) {
                    Flow::Value(Ok(bytes), end) => {
                        let last = if k >= end {
                            k
                        } else {
                            end
                        };
                        lemma_peek_loop_settles(
                            dc,
                            addr,
                            index + 1,
                            size,
                            h,
                            end,
                            got + bytes,
                            last,
                        );
                    },
                    _ => {},
                }
            },
            _ => {},
        }
    }
}

/// The reading of memory takes the replies in the order in which it asked for
/// them.
pub proof fn lemma_memory_read_settles(
    dc: DeviceChannel,
    addr: u16,
    size: usize,
    h: Seq<BusReplyView>,
    at: int,
    k: int,
)
    requires
        0 <= at <= k <= h.len(),
    ensures
        crate::bus::settled(
            memory_read_flow(dc, addr, size, h, at),
            memory_read_flow(dc, addr, size, h.take(k), at),
            at,
            k,
            h.len() as int,
        ),
{
    if size != 0 {
        lemma_peek_loop_settles(dc, addr, 0, size as nat, h, at, Seq::empty(), k);
        match peek_loop(dc, addr, 0, size as nat, h, at, Seq::empty()) {
            Flow::Value(_, mid) => {
                let next = if k >= mid {
                    k
                } else {
                    mid
                };
                lemma_status_settles(dc.spec_device(), dc, h, mid, next);
            },
            _ => {},
        }
    }
}

/// The writing of memory takes the replies in the order in which it asked for
/// them.
pub proof fn lemma_poke_loop_settles(
    dc: DeviceChannel,
    addr: u16,
    data: Seq<u8>,
    index: nat,
    h: Seq<BusReplyView>,
    at: int,
    k: int,
)
    requires
        0 <= at <= k <= h.len(),
    ensures
        crate::bus::settled(
            poke_loop(dc, addr, data, index, h, at),
            poke_loop(dc, addr, data, index, h.take(k), at),
            at,
            k,
            h.len() as int,
        ),
    decreases data.len() - index,
{
    if index < data.len() {
        let cmd = memory_write_command(address(addr, index), data[index as int]);
        lemma_send_command_settles(dc, cmd, h, at, k);
        match send_command_flow(dc, cmd, h, at) {
            Flow::Value(Ok(_), mid) => {
                if mid + 1 < h.len() && h[mid].failure() is None && h[mid + 1].failure() is None {
                    let next = if k >= mid + 2 {
                        k
                    } else {
                        mid + 2
                    };
                    lemma_poke_loop_settles(dc, addr, data, index + 1, h, mid + 2, next);
                }
            },
            _ => {},
        }
    }
}

/// The reading of a second signature takes the replies in the order in which
/// it asked for them.
pub proof fn lemma_second_signature_settles(
    dc: DeviceChannel,
    magic: u16,
    addr: u16,
    h: Seq<BusReplyView>,
    at: int,
    k: int,
)
    requires
        0 <= at <= k <= h.len(),
    ensures
        crate::bus::settled(
            second_signature(dc, magic, addr, h, at),
            second_signature(dc, magic, addr, h.take(k), at),
            at,
            k,
            h.len() as int,
        ),
{
    lemma_memory_read_settles(dc, addr, 2, h, at, k);
}

/// The identifying of a device takes the replies in the order in which it
/// asked for them.
pub proof fn lemma_identify_settles(dc: DeviceChannel, h: Seq<BusReplyView>, at: int, k: int)
    requires
        0 <= at <= k <= h.len(),
    ensures
        crate::bus::settled(
            identify_flow(dc, h, at),
            identify_flow(dc, h.take(k), at),
            at,
            k,
            h.len() as int,
        ),
{
    lemma_memory_read_settles(dc, MAGIC_ADDRESS, 2, h, at, k);
    match memory_read_flow(dc, MAGIC_ADDRESS, 2, h, at) {
        Flow::Value(Ok(bytes), one) => {
            let next = if k >= one {
                k
            } else {
                one
            };
            if word(bytes) == 0xaaaa {
                lemma_memory_read_settles(dc, SECOND_MAGIC_ADDRESS, 2, h, one, next);
                match memory_read_flow(dc, SECOND_MAGIC_ADDRESS, 2, h, one) {
                    Flow::Value(Ok(more), two) => {
                        let last = if k >= two {
                            k
                        } else {
                            two
                        };
                        lemma_second_signature_settles(
                            dc,
                            word(bytes),
                            THIRD_MAGIC_ADDRESS,
                            h,
                            two,
                            last,
                        );
                    },
                    _ => {},
                }
            } else if word(bytes) == 0x01ba {
                lemma_second_signature_settles(
                    dc,
                    word(bytes),
                    SECOND_MAGIC_ADDRESS,
                    h,
                    one,
                    next,
                );
            }
        },
        _ => {},
    }
}

/// A command with its status takes the replies in the order in which it asked
/// for them.
pub proof fn lemma_command_settles(
    dc: DeviceChannel,
    cmd: Seq<u8>,
    h: Seq<BusReplyView>,
    at: int,
    k: int,
)
    requires
        0 <= at <= k <= h.len(),
    ensures
        crate::bus::settled(
            command_flow(dc, cmd, h, at),
            command_flow(dc, cmd, h.take(k), at),
            at,
            k,
            h.len() as int,
        ),
{
    lemma_send_command_settles(dc, cmd, h, at, k);
    match send_command_flow(dc, cmd, h, at) {
        Flow::Value(Ok(_), mid) => {
            let next = if k >= mid {
                k
            } else {
                mid
            };
            lemma_status_settles(dc.spec_device(), dc, h, mid, next);
        },
        _ => {},
    }
}

/// The reads of a file take the replies in the order in which they were asked
/// for.
pub proof fn lemma_file_read_loop_settles(
    dc: DeviceChannel,
    h: Seq<BusReplyView>,
    at: int,
    got: Seq<u8>,
    k: int,
)
    requires
        0 <= at <= k <= h.len(),
    ensures
        crate::bus::settled(
            file_read_loop(dc, h, at, got),
            file_read_loop(dc, h.take(k), at, got),
            at,
            k,
            h.len() as int,
        ),
    decreases h.len() - at,
{
    let untalk = seq![BusRequestView::Untalk];
    if at < h.len() {
        match h[at].read_outcome(dc) {
            Err(e) => {
                if k >= at + 1 {
                    crate::bus::lemma_best_effort_settles(h, at + 1, untalk, k);
                } else {
                    crate::bus::lemma_best_effort_end(h, at + 1, untalk);
                }
            },
            Ok(bytes) => {
                if bytes.len() >= BLOCK {
                    let next = if k >= at + 1 {
                        k
                    } else {
                        at + 1
                    };
                    lemma_file_read_loop_settles(dc, h, at + 1, got + bytes, next);
                }
            },
        }
    }
}

/// The reading of a file takes the replies in the order in which it asked for
/// them.
pub proof fn lemma_read_file_settles(
    control: DeviceChannel,
    dc: DeviceChannel,
    name: Seq<u8>,
    h: Seq<BusReplyView>,
    at: int,
    k: int,
)
    requires
        0 <= at <= k <= h.len(),
    ensures
        crate::bus::settled(
            read_file_flow(control, dc, name, h, at),
            read_file_flow(control, dc, name, h.take(k), at),
            at,
            k,
            h.len() as int,
        ),
{
    let cmd = crate::string::encode_bytes(name);
    lemma_command_settles(control, cmd, h, at, k);
    match command_flow(control, cmd, h, at) {
        Flow::Value(Ok(_), begin) => {
            if begin < h.len() && h[begin].failure() is None {
                let next = if k >= begin + 1 {
                    k
                } else {
                    begin + 1
                };
                lemma_file_read_loop_settles(dc, h, begin + 1, Seq::empty(), next);
            }
        },
        _ => {},
    }
}

/// The writes of a file take the replies in the order in which they were
/// asked for.
pub proof fn lemma_file_write_loop_settles(
    dc: DeviceChannel,
    data: Seq<u8>,
    offset: nat,
    h: Seq<BusReplyView>,
    at: int,
    k: int,
)
    requires
        0 <= at <= k <= h.len(),
    ensures
        crate::bus::settled(
            file_write_loop(dc, data, offset, h, at),
            file_write_loop(dc, data, offset, h.take(k), at),
            at,
            k,
            h.len() as int,
        ),
    decreases data.len() - offset,
{
    let unlisten = seq![BusRequestView::Unlisten];
    let end = block_end(data, offset);
    if offset < data.len() && at < h.len() {
        let undone = match h[at] {
            BusReplyView::Failed(_) => true,
            BusReplyView::Completed { written, .. } => written != end - offset,
        };
        if undone {
            if k >= at + 1 {
                crate::bus::lemma_best_effort_settles(h, at + 1, unlisten, k);
            } else {
                crate::bus::lemma_best_effort_end(h, at + 1, unlisten);
            }
        } else {
            let next = if k >= at + 1 {
                k
            } else {
                at + 1
            };
            lemma_file_write_loop_settles(dc, data, end, h, at + 1, next);
        }
    }
}

/// The writing of a file takes the replies in the order in which it asked for
/// them.
pub proof fn lemma_write_file_settles(
    control: DeviceChannel,
    dc: DeviceChannel,
    name: Seq<u8>,
    data: Seq<u8>,
    h: Seq<BusReplyView>,
    at: int,
    k: int,
)
    requires
        0 <= at <= k <= h.len(),
    ensures
        crate::bus::settled(
            write_file_flow(control, dc, name, data, h, at),
            write_file_flow(control, dc, name, data, h.take(k), at),
            at,
            k,
            h.len() as int,
        ),
{
    let cmd = overwrite_command(name);
    lemma_command_settles(control, cmd, h, at, k);
    match command_flow(control, cmd, h, at) {
        Flow::Value(Ok(_), begin) => {
            if begin < h.len() && h[begin].failure() is None {
                let next = if k >= begin + 1 {
                    k
                } else {
                    begin + 1
                };
                lemma_file_write_loop_settles(dc, data, 0, h, begin + 1, next);
            }
        },
        _ => {},
    }
}

/// The reading of a directory takes the replies in the order in which it
/// asked for them.
pub proof fn lemma_dir_settles(
    dc: DeviceChannel,
    drive: Option<u8>,
    h: Seq<BusReplyView>,
    at: int,
    k: int,
)
    requires
        0 <= at <= k <= h.len(),
    ensures
        crate::bus::settled(
            dir_flow(dc, drive, h, at),
            dir_flow(dc, drive, h.take(k), at),
            at,
            k,
            h.len() as int,
        ),
{
    lemma_load_settles(dc, dir_name(drive), h, at, k);
}

/// A scan of the bus takes the replies in the order in which it asked for
/// them.
pub proof fn lemma_scan_settles(
    device: int,
    last: u8,
    h: Seq<BusReplyView>,
    at: int,
    found: Map<u8, crate::cbmtype::CbmDeviceInfoView>,
    k: int,
)
    requires
        0 <= at <= k <= h.len(),
    ensures
        crate::bus::settled(
            scan_loop(device, last, h, at, found),
            scan_loop(device, last, h.take(k), at, found),
            at,
            k,
            h.len() as int,
        ),
    decreases last - device + 1,
{
    if 0 <= device <= last {
        let dc = control(device as u8);
        lemma_exists_settles(dc, h, at, k);
        match exists_flow(dc, h, at) {
            Flow::Value(Ok(there), mid) => {
                let next = if k >= mid {
                    k
                } else {
                    mid
                };
                if !there {
                    lemma_scan_settles(device + 1, last, h, mid, found, next);
                } else {
                    lemma_identify_settles(dc, h, mid, next);
                    match identify_flow(dc, h, mid) {
                        Flow::Value(named, end) => {
                            let after = if k >= end {
                                k
                            } else {
                                end
                            };
                            match named {
                                Err(Rs1541ErrorView::Device { .. }) => {
                                    lemma_scan_settles(device + 1, last, h, end, found, after);
                                },
                                Err(_) => {},
                                Ok(info) => {
                                    lemma_scan_settles(
                                        device + 1,
                                        last,
                                        h,
                                        end,
                                        found.insert(device as u8, info),
                                        after,
                                    );
                                },
                            }
                        },
                        _ => {},
                    }
                }
            },
            _ => {},
        }
    }
}

} // verus!
