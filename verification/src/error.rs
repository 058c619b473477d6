//! The errors of the library.

use crate::cbmtype::{CbmStatus, CbmStatusView};
use crate::channel::DeviceChannel;
use crate::text::{decimal, push_decimal};
use vstd::prelude::*;
use vstd::std_specs::convert::FromSpecImpl;
use vstd::string::StringExecFns;

verus! {

/// The kinds of failure of the transport below the library.
#[derive(Debug, Clone, Copy, PartialEq, Eq, Structural)]
pub enum TransportErrorKind {
    /// The USB layer failed.
    Usb,
    /// The adapter could not be initialised.
    Init,
    /// The adapter answered a bus command with an error status value. This is
    /// what a listen on an absent device gives.
    StatusValue,
    /// Any other failure to communicate with the adapter.
    Communication,
    /// An operation of the adapter timed out.
    Timeout,
    /// The adapter could not be reached.
    DeviceAccess,
    /// The transport refused an argument.
    Args,
}

/// A failure of the transport, as far as the library reads it: its kind, the
/// transport's own text for it, and the transport's error number.
#[derive(Debug, PartialEq)]
pub struct TransportError {
    pub kind: TransportErrorKind,
    pub message: String,
    pub errno: i32,
}

/// The mathematical value of a [`TransportError`].
pub struct TransportErrorView {
    pub kind: TransportErrorKind,
    pub message: Seq<char>,
    pub errno: i32,
}

impl View for TransportError {
    type V = TransportErrorView;

    open spec fn view(&self) -> TransportErrorView {
        TransportErrorView { kind: self.kind, message: self.message@, errno: self.errno }
    }
}

impl Clone for TransportError {
    fn clone(&self) -> (copy: Self)
        ensures
            copy@ == self@,
    {
        TransportError { kind: self.kind, message: self.message.clone(), errno: self.errno }
    }
}

/// What went wrong with one device.
#[derive(Debug, PartialEq)]
pub enum DeviceError {
    /// The status of the device could not be had.
    GetStatusFailure { message: String },
    /// The device has no drive of this number.
    InvalidDrive { drive_num: u8 },
    /// A read from a channel failed.
    Read { channel: u8, message: String },
    /// A write to a channel failed.
    Write { channel: u8, message: String },
    /// The device gave not one byte when asked to talk on the control channel:
    /// most likely it is not there.
    NoDevice,
}

/// The mathematical value of a [`DeviceError`].
pub enum DeviceErrorView {
    GetStatusFailure { message: Seq<char> },
    InvalidDrive { drive_num: u8 },
    Read { channel: u8, message: Seq<char> },
    Write { channel: u8, message: Seq<char> },
    NoDevice,
}

impl View for DeviceError {
    type V = DeviceErrorView;

    open spec fn view(&self) -> DeviceErrorView {
        match self {
            DeviceError::GetStatusFailure { message } => DeviceErrorView::GetStatusFailure {
                message: message@,
            },
            DeviceError::InvalidDrive { drive_num } => DeviceErrorView::InvalidDrive {
                drive_num: *drive_num,
            },
            DeviceError::Read { channel, message } => DeviceErrorView::Read {
                channel: *channel,
                message: message@,
            },
            DeviceError::Write { channel, message } => DeviceErrorView::Write {
                channel: *channel,
                message: message@,
            },
            DeviceError::NoDevice => DeviceErrorView::NoDevice,
        }
    }
}

impl Clone for DeviceError {
    fn clone(&self) -> (copy: Self)
        ensures
            copy@ == self@,
    {
        match self {
            DeviceError::GetStatusFailure { message } => DeviceError::GetStatusFailure {
                message: message.clone(),
            },
            DeviceError::InvalidDrive { drive_num } => DeviceError::InvalidDrive {
                drive_num: *drive_num,
            },
            DeviceError::Read { channel, message } => DeviceError::Read {
                channel: *channel,
                message: message.clone(),
            },
            DeviceError::Write { channel, message } => DeviceError::Write {
                channel: *channel,
                message: message.clone(),
            },
            DeviceError::NoDevice => DeviceError::NoDevice,
        }
    }
}

/// The classes of operating-system error number that an error maps to.
#[derive(Debug, Clone, Copy, PartialEq, Eq, Structural)]
pub enum ErrnoClass {
    /// An input or output error.
    InputOutput,
    /// An invalid argument.
    InvalidArgument,
    /// No such device.
    NoDevice,
    /// A timeout.
    TimedOut,
    /// The number that the transport gave with its own error.
    Transport(i32),
}

impl DeviceErrorView {
    /// The text of the error.
    pub open spec fn text(self) -> Seq<char> {
        match self {
            DeviceErrorView::GetStatusFailure { message } => "Failed to get status: "@ + message,
            DeviceErrorView::InvalidDrive { drive_num } => "Invalid drive number: "@ + decimal(
                drive_num as nat,
            ),
            DeviceErrorView::Read { channel, message } => "Read error: Channel: "@ + decimal(
                channel as nat,
            ) + ", Error: "@ + message,
            DeviceErrorView::Write { channel, message } => "Write error: Channel: "@ + decimal(
                channel as nat,
            ) + ", Error: "@ + message,
            DeviceErrorView::NoDevice =>
                "Device does not exist (or at least isn't talking on channel 15)"@,
        }
    }

    /// The class of error number of the error.
    pub open spec fn errno_class(self) -> ErrnoClass {
        match self {
            DeviceErrorView::GetStatusFailure { .. } => ErrnoClass::InputOutput,
            DeviceErrorView::InvalidDrive { .. } => ErrnoClass::InvalidArgument,
            DeviceErrorView::Read { .. } => ErrnoClass::InputOutput,
            DeviceErrorView::Write { .. } => ErrnoClass::InputOutput,
            DeviceErrorView::NoDevice => ErrnoClass::NoDevice,
        }
    }
}

/// The errors that the operations of the library return.
#[derive(Debug, PartialEq)]
pub enum Rs1541Error {
    /// The transport failed.
    Xum1541(TransportError),
    /// An operation on a device failed.
    Device { device: u8, error: DeviceError },
    /// An operation on a file failed.
    File { device: u8, message: String },
    /// The drive answered with a status that is an error.
    Status { status: CbmStatus },
    /// An operation of the library itself timed out.
    Timeout { dur: core::time::Duration },
    /// An argument was out of range.
    Validation { message: String },
    /// Data from the device could not be parsed.
    Parse { message: String },
}

/// The mathematical value of an [`Rs1541Error`].
pub enum Rs1541ErrorView {
    Xum1541(TransportErrorView),
    Device { device: u8, error: DeviceErrorView },
    File { device: u8, message: Seq<char> },
    Status { status: CbmStatusView },
    Timeout { dur: core::time::Duration },
    Validation { message: Seq<char> },
    Parse { message: Seq<char> },
}

impl View for Rs1541Error {
    type V = Rs1541ErrorView;

    open spec fn view(&self) -> Rs1541ErrorView {
        match self {
            Rs1541Error::Xum1541(e) => Rs1541ErrorView::Xum1541(e@),
            Rs1541Error::Device { device, error } => Rs1541ErrorView::Device {
                device: *device,
                error: error@,
            },
            Rs1541Error::File { device, message } => Rs1541ErrorView::File {
                device: *device,
                message: message@,
            },
            Rs1541Error::Status { status } => Rs1541ErrorView::Status { status: status@ },
            Rs1541Error::Timeout { dur } => Rs1541ErrorView::Timeout { dur: *dur },
            Rs1541Error::Validation { message } => Rs1541ErrorView::Validation {
                message: message@,
            },
            Rs1541Error::Parse { message } => Rs1541ErrorView::Parse { message: message@ },
        }
    }
}


/// The text that `Duration`'s `Debug` writes for `dur`.
pub uninterp spec fn duration_debug(dur: core::time::Duration) -> Seq<char>;

/// Formats `dur` with `{:?}`, which is `Duration`'s `Debug`.
#[verifier::external_body]
fn duration_text(dur: &core::time::Duration) -> (out: String)
    ensures
        out@ == duration_debug(*dur),
{
    format!("{:?}", dur)
}

impl Rs1541ErrorView {
    /// The text of the error.
    pub open spec fn text(self) -> Seq<char> {
        match self {
            Rs1541ErrorView::Xum1541(e) => e.message,
            Rs1541ErrorView::Device { device, error } => "Device "@ + decimal(device as nat)
                + " error: "@ + error.text(),
            Rs1541ErrorView::File { device, message } => "Device "@ + decimal(device as nat)
                + ": File error: "@ + message,
            Rs1541ErrorView::Status { status } => "Device "@ + decimal(status.device as nat)
                + ": Status error: "@ + status.text(),
            Rs1541ErrorView::Timeout { dur } => "Timeout error, duration: "@ + duration_debug(dur),
            Rs1541ErrorView::Validation { message } => "Validation error: "@ + message,
            Rs1541ErrorView::Parse { message } => "Parse error: "@ + message,
        }
    }

    /// The class of error number of the error.
    pub open spec fn errno_class(self) -> ErrnoClass {
        match self {
            Rs1541ErrorView::Xum1541(e) => ErrnoClass::Transport(e.errno),
            Rs1541ErrorView::Device { error, .. } => error.errno_class(),
            Rs1541ErrorView::File { .. } => ErrnoClass::InputOutput,
            Rs1541ErrorView::Status { .. } => ErrnoClass::InputOutput,
            Rs1541ErrorView::Timeout { .. } => ErrnoClass::TimedOut,
            Rs1541ErrorView::Validation { .. } => ErrnoClass::InvalidArgument,
            Rs1541ErrorView::Parse { .. } => ErrnoClass::InvalidArgument,
        }
    }
}

impl DeviceError {
    /// The text of the error.
    pub fn to_string(&self) -> (out: String)
        ensures
            out@ == self@.text(),
    {
        let mut out = String::new();
        match self {
            DeviceError::GetStatusFailure { message } => {
                out.append("Failed to get status: ");
                out.append(message.as_str());
            },
            DeviceError::InvalidDrive { drive_num } => {
                out.append("Invalid drive number: ");
                push_decimal(&mut out, *drive_num as u64);
            },
            DeviceError::Read { channel, message } => {
                out.append("Read error: Channel: ");
                push_decimal(&mut out, *channel as u64);
                out.append(", Error: ");
                out.append(message.as_str());
            },
            DeviceError::Write { channel, message } => {
                out.append("Write error: Channel: ");
                push_decimal(&mut out, *channel as u64);
                out.append(", Error: ");
                out.append(message.as_str());
            },
            DeviceError::NoDevice => {
                out.append("Device does not exist (or at least isn't talking on channel 15)");
            },
        }
        out
    }

    /// The class of error number of the error.
    pub fn errno_class(&self) -> (class: ErrnoClass)
        ensures
            class == self@.errno_class(),
    {
        match self {
            DeviceError::GetStatusFailure { .. } => ErrnoClass::InputOutput,
            DeviceError::InvalidDrive { .. } => ErrnoClass::InvalidArgument,
            DeviceError::Read { .. } => ErrnoClass::InputOutput,
            DeviceError::Write { .. } => ErrnoClass::InputOutput,
            DeviceError::NoDevice => ErrnoClass::NoDevice,
        }
    }

    /// This error, as the error of device `device`.
    fn with_device(&self, device: u8) -> (e: Rs1541Error)
        ensures
            e@ == (Rs1541ErrorView::Device { device, error: self@ }),
    {
        Rs1541Error::Device { device, error: self.clone() }
    }

    /// Device `device` has no drive `drive_num`.
    pub fn invalid_drive_num(device: u8, drive_num: u8) -> (e: Rs1541Error)
        ensures
            e@ == (Rs1541ErrorView::Device {
                device,
                error: DeviceErrorView::InvalidDrive { drive_num },
            }),
    {
        DeviceError::InvalidDrive { drive_num }.with_device(device)
    }

    /// A read on `dc` failed, with `message` saying how.
    pub fn read_error(dc: DeviceChannel, message: String) -> (e: Rs1541Error)
        ensures
            e@ == (Rs1541ErrorView::Device {
                device: dc.spec_device(),
                error: DeviceErrorView::Read { channel: dc.spec_channel(), message: message@ },
            }),
    {
        DeviceError::Read { channel: dc.channel(), message }.with_device(dc.device())
    }

    /// A write on `dc` failed, with `message` saying how.
    pub fn write_error(dc: DeviceChannel, message: String) -> (e: Rs1541Error)
        ensures
            e@ == (Rs1541ErrorView::Device {
                device: dc.spec_device(),
                error: DeviceErrorView::Write { channel: dc.spec_channel(), message: message@ },
            }),
    {
        DeviceError::Write { channel: dc.channel(), message }.with_device(dc.device())
    }

    /// The status of device `device` could not be had, with `message` saying why.
    pub fn get_status_failure(device: u8, message: String) -> (e: Rs1541Error)
        ensures
            e@ == (Rs1541ErrorView::Device {
                device,
                error: DeviceErrorView::GetStatusFailure { message: message@ },
            }),
    {
        DeviceError::GetStatusFailure { message }.with_device(device)
    }

    /// Device `device` is not there.
    pub fn no_device(device: u8) -> (e: Rs1541Error)
        ensures
            e@ == (Rs1541ErrorView::Device { device, error: DeviceErrorView::NoDevice }),
    {
        DeviceError::NoDevice.with_device(device)
    }
}

impl Rs1541Error {
    /// The text of the error.
    pub fn to_string(&self) -> (out: String)
        ensures
            out@ == self@.text(),
    {
        let mut out = String::new();
        match self {
            Rs1541Error::Xum1541(e) => {
                out.append(e.message.as_str());
            },
            Rs1541Error::Device { device, error } => {
                out.append("Device ");
                push_decimal(&mut out, *device as u64);
                out.append(" error: ");
                let inner = error.to_string();
                out.append(inner.as_str());
            },
            Rs1541Error::File { device, message } => {
                out.append("Device ");
                push_decimal(&mut out, *device as u64);
                out.append(": File error: ");
                out.append(message.as_str());
            },
            Rs1541Error::Status { status } => {
                out.append("Device ");
                push_decimal(&mut out, status.device as u64);
                out.append(": Status error: ");
                let inner = status.as_str();
                out.append(inner.as_str());
            },
            Rs1541Error::Timeout { dur } => {
                out.append("Timeout error, duration: ");
                let inner = duration_text(dur);
                out.append(inner.as_str());
            },
            Rs1541Error::Validation { message } => {
                out.append("Validation error: ");
                out.append(message.as_str());
            },
            Rs1541Error::Parse { message } => {
                out.append("Parse error: ");
                out.append(message.as_str());
            },
        }
        out
    }

    /// The class of error number of the error.
    pub fn errno_class(&self) -> (class: ErrnoClass)
        ensures
            class == self@.errno_class(),
    {
        match self {
            Rs1541Error::Xum1541(e) => ErrnoClass::Transport(e.errno),
            Rs1541Error::Device { error, .. } => error.errno_class(),
            Rs1541Error::File { .. } => ErrnoClass::InputOutput,
            Rs1541Error::Status { .. } => ErrnoClass::InputOutput,
            Rs1541Error::Timeout { .. } => ErrnoClass::TimedOut,
            Rs1541Error::Validation { .. } => ErrnoClass::InvalidArgument,
            Rs1541Error::Parse { .. } => ErrnoClass::InvalidArgument,
        }
    }
}

impl From<CbmStatus> for Rs1541Error {
    fn from(status: CbmStatus) -> (e: Self) {
        Rs1541Error::Status { status }
    }
}

impl FromSpecImpl<CbmStatus> for Rs1541Error {
    open spec fn obeys_from_spec() -> bool {
        true
    }

    open spec fn from_spec(status: CbmStatus) -> Self {
        Rs1541Error::Status { status }
    }
}


/// A result with its error taken by its mathematical value.
pub open spec fn error_view<T>(r: Result<T, Rs1541Error>) -> Result<T, Rs1541ErrorView> {
    match r {
        Ok(v) => Ok(v),
        Err(e) => Err(e@),
    }
}

} // verus!
