//! A drive unit: one device on the bus with one or two drives in it.

use crate::bus::{
    and_then, outcome, replies, settled, step_is, turn_is, BusReply, BusReplyView, Flow, Step, Turn,
};
use crate::cbm::{
    bad_device, control, dir_flow, dir_locked, drive_exists_locked, exists_flow, get_status_locked,
    identify_flow, identify_locked, lemma_dir_settles, lemma_exists_settles,
    lemma_identify_settles, lemma_send_command_settles, lemma_status_settles, load_channel,
    refused, send_command_flow, send_command_petscii_locked, status_flow, valid_device, Cbm,
};
use crate::cbmtype::{
    CbmDeviceInfo, CbmDeviceInfoView, CbmErrorNumber, CbmErrorNumberOk, CbmStatus, CbmStatusView,
};
use crate::channel::{
    CbmChannelManager, ChannelTable, DeviceChannel, CBM_CHANNEL_CTRL, CBM_CHANNEL_LOAD,
};
use crate::disk::{CbmDirListing, CbmDirListingView};
use crate::error::{DeviceError, DeviceErrorView, Rs1541Error, Rs1541ErrorView};
use crate::string::PetsciiString;
use vstd::prelude::*;

verus! {

/// A device on the bus with the drives in it.
#[derive(Debug)]
pub struct CbmDriveUnit {
    pub device_number: u8,
    pub device_info: CbmDeviceInfo,
    channel_manager: CbmChannelManager,
    busy: bool,
}

/// The mathematical value of a [`CbmDriveUnit`].
pub struct CbmDriveUnitView {
    pub device_number: u8,
    pub device_info: CbmDeviceInfoView,
    pub channels: ChannelTable,
    pub busy: bool,
}

impl View for CbmDriveUnit {
    type V = CbmDriveUnitView;

    closed spec fn view(&self) -> CbmDriveUnitView {
        CbmDriveUnitView {
            device_number: self.device_number,
            device_info: self.device_info@,
            channels: self.channel_manager@,
            busy: self.busy,
        }
    }
}

impl Clone for CbmDriveUnit {
    fn clone(&self) -> (copy: Self)
        ensures
            copy@ == self@,
    {
        CbmDriveUnit {
            device_number: self.device_number,
            device_info: self.device_info.clone(),
            channel_manager: self.channel_manager.clone(),
            busy: self.busy,
        }
    }
}

/// The unit that is made of a device number and the description of the
/// device: all its channels are free, and it is not busy.
pub open spec fn new_unit(device_number: u8, device_info: CbmDeviceInfoView) -> CbmDriveUnitView {
    CbmDriveUnitView {
        device_number,
        device_info,
        channels: ChannelTable::fresh(),
        busy: false,
    }
}

impl CbmDriveUnit {
    /// A unit for the device `device_number` that `device_info` describes.
    /// Nothing is asked of the bus.
    pub fn new(device_number: u8, device_info: CbmDeviceInfo) -> (unit: Self)
        ensures
            unit@ == new_unit(device_number, device_info@),
    {
        CbmDriveUnit {
            device_number,
            device_info,
            channel_manager: CbmChannelManager::new(),
            busy: false,
        }
    }

    /// Sets every channel of the unit free.
    #[allow(dead_code)]
    fn reset(&mut self) -> (r: Result<(), Rs1541Error>)
        ensures
            r is Ok,
            old(self)@.channels.resets_to(final(self)@.channels),
            final(self)@.busy,
            final(self)@.device_number == old(self)@.device_number,
            final(self)@.device_info == old(self)@.device_info,
    {
        self.busy = true;
        self.channel_manager.reset();
        Ok(())
    }

    /// The number of drives in the unit.
    pub fn num_disk_drives(&self) -> (count: u8)
        ensures
            count == self@.device_info.device_type.drives(),
            count <= 2,
    {
        self.device_info.device_type.num_disk_drives()
    }

    /// The description of the device.
    pub fn device_info(&self) -> (info: &CbmDeviceInfo)
        ensures
            info@ == self@.device_info,
    {
        &self.device_info
    }

    /// The short name of the model of the device.
    pub fn device_type_str(&self) -> (name: &str)
        ensures
            name@ == self@.device_info.device_type.short_text(),
    {
        self.device_info.device_type.as_str()
    }

    /// The description of the variant of the device.
    pub fn description(&self) -> (text: &str)
        ensures
            text@ == self@.device_info.description,
    {
        self.device_info.description.as_str()
    }

    /// The numbers of the drives of the unit: from 0 up to, not including,
    /// the number of drives.
    pub fn num_disk_drives_iter(&self) -> (numbers: core::ops::Range<u8>)
        ensures
            numbers.start == 0,
            numbers.end == self@.device_info.device_type.drives(),
    {
        0..self.num_disk_drives()
    }

    /// Whether the unit answers. It always does.
    pub fn is_responding(&self) -> (responding: bool)
        ensures
            responding,
    {
        true
    }

    /// Whether an operation on the unit is under way.
    pub fn is_busy(&self) -> (busy: bool)
        ensures
            busy == self@.busy,
    {
        self.busy
    }
}


/// The error for a device that is not there.
pub open spec fn absent(device: u8) -> Rs1541ErrorView {
    Rs1541ErrorView::Device { device, error: DeviceErrorView::NoDevice }
}

/// Making a unit of the device of the control channel `dc`: the device is
/// asked whether it is there, and identified if it is. A device that is not
/// there is an error.
pub open spec fn unit_flow(dc: DeviceChannel, h: Seq<BusReplyView>, at: int) -> Flow<
    Result<CbmDriveUnitView, Rs1541ErrorView>,
> {
    and_then(
        exists_flow(dc, h, at),
        |found: Result<bool, Rs1541ErrorView>, mid: int|
            match found {
                Err(e) => Flow::Value(Err(e), mid),
                Ok(there) => if !there {
                    Flow::Value(Err(absent(dc.spec_device())), mid)
                } else {
                    and_then(
                        identify_flow(dc, h, mid),
                        |named: Result<CbmDeviceInfoView, Rs1541ErrorView>, end: int|
                            Flow::Value(
                                match named {
                                    Err(e) => Err(e),
                                    Ok(info) => Ok(new_unit(dc.spec_device(), info)),
                                },
                                end,
                            ),
                    )
                },
            },
    )
}

/// A result that holds a unit, with both sides taken by their values.
pub open spec fn unit_view(r: Result<CbmDriveUnit, Rs1541Error>) -> Result<
    CbmDriveUnitView,
    Rs1541ErrorView,
> {
    match r {
        Ok(unit) => Ok(unit@),
        Err(e) => Err(e@),
    }
}

/// The command that initialises drive `drive` of a unit: the letter `i` and
/// the digit of the drive.
pub open spec fn init_command(drive: u8) -> Seq<u8> {
    crate::string::encode_bytes(seq![0x69u8, (0x30 + drive) as u8])
}

/// What the status that a drive gave after it was initialised counts as: a
/// status that is a success, or whose error number is among `ignore`, is the
/// result, and every other status is an error.
pub open spec fn init_verdict(status: CbmStatusView, ignore: Seq<CbmErrorNumber>) -> Result<
    CbmStatusView,
    Rs1541ErrorView,
> {
    if status.class() != CbmErrorNumberOk::Okay && !ignore.contains(status.error_number) {
        Err(Rs1541ErrorView::Status { status })
    } else {
        Ok(status)
    }
}

/// Initialising one drive of the device of the control channel `dc`: the
/// command is sent and the status is read.
pub open spec fn init_flow(
    dc: DeviceChannel,
    drive: u8,
    ignore: Seq<CbmErrorNumber>,
    h: Seq<BusReplyView>,
    at: int,
) -> Flow<Result<CbmStatusView, Rs1541ErrorView>> {
    and_then(
        send_command_flow(dc, init_command(drive), h, at),
        |sent: Result<(), Rs1541ErrorView>, mid: int|
            match sent {
                Err(e) => Flow::Value(Err(e), mid),
                Ok(_) => and_then(
                    status_flow(dc.spec_device(), dc, h, mid),
                    |status: Result<CbmStatusView, Rs1541ErrorView>, end: int|
                        Flow::Value(
                            match status {
                                Err(e) => Err(e),
                                Ok(status) => init_verdict(status, ignore),
                            },
                            end,
                        ),
                ),
            },
    )
}

/// Initialising the drives from `drive` up to, not including, `count`, with
/// `results` holding the results for the drives below. A failure on one drive
/// is the result for that drive, and the next drive is tried all the same.
pub open spec fn init_loop(
    dc: DeviceChannel,
    drive: int,
    count: u8,
    ignore: Seq<CbmErrorNumber>,
    h: Seq<BusReplyView>,
    at: int,
    results: Seq<Result<CbmStatusView, Rs1541ErrorView>>,
) -> Flow<Seq<Result<CbmStatusView, Rs1541ErrorView>>>
    decreases count - drive,
{
    if drive >= count || drive < 0 {
        Flow::Value(results, at)
    } else {
        match init_flow(dc, drive as u8, ignore, h, at) {
            Flow::Ask(request) => Flow::Ask(request),
            Flow::Value(result, end) => init_loop(
                dc,
                drive + 1,
                count,
                ignore,
                h,
                end,
                results.push(result),
            ),
        }
    }
}

/// The values of a list of results of initialising drives.
pub open spec fn init_views(results: Seq<Result<CbmStatus, Rs1541Error>>) -> Seq<
    Result<CbmStatusView, Rs1541ErrorView>,
> {
    results.map_values(|r: Result<CbmStatus, Rs1541Error>| crate::cbmtype::status_view(r))
}

/// The directories of the drives of a unit, together with a status.
pub struct UnitDirView {
    pub listings: Seq<CbmDirListingView>,
    pub status: CbmStatusView,
}

/// The end of reading the directories of a unit: the status that goes with
/// the directories is the first status error that a drive gave, and the
/// status that is read now where no drive gave one.
pub open spec fn unit_dir_end(
    dc: DeviceChannel,
    h: Seq<BusReplyView>,
    at: int,
    listings: Seq<CbmDirListingView>,
    remembered: Option<CbmStatusView>,
) -> Flow<Result<UnitDirView, Rs1541ErrorView>> {
    match remembered {
        Some(status) => Flow::Value(Ok(UnitDirView { listings, status }), at),
        None => and_then(
            status_flow(dc.spec_device(), dc, h, at),
            |read: Result<CbmStatusView, Rs1541ErrorView>, end: int|
                Flow::Value(
                    match read {
                        Err(e) => Err(e),
                        Ok(status) => Ok(UnitDirView { listings, status }),
                    },
                    end,
                ),
        ),
    }
}

/// The drive to name in reading the directory of drive `drive` of a unit: a
/// unit with one drive is asked for its directory without a drive number.
pub open spec fn drive_to_name(count: u8, drive: u8) -> Option<u8> {
    if count == 1 {
        None
    } else {
        Some(drive)
    }
}

/// Reading the directories of the drives from `drive` up to, not including,
/// `count`, of the device with the control channel `dc` and the load channel
/// `load`.
///
/// A drive whose directory cannot be read for an error of the device is left
/// out. A drive that answers with an error status is left out too, and the
/// first such status is remembered. Every other failure ends the operation.
pub open spec fn unit_dir_loop(
    dc: DeviceChannel,
    load: DeviceChannel,
    drive: int,
    count: u8,
    h: Seq<BusReplyView>,
    at: int,
    listings: Seq<CbmDirListingView>,
    remembered: Option<CbmStatusView>,
) -> Flow<Result<UnitDirView, Rs1541ErrorView>>
    decreases count - drive,
{
    if drive >= count || drive < 0 {
        unit_dir_end(dc, h, at, listings, remembered)
    } else {
        match dir_flow(load, drive_to_name(count, drive as u8), h, at) {
            Flow::Ask(request) => Flow::Ask(request),
            Flow::Value(Err(Rs1541ErrorView::Device { .. }), end) => unit_dir_loop(
                dc,
                load,
                drive + 1,
                count,
                h,
                end,
                listings,
                remembered,
            ),
            Flow::Value(Err(Rs1541ErrorView::Status { status }), end) => unit_dir_loop(
                dc,
                load,
                drive + 1,
                count,
                h,
                end,
                listings,
                if remembered is Some {
                    remembered
                } else {
                    Some(status)
                },
            ),
            Flow::Value(Err(e), end) => Flow::Value(Err(e), end),
            Flow::Value(Ok(listing), end) => unit_dir_loop(
                dc,
                load,
                drive + 1,
                count,
                h,
                end,
                listings.push(listing),
                remembered,
            ),
        }
    }
}

/// The values of a list of directories.
pub open spec fn listing_views(listings: Seq<CbmDirListing>) -> Seq<CbmDirListingView> {
    listings.map_values(|l: CbmDirListing| l@)
}

/// A result that holds the directories of a unit, with both sides taken by
/// their values.
pub open spec fn unit_dir_view(r: Result<(Vec<CbmDirListing>, CbmStatus), Rs1541Error>) -> Result<
    UnitDirView,
    Rs1541ErrorView,
> {
    match r {
        Ok(pair) => Ok(UnitDirView { listings: listing_views(pair.0@), status: pair.1@ }),
        Err(e) => Err(e@),
    }
}

/// The command that initialises drive `drive` of a unit.
fn init_command_of(drive: u8) -> (cmd: PetsciiString)
    requires
        drive <= 9,
    ensures
        cmd@ == init_command(drive),
{
    let mut bytes: Vec<u8> = Vec::new();
    bytes.push(0x69);
    bytes.push(0x30 + drive);
    proof {
        assert(bytes@ =~= seq![0x69u8, (0x30 + drive) as u8]);
    }
    crate::string::AsciiString::from_bytes_unchecked(bytes).to_petscii()
}

/// Whether `number` is among `ignore`.
fn is_ignored(ignore: &Vec<CbmErrorNumber>, number: CbmErrorNumber) -> (found: bool)
    ensures
        found == ignore@.contains(number),
{
    let mut i: usize = 0;
    while i < ignore.len()
        invariant
            i <= ignore.len(),
            forall|k: int| 0 <= k < i ==> ignore@[k] != number,
        decreases ignore.len() - i,
    {
        if ignore[i] == number {
            return true;
        }
        i = i + 1;
    }
    false
}

/// Initialises one drive of the device of the control channel `dc`.
fn init_drive(
    history: &[BusReply],
    at: &mut usize,
    dc: DeviceChannel,
    drive: u8,
    ignore: &Vec<CbmErrorNumber>,
) -> (turn: Turn<Result<CbmStatus, Rs1541Error>>)
    requires
        *old(at) <= history@.len(),
        drive <= 9,
    ensures
        *final(at) <= history@.len(),
        turn_is(
            turn,
            *final(at),
            init_flow(dc, drive, ignore@, replies(history@), *old(at) as int),
            |r: Result<CbmStatus, Rs1541Error>| crate::cbmtype::status_view(r),
        ),
{
    let cmd = init_command_of(drive);
    match send_command_petscii_locked(history, at, dc, &cmd) {
        Turn::Ask(request) => {
            return Turn::Ask(request);
        },
        Turn::Value(Err(e)) => {
            return Turn::Value(Err(e));
        },
        Turn::Value(Ok(_)) => {},
    }
    match get_status_locked(history, at, dc) {
        Turn::Ask(request) => Turn::Ask(request),
        Turn::Value(Err(e)) => Turn::Value(Err(e)),
        Turn::Value(Ok(status)) => {
            if status.is_ok() != CbmErrorNumberOk::Okay && !is_ignored(
                ignore,
                status.error_number,
            ) {
                Turn::Value(Err(Rs1541Error::Status { status }))
            } else {
                Turn::Value(Ok(status))
            }
        },
    }
}

/// Initialises the drives from `drive` up to, not including, `count`.
fn init_rounds(
    history: &[BusReply],
    at: &mut usize,
    dc: DeviceChannel,
    drive: u8,
    count: u8,
    ignore: &Vec<CbmErrorNumber>,
    results: Vec<Result<CbmStatus, Rs1541Error>>,
) -> (turn: Turn<Vec<Result<CbmStatus, Rs1541Error>>>)
    requires
        *old(at) <= history@.len(),
        count <= 2,
    ensures
        *final(at) <= history@.len(),
        turn_is(
            turn,
            *final(at),
            init_loop(
                dc,
                drive as int,
                count,
                ignore@,
                replies(history@),
                *old(at) as int,
                init_views(results@),
            ),
            |r: Vec<Result<CbmStatus, Rs1541Error>>| init_views(r@),
        ),
    decreases count - drive,
{
    if drive >= count {
        return Turn::Value(results);
    }
    match init_drive(history, at, dc, drive, ignore) {
        Turn::Ask(request) => Turn::Ask(request),
        Turn::Value(result) => {
            let mut results = results;
            let ghost before = init_views(results@);
            let ghost value = crate::cbmtype::status_view(result);
            results.push(result);
            proof {
                assert(init_views(results@) =~= before.push(value));
            }
            init_rounds(history, at, dc, drive + 1, count, ignore, results)
        },
    }
}

/// Reads the directories of the drives from `drive` up to, not including,
/// `count`.
fn unit_dir_rounds(
    history: &[BusReply],
    at: &mut usize,
    dc: DeviceChannel,
    load: DeviceChannel,
    drive: u8,
    count: u8,
    listings: Vec<CbmDirListing>,
    remembered: Option<CbmStatus>,
) -> (turn: Turn<Result<(Vec<CbmDirListing>, CbmStatus), Rs1541Error>>)
    requires
        *old(at) <= history@.len(),
        count <= 2,
    ensures
        *final(at) <= history@.len(),
        turn_is(
            turn,
            *final(at),
            unit_dir_loop(
                dc,
                load,
                drive as int,
                count,
                replies(history@),
                *old(at) as int,
                listing_views(listings@),
                match remembered {
                    Some(status) => Some(status@),
                    None => None,
                },
            ),
            |r: Result<(Vec<CbmDirListing>, CbmStatus), Rs1541Error>| unit_dir_view(r),
        ),
    decreases count - drive,
{
    if drive >= count {
        return match remembered {
            Some(status) => Turn::Value(Ok((listings, status))),
            None => match get_status_locked(history, at, dc) {
                Turn::Ask(request) => Turn::Ask(request),
                Turn::Value(Err(e)) => Turn::Value(Err(e)),
                Turn::Value(Ok(status)) => Turn::Value(Ok((listings, status))),
            },
        };
    }
    let named: Option<u8> = if count == 1 {
        None
    } else {
        Some(drive)
    };
    match dir_locked(history, at, load, named) {
        Turn::Ask(request) => Turn::Ask(request),
        Turn::Value(Err(Rs1541Error::Device { .. })) => unit_dir_rounds(
            history,
            at,
            dc,
            load,
            drive + 1,
            count,
            listings,
            remembered,
        ),
        Turn::Value(Err(Rs1541Error::Status { status })) => {
            let kept: Option<CbmStatus> = match remembered {
                Some(first) => Some(first),
                None => Some(status),
            };
            unit_dir_rounds(history, at, dc, load, drive + 1, count, listings, kept)
        },
        Turn::Value(Err(e)) => Turn::Value(Err(e)),
        Turn::Value(Ok(listing)) => {
            let mut listings = listings;
            let ghost before = listing_views(listings@);
            let ghost value = listing@;
            listings.push(listing);
            proof {
                assert(listing_views(listings@) =~= before.push(value));
            }
            unit_dir_rounds(history, at, dc, load, drive + 1, count, listings, remembered)
        },
    }
}

/// Whether every one of the `count` results of `step` reports that the
/// transport refused an argument.
pub open spec fn all_refused(
    step: Step<Vec<Result<CbmStatus, Rs1541Error>>>,
    device: u8,
    count: u8,
) -> bool {
    step matches Step::Finished(results) && results@.len() == count && forall|i: int|
        0 <= i < results@.len() ==> (#[trigger] results@[i] matches Err(e)
            && crate::channel::is_refusal(e, device, CBM_CHANNEL_CTRL))
}

impl CbmDriveUnit {
    /// Finds out whether device `device` is there, identifies it and makes a
    /// unit of it.
    pub fn try_from_bus(cbm: &Cbm, device: u8) -> (step: Step<Result<Self, Rs1541Error>>)
        ensures
            valid_device(device) ==> step_is(
                step,
                outcome(unit_flow(control(device), cbm@, 0)),
                |r: Result<CbmDriveUnit, Rs1541Error>| unit_view(r),
            ),
            !valid_device(device) ==> refused(step, device, CBM_CHANNEL_CTRL),
    {
        let history = cbm.replies();
        let dc = match DeviceChannel::new(device, CBM_CHANNEL_CTRL) {
            Ok(dc) => dc,
            Err(e) => {
                return Step::Finished(Err(e));
            },
        };
        let mut at: usize = 0;
        let there: bool = match drive_exists_locked(history, &mut at, dc) {
            Turn::Ask(request) => {
                return Step::Request(request);
            },
            Turn::Value(Err(e)) => {
                return Step::Finished(Err(e));
            },
            Turn::Value(Ok(there)) => there,
        };
        if !there {
            return Step::Finished(Err(DeviceError::no_device(device)));
        }
        match identify_locked(history, &mut at, dc) {
            Turn::Ask(request) => Step::Request(request),
            Turn::Value(Err(e)) => Step::Finished(Err(e)),
            Turn::Value(Ok(info)) => Step::Finished(Ok(CbmDriveUnit::new(device, info))),
        }
    }

    /// Gets the status of the unit. The unit is busy until the status is
    /// there.
    pub fn get_status(&mut self, cbm: &Cbm) -> (step: Step<Result<CbmStatus, Rs1541Error>>)
        ensures
            valid_device(old(self)@.device_number) ==> step_is(
                step,
                outcome(
                    status_flow(
                        old(self)@.device_number,
                        control(old(self)@.device_number),
                        cbm@,
                        0,
                    ),
                ),
                |r: Result<CbmStatus, Rs1541Error>| crate::cbmtype::status_view(r),
            ),
            !valid_device(old(self)@.device_number) ==> refused(
                step,
                old(self)@.device_number,
                CBM_CHANNEL_CTRL,
            ),
            final(self)@.busy == (step is Request),
            final(self)@.device_number == old(self)@.device_number,
            final(self)@.device_info == old(self)@.device_info,
            final(self)@.channels == old(self)@.channels,
    {
        let step = cbm.get_status(self.device_number);
        self.busy = match &step {
            Step::Request(_) => true,
            Step::Finished(_) => false,
        };
        step
    }

    /// Initialises every drive of the unit and returns one result for each.
    ///
    /// A drive counts as initialised where its status is a success or has an
    /// error number that is among `ignore_errors`. The unit is busy until the
    /// last drive is done.
    pub fn send_init(&mut self, cbm: &Cbm, ignore_errors: &Vec<CbmErrorNumber>) -> (step:
        Step<Vec<Result<CbmStatus, Rs1541Error>>>)
        ensures
            valid_device(old(self)@.device_number) ==> step_is(
                step,
                outcome(
                    init_loop(
                        control(old(self)@.device_number),
                        0,
                        old(self)@.device_info.device_type.drives(),
                        ignore_errors@,
                        cbm@,
                        0,
                        Seq::empty(),
                    ),
                ),
                |r: Vec<Result<CbmStatus, Rs1541Error>>| init_views(r@),
            ),
            !valid_device(old(self)@.device_number) ==> all_refused(
                step,
                old(self)@.device_number,
                old(self)@.device_info.device_type.drives(),
            ),
            final(self)@.busy == (step is Request),
            final(self)@.device_number == old(self)@.device_number,
            final(self)@.device_info == old(self)@.device_info,
            final(self)@.channels == old(self)@.channels,
    {
        let history = cbm.replies();
        let count: u8 = self.num_disk_drives();
        let mut results: Vec<Result<CbmStatus, Rs1541Error>> = Vec::new();
        proof {
            assert(init_views(results@) =~= Seq::empty());
        }
        let step = match DeviceChannel::new(self.device_number, CBM_CHANNEL_CTRL) {
            Ok(dc) => {
                let mut at: usize = 0;
                init_rounds(history, &mut at, dc, 0, count, ignore_errors, results).finish()
            },
            Err(_) => {
                let mut drive: u8 = 0;
                while drive < count
                    invariant
                        drive <= count,
                        !valid_device(self.device_number),
                        results@.len() == drive,
                        forall|i: int|
                            0 <= i < results@.len() ==> (#[trigger] results@[i] matches Err(e)
                                && crate::channel::is_refusal(
                                e,
                                self.device_number,
                                CBM_CHANNEL_CTRL,
                            )),
                    decreases count - drive,
                {
                    match DeviceChannel::new(self.device_number, CBM_CHANNEL_CTRL) {
                        Ok(_) => {},
                        Err(e) => {
                            results.push(Err(e));
                        },
                    }
                    drive = drive + 1;
                }
                Step::Finished(results)
            },
        };
        self.busy = match &step {
            Step::Request(_) => true,
            Step::Finished(_) => false,
        };
        step
    }

    /// Reads the directory of every drive of the unit.
    ///
    /// The result holds the directories that could be read, and a status: the
    /// first error status that a drive answered with, or, where none did, the
    /// status of the unit after the last directory.
    pub fn dir(&self, cbm: &Cbm) -> (step: Step<
        Result<(Vec<CbmDirListing>, CbmStatus), Rs1541Error>,
    >)
        ensures
            valid_device(self@.device_number) ==> step_is(
                step,
                outcome(
                    unit_dir_loop(
                        control(self@.device_number),
                        load_channel(self@.device_number),
                        0,
                        self@.device_info.device_type.drives(),
                        cbm@,
                        0,
                        Seq::empty(),
                        None,
                    ),
                ),
                |r: Result<(Vec<CbmDirListing>, CbmStatus), Rs1541Error>| unit_dir_view(r),
            ),
            !valid_device(self@.device_number) && self@.device_info.device_type.drives() == 0
                ==> refused(step, self@.device_number, CBM_CHANNEL_CTRL),
            !valid_device(self@.device_number) && self@.device_info.device_type.drives() != 0
                ==> bad_device(step, self@.device_number),
    {
        let history = cbm.replies();
        let count: u8 = self.num_disk_drives();
        let listings: Vec<CbmDirListing> = Vec::new();
        proof {
            assert(listing_views(listings@) =~= Seq::empty());
        }
        if count != 0 {
            match crate::validate::validate_device(
                Some(self.device_number),
                crate::validate::DeviceValidation::Required,
            ) {
                Ok(_) => {},
                Err(e) => {
                    return Step::Finished(Err(e));
                },
            }
        }
        let dc = match DeviceChannel::new(self.device_number, CBM_CHANNEL_CTRL) {
            Ok(dc) => dc,
            Err(e) => {
                return Step::Finished(Err(e));
            },
        };
        let load = match DeviceChannel::new(self.device_number, CBM_CHANNEL_LOAD) {
            Ok(load) => load,
            Err(e) => {
                return Step::Finished(Err(e));
            },
        };
        let mut at: usize = 0;
        unit_dir_rounds(history, &mut at, dc, load, 0, count, listings, None).finish()
    }
}


/// The making of a unit takes the replies in the order in which it asked for
/// them.
pub proof fn lemma_unit_settles(dc: DeviceChannel, h: Seq<BusReplyView>, at: int, k: int)
    requires
        0 <= at <= k <= h.len(),
    ensures
        settled(unit_flow(dc, h, at), unit_flow(dc, h.take(k), at), at, k, h.len() as int),
{
    lemma_exists_settles(dc, h, at, k);
    match exists_flow(dc, h, at) {
        Flow::Value(Ok(there), mid) => {
            if there {
                let next = if k >= mid {
                    k
                } else {
                    mid
                };
                lemma_identify_settles(dc, h, mid, next);
            }
        },
        _ => {},
    }
}

/// The initialising of a drive takes the replies in the order in which it
/// asked for them.
pub proof fn lemma_init_settles(
    dc: DeviceChannel,
    drive: u8,
    ignore: Seq<CbmErrorNumber>,
    h: Seq<BusReplyView>,
    at: int,
    k: int,
)
    requires
        0 <= at <= k <= h.len(),
    ensures
        settled(
            init_flow(dc, drive, ignore, h, at),
            init_flow(dc, drive, ignore, h.take(k), at),
            at,
            k,
            h.len() as int,
        ),
{
    lemma_send_command_settles(dc, init_command(drive), h, at, k);
    match send_command_flow(dc, init_command(drive), h, at) {
        Flow::Value(Ok(_), mid) => {
            let next = if k >= mid {
                k
            } else {
                mid
            };
            lemma_status_settles(dc.spec_device(), dc, h, mid, next);
        },
        _ => {},
    }
}

/// The initialising of the drives of a unit takes the replies in the order in
/// which it asked for them.
pub proof fn lemma_init_loop_settles(
    dc: DeviceChannel,
    drive: int,
    count: u8,
    ignore: Seq<CbmErrorNumber>,
    h: Seq<BusReplyView>,
    at: int,
    results: Seq<Result<CbmStatusView, Rs1541ErrorView>>,
    k: int,
)
    requires
        0 <= at <= k <= h.len(),
    ensures
        settled(
            init_loop(dc, drive, count, ignore, h, at, results),
            init_loop(dc, drive, count, ignore, h.take(k), at, results),
            at,
            k,
            h.len() as int,
        ),
    decreases count - drive,
{
    if 0 <= drive < count {
        lemma_init_settles(dc, drive as u8, ignore, h, at, k);
        match init_flow(dc, drive as u8, ignore, h, at) {
            Flow::Value(result, end) => {
                let next = if k >= end {
                    k
                } else {
                    end
                };
                lemma_init_loop_settles(
                    dc,
                    drive + 1,
                    count,
                    ignore,
                    h,
                    end,
                    results.push(result),
                    next,
                );
            },
            _ => {},
        }
    }
}

/// The reading of the directories of a unit takes the replies in the order
/// in which it asked for them.
pub proof fn lemma_unit_dir_settles(
    dc: DeviceChannel,
    load: DeviceChannel,
    drive: int,
    count: u8,
    h: Seq<BusReplyView>,
    at: int,
    listings: Seq<CbmDirListingView>,
    remembered: Option<CbmStatusView>,
    k: int,
)
    requires
        0 <= at <= k <= h.len(),
    ensures
        settled(
            unit_dir_loop(dc, load, drive, count, h, at, listings, remembered),
            unit_dir_loop(dc, load, drive, count, h.take(k), at, listings, remembered),
            at,
            k,
            h.len() as int,
        ),
    decreases count - drive,
{
    if 0 <= drive < count {
        let named = drive_to_name(count, drive as u8);
        lemma_dir_settles(load, named, h, at, k);
        match dir_flow(load, named, h, at) {
            Flow::Value(read, end) => {
                let next = if k >= end {
                    k
                } else {
                    end
                };
                match read {
                    Err(Rs1541ErrorView::Device { .. }) => {
                        lemma_unit_dir_settles(
                            dc,
                            load,
                            drive + 1,
                            count,
                            h,
                            end,
                            listings,
                            remembered,
                            next,
                        );
                    },
                    Err(Rs1541ErrorView::Status { status }) => {
                        lemma_unit_dir_settles(
                            dc,
                            load,
                            drive + 1,
                            count,
                            h,
                            end,
                            listings,
                            if remembered is Some {
                                remembered
                            } else {
                                Some(status)
                            },
                            next,
                        );
                    },
                    Err(_) => {},
                    Ok(listing) => {
                        lemma_unit_dir_settles(
                            dc,
                            load,
                            drive + 1,
                            count,
                            h,
                            end,
                            listings.push(listing),
                            remembered,
                            next,
                        );
                    },
                }
            },
            _ => {},
        }
    } else if remembered is None {
        lemma_status_settles(dc.spec_device(), dc, h, at, k);
    }
}

} // verus!
