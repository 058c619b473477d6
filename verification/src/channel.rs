//! Addresses on the bus and the bookkeeping of a drive's sixteen channels.

use crate::error::{Rs1541Error, TransportError, TransportErrorKind};
use crate::text::{decimal, push_decimal};
use std::collections::HashMap;
use vstd::prelude::*;
use vstd::string::StringExecFns;

verus! {

/// The channel on which a drive loads a file.
pub const CBM_CHANNEL_LOAD: u8 = 0;

/// The channel reserved for commands and status.
pub const CBM_CHANNEL_CTRL: u8 = 15;

/// The lowest device number on the bus.
pub const DEVICE_MIN_NUM: u8 = 8;

/// The highest device number on the bus.
pub const DEVICE_MAX_NUM: u8 = 30;

/// The number given to a drive where the caller names none.
pub const DEFAULT_DEVICE_NUM: u8 = 8;

/// The highest channel number of a drive.
pub const DRIVE_MAX_CHANNEL: u8 = 15;

/// Whether `device` and `channel` name a channel of a device on the bus.
pub open spec fn valid_device_channel(device: u8, channel: u8) -> bool {
    DEVICE_MIN_NUM <= device <= DEVICE_MAX_NUM && channel <= DRIVE_MAX_CHANNEL
}

/// The text with which the transport refuses a device number or a channel
/// number: it names the first of the two that is out of range, and the bound
/// that it breaks.
pub open spec fn refusal_text(device: u8, channel: u8) -> Seq<char> {
    "xum1541 library called with invalid arguments: "@ + if device < DEVICE_MIN_NUM {
        "Device number "@ + decimal(device as nat) + " is less than minimum "@ + decimal(
            DEVICE_MIN_NUM as nat,
        )
    } else if device > DEVICE_MAX_NUM {
        "Device number "@ + decimal(device as nat) + " is greater than maximum "@ + decimal(
            DEVICE_MAX_NUM as nat,
        )
    } else {
        "Channel number "@ + decimal(channel as nat) + " is greater than maximum "@ + decimal(
            DRIVE_MAX_CHANNEL as nat,
        )
    }
}

/// Whether `e` is the refusal of the pair of `device` and `channel` by the
/// transport. The error number of the refusal is the transport's own.
pub open spec fn is_refusal(e: Rs1541Error, device: u8, channel: u8) -> bool {
    e matches Rs1541Error::Xum1541(t) && t.kind == TransportErrorKind::Args && t.message@
        == refusal_text(device, channel)
}

/// Calls `xum1541::DeviceChannel::new` and hands back the pair that the value
/// it built reports through `device()` and `channel()`.
///
/// The transport accepts a device from 8 to 30 with a channel from 0 to 15. It
/// refuses every other pair with its `Args` error. The text of that error,
/// which names the number that is out of range, and its error number are
/// carried over as they are.
#[verifier::external_body]
fn transport_device_channel(device: u8, channel: u8) -> (r: Result<(u8, u8), TransportError>)
    ensures
        r is Ok <==> valid_device_channel(device, channel),
        r matches Ok(pair) ==> pair == (device, channel),
        r matches Err(e) ==> e.kind == TransportErrorKind::Args && e.message@ == refusal_text(
            device,
            channel,
        ),
{
    match xum1541::DeviceChannel::new(device, channel) {
        Ok(dc) => Ok((dc.device(), dc.channel())),
        Err(e) => Err(
            TransportError {
                kind: TransportErrorKind::Args,
                message: e.to_string(),
                errno: e.to_errno(),
            },
        ),
    }
}

/// One channel of one device on the bus. Every value of this type is valid:
/// the device number lies between 8 and 30 and the channel between 0 and 15.
#[derive(Debug, Clone, Copy, PartialEq, Eq, Structural)]
pub struct DeviceChannel {
    device: u8,
    channel: u8,
}

impl DeviceChannel {
    #[verifier::type_invariant]
    spec fn well_formed(self) -> bool {
        valid_device_channel(self.device, self.channel)
    }

    /// The device number.
    pub closed spec fn spec_device(&self) -> u8 {
        self.device
    }

    /// The channel number.
    pub closed spec fn spec_channel(&self) -> u8 {
        self.channel
    }

    /// The channel `channel` of device `device`.
    pub closed spec fn of(device: u8, channel: u8) -> DeviceChannel {
        DeviceChannel { device, channel }
    }

    /// The channel `channel` of device `device` has that device and that
    /// channel, and a channel is known by the two.
    pub broadcast proof fn lemma_of(device: u8, channel: u8)
        ensures
            (#[trigger] DeviceChannel::of(device, channel)).spec_device() == device,
            DeviceChannel::of(device, channel).spec_channel() == channel,
    {
    }

    /// The channel `channel` of device `device`, where the pair is valid, and
    /// the transport's error where it is not.
    pub fn new(device: u8, channel: u8) -> (r: Result<Self, Rs1541Error>)
        ensures
            r is Ok <==> valid_device_channel(device, channel),
            r matches Ok(dc) ==> dc == DeviceChannel::of(device, channel),
            r matches Ok(dc) ==> dc.spec_device() == device && dc.spec_channel() == channel,
            r matches Err(e) ==> is_refusal(e, device, channel),
    {
        match transport_device_channel(device, channel) {
            Ok(pair) => Ok(DeviceChannel { device: pair.0, channel: pair.1 }),
            Err(e) => Err(Rs1541Error::Xum1541(e)),
        }
    }

    /// The device number.
    #[verifier::when_used_as_spec(spec_device)]
    pub fn device(&self) -> (device: u8)
        ensures
            device == self.spec_device(),
            DEVICE_MIN_NUM <= device <= DEVICE_MAX_NUM,
    {
        proof {
            use_type_invariant(self);
        }
        self.device
    }

    /// The channel number.
    #[verifier::when_used_as_spec(spec_channel)]
    pub fn channel(&self) -> (channel: u8)
        ensures
            channel == self.spec_channel(),
            channel <= DRIVE_MAX_CHANNEL,
    {
        proof {
            use_type_invariant(self);
        }
        self.channel
    }

    /// The control channel of the same device.
    pub fn control(&self) -> (dc: DeviceChannel)
        ensures
            dc == DeviceChannel::of(self.spec_device(), CBM_CHANNEL_CTRL),
            dc.spec_device() == self.spec_device(),
            dc.spec_channel() == CBM_CHANNEL_CTRL,
    {
        proof {
            use_type_invariant(self);
        }
        DeviceChannel { device: self.device, channel: CBM_CHANNEL_CTRL }
    }

    /// The text `Device: d Channel: c`.
    pub open spec fn text(&self) -> Seq<char> {
        "Device: "@ + decimal(self.spec_device() as nat) + " Channel: "@ + decimal(
            self.spec_channel() as nat,
        )
    }

    /// The address as text.
    pub fn to_string(&self) -> (out: String)
        ensures
            out@ == self.text(),
    {
        let mut out = String::new();
        out.append("Device: ");
        push_decimal(&mut out, self.device as u64);
        out.append(" Channel: ");
        push_decimal(&mut out, self.channel as u64);
        out
    }
}


/// What a channel is in use for.
#[derive(Debug, Clone, Copy, PartialEq, Eq, Structural)]
pub enum CbmChannelPurpose {
    /// Commands and resets: the control channel only.
    Reset,
    /// Reading a directory.
    Directory,
    /// Reading a file.
    FileRead,
    /// Writing a file.
    FileWrite,
    /// Any other command.
    Command,
}

/// The record of one channel in use: its number, what it is used for, and the
/// sequence number that its allocation drew.
#[derive(Debug, Clone, Copy, PartialEq, Eq, Structural)]
pub struct CbmChannel {
    number: u8,
    purpose: CbmChannelPurpose,
    sequence: u64,
}

impl CbmChannel {
    /// The number of the channel.
    pub closed spec fn number(&self) -> u8 {
        self.number
    }

    /// What the channel is in use for.
    pub closed spec fn purpose(&self) -> CbmChannelPurpose {
        self.purpose
    }

    /// The sequence number that the allocation drew.
    pub closed spec fn sequence(&self) -> u64 {
        self.sequence
    }
}

/// Whether a channel may be given out for a purpose: the control channel for
/// `Reset` and for nothing else, every other channel for everything else.
pub open spec fn eligible(purpose: CbmChannelPurpose, channel: u8) -> bool {
    if purpose == CbmChannelPurpose::Reset {
        channel == CBM_CHANNEL_CTRL
    } else {
        channel < CBM_CHANNEL_CTRL
    }
}

/// The mathematical value of a [`CbmChannelManager`]: for each channel, what
/// holds it, and the next sequence number to draw.
pub struct ChannelTable {
    pub slots: Map<u8, Option<CbmChannel>>,
    pub next_sequence: u64,
}

impl ChannelTable {
    /// Whether `channel` is one of the sixteen channels and not in use.
    pub open spec fn free(self, channel: u8) -> bool {
        self.slots.contains_key(channel) && self.slots[channel] is None
    }

    /// Whether `channel` is in use.
    pub open spec fn in_use(self, channel: u8) -> bool {
        self.slots.contains_key(channel) && self.slots[channel] is Some
    }

    /// The table holds exactly the channels 0 to 15, each record stands under
    /// its own number, and the control channel is held for `Reset` only while
    /// no other channel is.
    pub open spec fn wf(self) -> bool {
        &&& forall|k: u8| self.slots.contains_key(k) <==> k <= DRIVE_MAX_CHANNEL
        &&& forall|k: u8| #[trigger]
            self.in_use(k) ==> self.slots[k]->0.number() == k && eligible(
                self.slots[k]->0.purpose(),
                k,
            )
    }

    /// Whether none of the sixteen channels is in use.
    pub open spec fn all_free(self) -> bool {
        forall|k: u8| k <= DRIVE_MAX_CHANNEL ==> #[trigger] self.free(k)
    }

    /// The table of a new manager: sixteen free channels, and 1 as the next
    /// sequence number.
    pub open spec fn fresh() -> ChannelTable {
        ChannelTable {
            slots: Map::new(|k: u8| k <= DRIVE_MAX_CHANNEL, |k: u8| None::<CbmChannel>),
            next_sequence: 1,
        }
    }

    /// Whether `post` and `result` are what allocating a channel for `purpose`
    /// makes of `self`.
    ///
    /// The lowest free channel that is eligible for the purpose is taken and
    /// recorded with the next sequence number. Where no eligible channel is
    /// free, nothing changes and nothing is returned.
    pub open spec fn allocates(
        self,
        purpose: CbmChannelPurpose,
        post: ChannelTable,
        result: Option<u8>,
    ) -> bool {
        match result {
            Some(channel) => {
                &&& eligible(purpose, channel)
                &&& self.free(channel)
                &&& forall|k: u8| k < channel && eligible(purpose, k) ==> !#[trigger] self.free(k)
                &&& post.in_use(channel)
                &&& post.slots[channel]->0.number() == channel
                &&& post.slots[channel]->0.purpose() == purpose
                &&& post.slots[channel]->0.sequence() == self.next_sequence
                &&& post.slots == self.slots.insert(channel, post.slots[channel])
                &&& post.next_sequence == if self.next_sequence == u64::MAX {
                    0
                } else {
                    (self.next_sequence + 1) as u64
                }
            },
            None => {
                &&& forall|k: u8| eligible(purpose, k) ==> !#[trigger] self.free(k)
                &&& post == self
            },
        }
    }

    /// Whether `post` is `self` with every channel set free. The sequence
    /// numbers go on from where they were.
    pub open spec fn resets_to(self, post: ChannelTable) -> bool {
        &&& post.wf()
        &&& post.all_free()
        &&& post.next_sequence == self.next_sequence
    }
}

/// Keeps track of which of the sixteen channels of a drive are in use.
#[derive(Debug)]
pub struct CbmChannelManager {
    channels: HashMap<u8, Option<CbmChannel>>,
    next_sequence: u64,
}

impl View for CbmChannelManager {
    type V = ChannelTable;

    closed spec fn view(&self) -> ChannelTable {
        ChannelTable { slots: self.channels@, next_sequence: self.next_sequence }
    }
}

impl Clone for CbmChannelManager {
    fn clone(&self) -> (copy: Self)
        ensures
            copy@ == self@,
    {
        proof {
            use_type_invariant(self);
        }
        CbmChannelManager { channels: self.channels.clone(), next_sequence: self.next_sequence }
    }
}

impl CbmChannelManager {
    #[verifier::type_invariant]
    spec fn well_formed(self) -> bool {
        self@.wf()
    }

    /// A manager with all sixteen channels free. Sequence numbers start at 1.
    pub fn new() -> (manager: Self)
        ensures
            manager@ == ChannelTable::fresh(),
            manager@.wf(),
            manager@.all_free(),
            manager@.next_sequence == 1,
    {
        broadcast use vstd::std_specs::hash::group_hash_axioms;

        let mut channels: HashMap<u8, Option<CbmChannel>> = HashMap::new();
        let mut i: u8 = 0;
        while i <= DRIVE_MAX_CHANNEL
            invariant
                i <= DRIVE_MAX_CHANNEL + 1,
                forall|k: u8| channels@.contains_key(k) <==> k < i,
                forall|k: u8| k < i ==> channels@[k] is None,
            decreases DRIVE_MAX_CHANNEL + 1 - i,
        {
            channels.insert(i, None);
            i = i + 1;
        }
        proof {
            assert(channels@ =~= ChannelTable::fresh().slots);
        }
        CbmChannelManager { channels, next_sequence: 1 }
    }

    /// Takes a channel for `purpose`: the control channel for `Reset`, the
    /// lowest free channel below it for anything else. Returns the channel, or
    /// `None` where no eligible channel is free.
    pub fn allocate(&mut self, _device_number: u8, _drive_id: u8, purpose: CbmChannelPurpose) -> (r:
        Option<u8>)
        ensures
            old(self)@.allocates(purpose, final(self)@, r),
            final(self)@.wf(),
            purpose == CbmChannelPurpose::Reset ==> (r is Some <==> old(self)@.free(
                CBM_CHANNEL_CTRL,
            )),
    {
        broadcast use vstd::std_specs::hash::group_hash_axioms;

        proof {
            use_type_invariant(&*self);
        }
        if purpose == CbmChannelPurpose::Reset {
            let free: bool = match self.channels.get(&CBM_CHANNEL_CTRL) {
                Some(slot) => slot.is_none(),
                None => false,
            };
            if free {
                self.take(CBM_CHANNEL_CTRL, purpose);
                return Some(CBM_CHANNEL_CTRL);
            }
            return None;
        }
        let mut i: u8 = 0;
        while i < CBM_CHANNEL_CTRL
            invariant
                i <= CBM_CHANNEL_CTRL,
                purpose != CbmChannelPurpose::Reset,
                self@ == old(self)@,
                self@.wf(),
                forall|k: u8| k < i ==> !#[trigger] self@.free(k),
            decreases CBM_CHANNEL_CTRL - i,
        {
            let free: bool = match self.channels.get(&i) {
                Some(slot) => slot.is_none(),
                None => false,
            };
            if free {
                self.take(i, purpose);
                return Some(i);
            }
            i = i + 1;
        }
        None
    }

    /// Records `channel` as in use for `purpose` and draws a sequence number.
    fn take(&mut self, channel: u8, purpose: CbmChannelPurpose)
        requires
            old(self)@.wf(),
            old(self)@.free(channel),
            eligible(purpose, channel),
        ensures
            final(self)@.wf(),
            final(self)@.in_use(channel),
            final(self)@.slots[channel]->0.number() == channel,
            final(self)@.slots[channel]->0.purpose() == purpose,
            final(self)@.slots[channel]->0.sequence() == old(self)@.next_sequence,
            final(self)@.slots == old(self)@.slots.insert(channel, final(self)@.slots[channel]),
            final(self)@.next_sequence == if old(self)@.next_sequence == u64::MAX {
                0
            } else {
                (old(self)@.next_sequence + 1) as u64
            },
    {
        broadcast use vstd::std_specs::hash::group_hash_axioms;

        let sequence: u64 = self.next_sequence;
        let mut channels = self.channels.clone();
        channels.insert(channel, Some(CbmChannel { number: channel, purpose, sequence }));
        proof {
            let before = self@;
            let after = ChannelTable { slots: channels@, next_sequence: self.next_sequence };
            assert forall|k: u8| #[trigger] after.in_use(k) implies after.slots[k]->0.number() == k
                && eligible(after.slots[k]->0.purpose(), k) by {
                if k != channel {
                    assert(before.in_use(k));
                }
            }
            assert(after.wf());
        }
        self.channels = channels;
        proof {
            let before = self@;
            let after = ChannelTable {
                slots: before.slots,
                next_sequence: sequence.wrapping_add(1),
            };
            assert forall|k: u8| #[trigger] after.in_use(k) implies after.slots[k]->0.number() == k
                && eligible(after.slots[k]->0.purpose(), k) by {
                assert(before.in_use(k));
            }
        }
        self.next_sequence = sequence.wrapping_add(1);
    }

    /// Sets every channel free.
    pub fn reset(&mut self)
        ensures
            old(self)@.resets_to(final(self)@),
    {
        broadcast use vstd::std_specs::hash::group_hash_axioms;

        let mut channels: HashMap<u8, Option<CbmChannel>> = HashMap::new();
        let mut i: u8 = 0;
        while i <= DRIVE_MAX_CHANNEL
            invariant
                i <= DRIVE_MAX_CHANNEL + 1,
                forall|k: u8| channels@.contains_key(k) <==> k < i,
                forall|k: u8| k < i ==> channels@[k] is None,
            decreases DRIVE_MAX_CHANNEL + 1 - i,
        {
            channels.insert(i, None);
            i = i + 1;
        }
        self.channels = channels;
    }
}


/// The control channel is given out for `Reset` and for no other purpose, and
/// `Reset` is given no other channel.
pub proof fn lemma_control_channel_is_reserved(
    pre: ChannelTable,
    purpose: CbmChannelPurpose,
    post: ChannelTable,
    channel: u8,
)
    requires
        pre.allocates(purpose, post, Some(channel)),
    ensures
        channel == CBM_CHANNEL_CTRL <==> purpose == CbmChannelPurpose::Reset,
        channel <= DRIVE_MAX_CHANNEL,
{
}

/// An allocation keeps the table well formed and leaves every channel that
/// was in use with the record it had.
pub proof fn lemma_allocation_keeps_records(
    pre: ChannelTable,
    purpose: CbmChannelPurpose,
    post: ChannelTable,
    result: Option<u8>,
    channel: u8,
)
    requires
        pre.wf(),
        pre.allocates(purpose, post, result),
        pre.in_use(channel),
    ensures
        post.wf(),
        post.in_use(channel),
        post.slots[channel] == pre.slots[channel],
        result != Some(channel),
{
    lemma_allocation_well_formed(pre, purpose, post, result);
}

/// Whether step `i` of a run is an allocation for `purposes[i]` that leads
/// from `tables[i]` to `tables[i + 1]` and returns `results[i]`.
pub open spec fn allocation_step(
    tables: Seq<ChannelTable>,
    purposes: Seq<CbmChannelPurpose>,
    results: Seq<Option<u8>>,
    i: int,
) -> bool {
    tables[i].allocates(purposes[i], tables[i + 1], results[i])
}

/// Whether `tables`, `purposes` and `results` record a run of allocations
/// with nothing in between, starting from a well-formed table.
pub open spec fn allocation_run(
    tables: Seq<ChannelTable>,
    purposes: Seq<CbmChannelPurpose>,
    results: Seq<Option<u8>>,
) -> bool {
    &&& tables.len() == purposes.len() + 1
    &&& results.len() == purposes.len()
    &&& tables[0].wf()
    &&& forall|i: int|
        0 <= i < purposes.len() ==> #[trigger] allocation_step(tables, purposes, results, i)
}

/// A channel that one allocation of a run gave out is in use, with the
/// purpose it was given out for, after every later step of the run.
pub proof fn lemma_allocation_lasts(
    tables: Seq<ChannelTable>,
    purposes: Seq<CbmChannelPurpose>,
    results: Seq<Option<u8>>,
    i: int,
    j: int,
)
    requires
        allocation_run(tables, purposes, results),
        0 <= i < j <= purposes.len(),
        results[i] is Some,
    ensures
        tables[j].wf(),
        tables[j].in_use(results[i]->0),
        tables[j].slots[results[i]->0]->0.purpose() == purposes[i],
    decreases j,
{
    lemma_run_well_formed(tables, purposes, results, j - 1);
    assert(allocation_step(tables, purposes, results, j - 1));
    if j == i + 1 {
        lemma_allocation_well_formed(tables[i], purposes[i], tables[j], results[i]);
    } else {
        lemma_allocation_lasts(tables, purposes, results, i, j - 1);
        lemma_allocation_keeps_records(
            tables[j - 1],
            purposes[j - 1],
            tables[j],
            results[j - 1],
            results[i]->0,
        );
    }
}

/// An allocation keeps the table well formed.
pub proof fn lemma_allocation_well_formed(
    pre: ChannelTable,
    purpose: CbmChannelPurpose,
    post: ChannelTable,
    result: Option<u8>,
)
    requires
        pre.wf(),
        pre.allocates(purpose, post, result),
    ensures
        post.wf(),
{
    match result {
        Some(taken) => {
            assert forall|k: u8| #[trigger] post.in_use(k) implies post.slots[k]->0.number() == k
                && eligible(post.slots[k]->0.purpose(), k) by {
                if k != taken {
                    assert(pre.in_use(k));
                }
            }
        },
        None => {},
    }
}

/// Every table of a run of allocations is well formed.
pub proof fn lemma_run_well_formed(
    tables: Seq<ChannelTable>,
    purposes: Seq<CbmChannelPurpose>,
    results: Seq<Option<u8>>,
    j: int,
)
    requires
        allocation_run(tables, purposes, results),
        0 <= j <= purposes.len(),
    ensures
        tables[j].wf(),
    decreases j,
{
    if j > 0 {
        lemma_run_well_formed(tables, purposes, results, j - 1);
        assert(allocation_step(tables, purposes, results, j - 1));
        lemma_allocation_well_formed(tables[j - 1], purposes[j - 1], tables[j], results[j - 1]);
    }
}

/// No two allocations of a run with nothing in between give out the same
/// channel.
pub proof fn lemma_allocations_are_distinct(
    tables: Seq<ChannelTable>,
    purposes: Seq<CbmChannelPurpose>,
    results: Seq<Option<u8>>,
    i: int,
    j: int,
)
    requires
        allocation_run(tables, purposes, results),
        0 <= i < j < purposes.len(),
        results[i] is Some,
        results[j] is Some,
    ensures
        results[i] != results[j],
{
    lemma_allocation_lasts(tables, purposes, results, i, j);
    assert(allocation_step(tables, purposes, results, j));
}

/// Resetting twice in a row leaves all sixteen channels free both times, and
/// the second reset changes nothing.
pub proof fn lemma_reset_is_idempotent(pre: ChannelTable, once: ChannelTable, twice: ChannelTable)
    requires
        pre.resets_to(once),
        once.resets_to(twice),
    ensures
        once.all_free(),
        twice.all_free(),
        twice == once,
{
    assert forall|k: u8| once.slots.contains_key(k) implies once.slots[k] == twice.slots[k] by {
        assert(once.free(k));
        assert(twice.free(k));
    }
    assert(once.slots =~= twice.slots);
}

} // verus!
