//! The decision logic of the USB control protocol and of the flash update
//! task.
//!
//! A USB control callback must not block: each request is answered by a
//! fast decision that validates, queues work and reports accepted or
//! rejected. The slow work — erasing and writing flash, flushing the panel,
//! rebooting — is described by the returned action or by a queued
//! operation, and an unverified shell performs it. The channels below model
//! the depth-one queues and the single-slot status signal that connect the
//! pieces.

use vstd::bytes::{spec_u16_to_le_bytes, u16_to_le_bytes};
use vstd::prelude::*;
use vstd::slice::{slice_subrange, slice_to_vec};
use vstd::string::StrSliceExecFns;
use vstd::utf8::encode_utf8;

use crate::badge::{menu_bytes, valid_state_bytes, CurrentMenu, Sysbadge, STATE_LEN};
use crate::binfmt::{roster_spec, valid_roster, SystemReader};
use crate::system::System;
use crate::usb::{BootSel, SystemId, SystemUpdateStatus};
use crate::Button;

verus! {

/// The depth-one channel that carries button presses from the buttons (or
/// from the host, via `ButtonPress`) to the redraw task.
#[derive(Eq, PartialEq, Debug, Clone, Copy)]
pub struct ButtonChannel {
    pub slot: Option<Button>,
}

impl ButtonChannel {
    pub fn new() -> (r: ButtonChannel)
        ensures
            r.slot is None,
    {
        ButtonChannel { slot: None }
    }

    /// Queues a press if the channel has room; reports back-pressure
    /// otherwise.
    pub fn try_send(&mut self, button: Button) -> (ok: bool)
        ensures
            ok <==> old(self).slot is None,
            ok ==> final(self).slot == Some(button),
            !ok ==> *final(self) == *old(self),
    {
        if self.slot.is_none() {
            self.slot = Some(button);
            true
        } else {
            false
        }
    }

    /// Takes the queued press, if any.
    pub fn recv(&mut self) -> (r: Option<Button>)
        ensures
            r == old(self).slot,
            final(self).slot is None,
    {
        let r = self.slot;
        self.slot = None;
        r
    }
}

/// One operation for the flash update task.
#[derive(Eq, PartialEq, Debug, Clone)]
pub enum FlashOp {
    /// Erase the whole roster region.
    EraseSystem,
    /// Write a bounded chunk at a region-relative offset.
    WriteChunk { offset: u16, bytes: Vec<u8> },
}

/// The state shared between the protocol handler and the flash update
/// task: a depth-one request channel, the in-flight flag the task holds
/// while an operation runs, and the single-slot, latest-wins status signal
/// the handler's status poll consumes.
#[derive(Eq, PartialEq, Debug, Clone)]
pub struct UpdateChannel {
    pub queued: Option<FlashOp>,
    pub in_flight: bool,
    pub status: Option<SystemUpdateStatus>,
}

impl UpdateChannel {
    pub fn new() -> (r: UpdateChannel)
        ensures
            r.queued is None,
            !r.in_flight,
            r.status is None,
    {
        UpdateChannel { queued: None, in_flight: false, status: None }
    }

    /// Queues an operation if the channel has room; reports back-pressure
    /// otherwise.
    pub fn try_send(&mut self, op: FlashOp) -> (ok: bool)
        ensures
            ok <==> old(self).queued is None,
            ok ==> *final(self) == (UpdateChannel { queued: Some(op), ..*old(self) }),
            !ok ==> *final(self) == *old(self),
    {
        if self.queued.is_none() {
            self.queued = Some(op);
            true
        } else {
            false
        }
    }

    /// Publishes a status without touching the rest of the channel; used
    /// when entering update mode.
    pub fn signal(&mut self, status: SystemUpdateStatus)
        ensures
            *final(self) == (UpdateChannel { status: Some(status), ..*old(self) }),
    {
        self.status = Some(status);
    }

    /// Takes the queued operation, raising the in-flight flag if there is
    /// one; the task calls this at the start of each round.
    pub fn begin(&mut self) -> (op: Option<FlashOp>)
        ensures
            op == old(self).queued,
            final(self).queued is None,
            final(self).in_flight == (old(self).queued is Some || old(self).in_flight),
            final(self).status == old(self).status,
    {
        let op = self.queued.take();
        if op.is_some() {
            self.in_flight = true;
        }
        op
    }

    /// Publishes an operation's outcome and drops the in-flight flag; a
    /// status that was never polled is overwritten.
    pub fn finish(&mut self, status: SystemUpdateStatus)
        ensures
            *final(self) == (UpdateChannel {
                in_flight: false,
                status: Some(status),
                ..*old(self)
            }),
    {
        self.in_flight = false;
        self.status = Some(status);
    }

    /// Answers a status poll: a running operation reports `Writing`, else
    /// the latest completed outcome is consumed, else the device is not in
    /// update mode.
    pub fn poll(&mut self) -> (st: SystemUpdateStatus)
        ensures
            old(self).in_flight ==> st == SystemUpdateStatus::Writing && *final(self) == *old(
                self,
            ),
            old(self).status matches Some(s) ==> (!old(self).in_flight ==> st == s && *final(self)
                == (UpdateChannel { status: None, ..*old(self) })),
            !old(self).in_flight && old(self).status is None ==> st
                == SystemUpdateStatus::NotInUpdateMode && *final(self) == *old(self),
    {
        if self.in_flight {
            SystemUpdateStatus::Writing
        } else {
            match self.status.take() {
                Some(s) => s,
                Option::None => SystemUpdateStatus::NotInUpdateMode,
            }
        }
    }
}

/// An in-memory stand-in for the flash region that holds the roster blob:
/// a byte buffer that believes it sits at a fixed base address. On the
/// device the same role is played by the real flash driver.
#[derive(Eq, PartialEq, Debug, Clone)]
pub struct FlashRegion {
    /// The absolute address the region's first byte answers to.
    pub base: u32,
    /// The region's bytes.
    pub data: Vec<u8>,
}

impl FlashRegion {
    /// A region of `size` bytes at `base`, in the erased state.
    pub fn new(base: u32, size: usize) -> (r: FlashRegion)
        ensures
            r.base == base,
            r.data@ == Seq::new(size as nat, |i: int| 0xffu8),
    {
        let mut data: Vec<u8> = Vec::new();
        let mut i: usize = 0;
        while i < size
            invariant
                i <= size,
                data@.len() == i,
                forall|j: int| 0 <= j < i ==> data@[j] == 0xffu8,
            decreases size - i,
        {
            data.push(0xff);
            i = i + 1;
        }
        proof {
            assert(data@ =~= Seq::new(size as nat, |i: int| 0xffu8));
        }
        FlashRegion { base, data }
    }

    /// Erases the whole region to `0xff`, as a flash erase does.
    pub fn erase(&mut self)
        ensures
            final(self).base == old(self).base,
            final(self).data@ == Seq::new(old(self).data@.len(), |i: int| 0xffu8),
    {
        let n = self.data.len();
        let mut i: usize = 0;
        while i < n
            invariant
                i <= n,
                self.data@.len() == n,
                self.base == old(self).base,
                forall|j: int| 0 <= j < i ==> self.data@[j] == 0xffu8,
            decreases n - i,
        {
            self.data.set(i, 0xff);
            i = i + 1;
        }
        proof {
            assert(self.data@ =~= Seq::new(old(self).data@.len(), |i: int| 0xffu8));
        }
    }

    /// Writes `bytes` at a region-relative offset; refuses a write that
    /// would reach outside the region and then changes nothing.
    pub fn write(&mut self, offset: usize, bytes: &[u8]) -> (ok: bool)
        ensures
            final(self).base == old(self).base,
            ok <==> offset + bytes@.len() <= old(self).data@.len(),
            ok ==> final(self).data@ == old(self).data@.subrange(0, offset as int).add(
                bytes@,
            ).add(
                old(self).data@.subrange(
                    offset + bytes@.len(),
                    old(self).data@.len() as int,
                ),
            ),
            !ok ==> *final(self) == *old(self),
    {
        let n = self.data.len();
        let m = bytes.len();
        if m > n || offset > n - m {
            return false;
        }
        let mut i: usize = 0;
        while i < m
            invariant
                i <= m,
                m == bytes@.len(),
                offset + m <= n,
                self.data@.len() == n,
                self.base == old(self).base,
                forall|j: int| 0 <= j < i ==> self.data@[offset + j] == bytes@[j],
                forall|j: int| 0 <= j < offset ==> self.data@[j] == old(self).data@[j],
                forall|j: int| offset + m <= j < n ==> self.data@[j] == old(self).data@[j],
                forall|j: int| i <= j < m ==> #[trigger] self.data@[offset + j] == old(
                    self,
                ).data@[offset + j],
            decreases m - i,
        {
            self.data.set(offset + i, *vstd::slice::slice_index_get(bytes, i));
            i = i + 1;
        }
        proof {
            assert(self.data@ =~= old(self).data@.subrange(0, offset as int).add(bytes@).add(
                old(self).data@.subrange(offset + m, n as int),
            ));
        }
        true
    }
}

/// Maps an operation's outcome to the status the task publishes: failures
/// are reported apart for erases and writes, and are terminal for the
/// attempt.
pub fn op_status(was_erase: bool, ok: bool) -> (st: SystemUpdateStatus)
    ensures
        was_erase && ok ==> st == SystemUpdateStatus::ErasedForUpdate,
        was_erase && !ok ==> st == SystemUpdateStatus::EraseError,
        !was_erase && ok ==> st == SystemUpdateStatus::Written,
        !was_erase && !ok ==> st == SystemUpdateStatus::WriteError,
{
    if was_erase {
        if ok {
            SystemUpdateStatus::ErasedForUpdate
        } else {
            SystemUpdateStatus::EraseError
        }
    } else {
        if ok {
            SystemUpdateStatus::Written
        } else {
            SystemUpdateStatus::WriteError
        }
    }
}

/// One round of the flash update task against the in-memory region: take
/// the queued operation, perform it, and publish the outcome. With no
/// operation queued, nothing changes.
pub fn update_task_step(chan: &mut UpdateChannel, flash: &mut FlashRegion)
    ensures
        final(flash).base == old(flash).base,
        final(chan).queued is None,
        old(chan).queued is None ==> *final(chan) == (UpdateChannel {
            queued: None,
            ..*old(chan)
        }) && *final(flash) == *old(flash),
        old(chan).queued == Some(FlashOp::EraseSystem) ==> {
            &&& final(flash).data@ == Seq::new(old(flash).data@.len(), |i: int| 0xffu8)
            &&& !final(chan).in_flight
            &&& final(chan).status == Some(SystemUpdateStatus::ErasedForUpdate)
        },
        old(chan).queued matches Some(FlashOp::WriteChunk { offset, bytes }) ==> {
            &&& !final(chan).in_flight
            &&& if offset + bytes@.len() <= old(flash).data@.len() {
                &&& final(chan).status == Some(SystemUpdateStatus::Written)
                &&& final(flash).data@ == old(flash).data@.subrange(0, offset as int).add(
                    bytes@,
                ).add(
                    old(flash).data@.subrange(
                        offset + bytes@.len(),
                        old(flash).data@.len() as int,
                    ),
                )
            } else {
                &&& final(chan).status == Some(SystemUpdateStatus::WriteError)
                &&& *final(flash) == *old(flash)
            }
        },
{
    match chan.begin() {
        Option::None => {},
        Some(FlashOp::EraseSystem) => {
            flash.erase();
            let st = op_status(true, true);
            chan.finish(st);
        },
        Some(FlashOp::WriteChunk { offset, bytes }) => {
            let ok = flash.write(offset as usize, bytes.as_slice());
            let st = op_status(false, ok);
            chan.finish(st);
        },
    }
}

/// One control transfer's header, as the USB stack hands it to the
/// handler.
#[derive(Eq, PartialEq, Structural, Debug, Clone, Copy)]
pub struct ControlRequest {
    /// The request type is vendor-specific.
    pub vendor: bool,
    /// The request is addressed to an interface.
    pub recipient_interface: bool,
    /// The vendor request code.
    pub request: u8,
    /// The request's value word.
    pub value: u16,
    /// The request's index word: the addressed interface.
    pub index: u16,
    /// The length of the data stage.
    pub length: u16,
}

/// The handler's answer to a host-to-device transfer.
#[derive(Eq, PartialEq, Structural, Debug, Clone, Copy)]
pub enum OutResponse {
    Accepted,
    Rejected,
}

/// The slow work a host-to-device transfer asks of the shell around the
/// handler; the handler itself never blocks.
#[derive(Eq, PartialEq, Structural, Debug, Clone, Copy)]
pub enum OutAction {
    /// No hardware action.
    Nothing,
    /// Redraw the panel.
    Redraw,
    /// Reboot into the given target.
    Reboot(BootSel),
}

/// The handler's answer to a device-to-host transfer: payload bytes, a
/// rejection, or a datum only the flash hardware can supply, which the
/// shell fetches and sends itself.
#[derive(Eq, PartialEq, Debug, Clone)]
pub enum InReply {
    /// The payload to send.
    Data(Vec<u8>),
    Rejected,
    /// Send the flash chip's JEDEC id.
    FetchJedec,
    /// Send the flash chip's unique id.
    FetchUniqueId,
}

/// The vendor control handler: the interface it answers for and the
/// version data it serves.
#[derive(Eq, PartialEq, Debug, Clone)]
pub struct UsbHandler {
    /// The interface number the handler claims.
    pub comm_if: u16,
    /// The firmware's semantic version string, as bytes.
    pub version: Vec<u8>,
    /// The firmware's build matrix string, as bytes.
    pub matrix: Vec<u8>,
}

/// The wire form of a provider id: the provider's code byte followed by
/// the id string's bytes.
pub open spec fn system_id_bytes(id: SystemId) -> Seq<u8> {
    match id {
        SystemId::Unspecified => seq![0u8],
        SystemId::PluralKit(s) => seq![1u8] + encode_utf8(s@),
        SystemId::PronounsCC(s) => seq![2u8] + encode_utf8(s@),
    }
}

/// A member count clamped to the 16-bit field that carries it.
pub open spec fn clamp_count(n: int) -> u16 {
    if n > 0xffff {
        0xffffu16
    } else {
        n as u16
    }
}

/// Whether a transfer is addressed to this handler at all; everything else
/// is left to other handlers.
pub open spec fn relevant(h: UsbHandler, req: ControlRequest) -> bool {
    req.vendor && req.recipient_interface && req.index == h.comm_if
}

/// What one host-to-device transfer does: the response, the action handed
/// to the shell, and how the badge, the button channel and the update
/// channel change. `data` is the transfer's data stage and `flash` the
/// roster region as the update task has left it.
pub open spec fn control_out_spec(
    h: UsbHandler,
    req: ControlRequest,
    data: Seq<u8>,
    flash: FlashRegion,
    b0: Sysbadge<SystemReader>,
    b1: Sysbadge<SystemReader>,
    bu0: ButtonChannel,
    bu1: ButtonChannel,
    ch0: UpdateChannel,
    ch1: UpdateChannel,
    r: Option<OutResponse>,
    act: OutAction,
) -> bool {
    if !relevant(h, req) {
        r is None && act == OutAction::Nothing && b1 == b0 && bu1 == bu0 && ch1 == ch0
    } else if req.request == 0x00 {
        // ButtonPress: queue the pressed button for the redraw task;
        // back-pressure when a press is already waiting.
        &&& act == OutAction::Nothing
        &&& b1 == b0
        &&& ch1 == ch0
        &&& if req.value as u8 > 6 {
            r == Some(OutResponse::Rejected) && bu1 == bu0
        } else if bu0.slot is None {
            &&& r == Some(OutResponse::Accepted)
            &&& bu1.slot matches Some(btn) && btn.spec_code() == req.value as u8
        } else {
            r == Some(OutResponse::Rejected) && bu1 == bu0
        }
    } else if req.request == 0x06 {
        // SetState: accepted only for a payload of exactly the wire size
        // that decodes to a well-formed menu state.
        &&& act == OutAction::Nothing
        &&& bu1 == bu0
        &&& ch1 == ch0
        &&& if req.length == STATE_LEN as u16 && data.len() >= STATE_LEN && valid_state_bytes(
            data.subrange(0, STATE_LEN as int),
        ) {
            &&& r == Some(OutResponse::Accepted)
            &&& b1.current.wf()
            &&& menu_bytes(b1.current) == data.subrange(0, STATE_LEN as int)
            &&& b1.system == b0.system
            &&& b1.serial == b0.serial
            &&& b1.hash == b0.hash
        } else {
            r == Some(OutResponse::Rejected) && b1 == b0
        }
    } else if req.request == 0x07 {
        // UpdateDisplay: the shell redraws.
        &&& r == Some(OutResponse::Accepted)
        &&& act == OutAction::Redraw
        &&& b1 == b0
        &&& bu1 == bu0
        &&& ch1 == ch0
    } else if req.request == 0x09 {
        // Reboot: a plain application reboot is not served; the bootloader
        // targets map to hardware masks the shell applies.
        &&& b1 == b0
        &&& bu1 == bu0
        &&& ch1 == ch0
        &&& if req.value as u8 == 1 {
            r == Some(OutResponse::Accepted) && act == OutAction::Reboot(BootSel::Bootloader)
        } else if req.value as u8 == 2 {
            r == Some(OutResponse::Accepted) && act == OutAction::Reboot(BootSel::MassStorage)
        } else if req.value as u8 == 3 {
            r == Some(OutResponse::Accepted) && act == OutAction::Reboot(BootSel::PicoBoot)
        } else {
            r == Some(OutResponse::Rejected) && act == OutAction::Nothing
        }
    } else if req.request == 0x0a {
        // SystemUpload: enter update mode, optionally queueing an erase;
        // rejected while an update sequence is already running.
        &&& act == OutAction::Nothing
        &&& bu1 == bu0
        &&& if b0.current is Updating {
            r == Some(OutResponse::Rejected) && b1 == b0 && ch1 == ch0
        } else if req.value == 1 && ch0.queued is Some {
            r == Some(OutResponse::Rejected) && b1 == b0 && ch1 == ch0
        } else {
            &&& r == Some(OutResponse::Accepted)
            &&& b1 == (Sysbadge { current: CurrentMenu::Updating, ..b0 })
            &&& ch1 == (UpdateChannel {
                queued: if req.value == 1 {
                    Some(FlashOp::EraseSystem)
                } else {
                    ch0.queued
                },
                in_flight: ch0.in_flight,
                status: Some(SystemUpdateStatus::ReadyForUpdate),
            })
        }
    } else if req.request == 0x0b {
        // SystemDNLoad: a non-empty, word-aligned chunk of at most 64
        // bytes within the region is queued for the update task; an empty
        // transfer finalizes: with no write in flight, the region is
        // re-validated and only a valid blob replaces the live roster.
        &&& act == OutAction::Nothing
        &&& bu1 == bu0
        &&& if req.length == 0 {
            if ch0.in_flight || !(b0.current is Updating) {
                r == Some(OutResponse::Rejected) && b1 == b0 && ch1 == ch0
            } else if valid_roster(flash.data@, flash.base) {
                &&& r == Some(OutResponse::Accepted)
                &&& b1.system matches Some(rd) && rd.sys() == roster_spec(flash.data@, flash.base)
                &&& b1.current == CurrentMenu::SystemName
                &&& b1.serial == b0.serial
                &&& b1.hash == b0.hash
                &&& ch1 == (UpdateChannel { status: None, ..ch0 })
            } else {
                r == Some(OutResponse::Rejected) && b1 == b0 && ch1 == ch0
            }
        } else {
            if req.length % 4 == 0 && req.value % 4 == 0 && req.length <= 64 && data.len()
                >= req.length && b0.current is Updating && req.value + req.length
                <= flash.data@.len() {
                if ch0.queued is None {
                    &&& r == Some(OutResponse::Accepted)
                    &&& b1 == b0
                    &&& ch1.in_flight == ch0.in_flight
                    &&& ch1.status == ch0.status
                    &&& ch1.queued matches Some(FlashOp::WriteChunk { offset, bytes })
                        && offset == req.value && bytes@ == data.subrange(0, req.length as int)
                } else {
                    r == Some(OutResponse::Rejected) && b1 == b0 && ch1 == ch0
                }
            } else {
                r == Some(OutResponse::Rejected) && b1 == b0 && ch1 == ch0
            }
        }
    } else {
        // Read-direction and unknown codes have no business on the OUT
        // pipe.
        &&& r == Some(OutResponse::Rejected)
        &&& act == OutAction::Nothing
        &&& b1 == b0
        &&& bu1 == bu0
        &&& ch1 == ch0
    }
}

/// What one device-to-host transfer answers, against a badge whose state
/// it never changes; only the status poll consumes the update channel's
/// signal. `buf_len` is the size of the control buffer a reply must fit.
pub open spec fn control_in_spec<S: System>(
    h: UsbHandler,
    req: ControlRequest,
    buf_len: int,
    b: Sysbadge<S>,
    ch0: UpdateChannel,
    ch1: UpdateChannel,
    r: Option<InReply>,
) -> bool {
    if !relevant(h, req) {
        r is None && ch1 == ch0
    } else if req.request == 0x01 {
        // GetSystemName: the roster's name, or under value 1 its provider
        // id; nothing to serve without a roster.
        &&& ch1 == ch0
        &&& if req.value == 0 {
            match b.system {
                Some(s) => {
                    if s.sys().name.len() <= buf_len {
                        r matches Some(InReply::Data(d)) && d@ == s.sys().name
                    } else {
                        r == Some(InReply::Rejected)
                    }
                },
                None => r == Some(InReply::Rejected),
            }
        } else if req.value == 1 {
            match b.system {
                Some(s) => {
                    if system_id_bytes(s.spec_system_id()).len() <= buf_len {
                        r matches Some(InReply::Data(d)) && d@ == system_id_bytes(
                            s.spec_system_id(),
                        )
                    } else {
                        r == Some(InReply::Rejected)
                    }
                },
                None => r == Some(InReply::Rejected),
            }
        } else {
            r == Some(InReply::Rejected)
        }
    } else if req.request == 0x02 {
        // GetMemberCount, little-endian over two bytes.
        &&& ch1 == ch0
        &&& if req.length == 2 && 2 <= buf_len {
            match b.system {
                Some(s) => r matches Some(InReply::Data(d)) && d@ == spec_u16_to_le_bytes(
                    clamp_count(s.sys().members.len() as int),
                ),
                None => r == Some(InReply::Rejected),
            }
        } else {
            r == Some(InReply::Rejected)
        }
    } else if req.request == 0x03 || req.request == 0x04 {
        // GetMemberName / GetMemberPronouns: rejected, never a fault, for
        // an index outside the roster.
        &&& ch1 == ch0
        &&& match b.system {
            Some(s) => {
                if req.value < s.sys().members.len() {
                    let strb = if req.request == 0x03 {
                        s.sys().members[req.value as int].name
                    } else {
                        s.sys().members[req.value as int].pronouns
                    };
                    if strb.len() <= buf_len {
                        r matches Some(InReply::Data(d)) && d@ == strb
                    } else {
                        r == Some(InReply::Rejected)
                    }
                } else {
                    r == Some(InReply::Rejected)
                }
            },
            None => r == Some(InReply::Rejected),
        }
    } else if req.request == 0x05 {
        // GetState: the menu state's wire form, only at its exact size.
        &&& ch1 == ch0
        &&& if req.length == STATE_LEN as u16 && STATE_LEN <= buf_len {
            r matches Some(InReply::Data(d)) && d@ == menu_bytes(b.current)
        } else {
            r == Some(InReply::Rejected)
        }
    } else if req.request == 0x08 {
        // GetVersion, by sub-selector: flash-resident data is fetched by
        // the shell; the strings are served directly.
        &&& ch1 == ch0
        &&& {
            let sel = req.value as u8;
            if sel == 0x01 {
                if req.length >= 4 {
                    r == Some(InReply::FetchJedec)
                } else {
                    r == Some(InReply::Rejected)
                }
            } else if sel == 0x02 {
                r == Some(InReply::FetchUniqueId)
            } else if sel == 0x03 {
                match b.serial {
                    Some(s) => {
                        if req.length >= 16 && encode_utf8(s@).len() <= buf_len {
                            r matches Some(InReply::Data(d)) && d@ == encode_utf8(s@)
                        } else {
                            r == Some(InReply::Rejected)
                        }
                    },
                    None => r == Some(InReply::Rejected),
                }
            } else if sel == 0x10 {
                if req.length >= h.version@.len() && h.version@.len() <= buf_len {
                    r matches Some(InReply::Data(d)) && d@ == h.version@
                } else {
                    r == Some(InReply::Rejected)
                }
            } else if sel == 0x11 {
                if req.length >= h.matrix@.len() && h.matrix@.len() <= buf_len {
                    r matches Some(InReply::Data(d)) && d@ == h.matrix@
                } else {
                    r == Some(InReply::Rejected)
                }
            } else {
                r == Some(InReply::Rejected)
            }
        }
    } else if req.request == 0x0a {
        // SystemUpload as a read is the status poll.
        if ch0.in_flight {
            &&& ch1 == ch0
            &&& r matches Some(InReply::Data(d)) && d@ == seq![4u8]
        } else {
            match ch0.status {
                Some(s) => {
                    &&& ch1 == (UpdateChannel { status: None, ..ch0 })
                    &&& r matches Some(InReply::Data(d)) && d@ == seq![s.spec_code()]
                },
                None => {
                    &&& ch1 == ch0
                    &&& r matches Some(InReply::Data(d)) && d@ == seq![0u8]
                },
            }
        }
    } else {
        r == Some(InReply::Rejected) && ch1 == ch0
    }
}

impl UsbHandler {
    pub fn new(comm_if: u16, version: Vec<u8>, matrix: Vec<u8>) -> (r: UsbHandler)
        ensures
            r.comm_if == comm_if,
            r.version == version,
            r.matrix == matrix,
    {
        UsbHandler { comm_if, version, matrix }
    }

    /// Decides one host-to-device transfer; see `control_out_spec`. The
    /// fast path validates and queues; the returned action names any slow
    /// work left to the shell.
    pub fn control_out(
        &self,
        req: ControlRequest,
        data: &[u8],
        badge: &mut Sysbadge<SystemReader>,
        buttons: &mut ButtonChannel,
        chan: &mut UpdateChannel,
        flash: &FlashRegion,
    ) -> (res: (Option<OutResponse>, OutAction))
        requires
            old(badge).wf(),
        ensures
            final(badge).wf(),
            control_out_spec(
                *self,
                req,
                data@,
                *flash,
                *old(badge),
                *final(badge),
                *old(buttons),
                *final(buttons),
                *old(chan),
                *final(chan),
                res.0,
                res.1,
            ),
    {
        if !(req.vendor && req.recipient_interface && req.index == self.comm_if) {
            return (None, OutAction::Nothing);
        }
        let request = match crate::usb::Request::from_u8(req.request) {
            Some(q) => q,
            Option::None => {
                return (Some(OutResponse::Rejected), OutAction::Nothing);
            },
        };
        match request {
            crate::usb::Request::ButtonPress => {
                match Button::from_u8(req.value as u8) {
                    Some(b) => {
                        if buttons.try_send(b) {
                            (Some(OutResponse::Accepted), OutAction::Nothing)
                        } else {
                            (Some(OutResponse::Rejected), OutAction::Nothing)
                        }
                    },
                    Option::None => (Some(OutResponse::Rejected), OutAction::Nothing),
                }
            },
            crate::usb::Request::SetState => {
                if req.length as usize != STATE_LEN || data.len() < STATE_LEN {
                    return (Some(OutResponse::Rejected), OutAction::Nothing);
                }
                match CurrentMenu::from_bytes(slice_subrange(data, 0, STATE_LEN)) {
                    Some(m) => {
                        badge.set_current(m);
                        (Some(OutResponse::Accepted), OutAction::Nothing)
                    },
                    Option::None => (Some(OutResponse::Rejected), OutAction::Nothing),
                }
            },
            crate::usb::Request::UpdateDisplay => {
                (Some(OutResponse::Accepted), OutAction::Redraw)
            },
            crate::usb::Request::Reboot => {
                match BootSel::from_u8(req.value as u8) {
                    Some(BootSel::Application) => (Some(OutResponse::Rejected),
                        OutAction::Nothing),
                    Some(sel) => (Some(OutResponse::Accepted), OutAction::Reboot(sel)),
                    Option::None => (Some(OutResponse::Rejected), OutAction::Nothing),
                }
            },
            crate::usb::Request::SystemUpload => {
                match badge.current() {
                    CurrentMenu::Updating => {
                        return (Some(OutResponse::Rejected), OutAction::Nothing);
                    },
                    _ => {},
                }
                if req.value == 1 {
                    if !chan.try_send(FlashOp::EraseSystem) {
                        return (Some(OutResponse::Rejected), OutAction::Nothing);
                    }
                }
                badge.set_current(CurrentMenu::Updating);
                chan.signal(SystemUpdateStatus::ReadyForUpdate);
                (Some(OutResponse::Accepted), OutAction::Nothing)
            },
            crate::usb::Request::SystemDNLoad => {
                if req.length == 0 {
                    if chan.in_flight {
                        return (Some(OutResponse::Rejected), OutAction::Nothing);
                    }
                    match badge.current() {
                        CurrentMenu::Updating => {},
                        _ => {
                            return (Some(OutResponse::Rejected), OutAction::Nothing);
                        },
                    }
                    match SystemReader::from_byte_slice(flash.data.as_slice(), flash.base) {
                        Ok(rd) => {
                            badge.system = Some(rd);
                            badge.set_current(CurrentMenu::SystemName);
                            chan.status = None;
                            (Some(OutResponse::Accepted), OutAction::Nothing)
                        },
                        Err(_) => (Some(OutResponse::Rejected), OutAction::Nothing),
                    }
                } else {
                    if req.length % 4 != 0 || req.value % 4 != 0 || req.length > 64 {
                        return (Some(OutResponse::Rejected), OutAction::Nothing);
                    }
                    if data.len() < req.length as usize {
                        return (Some(OutResponse::Rejected), OutAction::Nothing);
                    }
                    match badge.current() {
                        CurrentMenu::Updating => {},
                        _ => {
                            return (Some(OutResponse::Rejected), OutAction::Nothing);
                        },
                    }
                    if req.value as u64 + req.length as u64 > flash.data.len() as u64 {
                        return (Some(OutResponse::Rejected), OutAction::Nothing);
                    }
                    let bytes = slice_to_vec(slice_subrange(data, 0, req.length as usize));
                    if chan.try_send(FlashOp::WriteChunk { offset: req.value, bytes }) {
                        (Some(OutResponse::Accepted), OutAction::Nothing)
                    } else {
                        (Some(OutResponse::Rejected), OutAction::Nothing)
                    }
                }
            },
            _ => (Some(OutResponse::Rejected), OutAction::Nothing),
        }
    }

    /// Answers one device-to-host transfer; see `control_in_spec`. Reads
    /// never change the badge; only the status poll consumes the update
    /// channel's signal.
    pub fn control_in<S: System>(
        &self,
        req: ControlRequest,
        buf_len: usize,
        badge: &Sysbadge<S>,
        chan: &mut UpdateChannel,
    ) -> (r: Option<InReply>)
        requires
            badge.wf(),
        ensures
            control_in_spec(*self, req, buf_len as int, *badge, *old(chan), *final(chan), r),
    {
        if !(req.vendor && req.recipient_interface && req.index == self.comm_if) {
            return None;
        }
        let request = match crate::usb::Request::from_u8(req.request) {
            Some(q) => q,
            Option::None => {
                return Some(InReply::Rejected);
            },
        };
        match request {
            crate::usb::Request::GetSystemName => {
                if req.value == 0 {
                    match &badge.system {
                        Some(s) => {
                            let name = s.name();
                            if name.len() <= buf_len {
                                Some(InReply::Data(name))
                            } else {
                                Some(InReply::Rejected)
                            }
                        },
                        Option::None => Some(InReply::Rejected),
                    }
                } else if req.value == 1 {
                    match &badge.system {
                        Some(s) => {
                            let id = s.system_id();
                            let mut out: Vec<u8> = Vec::new();
                            match id {
                                SystemId::Unspecified => {
                                    out.push(0);
                                },
                                SystemId::PluralKit(st) => {
                                    out.push(1);
                                    let mut b = st.as_str().as_bytes_vec();
                                    out.append(&mut b);
                                },
                                SystemId::PronounsCC(st) => {
                                    out.push(2);
                                    let mut b = st.as_str().as_bytes_vec();
                                    out.append(&mut b);
                                },
                            }
                            proof {
                                assert(out@ =~= system_id_bytes(badge.system->Some_0.spec_system_id()));
                            }
                            if out.len() <= buf_len {
                                Some(InReply::Data(out))
                            } else {
                                Some(InReply::Rejected)
                            }
                        },
                        Option::None => Some(InReply::Rejected),
                    }
                } else {
                    Some(InReply::Rejected)
                }
            },
            crate::usb::Request::GetMemberCount => {
                if req.length != 2 || buf_len < 2 {
                    return Some(InReply::Rejected);
                }
                match &badge.system {
                    Some(s) => {
                        let count = s.member_count();
                        let c16: u16 = if count > 0xffff {
                            0xffff
                        } else {
                            count as u16
                        };
                        Some(InReply::Data(u16_to_le_bytes(c16)))
                    },
                    Option::None => Some(InReply::Rejected),
                }
            },
            crate::usb::Request::GetMemberName => {
                match &badge.system {
                    Some(s) => {
                        let count = s.member_count();
                        if (req.value as usize) < count {
                            let name = s.member_name(req.value as usize);
                            if name.len() <= buf_len {
                                Some(InReply::Data(name))
                            } else {
                                Some(InReply::Rejected)
                            }
                        } else {
                            Some(InReply::Rejected)
                        }
                    },
                    Option::None => Some(InReply::Rejected),
                }
            },
            crate::usb::Request::GetMemberPronouns => {
                match &badge.system {
                    Some(s) => {
                        let count = s.member_count();
                        if (req.value as usize) < count {
                            let pronouns = s.member_pronouns(req.value as usize);
                            if pronouns.len() <= buf_len {
                                Some(InReply::Data(pronouns))
                            } else {
                                Some(InReply::Rejected)
                            }
                        } else {
                            Some(InReply::Rejected)
                        }
                    },
                    Option::None => Some(InReply::Rejected),
                }
            },
            crate::usb::Request::GetState => {
                if req.length as usize == STATE_LEN && STATE_LEN <= buf_len {
                    let cur = *badge.current();
                    Some(InReply::Data(cur.as_bytes()))
                } else {
                    Some(InReply::Rejected)
                }
            },
            crate::usb::Request::GetVersion => {
                let sel = req.value as u8;
                if sel == 0x01 {
                    if req.length >= 4 {
                        Some(InReply::FetchJedec)
                    } else {
                        Some(InReply::Rejected)
                    }
                } else if sel == 0x02 {
                    Some(InReply::FetchUniqueId)
                } else if sel == 0x03 {
                    match &badge.serial {
                        Some(s) => {
                            let bytes = s.as_str().as_bytes_vec();
                            if req.length >= 16 && bytes.len() <= buf_len {
                                Some(InReply::Data(bytes))
                            } else {
                                Some(InReply::Rejected)
                            }
                        },
                        Option::None => Some(InReply::Rejected),
                    }
                } else if sel == 0x10 {
                    if req.length as usize >= self.version.len() && self.version.len()
                        <= buf_len {
                        Some(InReply::Data(slice_to_vec(self.version.as_slice())))
                    } else {
                        Some(InReply::Rejected)
                    }
                } else if sel == 0x11 {
                    if req.length as usize >= self.matrix.len() && self.matrix.len() <= buf_len {
                        Some(InReply::Data(slice_to_vec(self.matrix.as_slice())))
                    } else {
                        Some(InReply::Rejected)
                    }
                } else {
                    Some(InReply::Rejected)
                }
            },
            crate::usb::Request::SystemUpload => {
                let st = chan.poll();
                let mut out: Vec<u8> = Vec::new();
                out.push(st.code());
                proof {
                    assert(out@ =~= seq![st.spec_code()]);
                }
                Some(InReply::Data(out))
            },
            _ => Some(InReply::Rejected),
        }
    }
}

} // verus!
