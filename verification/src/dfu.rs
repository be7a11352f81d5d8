//! USB Device Firmware Upgrade (DFU) 1.1 class.
//!
//! The class answers the DFU requests addressed to its interface, moves
//! between the DFU states, buffers one block of a download or an upload, and
//! hands blocks to a `DfuHandler` that stores or supplies the firmware.
use vstd::prelude::*;

use crate::usb::{
    ack, ack_action, stall, stall_action, ActionView, FunctionalDescriptor, InterfaceDescriptor,
    SetupPacket, StringHandle, UsbAction, UsbEvent, UsbPacket, INTERFACE_SET_INTERFACE,
    RECIPIENT_INTERFACE,
};

verus! {

/// Interface class of application-specific interfaces.
pub const USB_CLASS_APP_SPECIFIC: u8 = 0xFE;
/// Interface subclass of DFU.
pub const USB_SUBCLASS_DFU: u8 = 0x01;
/// Interface protocol of DFU mode.
pub const USB_PROTOCOL_DFU: u8 = 0x02;
/// Descriptor type of the DFU functional descriptor.
pub const DFU_DESCRIPTOR_TYPE: u8 = 0x21;

/// The DFU class requests, as `bmRequestType | bRequest << 8`: class
/// requests to an interface, host-to-device or device-to-host.
pub const DFU_DETACH: u16 = 0x0021;
pub const DFU_DNLOAD: u16 = 0x0121;
pub const DFU_UPLOAD: u16 = 0x02A1;
pub const DFU_GETSTATUS: u16 = 0x03A1;
pub const DFU_CLRSTATUS: u16 = 0x0421;
pub const DFU_GETSTATE: u16 = 0x05A1;
pub const DFU_ABORT: u16 = 0x0621;

/// The states of the DFU state machine.
#[derive(Clone, Copy, Debug, PartialEq, Eq, Structural)]
pub enum DfuState {
    AppIdle,
    AppDetach,
    DfuIdle,
    DfuDnloadSync,
    DfuDnloadBusy,
    DfuDnloadIdle,
    DfuManifestSync,
    DfuManifest,
    DfuManifestWaitReset,
    DfuUploadIdle,
    DfuError,
}

impl DfuState {
    /// The `bState` code of the state.
    pub open spec fn spec_code(self) -> u8 {
        match self {
            DfuState::AppIdle => 0,
            DfuState::AppDetach => 1,
            DfuState::DfuIdle => 2,
            DfuState::DfuDnloadSync => 3,
            DfuState::DfuDnloadBusy => 4,
            DfuState::DfuDnloadIdle => 5,
            DfuState::DfuManifestSync => 6,
            DfuState::DfuManifest => 7,
            DfuState::DfuManifestWaitReset => 8,
            DfuState::DfuUploadIdle => 9,
            DfuState::DfuError => 10,
        }
    }

    /// The `bState` code of the state.
    pub fn code(self) -> (r: u8)
        ensures
            r == self.spec_code(),
    {
        match self {
            DfuState::AppIdle => 0,
            DfuState::AppDetach => 1,
            DfuState::DfuIdle => 2,
            DfuState::DfuDnloadSync => 3,
            DfuState::DfuDnloadBusy => 4,
            DfuState::DfuDnloadIdle => 5,
            DfuState::DfuManifestSync => 6,
            DfuState::DfuManifest => 7,
            DfuState::DfuManifestWaitReset => 8,
            DfuState::DfuUploadIdle => 9,
            DfuState::DfuError => 10,
        }
    }
}

/// The status codes of the DFU state machine.
#[derive(Clone, Copy, Debug, PartialEq, Eq, Structural)]
pub enum DfuStatus {
    StatusOk,
    ErrTarget,
    ErrFile,
    ErrWrite,
    ErrErase,
    ErrCheckChunked,
    ErrProg,
    ErrVerify,
    ErrAddress,
    ErrNotDone,
    ErrFirmware,
    ErrVendor,
    ErrUsbr,
    ErrPor,
    ErrUnknown,
    ErrStalledPkt,
}

impl DfuStatus {
    /// The `bStatus` code of the status.
    pub open spec fn spec_code(self) -> u8 {
        match self {
            DfuStatus::StatusOk => 0,
            DfuStatus::ErrTarget => 1,
            DfuStatus::ErrFile => 2,
            DfuStatus::ErrWrite => 3,
            DfuStatus::ErrErase => 4,
            DfuStatus::ErrCheckChunked => 5,
            DfuStatus::ErrProg => 6,
            DfuStatus::ErrVerify => 7,
            DfuStatus::ErrAddress => 8,
            DfuStatus::ErrNotDone => 9,
            DfuStatus::ErrFirmware => 10,
            DfuStatus::ErrVendor => 11,
            DfuStatus::ErrUsbr => 12,
            DfuStatus::ErrPor => 13,
            DfuStatus::ErrUnknown => 14,
            DfuStatus::ErrStalledPkt => 15,
        }
    }

    /// The `bStatus` code of the status.
    pub fn code(self) -> (r: u8)
        ensures
            r == self.spec_code(),
    {
        match self {
            DfuStatus::StatusOk => 0,
            DfuStatus::ErrTarget => 1,
            DfuStatus::ErrFile => 2,
            DfuStatus::ErrWrite => 3,
            DfuStatus::ErrErase => 4,
            DfuStatus::ErrCheckChunked => 5,
            DfuStatus::ErrProg => 6,
            DfuStatus::ErrVerify => 7,
            DfuStatus::ErrAddress => 8,
            DfuStatus::ErrNotDone => 9,
            DfuStatus::ErrFirmware => 10,
            DfuStatus::ErrVendor => 11,
            DfuStatus::ErrUsbr => 12,
            DfuStatus::ErrPor => 13,
            DfuStatus::ErrUnknown => 14,
            DfuStatus::ErrStalledPkt => 15,
        }
    }
}

/// The storage behind the DFU class, supplied by its user.
///
/// Each method's effect is described by a relation between the handler
/// before the call, its arguments, the handler after the call and the
/// result. An implementation states its own relation by overriding the
/// corresponding spec function; the default promises nothing.
pub trait DfuHandler: Sized {
    /// Whether `dnload` of `data` as block `block_num` of alternate setting
    /// `alt` may leave the handler as `after` and answer `r`.
    open spec fn dnload_post(
        &self,
        alt: u8,
        block_num: u16,
        data: Seq<u8>,
        after: Self,
        r: Result<(), DfuStatus>,
    ) -> bool {
        true
    }

    /// Whether `upload` of block `block_num` of alternate setting `alt` into
    /// a buffer holding `before` may leave the handler as `after`, the buffer
    /// holding `filled`, and answer `r`.
    open spec fn upload_post(
        &self,
        alt: u8,
        block_num: u16,
        before: Seq<u8>,
        after: Self,
        filled: Seq<u8>,
        r: Result<usize, DfuStatus>,
    ) -> bool {
        true
    }

    /// Whether `manifest` may leave the handler as `after` and answer `r`.
    open spec fn manifest_post(&self, after: Self, r: Result<(), DfuStatus>) -> bool {
        true
    }

    /// Whether `abort` may leave the handler as `after`.
    open spec fn abort_post(&self, after: Self) -> bool {
        true
    }

    /// Writes a block of data to the device.
    fn dnload(&mut self, alt: u8, block_num: u16, data: &[u8]) -> (r: Result<(), DfuStatus>)
        ensures
            old(self).dnload_post(alt, block_num, data@, *final(self), r),
    ;

    /// Reads a block of data from the device into `data`, returning its length.
    fn upload(&mut self, alt: u8, block_num: u16, data: &mut [u8]) -> (r: Result<usize, DfuStatus>)
        ensures
            final(data)@.len() == old(data)@.len(),
            old(self).upload_post(alt, block_num, old(data)@, *final(self), final(data)@, r),
    ;

    /// Finalizes the download.
    fn manifest(&mut self) -> (r: Result<(), DfuStatus>)
        ensures
            old(self).manifest_post(*final(self), r),
    ;

    /// Aborts the current operation.
    fn abort(&mut self)
        ensures
            old(self).abort_post(*final(self)),
    ;
}

/// The configuration of a DFU interface.
#[derive(Clone, Copy, Debug, PartialEq, Eq, Structural)]
pub struct DfuBuilder {
    pub interface_num: u8,
    pub alt_settings: u8,
    pub transfer_size: u16,
    pub attributes: u8,
    pub detach_timeout: u16,
}

impl DfuBuilder {
    /// A configuration that can download, upload and survive manifestation,
    /// with no detach timeout.
    pub fn new(interface_num: u8, alt_settings: u8, transfer_size: u16) -> (r: Self)
        ensures
            r == (DfuBuilder {
                interface_num,
                alt_settings,
                transfer_size,
                attributes: 0x07,
                detach_timeout: 0,
            }),
    {
        DfuBuilder {
            interface_num,
            alt_settings,
            transfer_size,
            attributes: 0x07,
            detach_timeout: 0,
        }
    }

    /// The DFU functional descriptor: attributes, detach timeout and transfer
    /// size (both little-endian), and DFU version 1.1.
    pub fn functional_descriptor(&self) -> (r: FunctionalDescriptor)
        ensures
            r.descriptor_type == DFU_DESCRIPTOR_TYPE,
            r.data@ == seq![
                self.attributes,
                (self.detach_timeout % 0x100) as u8,
                (self.detach_timeout / 0x100) as u8,
                (self.transfer_size % 0x100) as u8,
                (self.transfer_size / 0x100) as u8,
                0x10u8,
                0x01u8,
            ],
    {
        let mut data = Vec::new();
        data.push(self.attributes);
        data.push((self.detach_timeout % 0x100) as u8);
        data.push((self.detach_timeout / 0x100) as u8);
        data.push((self.transfer_size % 0x100) as u8);
        data.push((self.transfer_size / 0x100) as u8);
        data.push(0x10);
        data.push(0x01);
        assert(data@ =~= seq![
            self.attributes,
            (self.detach_timeout % 0x100) as u8,
            (self.detach_timeout / 0x100) as u8,
            (self.transfer_size % 0x100) as u8,
            (self.transfer_size / 0x100) as u8,
            0x10u8,
            0x01u8,
        ]);
        FunctionalDescriptor { descriptor_type: DFU_DESCRIPTOR_TYPE, data }
    }

    /// The interface descriptor of alternate setting `alt`.
    pub fn interface(
        &self,
        alt: u8,
        name: StringHandle,
        func_descs: Vec<FunctionalDescriptor>,
    ) -> (r: InterfaceDescriptor)
        ensures
            r.name == name,
            r.interface_number == self.interface_num,
            r.alternate_setting == alt,
            r.interface_class == USB_CLASS_APP_SPECIFIC,
            r.interface_sub_class == USB_SUBCLASS_DFU,
            r.interface_protocol == USB_PROTOCOL_DFU,
            r.func_descs == func_descs,
            r.num_endpoints == 0,
    {
        InterfaceDescriptor {
            name,
            interface_number: self.interface_num,
            alternate_setting: alt,
            interface_class: USB_CLASS_APP_SPECIFIC,
            interface_sub_class: USB_SUBCLASS_DFU,
            interface_protocol: USB_PROTOCOL_DFU,
            func_descs,
            num_endpoints: 0,
        }
    }
}

/// The state of a DFU class, with its block buffer as a sequence.
pub ghost struct DfuView {
    pub config: DfuBuilder,
    pub state: DfuState,
    pub status: DfuStatus,
    pub alt: u8,
    pub expecting_dnload: bool,
    pub block_num: u16,
    pub buffer: Seq<u8>,
    pub transfer_offset: int,
    pub transfer_total: int,
}

/// What the handler answered during one event: the result of `upload` and
/// the buffer it left, and the result of `manifest`.
pub ghost struct HandlerOutcome {
    pub upload: Result<usize, DfuStatus>,
    pub upload_buffer: Seq<u8>,
    pub manifest: Result<(), DfuStatus>,
}

/// Whether a setup packet is addressed to the interface of `v`.
pub open spec fn addressed_to(v: DfuView, pkt: SetupPacket) -> bool {
    pkt.recipient() == RECIPIENT_INTERFACE && pkt.index as u8 == v.config.interface_num
}

/// The buffer after `GETSTATUS` has written the status reply into it:
/// `bStatus`, a zero poll timeout, `bState` and a zero string index.
pub open spec fn status_reply(v: DfuView) -> Seq<u8> {
    v.buffer.update(0, v.status.spec_code()).update(1, 0).update(2, 0).update(3, 0).update(
        4,
        v.state.spec_code(),
    ).update(5, 0)
}

/// The answer to a setup packet on endpoint 0, for a class in state `v`
/// with a buffer of `block_size` bytes, when the handler answers `o`: the
/// new state, the action, and whether the class claims the packet.
pub open spec fn setup_step(v: DfuView, pkt: SetupPacket, block_size: nat, o: HandlerOutcome) -> (
    DfuView,
    ActionView,
    bool,
) {
    if !addressed_to(v, pkt) {
        (v, ActionView::NoAction, false)
    } else if pkt.request == DFU_DETACH {
        (v, ack(), true)
    } else if pkt.request == DFU_DNLOAD {
        if v.state == DfuState::DfuError {
            (v, stall(), true)
        } else if pkt.length > block_size {
            (
                DfuView { state: DfuState::DfuError, status: DfuStatus::ErrStalledPkt, ..v },
                stall(),
                true,
            )
        } else if pkt.length == 0 {
            (
                DfuView {
                    block_num: pkt.value,
                    transfer_offset: 0,
                    transfer_total: 0,
                    state: DfuState::DfuManifestSync,
                    ..v
                },
                ack(),
                true,
            )
        } else {
            (
                DfuView {
                    block_num: pkt.value,
                    transfer_offset: 0,
                    transfer_total: pkt.length as int,
                    expecting_dnload: true,
                    state: DfuState::DfuDnloadSync,
                    ..v
                },
                ActionView::NoAction,
                true,
            )
        }
    } else if pkt.request == DFU_UPLOAD {
        if v.state != DfuState::DfuIdle && v.state != DfuState::DfuUploadIdle {
            (v, stall(), true)
        } else {
            let v1 = DfuView { block_num: pkt.value, buffer: o.upload_buffer, ..v };
            match o.upload {
                Ok(n) => if n == 0 {
                    (
                        DfuView {
                            transfer_offset: 0,
                            transfer_total: 0,
                            state: DfuState::DfuIdle,
                            ..v1
                        },
                        ack(),
                        true,
                    )
                } else {
                    (
                        DfuView { transfer_offset: 0, transfer_total: n as int, ..v1 },
                        ActionView::NoAction,
                        true,
                    )
                },
                Err(s) => (DfuView { state: DfuState::DfuError, status: s, ..v1 }, stall(), true),
            }
        }
    } else if pkt.request == DFU_GETSTATUS {
        let v1 = DfuView { buffer: status_reply(v), ..v };
        let v2 = if v.state == DfuState::DfuDnloadSync {
            DfuView { state: DfuState::DfuDnloadIdle, ..v1 }
        } else if v.state == DfuState::DfuManifestSync {
            match o.manifest {
                Ok(()) => DfuView { state: DfuState::DfuIdle, ..v1 },
                Err(s) => DfuView { state: DfuState::DfuError, status: s, ..v1 },
            }
        } else {
            v1
        };
        (
            v2,
            ActionView::TransferInUnaligned {
                endpoint: 0,
                data: status_reply(v).take(6),
                zlp: true,
            },
            true,
        )
    } else if pkt.request == DFU_CLRSTATUS {
        (DfuView { state: DfuState::DfuIdle, status: DfuStatus::StatusOk, ..v }, ack(), true)
    } else if pkt.request == DFU_GETSTATE {
        let buf = v.buffer.update(0, v.state.spec_code());
        (
            DfuView { buffer: buf, ..v },
            ActionView::TransferInUnaligned { endpoint: 0, data: buf.take(1), zlp: true },
            true,
        )
    } else if pkt.request == DFU_ABORT {
        (
            DfuView {
                state: DfuState::DfuIdle,
                status: DfuStatus::StatusOk,
                transfer_total: 0,
                transfer_offset: 0,
                ..v
            },
            ack(),
            true,
        )
    } else if pkt.request == INTERFACE_SET_INTERFACE {
        (DfuView { alt: pkt.value as u8, ..v }, ack(), true)
    } else {
        (v, ActionView::NoAction, false)
    }
}

/// Whether answering `pkt` would write past a buffer of `block_size` bytes:
/// a status reply needs 6 bytes and a state reply 1.
pub open spec fn setup_overflows(v: DfuView, pkt: SetupPacket, block_size: nat) -> bool {
    &&& addressed_to(v, pkt)
    &&& (pkt.request == DFU_GETSTATUS && block_size < 6) || (pkt.request == DFU_GETSTATE
        && block_size < 1)
}

/// The answer to a data packet carrying `data` while a download is
/// expected, when the handler's `dnload` answers `dnload`: the packet is
/// copied into the buffer at the transfer offset, as far as the buffer
/// reaches, and once the announced length is reached the block is handed to
/// the handler.
pub open spec fn control_out_step(
    v: DfuView,
    data: Seq<u8>,
    block_size: nat,
    dnload: Result<(), DfuStatus>,
) -> (DfuView, ActionView) {
    if !v.expecting_dnload || v.transfer_offset > block_size {
        (v, stall())
    } else {
        let n = if data.len() <= block_size - v.transfer_offset {
            data.len() as int
        } else {
            block_size - v.transfer_offset
        };
        let buf = v.buffer.take(v.transfer_offset) + data.take(n) + v.buffer.skip(
            v.transfer_offset + n,
        );
        let v1 = DfuView { buffer: buf, transfer_offset: v.transfer_offset + n, ..v };
        if v1.transfer_offset >= v.transfer_total {
            let v2 = DfuView { expecting_dnload: false, ..v1 };
            if v.transfer_total > block_size {
                (
                    DfuView { state: DfuState::DfuError, status: DfuStatus::ErrAddress, ..v2 },
                    stall(),
                )
            } else {
                match dnload {
                    Ok(()) => (v2, ack()),
                    Err(s) => (DfuView { state: DfuState::DfuError, status: s, ..v2 }, stall()),
                }
            }
        } else {
            (v1, ActionView::NoAction)
        }
    }
}

/// The IN transfer that is due, if any: while idle or uploading, the part of
/// the buffer between the transfer offset and the transfer total, ending with
/// a zero-length packet when the block is shorter than the transfer size.
pub open spec fn pending_transfer(v: DfuView, block_size: nat) -> Option<(Seq<u8>, bool)> {
    if (v.state == DfuState::DfuUploadIdle || v.state == DfuState::DfuIdle) && v.transfer_offset
        < v.transfer_total && v.transfer_total <= block_size {
        Some(
            (
                v.buffer.subrange(v.transfer_offset, v.transfer_total),
                v.transfer_total < v.config.transfer_size,
            ),
        )
    } else {
        None
    }
}

/// The state after `n` bytes of the pending IN transfer have been sent;
/// once the block is sent, a short block ends the upload.
pub open spec fn transfer_done_step(v: DfuView, n: int) -> DfuView {
    let v1 = DfuView { transfer_offset: v.transfer_offset + n, ..v };
    if v1.transfer_offset == v.transfer_total {
        if v.transfer_total < v.config.transfer_size {
            DfuView { state: DfuState::DfuIdle, ..v1 }
        } else {
            DfuView { state: DfuState::DfuUploadIdle, ..v1 }
        }
    } else {
        v1
    }
}

/// The handler call that answering `pkt` in state `v` makes, and that it
/// took the handler from `h0` to `h1` with the outcome `o`: `UPLOAD` while
/// idle or uploading calls `upload` with the alternate setting, the
/// requested block number and the buffer; `GETSTATUS` during
/// manifestation calls `manifest`; `ABORT` calls `abort`. Every other
/// packet calls nothing and leaves the handler as it was.
pub open spec fn setup_handler_step<H: DfuHandler>(
    v: DfuView,
    pkt: SetupPacket,
    h0: H,
    h1: H,
    o: HandlerOutcome,
) -> bool {
    if addressed_to(v, pkt) && pkt.request == DFU_UPLOAD && (v.state == DfuState::DfuIdle
        || v.state == DfuState::DfuUploadIdle) {
        h0.upload_post(v.alt, pkt.value, v.buffer, h1, o.upload_buffer, o.upload)
    } else if addressed_to(v, pkt) && pkt.request == DFU_GETSTATUS && v.state
        == DfuState::DfuManifestSync {
        h0.manifest_post(h1, o.manifest)
    } else if addressed_to(v, pkt) && pkt.request == DFU_ABORT {
        h0.abort_post(h1)
    } else {
        h1 == h0
    }
}

/// Whether the data packet `data` completes the announced block, so that
/// the block is handed to the handler's `dnload`.
pub open spec fn dnload_called(v: DfuView, data: Seq<u8>, block_size: nat) -> bool {
    let w = control_out_step(v, data, block_size, Ok(())).0;
    &&& v.expecting_dnload
    &&& v.transfer_offset <= block_size
    &&& w.transfer_offset >= v.transfer_total
    &&& v.transfer_total <= block_size
}

/// The block handed to `dnload` when `data` completes it: the first
/// `transfer_total` bytes of the buffer once `data` is copied in.
pub open spec fn dnload_block(v: DfuView, data: Seq<u8>, block_size: nat) -> Seq<u8> {
    control_out_step(v, data, block_size, Ok(())).0.buffer.take(v.transfer_total)
}

/// The handler call that a data packet makes, and that it took the handler
/// from `h0` to `h1` with the result `dnload`: a packet that completes the
/// block calls `dnload` with the alternate setting, the block number and the
/// block; any other packet calls nothing and leaves the handler as it was.
pub open spec fn control_out_handler_step<H: DfuHandler>(
    v: DfuView,
    data: Seq<u8>,
    block_size: nat,
    h0: H,
    h1: H,
    dnload: Result<(), DfuStatus>,
) -> bool {
    if dnload_called(v, data, block_size) {
        h0.dnload_post(v.alt, v.block_num, dnload_block(v, data, block_size), h1, dnload)
    } else {
        h1 == h0
    }
}

/// A setup packet that is not addressed to the class's interface is not
/// claimed and changes nothing.
pub proof fn lemma_foreign_setup_ignored(
    v: DfuView,
    pkt: SetupPacket,
    block_size: nat,
    o: HandlerOutcome,
)
    requires
        !addressed_to(v, pkt),
    ensures
        setup_step(v, pkt, block_size, o) == (v, ActionView::NoAction, false),
{
}

/// `ABORT` is acknowledged from every state, and leaves the class idle, with
/// status OK and no transfer under way.
pub proof fn lemma_abort_resets(v: DfuView, pkt: SetupPacket, block_size: nat, o: HandlerOutcome)
    requires
        addressed_to(v, pkt),
        pkt.request == DFU_ABORT,
    ensures
        ({
            let (w, a, claimed) = setup_step(v, pkt, block_size, o);
            &&& claimed
            &&& a == ack()
            &&& w.state == DfuState::DfuIdle
            &&& w.status == DfuStatus::StatusOk
            &&& w.transfer_offset == 0
            &&& w.transfer_total == 0
        }),
{
}

/// `CLRSTATUS` is acknowledged from every state and leaves the class idle
/// with status OK.
pub proof fn lemma_clrstatus_clears(
    v: DfuView,
    pkt: SetupPacket,
    block_size: nat,
    o: HandlerOutcome,
)
    requires
        addressed_to(v, pkt),
        pkt.request == DFU_CLRSTATUS,
    ensures
        ({
            let (w, a, claimed) = setup_step(v, pkt, block_size, o);
            &&& claimed
            &&& a == ack()
            &&& w.state == DfuState::DfuIdle
            &&& w.status == DfuStatus::StatusOk
        }),
{
}

/// In the error state a download request is stalled and changes nothing.
pub proof fn lemma_error_refuses_download(
    v: DfuView,
    pkt: SetupPacket,
    block_size: nat,
    o: HandlerOutcome,
)
    requires
        addressed_to(v, pkt),
        pkt.request == DFU_DNLOAD,
        v.state == DfuState::DfuError,
    ensures
        setup_step(v, pkt, block_size, o) == (v, stall(), true),
{
}

/// A download request longer than the buffer is stalled and puts the class
/// in the error state with a stalled-packet status.
pub proof fn lemma_oversized_download_stalls(
    v: DfuView,
    pkt: SetupPacket,
    block_size: nat,
    o: HandlerOutcome,
)
    requires
        addressed_to(v, pkt),
        pkt.request == DFU_DNLOAD,
        v.state != DfuState::DfuError,
        pkt.length > block_size,
    ensures
        ({
            let (w, a, claimed) = setup_step(v, pkt, block_size, o);
            &&& claimed
            &&& a == stall()
            &&& w.state == DfuState::DfuError
            &&& w.status == DfuStatus::ErrStalledPkt
        }),
{
}

/// The reply to `GETSTATUS` is the status, a zero poll timeout, the state
/// before the request, and a zero string index.
pub proof fn lemma_getstatus_reply(v: DfuView, pkt: SetupPacket, block_size: nat, o: HandlerOutcome)
    requires
        addressed_to(v, pkt),
        pkt.request == DFU_GETSTATUS,
        v.buffer.len() >= 6,
    ensures
        setup_step(v, pkt, block_size, o).1 == (ActionView::TransferInUnaligned {
            endpoint: 0,
            data: seq![v.status.spec_code(), 0u8, 0u8, 0u8, v.state.spec_code(), 0u8],
            zlp: true,
        }),
{
    assert(status_reply(v).take(6) =~= seq![
        v.status.spec_code(),
        0u8,
        0u8,
        0u8,
        v.state.spec_code(),
        0u8,
    ]);
}

/// A download request of a nonempty block, outside the error state, waits
/// for the block's data; a status request then moves the class to
/// dfuDNLOAD-IDLE, whatever the handler answers.
pub proof fn lemma_download_then_status(
    v: DfuView,
    dnload: SetupPacket,
    status: SetupPacket,
    block_size: nat,
    o1: HandlerOutcome,
    o2: HandlerOutcome,
)
    requires
        addressed_to(v, dnload),
        dnload.request == DFU_DNLOAD,
        v.state != DfuState::DfuError,
        0 < dnload.length <= block_size,
        status.request == DFU_GETSTATUS,
        status.recipient() == RECIPIENT_INTERFACE,
        status.index as u8 == v.config.interface_num,
    ensures
        ({
            let (w1, a1, c1) = setup_step(v, dnload, block_size, o1);
            let (w2, a2, c2) = setup_step(w1, status, block_size, o2);
            &&& c1 && a1 == ActionView::NoAction
            &&& w1.state == DfuState::DfuDnloadSync
            &&& w1.expecting_dnload
            &&& w1.transfer_total == dnload.length
            &&& c2 && w2.state == DfuState::DfuDnloadIdle
        }),
{
}

/// A zero-length download request starts manifestation, and the next status
/// request, if the handler's manifestation succeeds, returns the class to
/// idle.
pub proof fn lemma_manifestation(
    v: DfuView,
    dnload: SetupPacket,
    status: SetupPacket,
    block_size: nat,
    o1: HandlerOutcome,
    o2: HandlerOutcome,
)
    requires
        addressed_to(v, dnload),
        dnload.request == DFU_DNLOAD,
        v.state != DfuState::DfuError,
        dnload.length == 0,
        status.request == DFU_GETSTATUS,
        status.recipient() == RECIPIENT_INTERFACE,
        status.index as u8 == v.config.interface_num,
        o2.manifest == Ok::<(), DfuStatus>(()),
    ensures
        ({
            let (w1, a1, c1) = setup_step(v, dnload, block_size, o1);
            let (w2, a2, c2) = setup_step(w1, status, block_size, o2);
            &&& c1 && a1 == ack()
            &&& w1.state == DfuState::DfuManifestSync
            &&& c2 && w2.state == DfuState::DfuIdle
        }),
{
}

/// A data packet that does not complete the block only buffers its bytes at
/// the transfer offset: the state, the status and the handler are untouched.
pub proof fn lemma_partial_block_buffers(
    v: DfuView,
    data: Seq<u8>,
    block_size: nat,
    dnload: Result<(), DfuStatus>,
)
    requires
        v.expecting_dnload,
        v.buffer.len() == block_size,
        0 <= v.transfer_offset,
        v.transfer_offset + data.len() < v.transfer_total <= block_size,
    ensures
        ({
            let (w, a) = control_out_step(v, data, block_size, dnload);
            &&& a == ActionView::NoAction
            &&& w.state == v.state
            &&& w.status == v.status
            &&& w.expecting_dnload
            &&& w.transfer_offset == v.transfer_offset + data.len()
            &&& w.buffer.subrange(v.transfer_offset, v.transfer_offset + data.len()) == data
            &&& w.buffer.len() == block_size
        }),
{
    let (w, a) = control_out_step(v, data, block_size, dnload);
    assert(w.buffer.subrange(v.transfer_offset, v.transfer_offset + data.len()) =~= data);
}

/// Only three setup requests reach the handler: `UPLOAD` while idle or
/// uploading, `GETSTATUS` during manifestation, and `ABORT`. Every other
/// setup packet leaves the handler as it was.
pub proof fn lemma_setup_leaves_handler<H: DfuHandler>(
    v: DfuView,
    pkt: SetupPacket,
    h0: H,
    h1: H,
    o: HandlerOutcome,
)
    requires
        setup_handler_step(v, pkt, h0, h1, o),
        !addressed_to(v, pkt) || ((pkt.request != DFU_UPLOAD || (v.state != DfuState::DfuIdle
            && v.state != DfuState::DfuUploadIdle)) && (pkt.request != DFU_GETSTATUS || v.state
            != DfuState::DfuManifestSync) && pkt.request != DFU_ABORT),
    ensures
        h1 == h0,
{
}

/// A data packet that does not complete the block does not reach the
/// handler.
pub proof fn lemma_partial_block_leaves_handler<H: DfuHandler>(
    v: DfuView,
    data: Seq<u8>,
    block_size: nat,
    h0: H,
    h1: H,
    dnload: Result<(), DfuStatus>,
)
    requires
        v.expecting_dnload,
        0 <= v.transfer_offset,
        v.transfer_offset + data.len() < v.transfer_total <= block_size,
        control_out_handler_step(v, data, block_size, h0, h1, dnload),
    ensures
        h1 == h0,
{
}

/// A data packet that completes a block that fits the buffer hands the
/// handler's `dnload` the alternate setting, the block number and the first
/// `transfer_total` bytes of the buffer with the packet copied in at the
/// transfer offset.
pub proof fn lemma_complete_block_reaches_handler<H: DfuHandler>(
    v: DfuView,
    data: Seq<u8>,
    block_size: nat,
    h0: H,
    h1: H,
    dnload: Result<(), DfuStatus>,
)
    requires
        v.expecting_dnload,
        v.buffer.len() == block_size,
        0 <= v.transfer_offset <= v.transfer_total <= block_size,
        v.transfer_total <= v.transfer_offset + data.len(),
        control_out_handler_step(v, data, block_size, h0, h1, dnload),
    ensures
        h0.dnload_post(
            v.alt,
            v.block_num,
            v.buffer.take(v.transfer_offset) + data.take(v.transfer_total - v.transfer_offset),
            h1,
            dnload,
        ),
{
    assert(dnload_called(v, data, block_size));
    assert(dnload_block(v, data, block_size) =~= v.buffer.take(v.transfer_offset) + data.take(
        v.transfer_total - v.transfer_offset,
    ));
}

/// A zero-length download request reaches no handler method; the status
/// request that follows calls `manifest` once, and its answer decides the
/// state: idle on success, the error state with the handler's status on
/// failure.
pub proof fn lemma_manifest_called_once<H: DfuHandler>(
    v: DfuView,
    dnload: SetupPacket,
    status: SetupPacket,
    block_size: nat,
    o1: HandlerOutcome,
    o2: HandlerOutcome,
    h0: H,
    h1: H,
    h2: H,
)
    requires
        addressed_to(v, dnload),
        dnload.request == DFU_DNLOAD,
        v.state != DfuState::DfuError,
        dnload.length == 0,
        status.request == DFU_GETSTATUS,
        status.recipient() == RECIPIENT_INTERFACE,
        status.index as u8 == v.config.interface_num,
        setup_handler_step(v, dnload, h0, h1, o1),
        setup_handler_step(setup_step(v, dnload, block_size, o1).0, status, h1, h2, o2),
    ensures
        h1 == h0,
        h0.manifest_post(h2, o2.manifest),
        ({
            let w2 = setup_step(setup_step(v, dnload, block_size, o1).0, status, block_size, o2).0;
            match o2.manifest {
                Ok(()) => w2.state == DfuState::DfuIdle,
                Err(s) => w2.state == DfuState::DfuError && w2.status == s,
            }
        }),
{
}

/// The bytes of `packets`, one packet after the other.
pub open spec fn concat_packets(packets: Seq<Seq<u8>>) -> Seq<u8>
    decreases packets.len(),
{
    if packets.len() == 0 {
        Seq::empty()
    } else {
        concat_packets(packets.drop_last()) + packets.last()
    }
}

/// Whether `views`, `actions`, `handlers` and `results` record the class
/// answering the data packets `packets` one after the other: from state
/// `views[i]` and handler `handlers[i]`, packet `i` gives the state
/// `views[i + 1]`, the action `actions[i]` and the handler
/// `handlers[i + 1]`, where `results[i]` is what the handler's `dnload`
/// answered if the packet called it.
pub open spec fn data_run<H: DfuHandler>(
    packets: Seq<Seq<u8>>,
    block_size: nat,
    views: Seq<DfuView>,
    actions: Seq<ActionView>,
    handlers: Seq<H>,
    results: Seq<Result<(), DfuStatus>>,
) -> bool {
    &&& views.len() == packets.len() + 1
    &&& handlers.len() == packets.len() + 1
    &&& actions.len() == packets.len()
    &&& results.len() == packets.len()
    &&& forall|i: int|
        0 <= i < packets.len() ==> {
            &&& #[trigger] control_out_step(views[i], packets[i], block_size, results[i]) == (
                views[i + 1],
                actions[i],
            )
            &&& control_out_handler_step(
                views[i],
                packets[i],
                block_size,
                handlers[i],
                handlers[i + 1],
                results[i],
            )
        }
}

/// While the packets received so far fall short of the announced block,
/// they sit in the buffer one after the other from its start, the transfer
/// offset counts them, every answer was no action, and the handler was not
/// reached.
proof fn lemma_data_run_prefix<H: DfuHandler>(
    packets: Seq<Seq<u8>>,
    block_size: nat,
    views: Seq<DfuView>,
    actions: Seq<ActionView>,
    handlers: Seq<H>,
    results: Seq<Result<(), DfuStatus>>,
    i: int,
)
    requires
        data_run(packets, block_size, views, actions, handlers, results),
        views[0].expecting_dnload,
        views[0].transfer_offset == 0,
        0 < views[0].transfer_total <= block_size,
        views[0].buffer.len() == block_size,
        0 <= i <= packets.len(),
        concat_packets(packets.take(i)).len() < views[0].transfer_total,
    ensures
        ({
            let v = views[0];
            let c = concat_packets(packets.take(i)).len();
            views[i] == DfuView {
                buffer: concat_packets(packets.take(i)) + v.buffer.skip(c as int),
                transfer_offset: c as int,
                ..v
            }
        }),
        forall|j: int| 0 <= j <= i ==> #[trigger] handlers[j] == handlers[0],
        forall|j: int| 0 <= j < i ==> #[trigger] actions[j] == ActionView::NoAction,
    decreases i,
{
    let v = views[0];
    if i == 0 {
        assert(packets.take(0) =~= Seq::<Seq<u8>>::empty());
        assert(concat_packets(packets.take(0)) + v.buffer.skip(0) =~= v.buffer);
    } else {
        let prev = packets.take(i - 1);
        let p = packets[i - 1];
        assert(packets.take(i).drop_last() =~= prev);
        assert(concat_packets(packets.take(i)) == concat_packets(prev) + p);
        lemma_data_run_prefix(packets, block_size, views, actions, handlers, results, i - 1);
        let c0 = concat_packets(prev).len();
        let c = concat_packets(packets.take(i)).len();
        let b = concat_packets(prev) + v.buffer.skip(c0 as int);
        let step = control_out_step(views[i - 1], p, block_size, results[i - 1]);
        assert(step == (views[i], actions[i - 1]));
        assert(b.take(c0 as int) + p.take(p.len() as int) + b.skip((c0 + p.len()) as int) =~= concat_packets(
            packets.take(i),
        ) + v.buffer.skip(c as int));
    }
}

/// A block announced with `L` bytes, `0 < L <= block_size`, that arrives as
/// the data packets `packets`, of which all but the last fall short of `L`
/// bytes together and all of them reach it: every packet but the last
/// answers no action and leaves the handler untouched; the last hands the
/// handler's `dnload` the alternate setting, the block number and the first
/// `L` bytes of the packets one after the other, ends the download, and
/// acknowledges the block if the handler accepts it or stalls in the error
/// state with the handler's status if not.
pub proof fn lemma_block_download<H: DfuHandler>(
    packets: Seq<Seq<u8>>,
    block_size: nat,
    views: Seq<DfuView>,
    actions: Seq<ActionView>,
    handlers: Seq<H>,
    results: Seq<Result<(), DfuStatus>>,
)
    requires
        data_run(packets, block_size, views, actions, handlers, results),
        views[0].expecting_dnload,
        views[0].transfer_offset == 0,
        0 < views[0].transfer_total <= block_size,
        views[0].buffer.len() == block_size,
        packets.len() >= 1,
        concat_packets(packets.take(packets.len() - 1)).len() < views[0].transfer_total
            <= concat_packets(packets).len(),
    ensures
        ({
            let v = views[0];
            let k = packets.len() as int;
            &&& forall|j: int| 0 <= j < k ==> #[trigger] handlers[j] == handlers[0]
            &&& forall|j: int| 0 <= j < k - 1 ==> #[trigger] actions[j] == ActionView::NoAction
            &&& handlers[0].dnload_post(
                v.alt,
                v.block_num,
                concat_packets(packets).take(v.transfer_total),
                handlers[k],
                results[k - 1],
            )
            &&& !views[k].expecting_dnload
            &&& match results[k - 1] {
                Ok(()) => actions[k - 1] == ack() && views[k].state == v.state && views[k].status
                    == v.status,
                Err(s) => actions[k - 1] == stall() && views[k].state == DfuState::DfuError
                    && views[k].status == s,
            }
        }),
{
    let v = views[0];
    let k = packets.len() as int;
    let l = v.transfer_total;
    lemma_data_run_prefix(packets, block_size, views, actions, handlers, results, k - 1);
    let prev = packets.take(k - 1);
    let p = packets[k - 1];
    assert(packets.drop_last() =~= prev);
    assert(concat_packets(packets) == concat_packets(prev) + p);
    let c = concat_packets(prev).len();
    let b = concat_packets(prev) + v.buffer.skip(c as int);
    let w = views[k - 1];
    assert(control_out_step(w, p, block_size, results[k - 1]) == (views[k], actions[k - 1]));
    let n = if p.len() <= block_size - c {
        p.len() as int
    } else {
        block_size - c
    };
    let buf = b.take(c as int) + p.take(n) + b.skip(c + n);
    assert(dnload_called(w, p, block_size));
    assert(dnload_block(w, p, block_size) == buf.take(l));
    assert(buf.take(l) =~= concat_packets(packets).take(l));
}

/// A download request for a nonempty block that fits the buffer, outside
/// the error state, starts a new block whatever came before: it is claimed
/// with no action, records the block number, expects `wLength` bytes from
/// the start of the buffer (transfer offset 0), and moves to dfuDNLOAD-SYNC,
/// keeping the buffer, the alternate setting and the handler.
pub proof fn lemma_dnload_starts_block(
    v: DfuView,
    pkt: SetupPacket,
    block_size: nat,
    o: HandlerOutcome,
)
    requires
        addressed_to(v, pkt),
        pkt.request == DFU_DNLOAD,
        v.state != DfuState::DfuError,
        0 < pkt.length <= block_size,
    ensures
        ({
            let (w, a, claimed) = setup_step(v, pkt, block_size, o);
            &&& claimed
            &&& a == ActionView::NoAction
            &&& w.transfer_offset == 0
            &&& w.transfer_total == pkt.length
            &&& w.block_num == pkt.value
            &&& w.expecting_dnload
            &&& w.state == DfuState::DfuDnloadSync
            &&& w.status == v.status
            &&& w.alt == v.alt
            &&& w.buffer == v.buffer
            &&& w.config == v.config
        }),
{
}

/// Whatever state the class is in, outside the error state: after a
/// download request for a nonempty block of `L <= block_size` bytes, the
/// data packets that follow it, up to the one that reaches `L` bytes, hand
/// the handler's `dnload` the current alternate setting, the requested block
/// number, and exactly the first `L` bytes of those packets; the handler is
/// not reached before that.
pub proof fn lemma_dnload_block_reaches_handler<H: DfuHandler>(
    v: DfuView,
    pkt: SetupPacket,
    block_size: nat,
    o: HandlerOutcome,
    h0: H,
    packets: Seq<Seq<u8>>,
    views: Seq<DfuView>,
    actions: Seq<ActionView>,
    handlers: Seq<H>,
    results: Seq<Result<(), DfuStatus>>,
)
    requires
        addressed_to(v, pkt),
        pkt.request == DFU_DNLOAD,
        v.state != DfuState::DfuError,
        0 < pkt.length <= block_size,
        v.buffer.len() == block_size,
        setup_handler_step(v, pkt, h0, handlers[0], o),
        views.len() > 0 && views[0] == setup_step(v, pkt, block_size, o).0,
        data_run(packets, block_size, views, actions, handlers, results),
        packets.len() >= 1,
        concat_packets(packets.take(packets.len() - 1)).len() < pkt.length <= concat_packets(
            packets,
        ).len(),
    ensures
        ({
            let k = packets.len() as int;
            &&& handlers[k - 1] == h0
            &&& h0.dnload_post(
                v.alt,
                pkt.value,
                concat_packets(packets).take(pkt.length as int),
                handlers[k],
                results[k - 1],
            )
        }),
{
    lemma_dnload_starts_block(v, pkt, block_size, o);
    lemma_setup_leaves_handler(v, pkt, h0, handlers[0], o);
    lemma_block_download(packets, block_size, views, actions, handlers, results);
}

/// The answer to an upload request while idle or uploading, by what the
/// handler's `upload` returned: `Ok(0)` (nothing more to send) is
/// acknowledged with a zero-length IN transfer on endpoint 0 and leaves the
/// class idle with no transfer pending; `Ok(n)` with `n > 0` answers nothing
/// yet and makes the first `n` bytes the handler filled in the pending IN
/// transfer; `Err(s)` stalls and enters the error state with status `s`.
/// The requested block number is recorded in every case.
pub proof fn lemma_upload_answer(v: DfuView, pkt: SetupPacket, block_size: nat, o: HandlerOutcome)
    requires
        addressed_to(v, pkt),
        pkt.request == DFU_UPLOAD,
        v.state == DfuState::DfuIdle || v.state == DfuState::DfuUploadIdle,
        o.upload_buffer.len() == block_size,
    ensures
        ({
            let (w, a, claimed) = setup_step(v, pkt, block_size, o);
            &&& claimed
            &&& w.block_num == pkt.value
            &&& match o.upload {
                Ok(n) => if n == 0 {
                    &&& a == (ActionView::TransferIn {
                        endpoint: 0,
                        data: Seq::empty(),
                        zlp: true,
                    })
                    &&& w.state == DfuState::DfuIdle
                    &&& w.transfer_offset == 0
                    &&& w.transfer_total == 0
                    &&& pending_transfer(w, block_size) is None
                } else {
                    &&& a == ActionView::NoAction
                    &&& w.state == v.state
                    &&& w.transfer_offset == 0
                    &&& w.transfer_total == n
                    &&& n <= block_size ==> pending_transfer(w, block_size) == Some(
                        (o.upload_buffer.take(n as int), n < v.config.transfer_size),
                    )
                },
                Err(s) => {
                    &&& a == ActionView::StallInAndOut { endpoint: 0 }
                    &&& w.state == DfuState::DfuError
                    &&& w.status == s
                },
            }
        }),
{
    let (w, a, claimed) = setup_step(v, pkt, block_size, o);
    if let Ok(n) = o.upload {
        if n > 0 && n <= block_size {
            assert(w.buffer.subrange(0, n as int) =~= o.upload_buffer.take(n as int));
        }
    }
}

/// The first `len` bytes of `s`.
fn slice_prefix(s: &[u8], len: usize) -> (r: &[u8])
    requires
        len <= s@.len(),
    ensures
        r@ == s@.take(len as int),
{
    vstd::slice::slice_subrange(s, 0, len)
}

/// A DFU class with a buffer of `BLOCK_SIZE` bytes.
pub struct DfuClass<H: DfuHandler, const BLOCK_SIZE: usize> {
    config: DfuBuilder,
    handler: H,
    state: DfuState,
    status: DfuStatus,
    alt: u8,
    expecting_dnload: bool,
    block_num: u16,
    buffer: Vec<u8>,
    transfer_offset: usize,
    transfer_total: usize,
}

impl<H: DfuHandler, const BLOCK_SIZE: usize> View for DfuClass<H, BLOCK_SIZE> {
    type V = DfuView;

    closed spec fn view(&self) -> DfuView {
        DfuView {
            config: self.config,
            state: self.state,
            status: self.status,
            alt: self.alt,
            expecting_dnload: self.expecting_dnload,
            block_num: self.block_num,
            buffer: self.buffer@,
            transfer_offset: self.transfer_offset as int,
            transfer_total: self.transfer_total as int,
        }
    }
}

impl<H: DfuHandler, const BLOCK_SIZE: usize> DfuClass<H, BLOCK_SIZE> {
    /// The buffer holds `BLOCK_SIZE` bytes, and the transfer offset and
    /// total are counts that fit in a `usize`.
    pub open spec fn wf(&self) -> bool {
        &&& self@.buffer.len() == BLOCK_SIZE
        &&& 0 <= self@.transfer_offset <= usize::MAX
        &&& 0 <= self@.transfer_total <= usize::MAX
    }

    /// The handler.
    pub closed spec fn spec_handler(&self) -> H {
        self.handler
    }

    /// A class in the idle state with status OK, a zeroed buffer, and no
    /// transfer under way.
    pub fn new(config: DfuBuilder, handler: H) -> (r: Self)
        requires
            BLOCK_SIZE >= config.transfer_size,
        ensures
            r.wf(),
            r.spec_handler() == handler,
            r@ == (DfuView {
                config,
                state: DfuState::DfuIdle,
                status: DfuStatus::StatusOk,
                alt: 0,
                expecting_dnload: false,
                block_num: 0,
                buffer: Seq::new(BLOCK_SIZE as nat, |i: int| 0u8),
                transfer_offset: 0,
                transfer_total: 0,
            }),
    {
        let mut buffer: Vec<u8> = Vec::new();
        let mut i: usize = 0;
        while i < BLOCK_SIZE
            invariant
                i <= BLOCK_SIZE,
                buffer@ == Seq::new(i as nat, |k: int| 0u8),
            decreases BLOCK_SIZE - i,
        {
            buffer.push(0);
            i = i + 1;
            assert(buffer@ =~= Seq::new(i as nat, |k: int| 0u8));
        }
        DfuClass {
            config,
            handler,
            state: DfuState::DfuIdle,
            status: DfuStatus::StatusOk,
            alt: 0,
            expecting_dnload: false,
            block_num: 0,
            buffer,
            transfer_offset: 0,
            transfer_total: 0,
        }
    }

    /// The current state.
    pub fn state(&self) -> (r: DfuState)
        ensures
            r == self@.state,
    {
        self.state
    }

    /// The current status.
    pub fn status(&self) -> (r: DfuStatus)
        ensures
            r == self@.status,
    {
        self.status
    }

    /// The handler.
    pub fn handler(&self) -> (r: &H)
        ensures
            *r == self.spec_handler(),
    {
        &self.handler
    }

    /// The IN transfer that is due, if any, with whether it must end with a
    /// zero-length packet.
    pub fn pending_in_transfer(&self) -> (r: Option<(Vec<u8>, bool)>)
        requires
            self.wf(),
        ensures
            match (r, pending_transfer(self@, BLOCK_SIZE as nat)) {
                (Some((data, zlp)), Some((d, z))) => data@ == d && zlp == z,
                (None, None) => true,
                _ => false,
            },
    {
        if !(self.state == DfuState::DfuUploadIdle || self.state == DfuState::DfuIdle) {
            return None;
        }
        if self.transfer_offset >= self.transfer_total || self.transfer_total > BLOCK_SIZE {
            return None;
        }
        let mut data: Vec<u8> = Vec::new();
        let mut i = self.transfer_offset;
        while i < self.transfer_total
            invariant
                self.transfer_offset <= i <= self.transfer_total,
                self.transfer_total <= self.buffer@.len(),
                data@ == self.buffer@.subrange(self.transfer_offset as int, i as int),
            decreases self.transfer_total - i,
        {
            data.push(self.buffer[i]);
            i = i + 1;
            assert(data@ =~= self.buffer@.subrange(self.transfer_offset as int, i as int));
        }
        let zlp = self.transfer_total < self.config.transfer_size as usize;
        Some((data, zlp))
    }

    /// Records that `n` bytes of the pending IN transfer were sent.
    pub fn complete_in_transfer(&mut self, n: usize)
        requires
            old(self).wf(),
            pending_transfer(old(self)@, BLOCK_SIZE as nat) is Some,
            old(self)@.transfer_offset + n <= usize::MAX,
        ensures
            final(self).wf(),
            final(self).spec_handler() == old(self).spec_handler(),
            final(self)@ == transfer_done_step(old(self)@, n as int),
    {
        self.transfer_offset = self.transfer_offset + n;
        if self.transfer_offset == self.transfer_total {
            if self.transfer_total < self.config.transfer_size as usize {
                self.state = DfuState::DfuIdle;
            } else {
                self.state = DfuState::DfuUploadIdle;
            }
        }
    }

    /// Whether answering `event` would write its reply past the buffer:
    /// a status request needs 6 bytes of buffer and a state request 1.
    pub fn event_overflows(&self, event: &UsbEvent) -> (r: bool)
        ensures
            r == (*event matches UsbEvent::SetupPacket { pkt, endpoint } && endpoint == 0
                && setup_overflows(self@, pkt, BLOCK_SIZE as nat)),
    {
        match event {
            UsbEvent::SetupPacket { pkt, endpoint } => {
                *endpoint == 0 && pkt.request % 0x20 == RECIPIENT_INTERFACE && (pkt.index as u8)
                    == self.config.interface_num && ((pkt.request == DFU_GETSTATUS && BLOCK_SIZE
                    < 6) || (pkt.request == DFU_GETSTATE && BLOCK_SIZE < 1))
            },
            UsbEvent::DataOutPacket(_) => false,
        }
    }

    /// Answers a setup packet on endpoint 0.
    fn handle_setup(&mut self, pkt: SetupPacket) -> (r: (UsbAction, bool))
        requires
            old(self).wf(),
            !setup_overflows(old(self)@, pkt, BLOCK_SIZE as nat),
        ensures
            final(self).wf(),
            exists|o: HandlerOutcome|
                {
                    &&& o.upload_buffer.len() == BLOCK_SIZE
                    &&& #[trigger] setup_step(old(self)@, pkt, BLOCK_SIZE as nat, o) == (
                        final(self)@,
                        r.0@,
                        r.1,
                    )
                    &&& setup_handler_step(
                        old(self)@,
                        pkt,
                        old(self).spec_handler(),
                        final(self).spec_handler(),
                        o,
                    )
                },
    {
        let ghost v = self@;
        let ghost bs = BLOCK_SIZE as nat;
        let ghost no_call = HandlerOutcome {
            upload: Ok(0),
            upload_buffer: self.buffer@,
            manifest: Ok(()),
        };
        if pkt.request % 0x20 != RECIPIENT_INTERFACE || (pkt.index as u8)
            != self.config.interface_num {
            assert(setup_step(v, pkt, bs, no_call) == (self@, ActionView::NoAction, false));
            return (UsbAction::NoAction, false);
        }
        let request = pkt.request;
        if request == DFU_DETACH {
            let a = ack_action();
            assert(setup_step(v, pkt, bs, no_call) == (self@, a@, true));
            (a, true)
        } else if request == DFU_DNLOAD {
            if self.state == DfuState::DfuError {
                let a = stall_action();
                assert(setup_step(v, pkt, bs, no_call) == (self@, a@, true));
                return (a, true);
            }
            let len = pkt.length as usize;
            if len > BLOCK_SIZE {
                self.state = DfuState::DfuError;
                self.status = DfuStatus::ErrStalledPkt;
                let a = stall_action();
                assert(setup_step(v, pkt, bs, no_call) == (self@, a@, true));
                return (a, true);
            }
            self.block_num = pkt.value;
            self.transfer_offset = 0;
            self.transfer_total = len;
            if len == 0 {
                self.state = DfuState::DfuManifestSync;
                let a = ack_action();
                assert(setup_step(v, pkt, bs, no_call) == (self@, a@, true));
                (a, true)
            } else {
                self.expecting_dnload = true;
                self.state = DfuState::DfuDnloadSync;
                assert(setup_step(v, pkt, bs, no_call) == (self@, ActionView::NoAction, true));
                (UsbAction::NoAction, true)
            }
        } else if request == DFU_UPLOAD {
            if self.state != DfuState::DfuIdle && self.state != DfuState::DfuUploadIdle {
                let a = stall_action();
                assert(setup_step(v, pkt, bs, no_call) == (self@, a@, true));
                return (a, true);
            }
            self.block_num = pkt.value;
            let result = self.handler.upload(self.alt, self.block_num, self.buffer.as_mut_slice());
            let ghost o = HandlerOutcome {
                upload: result,
                upload_buffer: self.buffer@,
                manifest: Ok(()),
            };
            match result {
                Ok(n) => {
                    if n == 0 {
                        self.transfer_offset = 0;
                        self.transfer_total = 0;
                        self.state = DfuState::DfuIdle;
                        let a = ack_action();
                        assert(setup_step(v, pkt, bs, o) == (self@, a@, true));
                        (a, true)
                    } else {
                        self.transfer_offset = 0;
                        self.transfer_total = n;
                        assert(setup_step(v, pkt, bs, o) == (self@, ActionView::NoAction, true));
                        (UsbAction::NoAction, true)
                    }
                },
                Err(s) => {
                    self.state = DfuState::DfuError;
                    self.status = s;
                    let a = stall_action();
                    assert(setup_step(v, pkt, bs, o) == (self@, a@, true));
                    (a, true)
                },
            }
        } else if request == DFU_GETSTATUS {
            let status_code = self.status.code();
            let state_code = self.state.code();
            self.buffer.set(0, status_code);
            self.buffer.set(1, 0);
            self.buffer.set(2, 0);
            self.buffer.set(3, 0);
            self.buffer.set(4, state_code);
            self.buffer.set(5, 0);
            assert(self.buffer@ =~= status_reply(v));
            let mut manifest_result: Result<(), DfuStatus> = Ok(());
            if self.state == DfuState::DfuDnloadSync {
                self.state = DfuState::DfuDnloadIdle;
            } else if self.state == DfuState::DfuManifestSync {
                manifest_result = self.handler.manifest();
                match manifest_result {
                    Ok(()) => self.state = DfuState::DfuIdle,
                    Err(s) => {
                        self.state = DfuState::DfuError;
                        self.status = s;
                    },
                }
            }
            let ghost o = HandlerOutcome {
                upload: Ok(0),
                upload_buffer: v.buffer,
                manifest: manifest_result,
            };
            let mut data: Vec<u8> = Vec::new();
            let mut i: usize = 0;
            while i < 6
                invariant
                    i <= 6,
                    self.buffer@.len() == BLOCK_SIZE,
                    BLOCK_SIZE >= 6,
                    data@ == self.buffer@.take(i as int),
                decreases 6 - i,
            {
                data.push(self.buffer[i]);
                i = i + 1;
                assert(data@ =~= self.buffer@.take(i as int));
            }
            let a = UsbAction::TransferInUnaligned { endpoint: 0, data, zlp: true };
            assert(setup_step(v, pkt, bs, o) == (self@, a@, true));
            (a, true)
        } else if request == DFU_CLRSTATUS {
            self.state = DfuState::DfuIdle;
            self.status = DfuStatus::StatusOk;
            let a = ack_action();
            assert(setup_step(v, pkt, bs, no_call) == (self@, a@, true));
            (a, true)
        } else if request == DFU_GETSTATE {
            let state_code = self.state.code();
            self.buffer.set(0, state_code);
            let mut data: Vec<u8> = Vec::new();
            data.push(self.buffer[0]);
            assert(data@ =~= self.buffer@.take(1));
            let a = UsbAction::TransferInUnaligned { endpoint: 0, data, zlp: true };
            assert(setup_step(v, pkt, bs, no_call) == (self@, a@, true));
            (a, true)
        } else if request == DFU_ABORT {
            self.handler.abort();
            self.state = DfuState::DfuIdle;
            self.status = DfuStatus::StatusOk;
            self.transfer_total = 0;
            self.transfer_offset = 0;
            let a = ack_action();
            assert(setup_step(v, pkt, bs, no_call) == (self@, a@, true));
            (a, true)
        } else if request == INTERFACE_SET_INTERFACE {
            self.alt = pkt.value as u8;
            let a = ack_action();
            assert(setup_step(v, pkt, bs, no_call) == (self@, a@, true));
            (a, true)
        } else {
            assert(setup_step(v, pkt, bs, no_call) == (self@, ActionView::NoAction, false));
            (UsbAction::NoAction, false)
        }
    }

    /// Answers a data packet on endpoint 0 while a download is expected.
    fn handle_control_out(&mut self, pkt: UsbPacket) -> (r: UsbAction)
        requires
            old(self).wf(),
        ensures
            final(self).wf(),
            exists|dnload: Result<(), DfuStatus>|
                {
                    &&& #[trigger] control_out_step(old(self)@, pkt.data@, BLOCK_SIZE as nat, dnload)
                        == (final(self)@, r@)
                    &&& control_out_handler_step(
                        old(self)@,
                        pkt.data@,
                        BLOCK_SIZE as nat,
                        old(self).spec_handler(),
                        final(self).spec_handler(),
                        dnload,
                    )
                },
    {
        let ghost v = self@;
        let ghost bs = BLOCK_SIZE as nat;
        let ghost data = pkt.data@;
        let ghost h0 = self.handler;
        if !self.expecting_dnload || self.transfer_offset > BLOCK_SIZE {
            let a = stall_action();
            assert(control_out_step(v, data, bs, Ok(())) == (self@, a@));
            return a;
        }
        let room = BLOCK_SIZE - self.transfer_offset;
        let n = if pkt.data.len() <= room {
            pkt.data.len()
        } else {
            room
        };
        let start = self.transfer_offset;
        let mut i: usize = 0;
        while i < n
            invariant
                i <= n,
                start + n <= BLOCK_SIZE,
                n <= pkt.data@.len(),
                v.buffer.len() == BLOCK_SIZE,
                self@ == (DfuView { buffer: self@.buffer, ..v }),
                self.buffer@.len() == BLOCK_SIZE,
                data == pkt.data@,
                self.handler == h0,
                self.buffer@ == v.buffer.take(start as int) + data.take(i as int) + v.buffer.skip(
                    start + i,
                ),
            decreases n - i,
        {
            self.buffer.set(start + i, pkt.data[i]);
            i = i + 1;
            assert(self.buffer@ =~= v.buffer.take(start as int) + data.take(i as int)
                + v.buffer.skip(start + i));
        }
        self.transfer_offset = start + n;
        if self.transfer_offset >= self.transfer_total {
            self.expecting_dnload = false;
            if self.transfer_total > BLOCK_SIZE {
                self.state = DfuState::DfuError;
                self.status = DfuStatus::ErrAddress;
                let a = stall_action();
                assert(control_out_step(v, data, bs, Ok(())) == (self@, a@));
                return a;
            }
            assert(dnload_called(v, data, bs));
            assert(dnload_block(v, data, bs) == self.buffer@.take(self.transfer_total as int));
            let result = self.handler.dnload(
                self.alt,
                self.block_num,
                slice_prefix(self.buffer.as_slice(), self.transfer_total),
            );
            match result {
                Ok(()) => {
                    let a = ack_action();
                    assert(control_out_step(v, data, bs, result) == (self@, a@));
                    a
                },
                Err(s) => {
                    self.state = DfuState::DfuError;
                    self.status = s;
                    let a = stall_action();
                    assert(control_out_step(v, data, bs, result) == (self@, a@));
                    a
                },
            }
        } else {
            assert(control_out_step(v, data, bs, Ok(())) == (
                self@,
                ActionView::NoAction,
            ));
            UsbAction::NoAction
        }
    }

    /// Handles an event: a setup packet on endpoint 0 is answered if it is
    /// addressed to this interface, and a data packet on endpoint 0 is taken
    /// while a download is expected; any other event is handed back.
    pub fn handle_event(&mut self, event: UsbEvent) -> (r: Result<UsbAction, UsbEvent>)
        requires
            old(self).wf(),
            event matches UsbEvent::SetupPacket { pkt, endpoint } ==> endpoint == 0
                ==> !setup_overflows(old(self)@, pkt, BLOCK_SIZE as nat),
        ensures
            final(self).wf(),
            match event {
                UsbEvent::SetupPacket { pkt, endpoint } => if endpoint == 0 {
                    exists|o: HandlerOutcome|
                        o.upload_buffer.len() == BLOCK_SIZE && {
                            let (v, a, claimed) = #[trigger] setup_step(
                                old(self)@,
                                pkt,
                                BLOCK_SIZE as nat,
                                o,
                            );
                            &&& final(self)@ == v
                            &&& setup_handler_step(
                                old(self)@,
                                pkt,
                                old(self).spec_handler(),
                                final(self).spec_handler(),
                                o,
                            )
                            &&& claimed ==> (r matches Ok(action) && action@ == a)
                            &&& !claimed ==> r == Err::<UsbAction, UsbEvent>(event)
                        }
                } else {
                    &&& final(self)@ == old(self)@
                    &&& final(self).spec_handler() == old(self).spec_handler()
                    &&& r == Err::<UsbAction, UsbEvent>(event)
                },
                UsbEvent::DataOutPacket(pkt) => if pkt.ep == 0 && old(self)@.expecting_dnload {
                    exists|dnload: Result<(), DfuStatus>|
                        {
                            let (v, a) = #[trigger] control_out_step(
                                old(self)@,
                                pkt.data@,
                                BLOCK_SIZE as nat,
                                dnload,
                            );
                            &&& final(self)@ == v
                            &&& control_out_handler_step(
                                old(self)@,
                                pkt.data@,
                                BLOCK_SIZE as nat,
                                old(self).spec_handler(),
                                final(self).spec_handler(),
                                dnload,
                            )
                            &&& r matches Ok(action) && action@ == a
                        }
                } else {
                    &&& final(self)@ == old(self)@
                    &&& final(self).spec_handler() == old(self).spec_handler()
                    &&& r == Err::<UsbAction, UsbEvent>(event)
                },
            },
    {
        match event {
            UsbEvent::SetupPacket { pkt, endpoint } => {
                if endpoint == 0 {
                    let (action, claimed) = self.handle_setup(pkt);
                    if claimed {
                        Ok(action)
                    } else {
                        Err(UsbEvent::SetupPacket { pkt, endpoint })
                    }
                } else {
                    Err(UsbEvent::SetupPacket { pkt, endpoint })
                }
            },
            UsbEvent::DataOutPacket(pkt) => {
                if pkt.ep == 0 && self.expecting_dnload {
                    Ok(self.handle_control_out(pkt))
                } else {
                    Err(UsbEvent::DataOutPacket(pkt))
                }
            },
        }
    }
}

} // verus!

