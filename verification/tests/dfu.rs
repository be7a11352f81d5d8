//! Scenarios of the DFU class: download, upload, abort, status and errors.
use sfdp_dfu::dfu::{
    DfuBuilder, DfuClass, DfuHandler, DfuState, DfuStatus, DFU_ABORT, DFU_CLRSTATUS, DFU_DESCRIPTOR_TYPE,
    DFU_DNLOAD, DFU_GETSTATE, DFU_GETSTATUS, DFU_UPLOAD, USB_CLASS_APP_SPECIFIC, USB_PROTOCOL_DFU,
    USB_SUBCLASS_DFU,
};
use sfdp_dfu::usb::{SetupPacket, StringHandle, UsbAction, UsbEvent, UsbPacket, INTERFACE_SET_INTERFACE};

struct MockHandler {
    dnload_called: bool,
    upload_called: bool,
    manifest_called: bool,
    abort_called: bool,
    dnloaded: Vec<u8>,
    fail_manifest: bool,
}

impl MockHandler {
    fn new() -> Self {
        Self {
            dnload_called: false,
            upload_called: false,
            manifest_called: false,
            abort_called: false,
            dnloaded: Vec::new(),
            fail_manifest: false,
        }
    }
}

impl DfuHandler for MockHandler {
    fn dnload(&mut self, _alt: u8, _block_num: u16, data: &[u8]) -> Result<(), DfuStatus> {
        self.dnload_called = true;
        self.dnloaded = data.to_vec();
        Ok(())
    }
    fn upload(&mut self, _alt: u8, _block_num: u16, data: &mut [u8]) -> Result<usize, DfuStatus> {
        self.upload_called = true;
        data[0] = 0xAA;
        Ok(1)
    }
    fn manifest(&mut self) -> Result<(), DfuStatus> {
        self.manifest_called = true;
        if self.fail_manifest {
            Err(DfuStatus::ErrVerify)
        } else {
            Ok(())
        }
    }
    fn abort(&mut self) {
        self.abort_called = true;
    }
}

fn setup_packet(req: u16, val: u16, idx: u16, len: u16) -> SetupPacket {
    SetupPacket::new([
        (req as u32) | ((val as u32) << 16),
        (idx as u32) | ((len as u32) << 16),
    ])
}

fn setup_event(req: u16, val: u16, idx: u16, len: u16) -> UsbEvent {
    UsbEvent::SetupPacket { endpoint: 0, pkt: setup_packet(req, val, idx, len) }
}

/// Sends the pending IN transfer, if any, as a driver that accepts it all.
fn poll(dfu: &mut DfuClass<MockHandler, 64>, transferred: &mut usize) {
    if let Some((data, _zlp)) = dfu.pending_in_transfer() {
        *transferred = data.len();
        dfu.complete_in_transfer(data.len());
    }
}

#[test]
fn test_dfu_dnload_sequence() {
    let config = DfuBuilder::new(1, 1, 64);
    let mut dfu = DfuClass::<_, 64>::new(config, MockHandler::new());

    // 1. DNLOAD request (block 0, 4 bytes)
    let action = dfu.handle_event(setup_event(DFU_DNLOAD, 0, 1, 4)).map_err(|_| ()).unwrap();
    assert!(matches!(action, UsbAction::NoAction));
    assert_eq!(dfu.state(), DfuState::DfuDnloadSync);

    // 2. Data OUT packet
    let pkt = UsbPacket { ep: 0, data: vec![1, 2, 3, 4] };
    let action = dfu.handle_event(UsbEvent::DataOutPacket(pkt)).map_err(|_| ()).unwrap();
    assert!(matches!(action, UsbAction::TransferIn { endpoint: 0, .. }));
    assert!(dfu.handler().dnload_called);

    // 3. GETSTATUS
    let action = dfu.handle_event(setup_event(DFU_GETSTATUS, 0, 1, 6)).map_err(|_| ()).unwrap();
    assert!(matches!(action, UsbAction::TransferInUnaligned { .. }));
    assert_eq!(dfu.state(), DfuState::DfuDnloadIdle);

    // 4. DNLOAD ZLP (Manifestation)
    let action = dfu.handle_event(setup_event(DFU_DNLOAD, 1, 1, 0)).map_err(|_| ()).unwrap();
    assert!(matches!(action, UsbAction::TransferIn { endpoint: 0, .. }));
    assert_eq!(dfu.state(), DfuState::DfuManifestSync);

    // 5. GETSTATUS (Manifest)
    let _ = dfu.handle_event(setup_event(DFU_GETSTATUS, 0, 1, 6)).map_err(|_| ()).unwrap();
    assert!(dfu.handler().manifest_called);
    assert_eq!(dfu.state(), DfuState::DfuIdle);
}

#[test]
fn test_dfu_upload() {
    let config = DfuBuilder::new(1, 1, 64);
    let mut dfu = DfuClass::<_, 64>::new(config, MockHandler::new());

    let action = dfu.handle_event(setup_event(DFU_UPLOAD, 0, 1, 64)).map_err(|_| ()).unwrap();
    assert!(matches!(action, UsbAction::NoAction));

    let mut transferred = 0;
    poll(&mut dfu, &mut transferred);
    assert_eq!(transferred, 1);
    assert!(dfu.handler().upload_called);
    assert_eq!(dfu.state(), DfuState::DfuIdle); // n < transfer_size
}

#[test]
fn test_dfu_abort() {
    let config = DfuBuilder::new(1, 1, 64);
    let mut dfu = DfuClass::<_, 64>::new(config, MockHandler::new());
    // Reach dfuDNLOAD-IDLE: a download request, its data, then a status request.
    dfu.handle_event(setup_event(DFU_DNLOAD, 0, 1, 4)).map_err(|_| ()).unwrap();
    dfu.handle_event(UsbEvent::DataOutPacket(UsbPacket { ep: 0, data: vec![1, 2, 3, 4] }))
        .map_err(|_| ())
        .unwrap();
    dfu.handle_event(setup_event(DFU_GETSTATUS, 0, 1, 6)).map_err(|_| ()).unwrap();
    assert_eq!(dfu.state(), DfuState::DfuDnloadIdle);

    let action = dfu.handle_event(setup_event(DFU_ABORT, 0, 1, 0)).map_err(|_| ()).unwrap();
    assert!(matches!(action, UsbAction::TransferIn { endpoint: 0, .. }));
    assert!(dfu.handler().abort_called);
    assert_eq!(dfu.state(), DfuState::DfuIdle);
}

#[test]
fn getstatus_reply_bytes() {
    let mut dfu = DfuClass::<_, 64>::new(DfuBuilder::new(1, 1, 64), MockHandler::new());
    dfu.handle_event(setup_event(DFU_DNLOAD, 0, 1, 4)).map_err(|_| ()).unwrap();
    let action = dfu.handle_event(setup_event(DFU_GETSTATUS, 0, 1, 6)).map_err(|_| ()).unwrap();
    match action {
        // bStatus OK, zero poll timeout, bState dfuDNLOAD-SYNC (3), no string.
        UsbAction::TransferInUnaligned { endpoint, data, zlp } => {
            assert_eq!(endpoint, 0);
            assert_eq!(data, vec![0, 0, 0, 0, 3, 0]);
            assert!(zlp);
        }
        _ => panic!("expected a status reply"),
    }
    let action = dfu.handle_event(setup_event(DFU_GETSTATE, 0, 1, 1)).map_err(|_| ()).unwrap();
    match action {
        UsbAction::TransferInUnaligned { data, .. } => assert_eq!(data, vec![5]),
        _ => panic!("expected a state reply"),
    }
}

#[test]
fn download_data_reaches_handler_in_pieces() {
    let mut dfu = DfuClass::<_, 64>::new(DfuBuilder::new(1, 1, 64), MockHandler::new());
    dfu.handle_event(setup_event(DFU_DNLOAD, 7, 1, 6)).map_err(|_| ()).unwrap();
    let action = dfu
        .handle_event(UsbEvent::DataOutPacket(UsbPacket { ep: 0, data: vec![9, 8, 7, 6] }))
        .map_err(|_| ())
        .unwrap();
    assert!(matches!(action, UsbAction::NoAction));
    assert!(!dfu.handler().dnload_called);
    let action = dfu
        .handle_event(UsbEvent::DataOutPacket(UsbPacket { ep: 0, data: vec![5, 4] }))
        .map_err(|_| ())
        .unwrap();
    assert!(matches!(action, UsbAction::TransferIn { .. }));
    assert_eq!(dfu.handler().dnloaded, vec![9, 8, 7, 6, 5, 4]);
}

#[test]
fn oversized_download_stalls_then_clrstatus() {
    let mut dfu = DfuClass::<_, 64>::new(DfuBuilder::new(1, 1, 64), MockHandler::new());
    let action = dfu.handle_event(setup_event(DFU_DNLOAD, 0, 1, 65)).map_err(|_| ()).unwrap();
    assert!(matches!(action, UsbAction::StallInAndOut { endpoint: 0 }));
    assert_eq!(dfu.state(), DfuState::DfuError);
    assert_eq!(dfu.status(), DfuStatus::ErrStalledPkt);
    // In the error state a download is refused and changes nothing.
    let action = dfu.handle_event(setup_event(DFU_DNLOAD, 0, 1, 4)).map_err(|_| ()).unwrap();
    assert!(matches!(action, UsbAction::StallInAndOut { endpoint: 0 }));
    assert_eq!(dfu.state(), DfuState::DfuError);
    // CLRSTATUS recovers.
    let action = dfu.handle_event(setup_event(DFU_CLRSTATUS, 0, 1, 0)).map_err(|_| ()).unwrap();
    assert!(matches!(action, UsbAction::TransferIn { .. }));
    assert_eq!(dfu.state(), DfuState::DfuIdle);
    assert_eq!(dfu.status(), DfuStatus::StatusOk);
}

#[test]
fn failed_manifestation_sets_error() {
    let mut handler = MockHandler::new();
    handler.fail_manifest = true;
    let mut dfu = DfuClass::<_, 64>::new(DfuBuilder::new(1, 1, 64), handler);
    dfu.handle_event(setup_event(DFU_DNLOAD, 0, 1, 0)).map_err(|_| ()).unwrap();
    dfu.handle_event(setup_event(DFU_GETSTATUS, 0, 1, 6)).map_err(|_| ()).unwrap();
    assert_eq!(dfu.state(), DfuState::DfuError);
    assert_eq!(dfu.status(), DfuStatus::ErrVerify);
}

#[test]
fn foreign_packets_are_handed_back() {
    let mut dfu = DfuClass::<_, 64>::new(DfuBuilder::new(1, 1, 64), MockHandler::new());
    // Another interface.
    assert!(dfu.handle_event(setup_event(DFU_GETSTATUS, 0, 2, 6)).is_err());
    // Another endpoint.
    let ev = UsbEvent::SetupPacket { endpoint: 1, pkt: setup_packet(DFU_ABORT, 0, 1, 0) };
    assert!(dfu.handle_event(ev).is_err());
    // Data while no download is expected.
    let ev = UsbEvent::DataOutPacket(UsbPacket { ep: 0, data: vec![1] });
    assert!(dfu.handle_event(ev).is_err());
    // An unknown request.
    assert!(dfu.handle_event(setup_event(0x0721, 0, 1, 0)).is_err());
    assert_eq!(dfu.state(), DfuState::DfuIdle);
    assert!(!dfu.handler().abort_called);
}

#[test]
fn set_interface_selects_alternate_setting() {
    let mut dfu = DfuClass::<_, 64>::new(DfuBuilder::new(1, 2, 64), MockHandler::new());
    let action = dfu.handle_event(setup_event(INTERFACE_SET_INTERFACE, 1, 1, 0)).map_err(|_| ()).unwrap();
    assert!(matches!(action, UsbAction::TransferIn { .. }));
}

#[test]
fn descriptors() {
    let mut b = DfuBuilder::new(3, 2, 0x0140);
    assert_eq!(b.attributes, 0x07);
    b.detach_timeout = 0x1234;
    let f = b.functional_descriptor();
    assert_eq!(f.descriptor_type, DFU_DESCRIPTOR_TYPE);
    assert_eq!(f.data, vec![0x07, 0x34, 0x12, 0x40, 0x01, 0x10, 0x01]);
    let i = b.interface(1, StringHandle(4), vec![f]);
    assert_eq!(i.interface_number, 3);
    assert_eq!(i.alternate_setting, 1);
    assert_eq!(i.interface_class, USB_CLASS_APP_SPECIFIC);
    assert_eq!(i.interface_sub_class, USB_SUBCLASS_DFU);
    assert_eq!(i.interface_protocol, USB_PROTOCOL_DFU);
    assert_eq!(i.num_endpoints, 0);
}

#[test]
fn upload_of_full_block_stays_in_upload_idle() {
    struct FullHandler;
    impl DfuHandler for FullHandler {
        fn dnload(&mut self, _: u8, _: u16, _: &[u8]) -> Result<(), DfuStatus> {
            Ok(())
        }
        fn upload(&mut self, _: u8, block: u16, data: &mut [u8]) -> Result<usize, DfuStatus> {
            for (i, b) in data.iter_mut().enumerate() {
                *b = (i as u16 + block) as u8;
            }
            Ok(data.len())
        }
        fn manifest(&mut self) -> Result<(), DfuStatus> {
            Ok(())
        }
        fn abort(&mut self) {}
    }
    let mut dfu = DfuClass::<_, 8>::new(DfuBuilder::new(0, 1, 8), FullHandler);
    dfu.handle_event(setup_event(DFU_UPLOAD, 2, 0, 8)).map_err(|_| ()).unwrap();
    let (data, zlp) = dfu.pending_in_transfer().unwrap();
    assert_eq!(data, vec![2, 3, 4, 5, 6, 7, 8, 9]);
    assert!(!zlp);
    // A partial send keeps the rest pending.
    dfu.complete_in_transfer(3);
    let (data, _) = dfu.pending_in_transfer().unwrap();
    assert_eq!(data, vec![5, 6, 7, 8, 9]);
    dfu.complete_in_transfer(5);
    assert!(dfu.pending_in_transfer().is_none());
    assert_eq!(dfu.state(), DfuState::DfuUploadIdle);
}

#[test]
fn only_the_right_requests_reach_the_handler() {
    struct Recorder {
        calls: Vec<(u8, u8, u16, Vec<u8>)>,
    }
    impl DfuHandler for Recorder {
        fn dnload(&mut self, alt: u8, block_num: u16, data: &[u8]) -> Result<(), DfuStatus> {
            self.calls.push((b'd', alt, block_num, data.to_vec()));
            Ok(())
        }
        fn upload(&mut self, alt: u8, block_num: u16, data: &mut [u8]) -> Result<usize, DfuStatus> {
            self.calls.push((b'u', alt, block_num, Vec::new()));
            data[0] = 7;
            Ok(1)
        }
        fn manifest(&mut self) -> Result<(), DfuStatus> {
            self.calls.push((b'm', 0, 0, Vec::new()));
            Ok(())
        }
        fn abort(&mut self) {
            self.calls.push((b'a', 0, 0, Vec::new()));
        }
    }
    let mut dfu = DfuClass::<_, 16>::new(DfuBuilder::new(1, 2, 16), Recorder { calls: Vec::new() });
    dfu.handle_event(setup_event(INTERFACE_SET_INTERFACE, 1, 1, 0)).map_err(|_| ()).unwrap();
    dfu.handle_event(setup_event(DFU_DNLOAD, 5, 1, 3)).map_err(|_| ()).unwrap();
    dfu.handle_event(UsbEvent::DataOutPacket(UsbPacket { ep: 0, data: vec![9, 8] })).map_err(|_| ()).unwrap();
    assert!(dfu.handler().calls.is_empty());
    dfu.handle_event(UsbEvent::DataOutPacket(UsbPacket { ep: 0, data: vec![7] })).map_err(|_| ()).unwrap();
    assert_eq!(dfu.handler().calls, vec![(b'd', 1, 5, vec![9, 8, 7])]);
    dfu.handle_event(setup_event(DFU_GETSTATUS, 0, 1, 6)).map_err(|_| ()).unwrap();
    dfu.handle_event(setup_event(DFU_GETSTATE, 0, 1, 1)).map_err(|_| ()).unwrap();
    dfu.handle_event(setup_event(DFU_CLRSTATUS, 0, 1, 0)).map_err(|_| ()).unwrap();
    assert_eq!(dfu.handler().calls.len(), 1);
    dfu.handle_event(setup_event(DFU_DNLOAD, 6, 1, 0)).map_err(|_| ()).unwrap();
    assert_eq!(dfu.handler().calls.len(), 1);
    dfu.handle_event(setup_event(DFU_GETSTATUS, 0, 1, 6)).map_err(|_| ()).unwrap();
    assert_eq!(dfu.handler().calls[1], (b'm', 0, 0, Vec::new()));
    dfu.handle_event(setup_event(DFU_UPLOAD, 3, 1, 16)).map_err(|_| ()).unwrap();
    assert_eq!(dfu.handler().calls[2], (b'u', 1, 3, Vec::new()));
    let (data, _) = dfu.pending_in_transfer().unwrap();
    assert_eq!(data, vec![7]);
    dfu.handle_event(setup_event(DFU_ABORT, 0, 1, 0)).map_err(|_| ()).unwrap();
    assert_eq!(dfu.handler().calls.len(), 4);
    assert_eq!(dfu.handler().calls[3].0, b'a');
    assert_eq!(dfu.state(), DfuState::DfuIdle);
}
