//! The USB control protocol and the flash update sequence.

use sysbadge::badge::{CurrentMenu, Sysbadge};
use sysbadge::binfmt::SystemReader;
use sysbadge::protocol::{
    update_task_step, ButtonChannel, ControlRequest, FlashRegion, InReply, OutAction,
    OutResponse, UpdateChannel, UsbHandler,
};
use sysbadge::system::{MemberStrings, SystemVec};
use sysbadge::usb::BootSel;

const BASE: u32 = 0x1000_0000;
const IFACE: u16 = 1;
const BUF: usize = 64;

fn handler() -> UsbHandler {
    UsbHandler::new(IFACE, b"0.1.0".to_vec(), b"host".to_vec())
}

fn req(request: u8, value: u16, length: u16) -> ControlRequest {
    ControlRequest {
        vendor: true,
        recipient_interface: true,
        request,
        value,
        index: IFACE,
        length,
    }
}

fn roster(name: &str) -> Vec<u8> {
    let mut sys = SystemVec::new(name.to_string());
    sys.members.push(MemberStrings {
        name: "Alice".to_string(),
        pronouns: "she/her".to_string(),
    });
    sys.members.push(MemberStrings {
        name: "Bob".to_string(),
        pronouns: String::new(),
    });
    sys.get_bin(BASE)
}

struct Rig {
    h: UsbHandler,
    badge: Sysbadge<SystemReader>,
    buttons: ButtonChannel,
    chan: UpdateChannel,
    flash: FlashRegion,
}

fn rig() -> Rig {
    let old = roster("oldsys");
    let mut flash = FlashRegion::new(BASE, 4096);
    assert!(flash.write(0, &old));
    let reader = SystemReader::from_byte_slice(&old, BASE).unwrap();
    Rig {
        h: handler(),
        badge: Sysbadge::new(Some(reader)),
        buttons: ButtonChannel::new(),
        chan: UpdateChannel::new(),
        flash: FlashRegion { base: flash.base, data: flash.data.clone() },
    }
}

fn dnload_all(r: &mut Rig, image: &[u8]) {
    for (i, chunk) in image.chunks(64).enumerate() {
        let mut padded = chunk.to_vec();
        while padded.len() % 4 != 0 {
            padded.push(0);
        }
        let (res, _) = r.h.control_out(
            req(0x0b, (i * 64) as u16, padded.len() as u16),
            &padded,
            &mut r.badge,
            &mut r.buttons,
            &mut r.chan,
            &r.flash,
        );
        assert_eq!(res, Some(OutResponse::Accepted));
        update_task_step(&mut r.chan, &mut r.flash);
    }
}

#[test]
fn update_sequence_swaps_roster() {
    let mut r = rig();
    // enter update mode without erasing
    let (res, _) = r.h.control_out(
        req(0x0a, 0, 0),
        &[],
        &mut r.badge,
        &mut r.buttons,
        &mut r.chan,
        &r.flash,
    );
    assert_eq!(res, Some(OutResponse::Accepted));
    assert_eq!(*r.badge.current(), CurrentMenu::Updating);

    // push the new roster in bounded chunks
    let image = roster("newsys");
    dnload_all(&mut r, &image);

    // finalize with a zero-length transfer
    let (res, _) = r.h.control_out(
        req(0x0b, 0, 0),
        &[],
        &mut r.badge,
        &mut r.buttons,
        &mut r.chan,
        &r.flash,
    );
    assert_eq!(res, Some(OutResponse::Accepted));
    assert_eq!(*r.badge.current(), CurrentMenu::SystemName);

    // the live roster is the new one
    let name = r.h.control_in(req(0x01, 0, 64), BUF, &r.badge, &mut r.chan);
    assert_eq!(name, Some(InReply::Data(b"newsys".to_vec())));

    // and the status poll reports the sequence as over
    let st = r.h.control_in(req(0x0a, 0, 1), BUF, &r.badge, &mut r.chan);
    assert_eq!(st, Some(InReply::Data(vec![0x00])));
}

#[test]
fn finalize_of_corrupt_stream_keeps_old_roster() {
    let mut r = rig();
    let (res, _) = r.h.control_out(
        req(0x0a, 0, 0),
        &[],
        &mut r.badge,
        &mut r.buttons,
        &mut r.chan,
        &r.flash,
    );
    assert_eq!(res, Some(OutResponse::Accepted));

    // a garbage chunk lands where the header should be
    dnload_all(&mut r, &[0xddu8; 64]);

    let (res, _) = r.h.control_out(
        req(0x0b, 0, 0),
        &[],
        &mut r.badge,
        &mut r.buttons,
        &mut r.chan,
        &r.flash,
    );
    assert_eq!(res, Some(OutResponse::Rejected));
    // still updating, and the old roster still answers
    assert_eq!(*r.badge.current(), CurrentMenu::Updating);
    let name = r.h.control_in(req(0x01, 0, 64), BUF, &r.badge, &mut r.chan);
    assert_eq!(name, Some(InReply::Data(b"oldsys".to_vec())));
}

#[test]
fn upload_while_updating_is_rejected() {
    let mut r = rig();
    let (res, _) = r.h.control_out(
        req(0x0a, 0, 0),
        &[],
        &mut r.badge,
        &mut r.buttons,
        &mut r.chan,
        &r.flash,
    );
    assert_eq!(res, Some(OutResponse::Accepted));
    let (res, _) = r.h.control_out(
        req(0x0a, 0, 0),
        &[],
        &mut r.badge,
        &mut r.buttons,
        &mut r.chan,
        &r.flash,
    );
    assert_eq!(res, Some(OutResponse::Rejected));
}

#[test]
fn upload_with_erase_queues_and_reports() {
    let mut r = rig();
    let (res, _) = r.h.control_out(
        req(0x0a, 1, 0),
        &[],
        &mut r.badge,
        &mut r.buttons,
        &mut r.chan,
        &r.flash,
    );
    assert_eq!(res, Some(OutResponse::Accepted));
    // the poll sees the queued-but-unpolled entry status first
    let st = r.h.control_in(req(0x0a, 0, 1), BUF, &r.badge, &mut r.chan);
    assert_eq!(st, Some(InReply::Data(vec![0x03])));
    update_task_step(&mut r.chan, &mut r.flash);
    assert!(r.flash.data.iter().all(|b| *b == 0xff));
    let st = r.h.control_in(req(0x0a, 0, 1), BUF, &r.badge, &mut r.chan);
    assert_eq!(st, Some(InReply::Data(vec![0x02])));
}

#[test]
fn unaligned_or_oversized_chunks_are_rejected() {
    let mut r = rig();
    let (res, _) = r.h.control_out(
        req(0x0a, 0, 0),
        &[],
        &mut r.badge,
        &mut r.buttons,
        &mut r.chan,
        &r.flash,
    );
    assert_eq!(res, Some(OutResponse::Accepted));
    for (value, length) in [(2u16, 4u16), (0, 6), (0, 68)] {
        let data = vec![0u8; length as usize];
        let (res, _) = r.h.control_out(
            req(0x0b, value, length),
            &data,
            &mut r.badge,
            &mut r.buttons,
            &mut r.chan,
            &r.flash,
        );
        assert_eq!(res, Some(OutResponse::Rejected), "value {} length {}", value, length);
    }
    // a write past the end of the region is rejected before being queued
    let data = vec![0u8; 64];
    let (res, _) = r.h.control_out(
        req(0x0b, 4092, 64),
        &data,
        &mut r.badge,
        &mut r.buttons,
        &mut r.chan,
        &r.flash,
    );
    assert_eq!(res, Some(OutResponse::Rejected));
}

#[test]
fn member_reads_reject_out_of_range_index() {
    let mut r = rig();
    // two members: reading name 999 is rejected, not a fault
    let reply = r.h.control_in(req(0x03, 999, 64), BUF, &r.badge, &mut r.chan);
    assert_eq!(reply, Some(InReply::Rejected));
    let reply = r.h.control_in(req(0x04, 999, 64), BUF, &r.badge, &mut r.chan);
    assert_eq!(reply, Some(InReply::Rejected));
    // in-range reads answer
    let reply = r.h.control_in(req(0x03, 0, 64), BUF, &r.badge, &mut r.chan);
    assert_eq!(reply, Some(InReply::Data(b"Alice".to_vec())));
    let reply = r.h.control_in(req(0x04, 0, 64), BUF, &r.badge, &mut r.chan);
    assert_eq!(reply, Some(InReply::Data(b"she/her".to_vec())));
}

#[test]
fn member_count_is_little_endian() {
    let mut r = rig();
    let reply = r.h.control_in(req(0x02, 0, 2), BUF, &r.badge, &mut r.chan);
    assert_eq!(reply, Some(InReply::Data(vec![2, 0])));
    // only the exact length is served
    let reply = r.h.control_in(req(0x02, 0, 4), BUF, &r.badge, &mut r.chan);
    assert_eq!(reply, Some(InReply::Rejected));
}

#[test]
fn button_press_queues_and_backpressures() {
    let mut r = rig();
    let (res, _) = r.h.control_out(
        req(0x00, 1, 0),
        &[],
        &mut r.badge,
        &mut r.buttons,
        &mut r.chan,
        &r.flash,
    );
    assert_eq!(res, Some(OutResponse::Accepted));
    assert_eq!(r.buttons.slot, Some(sysbadge::Button::B));
    // the channel is full until the redraw task drains it
    let (res, _) = r.h.control_out(
        req(0x00, 2, 0),
        &[],
        &mut r.badge,
        &mut r.buttons,
        &mut r.chan,
        &r.flash,
    );
    assert_eq!(res, Some(OutResponse::Rejected));
    assert_eq!(r.buttons.recv(), Some(sysbadge::Button::B));
    // an unknown button code is rejected
    let (res, _) = r.h.control_out(
        req(0x00, 99, 0),
        &[],
        &mut r.badge,
        &mut r.buttons,
        &mut r.chan,
        &r.flash,
    );
    assert_eq!(res, Some(OutResponse::Rejected));
}

#[test]
fn set_state_requires_exact_length() {
    let mut r = rig();
    let state = CurrentMenu::Version.as_bytes();
    let (res, _) = r.h.control_out(
        req(0x06, 0, 12),
        &state,
        &mut r.badge,
        &mut r.buttons,
        &mut r.chan,
        &r.flash,
    );
    assert_eq!(res, Some(OutResponse::Accepted));
    assert_eq!(*r.badge.current(), CurrentMenu::Version);
    // wrong declared length
    let (res, _) = r.h.control_out(
        req(0x06, 0, 11),
        &state,
        &mut r.badge,
        &mut r.buttons,
        &mut r.chan,
        &r.flash,
    );
    assert_eq!(res, Some(OutResponse::Rejected));
}

#[test]
fn get_state_roundtrips_through_set_state() {
    let mut r = rig();
    let reply = r.h.control_in(req(0x05, 0, 12), BUF, &r.badge, &mut r.chan);
    let bytes = match reply {
        Some(InReply::Data(d)) => d,
        other => panic!("expected state bytes, got {:?}", other),
    };
    assert_eq!(CurrentMenu::from_bytes(&bytes), Some(CurrentMenu::SystemName));
}

#[test]
fn get_version_serves_strings_and_fetches_ids() {
    let mut r = rig();
    let reply = r.h.control_in(req(0x08, 0x10, 64), BUF, &r.badge, &mut r.chan);
    assert_eq!(reply, Some(InReply::Data(b"0.1.0".to_vec())));
    let reply = r.h.control_in(req(0x08, 0x11, 64), BUF, &r.badge, &mut r.chan);
    assert_eq!(reply, Some(InReply::Data(b"host".to_vec())));
    let reply = r.h.control_in(req(0x08, 0x01, 4), BUF, &r.badge, &mut r.chan);
    assert_eq!(reply, Some(InReply::FetchJedec));
    let reply = r.h.control_in(req(0x08, 0x02, 8), BUF, &r.badge, &mut r.chan);
    assert_eq!(reply, Some(InReply::FetchUniqueId));
    // no serial cached yet
    let reply = r.h.control_in(req(0x08, 0x03, 16), BUF, &r.badge, &mut r.chan);
    assert_eq!(reply, Some(InReply::Rejected));
}

#[test]
fn system_id_read_carries_provider_and_id() {
    // a builder-backed badge knows its provider id; the read returns the
    // provider code byte followed by the id string
    let mut sys = SystemVec::new("sys".to_string());
    sys.source_id = Some(sysbadge::system::SourceId::PluralKit("abcde".to_string()));
    let badge: Sysbadge<SystemVec> = Sysbadge::new(Some(sys));
    let h = handler();
    let mut chan = UpdateChannel::new();
    let reply = h.control_in(req(0x01, 1, 64), BUF, &badge, &mut chan);
    let mut expected = vec![1u8];
    expected.extend_from_slice(b"abcde");
    assert_eq!(reply, Some(InReply::Data(expected)));
}

#[test]
fn serial_read_uses_cached_serial() {
    let mut r = rig();
    r.badge.serial = Some("SN-0042".to_string());
    let reply = r.h.control_in(req(0x08, 0x03, 16), BUF, &r.badge, &mut r.chan);
    assert_eq!(reply, Some(InReply::Data(b"SN-0042".to_vec())));
}

#[test]
fn reboot_maps_targets_to_masks() {
    let mut r = rig();
    let (res, act) = r.h.control_out(
        req(0x09, 2, 0),
        &[],
        &mut r.badge,
        &mut r.buttons,
        &mut r.chan,
        &r.flash,
    );
    assert_eq!(res, Some(OutResponse::Accepted));
    assert_eq!(act, OutAction::Reboot(BootSel::MassStorage));
    assert_eq!(BootSel::MassStorage.disable_interface_mask(), Some(2));
    assert_eq!(BootSel::PicoBoot.disable_interface_mask(), Some(1));
    assert_eq!(BootSel::Application.disable_interface_mask(), None);
    // a plain application reboot is not served
    let (res, act) = r.h.control_out(
        req(0x09, 0, 0),
        &[],
        &mut r.badge,
        &mut r.buttons,
        &mut r.chan,
        &r.flash,
    );
    assert_eq!(res, Some(OutResponse::Rejected));
    assert_eq!(act, OutAction::Nothing);
}

#[test]
fn foreign_transfers_are_left_alone() {
    let mut r = rig();
    let mut foreign = req(0x01, 0, 64);
    foreign.index = IFACE + 1;
    assert_eq!(
        r.h.control_in(foreign, BUF, &r.badge, &mut r.chan),
        None
    );
    let mut nonvendor = req(0x00, 0, 0);
    nonvendor.vendor = false;
    let (res, _) = r.h.control_out(
        nonvendor,
        &[],
        &mut r.badge,
        &mut r.buttons,
        &mut r.chan,
        &r.flash,
    );
    assert_eq!(res, None);
}
