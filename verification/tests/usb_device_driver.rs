use gd32vf103xx_hal::rcu::{Clocks, Rcu};
use gd32vf103xx_hal::time::Hertz;
use gd32vf103xx_hal::usbfs::device::{
    EOPFSetting, Endpoint, ReceivedPacketStatus, TXFlushNum, UsbBusInner, MAX_ENDPOINTS, MPL,
};
use gd32vf103xx_hal::usbfs::fifo::RX_FIFO_LEN;
use gd32vf103xx_hal::usbfs::regs::{UsbfsDevice, UsbfsGlobal, UsbfsPwrclk};
use gd32vf103xx_hal::usbfs::types::{
    EndpointAddress, EndpointType, PollResult, UsbDirection, UsbError,
};

fn clocks() -> Clocks {
    let mut rcu = Rcu::new();
    let cctl = rcu.cctl;
    cctl.ext_hf_clock(Hertz(8_000_000))
        .sysclk(Hertz(96_000_000))
        .freeze(&mut rcu.regs)
}

fn bus() -> UsbBusInner {
    UsbBusInner::new(
        UsbfsGlobal::reset(),
        UsbfsDevice::reset(),
        UsbfsPwrclk::reset(),
        &clocks(),
    )
}

#[test]
fn alloc_explicit_twice_fails_every_slot() {
    for direction in [UsbDirection::Out, UsbDirection::In] {
        for index in 0..MAX_ENDPOINTS {
            let mut b = bus();
            let addr = EndpointAddress::from_parts(index, direction);
            let first = b.alloc_ep(direction, Some(addr), EndpointType::Bulk, 64, 0);
            assert_eq!(first, Ok(addr));
            let second = b.alloc_ep(direction, Some(addr), EndpointType::Bulk, 64, 0);
            assert_eq!(second, Err(UsbError::InvalidEndpoint));
        }
    }
}

#[test]
fn alloc_auto_takes_slots_in_order() {
    let mut b = bus();
    for expected in 0..MAX_ENDPOINTS {
        let r = b.alloc_ep(UsbDirection::In, None, EndpointType::Interrupt, 8, 10);
        let addr = r.expect("a slot should be free");
        assert_eq!(addr.index(), expected);
        assert!(addr.is_in());
    }
}

#[test]
fn alloc_auto_overflows_when_direction_full() {
    let mut b = bus();
    for _ in 0..MAX_ENDPOINTS {
        b.alloc_ep(UsbDirection::Out, None, EndpointType::Bulk, 64, 0)
            .expect("a slot should be free");
    }
    let fifth = b.alloc_ep(UsbDirection::Out, None, EndpointType::Bulk, 64, 0);
    assert_eq!(fifth, Err(UsbError::EndpointOverflow));

    // the other direction still has all its slots
    let other = b.alloc_ep(UsbDirection::In, None, EndpointType::Bulk, 64, 0);
    assert!(other.is_ok());
}

#[test]
fn alloc_round_trip_on_out_endpoint_zero() {
    let mut b = bus();
    let auto = b
        .alloc_ep(UsbDirection::Out, None, EndpointType::Bulk, 64, 0)
        .expect("the table is empty");
    assert_eq!(auto.index(), 0);
    assert!(auto.is_out());

    let again = b.alloc_ep(UsbDirection::Out, Some(auto), EndpointType::Bulk, 64, 0);
    assert_eq!(again, Err(UsbError::InvalidEndpoint));
}

#[test]
fn alloc_explicit_out_of_range_is_invalid() {
    let mut b = bus();
    let addr = EndpointAddress::from_parts(4, UsbDirection::In);
    let r = b.alloc_ep(UsbDirection::In, Some(addr), EndpointType::Bulk, 64, 0);
    assert_eq!(r, Err(UsbError::InvalidEndpoint));
}

#[test]
fn write_checks_direction_and_allocation() {
    let mut b = bus();
    let out_addr = b
        .alloc_ep(UsbDirection::Out, None, EndpointType::Bulk, 64, 0)
        .unwrap();
    // wrong direction
    assert_eq!(
        b.write(out_addr, &vec![0u8; 4]),
        Err(UsbError::InvalidEndpoint)
    );
    // never allocated
    let in_addr = EndpointAddress::from_parts(1, UsbDirection::In);
    assert_eq!(
        b.write(in_addr, &vec![0u8; 4]),
        Err(UsbError::InvalidEndpoint)
    );
    // out of range
    let high = EndpointAddress::from_parts(7, UsbDirection::In);
    assert_eq!(b.write(high, &vec![0u8; 4]), Err(UsbError::InvalidEndpoint));
}

#[test]
fn write_longer_than_max_packet_overflows() {
    // every max packet size in range, a buffer one byte longer
    for mps in 1u16..=64 {
        let mut b = bus();
        let addr = b
            .alloc_ep(UsbDirection::In, None, EndpointType::Bulk, mps, 0)
            .unwrap();
        let r = b.write(addr, &vec![0u8; mps as usize + 1]);
        assert_eq!(r, Err(UsbError::BufferOverflow));
    }
}

#[test]
fn write_of_one_packet_succeeds_with_its_length() {
    let mut b = bus();
    // endpoint number 0 goes first so that the next IN allocation is ep1
    b.alloc_ep(UsbDirection::In, None, EndpointType::Control, 8, 0)
        .unwrap();
    let ep1 = b
        .alloc_ep(UsbDirection::In, None, EndpointType::Bulk, 64, 0)
        .unwrap();
    assert_eq!(ep1.index(), 1);

    assert_eq!(b.write(ep1, &vec![0u8; 65]), Err(UsbError::BufferOverflow));
    assert_eq!(b.write(ep1, &vec![0u8; 64]), Ok(64));
}

#[test]
fn write_packs_little_endian_words_into_the_tx_region() {
    let mut b = bus();
    b.alloc_ep(UsbDirection::In, None, EndpointType::Control, 8, 0)
        .unwrap();
    let ep1 = b
        .alloc_ep(UsbDirection::In, None, EndpointType::Bulk, 64, 0)
        .unwrap();

    let data = vec![0x01, 0x02, 0x03, 0x04, 0x05, 0x06, 0x07, 0x08, 0x09];
    assert_eq!(b.write(ep1, &data), Ok(9));

    // TX region of endpoint 1 starts at byte 0x100, word 64
    assert_eq!(b.fifo.read_word(64), 0x0403_0201);
    assert_eq!(b.fifo.read_word(65), 0x0807_0605);
    // the trailing partial word is not copied
    assert_eq!(b.fifo.read_word(66), 0);

    // the transfer registers are armed: one packet of nine bytes
    assert_eq!(b.usbfs_device.dieplen[1].pcnt, 1);
    assert_eq!(b.usbfs_device.dieplen[1].tlen, 9);
    assert!(b.usbfs_device.diepctl[1].epen);
    assert!(!b.usbfs_device.diepctl[1].nak);
    assert!(b.usbfs_device.diepfeinten[1]);
}

#[test]
fn write_zero_length_packet_does_not_arm_fifo_empty() {
    let mut b = bus();
    let ep0 = b
        .alloc_ep(UsbDirection::In, None, EndpointType::Control, 8, 0)
        .unwrap();
    assert_eq!(b.write(ep0, &Vec::new()), Ok(0));
    assert!(!b.usbfs_device.diepfeinten[0]);
    assert!(b.usbfs_device.diepctl[0].epen);
}

#[test]
fn isochronous_write_latches_frame_parity() {
    let mut b = bus();
    b.alloc_ep(UsbDirection::In, None, EndpointType::Control, 8, 0)
        .unwrap();
    let ep1 = b
        .alloc_ep(UsbDirection::In, None, EndpointType::Isochronous, 16, 1)
        .unwrap();

    // odd frame: the ninth bit of the frame counter is set
    b.usbfs_device.dstat_fnrsof = 0x100;
    assert_eq!(b.write(ep1, &vec![0u8; 4]), Ok(4));
    assert!(b.usbfs_device.diepctl[1].pid_odd);
    assert_eq!(b.usbfs_device.dieplen[1].mcpf, 1);
    // the isochronous path never arms the TX-FIFO-empty interrupt
    assert!(!b.usbfs_device.diepfeinten[1]);

    // even frame
    b.usbfs_device.dstat_fnrsof = 0x0FF;
    assert_eq!(b.write(ep1, &vec![0u8; 4]), Ok(4));
    assert!(!b.usbfs_device.diepctl[1].pid_odd);
}

#[test]
fn read_shorter_than_max_packet_overflows() {
    let mut b = bus();
    let addr = b
        .alloc_ep(UsbDirection::Out, None, EndpointType::Bulk, 64, 0)
        .unwrap();
    let mut buf = vec![0u8; 63];
    assert_eq!(b.read(addr, &mut buf), Err(UsbError::BufferOverflow));
}

#[test]
fn read_checks_direction_and_allocation() {
    let mut b = bus();
    let in_addr = b
        .alloc_ep(UsbDirection::In, None, EndpointType::Bulk, 64, 0)
        .unwrap();
    let mut buf = vec![0u8; 64];
    assert_eq!(b.read(in_addr, &mut buf), Err(UsbError::InvalidEndpoint));
    let never = EndpointAddress::from_parts(2, UsbDirection::Out);
    assert_eq!(b.read(never, &mut buf), Err(UsbError::InvalidEndpoint));
}

#[test]
fn read_unpacks_words_from_the_rx_region() {
    let mut b = bus();
    let addr = b
        .alloc_ep(UsbDirection::Out, None, EndpointType::Bulk, 8, 0)
        .unwrap();

    // the hardware left two words in the RX FIFO, which sits at the
    // window's base
    b.fifo.write_word(0, 0x0403_0201);
    b.fifo.write_word(1, 0x0807_0605);

    let mut buf = vec![0u8; 12];
    // the returned count is the caller's buffer length, a quirk kept from
    // the hardware's interface
    assert_eq!(b.read(addr, &mut buf), Ok(12));
    assert_eq!(&buf[..8], &[1, 2, 3, 4, 5, 6, 7, 8]);
    // bytes past the packet size are untouched
    assert_eq!(&buf[8..], &[0, 0, 0, 0]);

    assert_eq!(b.usbfs_device.doeplen[0].pcnt, 1);
    assert_eq!(b.usbfs_device.doeplen[0].tlen, 12);
    assert!(b.usbfs_device.doepctl[0].epen);
    assert!(!b.usbfs_device.doepctl[0].nak);
}

#[test]
fn fifo_regions_have_the_fixed_map() {
    let mk = |index, direction| {
        Endpoint::new(
            EndpointAddress::from_parts(index, direction),
            EndpointType::Bulk,
            64,
            0,
        )
    };
    // all OUT endpoints share the RX region at the window's base
    assert_eq!(mk(0, UsbDirection::Out).fifo_region(), (0, RX_FIFO_LEN));
    assert_eq!(mk(3, UsbDirection::Out).fifo_region(), (0, 0x80));
    // the TX regions follow as a running sum of lengths
    assert_eq!(mk(0, UsbDirection::In).fifo_region(), (0x80, 0x80));
    assert_eq!(mk(1, UsbDirection::In).fifo_region(), (0x100, 0x40));
    assert_eq!(mk(2, UsbDirection::In).fifo_region(), (0x140, 0));
    assert_eq!(mk(3, UsbDirection::In).fifo_region(), (0x140, 0));
    // an out-of-range endpoint number clamps to the last region
    assert_eq!(mk(9, UsbDirection::In).fifo_region(), (0x140, 0));
    // and the word view is the byte view divided by the word size
    assert_eq!(mk(1, UsbDirection::In).fifo_word_region(), (0x40, 0x10));
}

#[test]
fn endpoint_reports_its_parameters() {
    let addr = EndpointAddress::from_parts(2, UsbDirection::In);
    let ep = Endpoint::new(addr, EndpointType::Interrupt, 16, 5);
    assert_eq!(ep.address(), addr);
    assert_eq!(ep.ep_type(), EndpointType::Interrupt);
    assert_eq!(ep.max_packet_size(), 16);
    assert_eq!(ep.interval(), 5);
    assert_eq!(addr.index(), 2);
    assert_eq!(addr.direction(), UsbDirection::In);
    assert!(addr.is_in());
    assert!(!addr.is_out());
}

#[test]
fn poll_data_preempts_session_events() {
    let mut b = bus();
    b.usbfs_global.grstatp.rpckst = ReceivedPacketStatus::OutPacketReceived.bits();
    b.usbfs_global.grstatp.epnum = 2;
    // all session flags pending at the same time
    b.usbfs_global.gintf.wkupif = true;
    b.usbfs_global.gintf.rst = true;
    b.usbfs_global.gintf.sp = true;

    assert_eq!(
        b.poll(),
        PollResult::Data { ep_out: 2, ep_in_complete: 0, ep_setup: 0 }
    );
}

#[test]
fn poll_reports_setup_packets() {
    let mut b = bus();
    b.usbfs_global.grstatp.rpckst = ReceivedPacketStatus::SetupPacketReceived.bits();
    b.usbfs_global.grstatp.epnum = 0;
    assert_eq!(
        b.poll(),
        PollResult::Data { ep_out: 0, ep_in_complete: 0, ep_setup: 0 }
    );
}

#[test]
fn poll_orders_session_events() {
    let mut b = bus();
    b.usbfs_global.gintf.wkupif = true;
    b.usbfs_global.gintf.rst = true;
    b.usbfs_global.gintf.sp = true;
    assert_eq!(b.poll(), PollResult::Resume);

    b.usbfs_global.gintf.wkupif = false;
    assert_eq!(b.poll(), PollResult::Reset);

    b.usbfs_global.gintf.rst = false;
    assert_eq!(b.poll(), PollResult::Suspend);
}

#[test]
fn enable_then_poll_reports_nothing() {
    let mut b = bus();
    b.enable();
    assert_eq!(b.poll(), PollResult::NoEvent);
}

#[test]
fn enable_programs_the_fifo_geometry() {
    let mut b = bus();
    b.enable();
    let g = &b.usbfs_global;
    assert!(g.fdm);
    assert!(!g.fhm);
    assert_eq!(g.grflen_rxfd, 0x80);
    assert_eq!(g.dieptflen[0].txfd, 0x80);
    assert_eq!(g.dieptflen[0].txrsar, 0x80);
    assert_eq!(g.dieptflen[1].txfd, 0x40);
    assert_eq!(g.dieptflen[1].txrsar, 0x100);
    assert_eq!(g.dieptflen[2].txfd, 0);
    assert_eq!(g.dieptflen[2].txrsar, 0x140);
    assert_eq!(g.dieptflen[3].txfd, 0);
    assert_eq!(g.dieptflen[3].txrsar, 0x140);
    // all TX FIFOs were flushed
    assert_eq!(g.grstctl.txfnum, 0b1_0000);
    assert!(g.grstctl.txff);
    // the device-mode interrupt sources are live
    assert!(g.ginten.rxfneie && g.ginten.rstie && g.ginten.enumfie);
    assert!(g.ginten.iepie && g.ginten.oepie && g.ginten.sofie && g.ginten.mfie);
    assert!(g.ginten.wkupie && g.ginten.spie);
    assert!(g.gahbcs_ginten);
}

#[test]
fn enable_quiesces_every_endpoint() {
    let mut b = bus();
    // a leftover enabled endpoint is asked to disable and NAK
    b.usbfs_device.diepctl[2].epen = true;
    b.usbfs_device.doepctl[0].epen = true;
    b.usbfs_device.doepctl[0].stall = true;
    b.enable();

    assert!(b.usbfs_device.diepctl[2].epd);
    assert!(b.usbfs_device.diepctl[2].nak);
    // OUT endpoint 0 has no disable bit: only NAK is requested
    assert!(!b.usbfs_device.doepctl[0].epd);
    assert!(b.usbfs_device.doepctl[0].nak);
    assert!(b.usbfs_device.doepctl[0].stall);
    // idle endpoints are cleared outright
    assert!(!b.usbfs_device.diepctl[1].epen && !b.usbfs_device.diepctl[1].nak);
    for i in 0..4 {
        assert_eq!(b.usbfs_device.dieplen[i].tlen, 0);
        assert_eq!(b.usbfs_device.doeplen[i].tlen, 0);
        assert_eq!(b.usbfs_device.diepintf[i], 0);
        assert_eq!(b.usbfs_device.doepintf[i], 0);
    }
}

#[test]
fn reset_flushes_disconnects_and_reconnects() {
    let mut b = bus();
    b.usbfs_device.dctl.sd = true;
    b.reset();
    assert!(!b.usbfs_device.dctl.sd);
    assert_eq!(b.usbfs_global.grstctl.txfnum, 0b1_0000);
    assert!(b.usbfs_global.grstctl.txff);
}

#[test]
fn connect_and_disconnect_drive_soft_disconnect() {
    let mut b = bus();
    b.disconnect();
    assert!(b.usbfs_device.dctl.sd);
    b.connect();
    assert!(!b.usbfs_device.dctl.sd);
}

#[test]
fn set_device_address_lands_in_dcfg() {
    let mut b = bus();
    b.set_device_address(0x2A);
    assert_eq!(b.usbfs_device.dcfg.dar, 0x2A);
}

#[test]
fn suspend_and_resume_gate_the_clocks() {
    let mut b = bus();
    b.suspend();
    assert!(b.usbfs_pwrclk.suclk && b.usbfs_pwrclk.shclk);
    b.resume();
    assert!(b.usbfs_device.dctl.rwkup);
}

#[test]
fn stall_is_set_cleared_and_read_back() {
    let mut b = bus();
    let in1 = EndpointAddress::from_parts(1, UsbDirection::In);
    let out2 = EndpointAddress::from_parts(2, UsbDirection::Out);

    assert!(!b.is_stalled(in1));
    b.set_stalled(in1, true);
    assert!(b.is_stalled(in1));
    b.set_stalled(in1, false);
    assert!(!b.is_stalled(in1));

    b.set_stalled(out2, true);
    assert!(b.is_stalled(out2));
    // stalling one direction leaves the other alone
    assert!(!b.is_stalled(EndpointAddress::from_parts(2, UsbDirection::In)));
}

#[test]
fn stall_on_enabled_in_endpoint_requests_disable() {
    let mut b = bus();
    b.usbfs_device.diepctl[1].epen = true;
    let in1 = EndpointAddress::from_parts(1, UsbDirection::In);
    b.set_stalled(in1, true);
    assert!(b.usbfs_device.diepctl[1].epd);
    assert!(b.usbfs_device.diepctl[1].stall);
}

#[test]
fn stall_out_of_range_is_ignored() {
    let mut b = bus();
    let high = EndpointAddress::from_parts(9, UsbDirection::In);
    b.set_stalled(high, true);
    assert!(!b.is_stalled(high));
}

#[test]
fn flush_selects_the_requested_fifo() {
    let mut b = bus();
    b.tx_fifo_flush_by_index(TXFlushNum::Two);
    assert_eq!(b.usbfs_global.grstctl.txfnum, 0b0_0010);
    assert!(b.usbfs_global.grstctl.txff);
    b.rx_fifo_flush();
    assert!(b.usbfs_global.grstctl.rxff);
}

#[test]
fn register_encodings() {
    assert_eq!(EOPFSetting::Pct80.bits(), 0b00);
    assert_eq!(EOPFSetting::Pct85.bits(), 0b01);
    assert_eq!(EOPFSetting::Pct90.bits(), 0b10);
    assert_eq!(EOPFSetting::Pct95.bits(), 0b11);
    assert_eq!(MPL::SixtyFour.bits(), 0b00);
    assert_eq!(MPL::Eight.bits(), 0b11);
    assert_eq!(TXFlushNum::All.bits(), 0b1_0000);
    assert_eq!(ReceivedPacketStatus::OutPacketReceived.bits(), 0b0010);
    assert_eq!(ReceivedPacketStatus::SetupPacketReceived.bits(), 0b0110);
    assert_eq!(ReceivedPacketStatus::GlobalOutNak.bits(), 0b0001);
    assert_eq!(ReceivedPacketStatus::OutTransferCompleted.bits(), 0b0011);
    assert_eq!(ReceivedPacketStatus::SetupTransactionCompleted.bits(), 0b0100);
    assert_eq!(ReceivedPacketStatus::Reserved.bits(), 0xff);
}
