use lr2021::buffer::CmdBuffer;
use lr2021::status::{ChipModeStatus, CmdStatus, Intr, ResetSrc, Status, IRQ_MASK_RX_DONE, IRQ_MASK_TIMEOUT, IRQ_MASK_TX_DONE};
use lr2021::Lr2021Error;

#[test]
fn decode_status_tx_ok() {
    let s = Status::from_array([0x04, 0x05]);
    assert_eq!(s.cmd(), CmdStatus::Success);
    assert!(!s.irq());
    assert_eq!(s.reset_src(), ResetSrc::Cleared);
    assert_eq!(s.chip_mode(), ChipModeStatus::Tx);
    assert!(s.is_ok());
    assert_eq!(s.check(), Ok(()));
}

#[test]
fn decode_status_all_fields() {
    // outcome 1 (parameter error), irq, reset 4 (watchdog), mode 4 (rx)
    let s = Status::from_array([0x03, 0x44]);
    assert_eq!(s.cmd(), CmdStatus::PErr);
    assert!(s.irq());
    assert_eq!(s.reset_src(), ResetSrc::Watchdog);
    assert_eq!(s.chip_mode(), ChipModeStatus::Rx);
    assert_eq!(s.check(), Err(Lr2021Error::CmdErr));
    assert!(!s.is_ok());
}

#[test]
fn decode_status_unknown_codes() {
    let s = Status::from_array([0x0E, 0x37]);
    assert_eq!(s.cmd(), CmdStatus::Unknown);
    assert_eq!(s.reset_src(), ResetSrc::Unknown);
    assert_eq!(s.chip_mode(), ChipModeStatus::Unknown);
    assert_eq!(s.check(), Err(Lr2021Error::Unknown));
}

#[test]
fn decode_status_twice_is_equal() {
    let a = Status::from_array([0x07, 0x63]);
    let b = Status::from_array([0x07, 0x63]);
    assert!(a == b);
    assert_eq!(a.cmd(), b.cmd());
    assert_eq!(a.reset_src(), ResetSrc::Rtc);
    assert_eq!(a.chip_mode(), ChipModeStatus::Fs);
    assert_eq!(a.cmd(), CmdStatus::Data);
}

#[test]
fn status_fields_round_trip() {
    // outcome 2, irq 1, reset 5 (IOCD), mode 2 (XOSC) built from fields
    let word: u16 = (2 << 9) | (1 << 8) | (5 << 4) | 2;
    let s = Status::from_array(word.to_be_bytes());
    assert_eq!(s.cmd(), CmdStatus::Success);
    assert!(s.irq());
    assert_eq!(s.reset_src(), ResetSrc::Iocd);
    assert_eq!(s.chip_mode(), ChipModeStatus::Xosc);
}

#[test]
fn status_from_short_slice() {
    assert_eq!(Status::from_slice(&[]).0, 0);
    assert_eq!(Status::from_slice(&[0x04]).0, 0x0400);
    assert_eq!(Status::from_slice(&[0x04, 0x05, 0xFF]).0, 0x0405);
}

#[test]
fn cmd_status_check_mapping() {
    assert_eq!(CmdStatus::Fail.check(), Err(Lr2021Error::CmdFail));
    assert_eq!(CmdStatus::PErr.check(), Err(Lr2021Error::CmdErr));
    assert_eq!(CmdStatus::Success.check(), Ok(()));
    assert_eq!(CmdStatus::Data.check(), Ok(()));
    assert_eq!(CmdStatus::Unknown.check(), Err(Lr2021Error::Unknown));
    assert_eq!(CmdStatus::from(3u8), CmdStatus::Data);
    assert_eq!(CmdStatus::from(9u8), CmdStatus::Unknown);
}

#[test]
fn decode_intr_rx_done_only() {
    let i = Intr::from_slice(&[0x00, 0x04, 0x00, 0x00]);
    assert_eq!(i.value(), 0x0004_0000);
    assert!(i.rx_done());
    let others = [
        i.rx_fifo(), i.tx_fifo(), i.rng_req_vld(), i.tx_timestamp(), i.rx_timestamp(), i.preamble_detected(),
        i.header_valid(), i.cad_detected(), i.lora_hdr_timestamp(), i.header_err(), i.eol(), i.pa(),
        i.lora_tx_rx_hop(), i.sync_fail(), i.lora_symbol_end(), i.lora_timestamp_stat(), i.error(), i.cmd(),
        i.tx_done(), i.cad_done(), i.timeout(), i.crc_error(), i.len_error(), i.addr_error(), i.fhss(),
        i.inter_packet1(), i.inter_packet2(), i.rng_resp_done(), i.rng_req_dis(), i.rng_exch_vld(), i.rng_timeout(),
    ];
    assert!(others.iter().all(|b| !b));
}

#[test]
fn decode_intr_short_slices_pad_with_zero() {
    assert_eq!(Intr::from_slice(&[]).value(), 0);
    assert!(Intr::from_slice(&[]).none());
    assert_eq!(Intr::from_slice(&[0x12]).value(), 0x1200_0000);
    assert_eq!(Intr::from_slice(&[0x12, 0x34]).value(), 0x1234_0000);
    assert_eq!(Intr::from_slice(&[0x12, 0x34, 0x56]).value(), 0x1234_5600);
    assert_eq!(Intr::from_slice(&[0x12, 0x34, 0x56, 0x78]).value(), 0x1234_5678);
    assert_eq!(Intr::from_slice(&[0x12, 0x34, 0x56, 0x78, 0x9A]).value(), 0x1234_5678);
}

#[test]
fn intr_first_and_last_bits() {
    let i = Intr::new(0x8000_0001);
    assert!(i.rx_fifo());
    assert!(i.rng_timeout());
    assert!(!i.tx_fifo());
    assert!(i.intr_match(0x0000_0001));
    assert!(!i.intr_match(0x0000_0002));
    assert!(!i.none());
}

#[test]
fn intr_presets() {
    assert_eq!(Intr::new_txrx().value(), IRQ_MASK_RX_DONE | IRQ_MASK_TX_DONE | IRQ_MASK_TIMEOUT);
    assert_eq!(Intr::new_txrx().value(), 0x002C_0000);
    assert_eq!(Intr::new_ranging().value(), 0xF020_0000);
    assert_eq!(Intr::from(5u32).value(), 5);
}

#[test]
fn buffer_header_and_data() {
    let mut b = CmdBuffer::new();
    assert_eq!(b.data().len(), 256);
    assert_eq!(b.status().0, 0);
    b.updt_status(&[0x04]);
    assert_eq!(b.status().0, 0x0400);
    b.updt_status(&[0x06, 0x05, 0x77]);
    assert_eq!(b.status().0, 0x0605);
    assert_eq!(b.cmd_status(), CmdStatus::Data);
    assert_eq!(b.data()[0], 0);
    b.write_data(254, &[1, 2]);
    assert_eq!(&b.data()[254..], &[1, 2]);
    b.nop();
    assert_eq!(b.status().0, 0);
    assert_eq!(b.cmd_status(), CmdStatus::Fail);
}
