use lr2021::ble::{CteKind};
use lr2021::cmd::cmd_lrfhss::{lr_fhss_build_frame_cmd, set_lr_fhss_sync_word_cmd, write_lr_fhss_hopping_table_cmd, Grid, Hopping, LrfhssBw, LrfhssCr};
use lr2021::cmd::cmd_ranging::{
    get_ranging_result_req, get_ranging_stats_req, set_ranging_addr_cmd, set_ranging_params_cmd, set_ranging_req_addr_cmd,
    set_ranging_tx_rx_delay_cmd, CheckLength, RangingExtResultRsp, RangingGainStepRsp, RangingResKind, RangingResultRsp,
    RangingStatsRsp,
};
use lr2021::cmd::cmd_raw::{
    get_raw_iq_ddmi_cnt_req, get_raw_iq_ddmi_data_req, set_raw_iq_capture_params_adv_cmd, set_raw_iq_capture_params_cmd,
    set_raw_iq_trigger_adv_cmd, set_raw_iq_trigger_cmd, set_raw_iq_tx_params_cmd, CaptureDataSel, CaptureMode,
    CaptureTrigger, RamSel, RawIqDdmiCntRsp, TxIqMode,
};
use lr2021::cmd::cmd_wisun::{
    get_wisun_packet_status_req, set_wisun_mode_cmd, set_wisun_packet_len_cmd, set_wisun_packet_params_cmd, WisunFcsLen,
    WisunFec, WisunMode, WisunPacketStatusRsp, WisunRxStatsRsp,
};
use lr2021::cmd::cmd_wmbus::{
    set_wmbus_address_cmd, set_wmbus_params_cmd, WmbusFormat, WmbusMode, WmbusPacketStatusRsp, WmbusSubBand,
};
use lr2021::cmd::cmd_zigbee::{
    set_zigbee_address_cmd, set_zigbee_packet_len_cmd, set_zigbee_params_cmd, FcsMode, ZigbeeMode, ZigbeePacketStatusRsp,
    ZigbeeRxStatsRsp,
};
use lr2021::status::ChipModeStatus;

#[test]
fn lrfhss_frame_command() {
    let c = lr_fhss_build_frame_cmd(3, LrfhssCr::Cr1p3, Grid::Grid4, Hopping::Hopping, LrfhssBw::Bw1574p2, 0x1234, -2);
    assert_eq!(c, [0x02, 0x56, 0x33, 0x10, 0x91, 0x12, 0x34, 0xFE]);
    let c = lr_fhss_build_frame_cmd(0x1F, LrfhssCr::Cr5p6, Grid::Grid25, Hopping::NoHopping, LrfhssBw::Bw39p06, 0, 0);
    assert_eq!(c, [0x02, 0x56, 0x0F, 0x00, 0x00, 0x00, 0x00, 0x00]);
}

#[test]
fn lrfhss_syncword_and_table() {
    assert_eq!(set_lr_fhss_sync_word_cmd(0x2C0F_7995), [0x02, 0x57, 0x2C, 0x0F, 0x79, 0x95]);
    assert_eq!(write_lr_fhss_hopping_table_cmd(true, true, 0x0102, 3, 4), [0x02, 0x59, 0x81, 0x01, 0x02, 3, 4]);
    assert_eq!(write_lr_fhss_hopping_table_cmd(false, true, 0, 0, 0), [0x02, 0x59, 0x80, 0, 0, 0, 0]);
}

#[test]
fn ranging_commands() {
    assert_eq!(set_ranging_addr_cmd(0xDEAD_BEEF, CheckLength::Addr32b), [0x02, 0x78, 0xDE, 0xAD, 0xBE, 0xEF, 4]);
    assert_eq!(set_ranging_req_addr_cmd(0x0102_0304), [0x02, 0x79, 1, 2, 3, 4]);
    assert_eq!(get_ranging_result_req(RangingResKind::GainSteps), [0x02, 0x7A, 2]);
    assert_eq!(set_ranging_tx_rx_delay_cmd(18000), [0x02, 0x7B, 0, 0, 0x46, 0x50]);
    assert_eq!(set_ranging_params_cmd(true, false, 0xFF), [0x02, 0x7C, 0xBF]);
    assert_eq!(set_ranging_params_cmd(false, true, 12), [0x02, 0x7C, 0x4C]);
    assert_eq!(get_ranging_stats_req(), [0x02, 0x7D]);
}

#[test]
fn ranging_responses() {
    let mut r = RangingResultRsp([0x04, 0x00, 0xFF, 0xFF, 0xFE, 0x55]);
    assert_eq!(r.rng(), -2);
    assert_eq!(r.rssi(), 0x55);
    assert_eq!(r.status().chip_mode(), ChipModeStatus::Sleep);
    let r = RangingResultRsp([0x04, 0x00, 0x01, 0x02, 0x03, 0]);
    assert_eq!(r.rng(), 0x010203);
    let r = RangingExtResultRsp([0, 0, 0x80, 0, 0, 1, 0x00, 0x00, 0x10, 2]);
    assert_eq!(r.rng1(), -0x80_0000);
    assert_eq!(r.rng2(), 16);
    assert_eq!((r.rssi1(), r.rssi2()), (1, 2));
    let g = RangingGainStepRsp([0, 0, 7, 9]);
    assert_eq!((g.gain1(), g.gain2()), (7, 9));
    let s = RangingStatsRsp([0, 0, 1, 2, 3, 4, 5, 6, 7, 8, 9, 10]);
    assert_eq!(s.exchange_valid(), 0x0102);
    assert_eq!(s.request_valid(), 0x0304);
    assert_eq!(s.response_done(), 0x0506);
    assert_eq!(s.timeout(), 0x0708);
    assert_eq!(s.request_discarded(), 0x090A);
    assert_eq!(RangingStatsRsp::new().0, [0u8; 12]);
}

#[test]
fn raw_iq_commands() {
    assert_eq!(
        set_raw_iq_capture_params_cmd(0x1A, 0x0102_0304, RamSel::Ram3, CaptureMode::Ddmi, CaptureDataSel::SrcGain),
        [0x02, 0x90, 0x1A, 1, 2, 3, 4, 0xD6]
    );
    assert_eq!(
        set_raw_iq_capture_params_adv_cmd(0, 0, RamSel::Off, CaptureMode::Fifo, CaptureDataSel::Src, 0x1234, 0xABCD, 7),
        [0x02, 0x90, 0, 0, 0, 0, 0, 0x08, 0x12, 0x34, 0xAB, 0xCD, 7]
    );
    assert_eq!(get_raw_iq_ddmi_cnt_req(), [0x02, 0x91]);
    assert_eq!(get_raw_iq_ddmi_data_req(0x0A0B, 32), [0x02, 0x92, 0x0A, 0x0B, 32]);
    assert_eq!(set_raw_iq_tx_params_cmd(0x0100, 0x0001_0000, TxIqMode::Phase), [0x02, 0x93, 1, 0, 0, 1, 0, 0, 2]);
    assert_eq!(set_raw_iq_trigger_cmd(CaptureTrigger::Rtc3, CaptureTrigger::RxDone), [0x02, 0x94, 0x74]);
    assert_eq!(
        set_raw_iq_trigger_adv_cmd(CaptureTrigger::Soft, CaptureTrigger::Rssi, 0x0103, 0x0081),
        [0x02, 0x94, 0x01, 0x81, 0x40, 0x03]
    );
    let r = RawIqDdmiCntRsp([0, 0, 0x81, 0x02]);
    assert!(r.wrapped());
    assert_eq!(r.cnt(), 0x0102);
}

#[test]
fn wisun_commands() {
    assert_eq!(set_wisun_mode_cmd(WisunMode::Mode5, 0x20), [0x02, 0x70, 7, 0x20]);
    assert_eq!(
        set_wisun_packet_params_cmd(WisunFcsLen::Fcs16b, true, false, true, WisunFec::RscIntlvr, 0x0203, 32, 255),
        [0x02, 0x71, 0x37, 2, 3, 32, 255]
    );
    assert_eq!(set_wisun_packet_len_cmd(0x07FF), [0x02, 0x74, 0x07, 0xFF]);
    assert_eq!(get_wisun_packet_status_req(), [0x02, 0x73]);
    let p = WisunPacketStatusRsp([0, 0, 0x12, 0x34, 0x00, 0x20, 0x80, 0x41, 0x80, 0x05, 9]);
    assert_eq!(p.header(), 0x1234);
    assert_eq!(p.pkt_len(), 0x20);
    assert_eq!(p.rssi_avg(), 0x101);
    assert_eq!(p.rssi_sync(), 0x83);
    assert!(p.syncword_idx());
    assert_eq!(p.lqi(), 9);
    let s = WisunRxStatsRsp([0, 0, 0, 1, 0, 2, 1, 0]);
    assert_eq!((s.pkt_rx(), s.crc_error(), s.len_error()), (1, 2, 256));
}

#[test]
fn wmbus_commands() {
    assert_eq!(
        set_wmbus_params_cmd(WmbusMode::ModeF2, 0x11, WmbusFormat::FormatB, true, 20, 0x0130, 255),
        [0x02, 0x6A, 12, 0x11, 1, 1, 20, 0x01, 0x30, 255]
    );
    assert_eq!(set_wmbus_address_cmd(0x0011_2233_4455_6677), [0x02, 0x6E, 0x22, 0x33, 0x44, 0x55, 0x66, 0x77]);
    let p = WmbusPacketStatusRsp([0, 0, 5, 0, 9, 0x10, 0x20, 0x01, 0x02, 0xD1, 4]);
    assert_eq!(p.l_field(), 5);
    assert_eq!(p.pkt_len(), 9);
    assert_eq!(p.rssi_avg(), 0x21);
    assert_eq!(p.rssi_sync(), 0x41);
    assert_eq!(p.crc_err(), (1 << 9) | (2 << 1) | 1);
    assert!(p.syncword_idx());
}

#[test]
fn wmbus_center_frequencies() {
    assert_eq!(WmbusMode::ModeS.rf(0, WmbusSubBand::A), 868_300_000);
    assert_eq!(WmbusMode::ModeR2.rf(3, WmbusSubBand::A), 868_210_000);
    assert_eq!(WmbusMode::ModeN2p4.rf(2, WmbusSubBand::C), 169_518_750);
    assert_eq!(WmbusMode::ModeN2p4.rf(2, WmbusSubBand::B), 169_481_250);
    assert_eq!(WmbusMode::ModeN19p2.rf(1, WmbusSubBand::D), 169_675_000);
    assert_eq!(WmbusMode::ModeC2O2m.rf(9, WmbusSubBand::D), 868_525_000);
}

#[test]
fn zigbee_commands() {
    assert_eq!(
        set_zigbee_params_cmd(ZigbeeMode::Bpsk40, 0x0F, 127, 0x0020, true, FcsMode::FcsInFifo),
        [0x02, 0x9F, 4, 0x0F, 127, 0x00, 0x20, 0x05]
    );
    assert_eq!(set_zigbee_packet_len_cmd(42), [0x02, 0xA2, 42]);
    assert_eq!(
        set_zigbee_address_cmd(0x0102_0304_0506_0708, 0xABCD, 0x1234, 9),
        [0x02, 0xA3, 1, 2, 3, 4, 5, 6, 7, 8, 0xAB, 0xCD, 0x12, 0x34, 9]
    );
    let p = ZigbeePacketStatusRsp([0, 0, 12, 0x01, 0x00, 0x40, 0x30, 0x05, 200]);
    assert_eq!(p.rx_header(), 12);
    assert_eq!(p.pkt_len(), 256);
    assert_eq!(p.rssi_avg(), 0x81);
    assert_eq!(p.rssi_sync(), 0x61);
    assert_eq!(p.lqi(), 200);
    let s = ZigbeeRxStatsRsp([0, 0, 0xFF, 0xFF, 0, 0, 0, 3]);
    assert_eq!((s.pkt_rx(), s.crc_error(), s.len_error()), (0xFFFF, 0, 3));
}

#[test]
fn cte_kind_from_header_bits() {
    assert_eq!(CteKind::from(0u8), CteKind::AoA);
    assert_eq!(CteKind::from(5u8), CteKind::AoD1us);
    assert_eq!(CteKind::from(0xFEu8), CteKind::AoD2us);
    assert_eq!(CteKind::from(3u8), CteKind::AoA);
}
