use lr2021::cmd::cmd_wisun::{WisunFcsLen, WisunFec};
use lr2021::cmd::cmd_wmbus::{WmbusFormat, WmbusMode};
use lr2021::cmd::cmd_zigbee::{FcsMode as ZigbeeFcs, ZigbeeMode};
use lr2021::constants::{ADDR_CPFSK_DEMOD, ADDR_CPFSK_DETECT, ADDR_LORA_PARAM, ADDR_LORA_TX_CFG1, ADDR_SIMO_CFG};
use lr2021::fifo::{FifoIrqCfg, FifoIrqEn};
use lr2021::lora::{lora_hopping_cmd, BlankingCfg};
use lr2021::lrfhss::{hopping_table, LrfhssHop};
use lr2021::radio::PaLfOcpThr;
use lr2021::system::{
    pllstep_to_hz, retention_slots, simo_settings, RetentionCfg, SIMO_FREQ_HBW, SIMO_FREQ_LBW, SIMO_TIME_DEFAULT,
    SIMO_TIME_WIDE,
};
use lr2021::wisun::WisunPacketParams;
use lr2021::wmbus::WmbusPacketParams;
use lr2021::zigbee::ZigbeePacketParams;
use lr2021::zwave::{FcsMode, ZwaveAddrComp, ZwaveChanCfg, ZwaveMode, ZwavePacketParams, ZwavePpduKind, ZwaveRfRegion, ZwaveScanCfg};

#[test]
fn pll_steps_to_hz() {
    assert_eq!(pllstep_to_hz(0), 0);
    assert_eq!(pllstep_to_hz(16384), 15625);
    assert_eq!(pllstep_to_hz(u32::MAX), ((u32::MAX as u64 * 15625) >> 14) as u32);
    assert_eq!(pllstep_to_hz(909_639_680), 867_500_000);
}

#[test]
fn retention_flags() {
    let c = RetentionCfg::new();
    assert!(!c.has_simo() && !c.has_cpfsk_demod());
    let c = c.with_simo().with_ble_coded();
    assert!(c.has_simo());
    assert!(c.has_cpfsk_demod());
    assert!(!c.has_lora_sx127x_hopping());
    assert!(!c.has_lora_sx127x_sf6_sw());
    assert_eq!(c.0, 9);
    assert_eq!(RetentionCfg::new().with_wisun_tracking().0, 8);
    assert_eq!(RetentionCfg::new().with_lora_sx127x_sf6_sw().with_lora_sx127x_hopping().0, 6);
}

#[test]
fn retention_slots_in_order() {
    assert!(retention_slots(RetentionCfg::new()).is_empty());
    let all = RetentionCfg::new().with_simo().with_lora_sx127x_sf6_sw().with_lora_sx127x_hopping().with_ble_coded();
    assert_eq!(
        retention_slots(all),
        vec![
            (0, ADDR_SIMO_CFG),
            (1, ADDR_LORA_PARAM),
            (2, ADDR_LORA_TX_CFG1),
            (3, ADDR_CPFSK_DEMOD),
            (4, ADDR_CPFSK_DETECT),
        ]
    );
    assert_eq!(
        retention_slots(RetentionCfg::new().with_lora_sx127x_hopping().with_wisun_tracking()),
        vec![(0, ADDR_LORA_TX_CFG1), (1, ADDR_CPFSK_DEMOD), (2, ADDR_CPFSK_DETECT)]
    );
}

#[test]
fn simo_settings_follow_front_end() {
    // analog decimation 1, not high-frequency
    assert_eq!(simo_settings(0x0100, 0), (SIMO_TIME_WIDE, SIMO_FREQ_HBW));
    // analog decimation 3
    assert_eq!(simo_settings(0x0300, 0), (SIMO_TIME_DEFAULT, SIMO_FREQ_LBW));
    // high-frequency path
    assert_eq!(simo_settings(0x0000, 0x5), (SIMO_TIME_DEFAULT, SIMO_FREQ_LBW));
    assert_eq!(simo_settings(0xFFFF_F2FF, 0x2), (SIMO_TIME_WIDE, SIMO_FREQ_LBW));
}

#[test]
fn lora_hopping_table() {
    let (bytes, len) = lora_hopping_cmd(0x1234, &[0x3400_0001, 0x0A0B_0C0D]);
    assert_eq!(bytes, vec![0x02, 0x2C, 0x52, 0x34, 0x34, 0, 0, 1, 0x0A, 0x0B, 0x0C, 0x0D]);
    assert_eq!(len, 11);
    let (bytes, len) = lora_hopping_cmd(0xFFFF, &[]);
    assert_eq!(bytes, vec![0x02, 0x2C, 0x00, 0xFF]);
    assert_eq!(len, 3);
}

#[test]
fn lrfhss_hop_entry() {
    let h = LrfhssHop { freq: 0x3456_789A, len: 0x0102 };
    assert_eq!(h.to_bytes(), [0x34, 0x56, 0x78, 0x9A, 0x01, 0x02]);
}

#[test]
fn fifo_irq_flags() {
    assert_eq!(FifoIrqEn::none().value(), 0);
    assert_eq!(FifoIrqEn::high_low().value(), 0x06);
    assert_eq!(FifoIrqEn::all().value(), 0x3F);
    let e = FifoIrqEn::none().with_empty().with_full().with_underflow();
    assert_eq!(e.value(), 0x29);
    assert!(e.has_empty() && e.has_full() && e.has_underflow());
    assert!(!e.has_low() && !e.has_high() && !e.has_overflow());
    let e = FifoIrqEn::none().with_low().with_high().with_overflow();
    assert_eq!(e.value(), 0x16);
    let c = FifoIrqCfg::new(e, 10, 200);
    assert_eq!((c.en.value(), c.thr_low, c.thr_high), (0x16, 10, 200));
}

#[test]
fn pa_ocp_threshold_field() {
    assert_eq!(PaLfOcpThr::Default.field(), 55 << 19);
    assert_eq!(PaLfOcpThr::Low900Mhz.field(), 41 << 19);
}

#[test]
fn blanking_presets() {
    assert_eq!(BlankingCfg::off(), BlankingCfg { snr_thr: 0, thr_gain: 0, symb_gain: 0, rssi_thr: 0, detect: false });
    assert_eq!(BlankingCfg::symbol().snr_thr, 8);
    assert_eq!(BlankingCfg::td_symb().rssi_thr, 7);
    assert!(!BlankingCfg::td_symb().detect);
    assert!(BlankingCfg::full().detect);
}

#[test]
fn wisun_packet_presets() {
    let p = WisunPacketParams::new_data(100, WisunFec::Rsc, WisunFcsLen::Fcs32b);
    assert_eq!((p.frame_len_tx, p.pbl_len_tx, p.pbl_detect), (100, 32, 255));
    assert!(p.whitening && p.crc_hw && !p.mode_switch_tx);
    assert_eq!(p.with_pbl_len(64).pbl_len_tx, 64);
    let m = WisunPacketParams::new_mode_switch();
    assert!(m.mode_switch_tx);
    assert_eq!(m.fec_tx, WisunFec::Off);
    assert_eq!(m.tx_crc, WisunFcsLen::Fcs16b);
}

#[test]
fn wmbus_packet_presets() {
    let expect = [
        (WmbusMode::ModeS, 30),
        (WmbusMode::ModeT1, 38),
        (WmbusMode::ModeC2O2m, 32),
        (WmbusMode::ModeR2, 78),
        (WmbusMode::ModeF2, 78),
        (WmbusMode::ModeN19p2, 16),
    ];
    for (mode, pbl) in expect {
        let p = WmbusPacketParams::new(mode, WmbusFormat::FormatA, 20);
        assert_eq!(p.pbl_len_tx, pbl);
        assert_eq!(p.rx_bw, None);
        assert_eq!(p.pbl_len_detect, 255);
        assert!(!p.addr_filt_en);
    }
    let p = WmbusPacketParams::new(WmbusMode::ModeS, WmbusFormat::FormatB, 20).with_addr_filt().with_pbl_len(50);
    assert!(p.addr_filt_en);
    assert_eq!(p.pbl_len_tx, 50);
}

#[test]
fn zigbee_packet_preset() {
    let p = ZigbeePacketParams::new(ZigbeeMode::Oqpsk250, 127, true);
    assert_eq!((p.pbl_len_tx, p.pld_len, p.addr_filt_en, p.fcs_mode), (32, 127, true, ZigbeeFcs::FcsOn));
}

#[test]
fn zwave_packet_presets() {
    let p = ZwavePacketParams::from_mode(ZwaveMode::Lr1, ZwavePpduKind::Beam, 10);
    assert_eq!(p.pbl_len_tx, 16);
    assert_eq!(p.fcs_mode, FcsMode::Fifo);
    assert_eq!(ZwavePacketParams::from_mode(ZwaveMode::Lr1, ZwavePpduKind::SingleCast, 10).pbl_len_tx, 80);
    assert_eq!(ZwavePacketParams::from_mode(ZwaveMode::R2, ZwavePpduKind::MultiCast, 10).pbl_len_tx, 160);
    assert_eq!(ZwavePacketParams::from_mode(ZwaveMode::R3, ZwavePpduKind::MultiCast, 10).pbl_len_tx, 192);
    assert_eq!(ZwavePacketParams::from_mode(ZwaveMode::R3, ZwavePpduKind::Beam, 10).pbl_len_tx, 64);
    let p = ZwavePacketParams::from_mode(ZwaveMode::R1, ZwavePpduKind::Beam, 10);
    assert_eq!((p.pbl_len_tx, p.pbl_len_detect, p.fcs_mode), (160, 32, FcsMode::Auto));
    assert_eq!(p.with_filt(true).addr_comp, ZwaveAddrComp::HomeidBeam);
    assert_eq!(p.with_filt(false).addr_comp, ZwaveAddrComp::Homeid);
}

#[test]
fn zwave_scan_configurations() {
    let eu = ZwaveScanCfg::from_region(ZwaveAddrComp::Off, FcsMode::Auto, ZwaveRfRegion::Eu);
    assert_eq!(eu.nb_ch, 3);
    assert_eq!(eu.ch1, ZwaveChanCfg::r1(868_400_000));
    assert_eq!(eu.ch3, ZwaveChanCfg { freq: 869_850_000, mode: ZwaveMode::R3, timeout: 8, cca_en: false });
    let us = ZwaveScanCfg::from_region(ZwaveAddrComp::Homeid, FcsMode::Fifo, ZwaveRfRegion::UsLr2);
    assert_eq!(us.nb_ch, 4);
    assert_eq!(us.ch2.timeout, 30);
    assert_eq!(us.ch4.freq, 920_000_000);
    let jp = ZwaveScanCfg::from_region(ZwaveAddrComp::Off, FcsMode::Auto, ZwaveRfRegion::Jp);
    assert_eq!(jp.ch2, ZwaveChanCfg::r3(923_900_000, false));
    let lr = ZwaveScanCfg::lr_only(ZwaveAddrComp::Off, FcsMode::Auto, false);
    assert_eq!((lr.nb_ch, lr.ch1.freq, lr.ch2.freq), (2, 864_400_000, 866_400_000));
    let mut c = ZwaveScanCfg::base_rate(ZwaveAddrComp::Off, FcsMode::Auto, 1, 2, 3);
    assert_eq!(c.cmd_nb_ch(), 0x30);
    c.ch2.cca_en = true;
    c.ch4.cca_en = true;
    assert_eq!(c.cmd_nb_ch(), 0x3A);
    assert_eq!(ZwaveScanCfg::all_rate(ZwaveAddrComp::Off, FcsMode::Auto, 1, 2, 3, 4).cmd_nb_ch(), 0x40);
    assert_eq!(ZwaveChanCfg::r2(5, true).timeout, 30);
    assert_eq!(ZwaveChanCfg::lr1(5).timeout, 12);
    assert_eq!(ZwaveScanCfg::all_r3(ZwaveAddrComp::Off, FcsMode::Auto, 1, 2, 3).ch1.mode, ZwaveMode::R3);
}

#[test]
fn lrfhss_hopping_table_payload() {
    let hops = [LrfhssHop { freq: 0x0102_0304, len: 0x0506 }, LrfhssHop { freq: 0xA0B0_C0D0, len: 0x00FF }];
    assert_eq!(hopping_table(&hops), vec![1, 2, 3, 4, 5, 6, 0xA0, 0xB0, 0xC0, 0xD0, 0x00, 0xFF]);
    assert!(hopping_table(&[]).is_empty());
}
