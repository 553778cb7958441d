//! Wi-SUN packet parameters.
use vstd::prelude::*;

use crate::cmd::cmd_wisun::{WisunFcsLen, WisunFec};

verus! {

/// Wisun Packet parameters: TX CRC/FEC/Length
#[derive(Debug, Clone, Copy, PartialEq, Eq, Structural)]
pub struct WisunPacketParams {
    pub tx_crc: WisunFcsLen,
    pub whitening: bool,
    pub crc_hw: bool,
    pub mode_switch_tx: bool,
    pub fec_tx: WisunFec,
    pub frame_len_tx: u16,
    pub pbl_len_tx: u8,
    pub pbl_detect: u8,
}

impl WisunPacketParams {
    /// Data packet of `tx_len` bytes, with whitening, hardware CRC, a 32-bit
    /// preamble and automatic preamble detection
    pub fn new_data(tx_len: u16, tx_fec: WisunFec, tx_crc: WisunFcsLen) -> (r: Self)
        ensures
            r == (WisunPacketParams {
                tx_crc,
                whitening: true,
                crc_hw: true,
                mode_switch_tx: false,
                fec_tx: tx_fec,
                frame_len_tx: tx_len,
                pbl_len_tx: 32,
                pbl_detect: 255,
            }),
    {
        WisunPacketParams {
            tx_crc,
            whitening: true,
            crc_hw: true,
            mode_switch_tx: false,
            fec_tx: tx_fec,
            frame_len_tx: tx_len,
            pbl_len_tx: 32,
            pbl_detect: 255,
        }
    }

    /// Use custom preamble length
    pub fn with_pbl_len(self, pbl_len_tx: u8) -> (r: Self)
        ensures
            r == (WisunPacketParams { pbl_len_tx, ..self }),
    {
        WisunPacketParams { pbl_len_tx, ..self }
    }

    /// Mode-switch packet
    pub fn new_mode_switch() -> (r: Self)
        ensures
            r == (WisunPacketParams {
                tx_crc: WisunFcsLen::Fcs16b,
                whitening: true,
                crc_hw: true,
                mode_switch_tx: true,
                fec_tx: WisunFec::Off,
                frame_len_tx: 0,
                pbl_len_tx: 32,
                pbl_detect: 255,
            }),
    {
        WisunPacketParams {
            tx_crc: WisunFcsLen::Fcs16b,
            whitening: true,
            crc_hw: true,
            mode_switch_tx: true,
            fec_tx: WisunFec::Off,
            frame_len_tx: 0,
            pbl_len_tx: 32,
            pbl_detect: 255,
        }
    }
}

} // verus!
