//! Wireless M-Bus packet parameters.
use vstd::prelude::*;

use crate::cmd::cmd_wmbus::{WmbusFormat, WmbusMode};

verus! {

/// W-MBus Packet parameters
#[derive(Debug, Clone, Copy, PartialEq, Eq, Structural)]
pub struct WmbusPacketParams {
    pub mode: WmbusMode,
    /// Receiver bandwidth code, `None` for automatic
    pub rx_bw: Option<u8>,
    pub pkt_format_tx: WmbusFormat,
    pub addr_filt_en: bool,
    pub pld_len: u8,
    pub pbl_len_tx: u16,
    pub pbl_len_detect: u8,
}

/// The shortest TX preamble of a mode (bits).
pub open spec fn wmbus_preamble_len(mode: WmbusMode) -> u16 {
    match mode {
        WmbusMode::ModeS => 30,
        WmbusMode::ModeR2 | WmbusMode::ModeF2 => 78,
        WmbusMode::ModeT1 | WmbusMode::ModeT2O2m | WmbusMode::ModeT2M2o => 38,
        WmbusMode::ModeC1 | WmbusMode::ModeC2O2m | WmbusMode::ModeC2M2o => 32,
        WmbusMode::ModeN4p8 | WmbusMode::ModeN2p4 | WmbusMode::ModeN6p4 | WmbusMode::ModeN19p2 => 16,
    }
}

impl WmbusPacketParams {
    /// Create a new packet configuration using the shortest preamble,
    /// automatic bandwidth, automatic preamble detection and no address filtering
    pub fn new(mode: WmbusMode, tx_format: WmbusFormat, tx_len: u8) -> (r: Self)
        ensures
            r == (WmbusPacketParams {
                mode,
                rx_bw: None,
                pkt_format_tx: tx_format,
                addr_filt_en: false,
                pld_len: tx_len,
                pbl_len_tx: wmbus_preamble_len(mode),
                pbl_len_detect: 255,
            }),
    {
        let pbl_len: u16 = match mode {
            WmbusMode::ModeS => 30,
            WmbusMode::ModeR2 => 78,
            WmbusMode::ModeF2 => 78,
            WmbusMode::ModeT1 | WmbusMode::ModeT2O2m | WmbusMode::ModeT2M2o => 38,
            WmbusMode::ModeC1 | WmbusMode::ModeC2O2m | WmbusMode::ModeC2M2o => 32,
            WmbusMode::ModeN4p8 | WmbusMode::ModeN2p4 | WmbusMode::ModeN6p4 | WmbusMode::ModeN19p2 => 16,
        };
        WmbusPacketParams {
            mode,
            rx_bw: None,
            pkt_format_tx: tx_format,
            addr_filt_en: false,
            pld_len: tx_len,
            pbl_len_tx: pbl_len,
            pbl_len_detect: 255,
        }
    }

    /// Enable address filtering
    pub fn with_addr_filt(self) -> (r: Self)
        ensures
            r == (WmbusPacketParams { addr_filt_en: true, ..self }),
    {
        WmbusPacketParams { addr_filt_en: true, ..self }
    }

    /// Use custom preamble length
    pub fn with_pbl_len(self, pbl_len_tx: u16) -> (r: Self)
        ensures
            r == (WmbusPacketParams { pbl_len_tx, ..self }),
    {
        WmbusPacketParams { pbl_len_tx, ..self }
    }
}

} // verus!
