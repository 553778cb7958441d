//! Zigbee packet parameters.
use vstd::prelude::*;

use crate::cmd::cmd_zigbee::{FcsMode, ZigbeeMode};

verus! {

/// Zigbee packet parameters
#[derive(Debug, Clone, Copy, PartialEq, Eq, Structural)]
pub struct ZigbeePacketParams {
    pub mode: ZigbeeMode,
    /// Receiver bandwidth code, `None` for automatic
    pub rx_bw: Option<u8>,
    pub pld_len: u8,
    pub pbl_len_tx: u16,
    pub addr_filt_en: bool,
    pub fcs_mode: FcsMode,
}

impl ZigbeePacketParams {
    /// Packet parameters with automatic bandwidth, a 32-bit preamble and the FCS handled by the chip
    pub fn new(mode: ZigbeeMode, pld_len: u8, addr_filt_en: bool) -> (r: Self)
        ensures
            r == (ZigbeePacketParams { mode, rx_bw: None, pld_len, pbl_len_tx: 32, addr_filt_en, fcs_mode: FcsMode::FcsOn }),
    {
        ZigbeePacketParams { mode, rx_bw: None, pld_len, pbl_len_tx: 32, addr_filt_en, fcs_mode: FcsMode::FcsOn }
    }
}

} // verus!
