//! Wi-SUN commands.
use vstd::prelude::*;

use crate::status::{be_word, Status};

verus! {

/// WISun mode selection
#[derive(Debug, Clone, Copy, PartialEq, Eq, Structural)]
pub enum WisunMode {
    Mode1a,
    Mode1b,
    Mode2a,
    Mode2b,
    Mode3,
    Mode4a,
    Mode4b,
    Mode5,
}

impl WisunMode {
    /// The code sent for this value.
    pub open spec fn spec_value(self) -> u8 {
        match self {
            WisunMode::Mode1a => 0,
            WisunMode::Mode1b => 1,
            WisunMode::Mode2a => 2,
            WisunMode::Mode2b => 3,
            WisunMode::Mode3 => 4,
            WisunMode::Mode4a => 5,
            WisunMode::Mode4b => 6,
            WisunMode::Mode5 => 7,
        }
    }

    /// The code sent for this value
    pub fn value(self) -> (r: u8)
        ensures
            r == self.spec_value(),
    {
        match self {
            WisunMode::Mode1a => 0,
            WisunMode::Mode1b => 1,
            WisunMode::Mode2a => 2,
            WisunMode::Mode2b => 3,
            WisunMode::Mode3 => 4,
            WisunMode::Mode4a => 5,
            WisunMode::Mode4b => 6,
            WisunMode::Mode5 => 7,
        }
    }
}

/// FCS selection for TX
#[derive(Debug, Clone, Copy, PartialEq, Eq, Structural)]
pub enum WisunFcsLen {
    Fcs32b,
    Fcs16b,
}

impl WisunFcsLen {
    /// The code sent for this value.
    pub open spec fn spec_value(self) -> u8 {
        match self {
            WisunFcsLen::Fcs32b => 0,
            WisunFcsLen::Fcs16b => 1,
        }
    }

    /// The code sent for this value
    pub fn value(self) -> (r: u8)
        ensures
            r == self.spec_value(),
    {
        match self {
            WisunFcsLen::Fcs32b => 0,
            WisunFcsLen::Fcs16b => 1,
        }
    }
}

/// FEC encoding selection for TX packet
#[derive(Debug, Clone, Copy, PartialEq, Eq, Structural)]
pub enum WisunFec {
    Off,
    Nrnsc,
    Rsc,
    RscIntlvr,
}

impl WisunFec {
    /// The code sent for this value.
    pub open spec fn spec_value(self) -> u8 {
        match self {
            WisunFec::Off => 0,
            WisunFec::Nrnsc => 1,
            WisunFec::Rsc => 2,
            WisunFec::RscIntlvr => 3,
        }
    }

    /// The code sent for this value
    pub fn value(self) -> (r: u8)
        ensures
            r == self.spec_value(),
    {
        match self {
            WisunFec::Off => 0,
            WisunFec::Nrnsc => 1,
            WisunFec::Rsc => 2,
            WisunFec::RscIntlvr => 3,
        }
    }
}

/// Configure the wisun mode (1a, 1b, 2a, 2b, 3, 4a, 4b, 5)
/// `rx_bw` is the code of the receiver bandwidth.
pub fn set_wisun_mode_cmd(wisun_mode: WisunMode, rx_bw: u8) -> (r: [u8; 4])
    ensures
        r@ == seq![
            0x02u8,
            0x70u8,
            (wisun_mode.spec_value() as int % 8) as u8,
            rx_bw as u8,
        ],
{
    let r: [u8; 4] = [
        0x02,
        0x70,
        wisun_mode.value() % 8,
        rx_bw as u8,
    ];
    assert(r@ =~= seq![
        0x02u8,
        0x70u8,
        (wisun_mode.spec_value() as int % 8) as u8,
        rx_bw as u8,
    ]);
    r
}

/// Configure the wisun packet parameters
pub fn set_wisun_packet_params_cmd(wisun_fcs_len: WisunFcsLen, whitening_en: bool, crc_hw: bool, mode_switch_tx: bool, wisun_fec: WisunFec, frame_len_tx: u16, pbl_len_tx: u8, pbl_detect: u8) -> (r: [u8; 7])
    ensures
        r@ == seq![
            0x02u8,
            0x71u8,
            (((wisun_fcs_len.spec_value() as int % 2) * 32) + ((if whitening_en { 16int } else { 0int })) + ((if crc_hw { 8int } else { 0int })) + ((if mode_switch_tx { 4int } else { 0int })) + (wisun_fec.spec_value() as int % 4)) as u8,
            ((frame_len_tx as int / 256) % 256) as u8,
            (frame_len_tx as int % 256) as u8,
            pbl_len_tx,
            pbl_detect,
        ],
{
    let r: [u8; 7] = [
        0x02,
        0x71,
        (wisun_fcs_len.value() % 2) * 32 + (if whitening_en { 16 } else { 0 }) + (if crc_hw { 8 } else { 0 }) + (if mode_switch_tx { 4 } else { 0 }) + (wisun_fec.value() % 4),
        ((frame_len_tx / 256) % 256) as u8,
        (frame_len_tx % 256) as u8,
        pbl_len_tx,
        pbl_detect,
    ];
    assert(r@ =~= seq![
        0x02u8,
        0x71u8,
        (((wisun_fcs_len.spec_value() as int % 2) * 32) + ((if whitening_en { 16int } else { 0int })) + ((if crc_hw { 8int } else { 0int })) + ((if mode_switch_tx { 4int } else { 0int })) + (wisun_fec.spec_value() as int % 4)) as u8,
        ((frame_len_tx as int / 256) % 256) as u8,
        (frame_len_tx as int % 256) as u8,
        pbl_len_tx,
        pbl_detect,
    ]);
    r
}

/// Gets the status of the last received packet. Status is updated at the end of a reception (RxDone irq), but syncword_idx and rssi_sync are already updated on SyncWordValid irq
pub fn get_wisun_packet_status_req() -> (r: [u8; 2])
    ensures
        r@ == seq![0x02u8, 0x73u8],
{
    let r: [u8; 2] = [0x02, 0x73];
    assert(r@ =~= seq![0x02u8, 0x73u8]);
    r
}

/// Sets length of frame for TX for normal packets, or header value for mode_switch packets
pub fn set_wisun_packet_len_cmd(frame_len_tx: u16) -> (r: [u8; 4])
    ensures
        r@ == seq![
            0x02u8,
            0x74u8,
            ((frame_len_tx as int / 256) % 256) as u8,
            (frame_len_tx as int % 256) as u8,
        ],
{
    let r: [u8; 4] = [
        0x02,
        0x74,
        ((frame_len_tx / 256) % 256) as u8,
        (frame_len_tx % 256) as u8,
    ];
    assert(r@ =~= seq![
        0x02u8,
        0x74u8,
        ((frame_len_tx as int / 256) % 256) as u8,
        (frame_len_tx as int % 256) as u8,
    ]);
    r
}

/// Get the Rx statistics for WiSUN packets
pub fn get_wisun_rx_stats_req() -> (r: [u8; 2])
    ensures
        r@ == seq![0x02u8, 0x6Cu8],
{
    let r: [u8; 2] = [0x02, 0x6C];
    assert(r@ =~= seq![0x02u8, 0x6Cu8]);
    r
}

/// Response for GetWisunPacketStatus command
#[derive(Clone, Copy)]
pub struct WisunPacketStatusRsp(pub [u8; 11]);

impl WisunPacketStatusRsp {
    /// Create a new response buffer
    pub fn new() -> (r: Self)
        ensures
            r.0@ == Seq::new(11, |i: int| 0u8),
    {
        let r = WisunPacketStatusRsp([0u8; 11]);
        assert(r.0@ =~= Seq::new(11, |i: int| 0u8));
        r
    }

    /// Return Status
    pub fn status(&mut self) -> (r: Status)
        ensures
            *final(self) == *old(self),
            r.0 == be_word(old(self).0[0], old(self).0[1]),
    {
        Status::from_array([self.0[0], self.0[1]])
    }

    /// Raw 16bit received header
    pub fn header(&self) -> (r: u16)
        ensures
            r == self.0[3] as int + self.0[2] as int * 256,
    {
        self.0[3] as u16 + self.0[2] as u16 * 256
    }

    /// Length of the last received packet in bytes (including optional data added in the FIFO, crc, ...)
    pub fn pkt_len(&self) -> (r: u16)
        ensures
            r == self.0[5] as int + self.0[4] as int * 256,
    {
        self.0[5] as u16 + self.0[4] as u16 * 256
    }

    /// Average over last packet received of RSSI. Actual signal power is –rssi_avg/2 (dBm)
    pub fn rssi_avg(&self) -> (r: u16)
        ensures
            r == (self.0[9] as int / 4) % 2 + self.0[6] as int * 2,
    {
        ((self.0[9] / 4) % 2) as u16 + self.0[6] as u16 * 2
    }

    /// Latch RSSI value after syncword detection. Actual signal power is –rssi_sync/2 (dBm)
    pub fn rssi_sync(&self) -> (r: u16)
        ensures
            r == self.0[9] as int % 2 + self.0[7] as int * 2,
    {
        (self.0[9] % 2) as u16 + self.0[7] as u16 * 2
    }

    /// Index of detected syncword (0/1)
    pub fn syncword_idx(&self) -> (r: bool)
        ensures
            r == ((self.0[8] as int / 128) % 2 == 1),
    {
        (self.0[8] / 128) % 2 == 1
    }

    /// Link quality indicator (0.25dB)
    pub fn lqi(&self) -> (r: u8)
        ensures
            r == self.0[10],
    {
        self.0[10]
    }
}

/// Response for GetWisunRxStats command
#[derive(Clone, Copy)]
pub struct WisunRxStatsRsp(pub [u8; 8]);

impl WisunRxStatsRsp {
    /// Create a new response buffer
    pub fn new() -> (r: Self)
        ensures
            r.0@ == Seq::new(8, |i: int| 0u8),
    {
        let r = WisunRxStatsRsp([0u8; 8]);
        assert(r.0@ =~= Seq::new(8, |i: int| 0u8));
        r
    }

    /// Return Status
    pub fn status(&mut self) -> (r: Status)
        ensures
            *final(self) == *old(self),
            r.0 == be_word(old(self).0[0], old(self).0[1]),
    {
        Status::from_array([self.0[0], self.0[1]])
    }

    /// Total number of received packets
    pub fn pkt_rx(&self) -> (r: u16)
        ensures
            r == self.0[3] as int + self.0[2] as int * 256,
    {
        self.0[3] as u16 + self.0[2] as u16 * 256
    }

    /// Number of received packets with a CRC error
    pub fn crc_error(&self) -> (r: u16)
        ensures
            r == self.0[5] as int + self.0[4] as int * 256,
    {
        self.0[5] as u16 + self.0[4] as u16 * 256
    }

    /// Number of packets with a length error
    pub fn len_error(&self) -> (r: u16)
        ensures
            r == self.0[7] as int + self.0[6] as int * 256,
    {
        self.0[7] as u16 + self.0[6] as u16 * 256
    }
}

} // verus!

