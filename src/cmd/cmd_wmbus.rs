//! Wireless M-Bus commands.
use vstd::prelude::*;

use crate::status::{be_word, Status};

verus! {

/// WM-Bus mode selection
#[derive(Debug, Clone, Copy, PartialEq, Eq, Structural)]
pub enum WmbusMode {
    ModeS,
    ModeT1,
    ModeT2O2m,
    ModeT2M2o,
    ModeR2,
    ModeC1,
    ModeC2O2m,
    ModeC2M2o,
    ModeN4p8,
    ModeN2p4,
    ModeN6p4,
    ModeN19p2,
    ModeF2,
}

impl WmbusMode {
    /// The code sent for this value.
    pub open spec fn spec_value(self) -> u8 {
        match self {
            WmbusMode::ModeS => 0,
            WmbusMode::ModeT1 => 1,
            WmbusMode::ModeT2O2m => 2,
            WmbusMode::ModeT2M2o => 3,
            WmbusMode::ModeR2 => 4,
            WmbusMode::ModeC1 => 5,
            WmbusMode::ModeC2O2m => 6,
            WmbusMode::ModeC2M2o => 7,
            WmbusMode::ModeN4p8 => 8,
            WmbusMode::ModeN2p4 => 9,
            WmbusMode::ModeN6p4 => 10,
            WmbusMode::ModeN19p2 => 11,
            WmbusMode::ModeF2 => 12,
        }
    }

    /// The code sent for this value
    pub fn value(self) -> (r: u8)
        ensures
            r == self.spec_value(),
    {
        match self {
            WmbusMode::ModeS => 0,
            WmbusMode::ModeT1 => 1,
            WmbusMode::ModeT2O2m => 2,
            WmbusMode::ModeT2M2o => 3,
            WmbusMode::ModeR2 => 4,
            WmbusMode::ModeC1 => 5,
            WmbusMode::ModeC2O2m => 6,
            WmbusMode::ModeC2M2o => 7,
            WmbusMode::ModeN4p8 => 8,
            WmbusMode::ModeN2p4 => 9,
            WmbusMode::ModeN6p4 => 10,
            WmbusMode::ModeN19p2 => 11,
            WmbusMode::ModeF2 => 12,
        }
    }
}

/// WM-Bus mode selection
#[derive(Debug, Clone, Copy, PartialEq, Eq, Structural)]
pub enum WmbusSubBand {
    A,
    B,
    C,
    D,
}


/// Center frequency (Hz) of a mode; the channel index is used by modes R2
/// and N only, the sub-band by mode N only.
pub open spec fn wmbus_rf(mode: WmbusMode, channel: u8, subband: WmbusSubBand) -> int {
    match mode {
        WmbusMode::ModeS => 868_300_000,
        WmbusMode::ModeT1 | WmbusMode::ModeT2M2o => 868_950_000,
        WmbusMode::ModeT2O2m => 868_300_000,
        WmbusMode::ModeR2 => 868_030_000 + 60_000 * channel,
        WmbusMode::ModeC1 | WmbusMode::ModeC2M2o => 868_950_000,
        WmbusMode::ModeC2O2m => 868_525_000,
        WmbusMode::ModeF2 => 433_820_000,
        WmbusMode::ModeN4p8 | WmbusMode::ModeN2p4 | WmbusMode::ModeN6p4 => match subband {
            WmbusSubBand::A => 169_406_250 + 12_500 * channel,
            WmbusSubBand::B => 169_481_250,
            WmbusSubBand::C => 169_493_750 + 12_500 * channel,
            WmbusSubBand::D => 169_593_250 + 12_500 * channel,
        },
        WmbusMode::ModeN19p2 => match subband {
            WmbusSubBand::A => 169_437_500,
            WmbusSubBand::B => 169_481_250,
            WmbusSubBand::C => 169_493_750,
            WmbusSubBand::D => 169_625_000 + 50_000 * channel,
        },
    }
}

impl WmbusMode {
    /// Return the center frequency (Hz) associated with a mode.
    /// The channel index is only used in modes R2 and N,
    /// the sub-band only in mode N
    pub fn rf(&self, channel: u8, subband: WmbusSubBand) -> (r: u32)
        ensures
            r == wmbus_rf(*self, channel, subband),
    {
        let ch = channel as u32;
        match self {
            WmbusMode::ModeS => 868_300_000,
            WmbusMode::ModeT1 | WmbusMode::ModeT2M2o => 868_950_000,
            WmbusMode::ModeT2O2m => 868_300_000,
            WmbusMode::ModeR2 => 868_030_000 + 60_000 * ch,
            WmbusMode::ModeC1 | WmbusMode::ModeC2M2o => 868_950_000,
            WmbusMode::ModeC2O2m => 868_525_000,
            WmbusMode::ModeF2 => 433_820_000,
            WmbusMode::ModeN4p8 | WmbusMode::ModeN2p4 | WmbusMode::ModeN6p4 => match subband {
                WmbusSubBand::A => 169_406_250 + 12_500 * ch,
                WmbusSubBand::B => 169_481_250,
                WmbusSubBand::C => 169_493_750 + 12_500 * ch,
                WmbusSubBand::D => 169_593_250 + 12_500 * ch,
            },
            WmbusMode::ModeN19p2 => match subband {
                WmbusSubBand::A => 169_437_500,
                WmbusSubBand::B => 169_481_250,
                WmbusSubBand::C => 169_493_750,
                WmbusSubBand::D => 169_625_000 + 50_000 * ch,
            },
        }
    }
}

/// Packet format (A or B)
#[derive(Debug, Clone, Copy, PartialEq, Eq, Structural)]
pub enum WmbusFormat {
    FormatA,
    FormatB,
}

impl WmbusFormat {
    /// The code sent for this value.
    pub open spec fn spec_value(self) -> u8 {
        match self {
            WmbusFormat::FormatA => 0,
            WmbusFormat::FormatB => 1,
        }
    }

    /// The code sent for this value
    pub fn value(self) -> (r: u8)
        ensures
            r == self.spec_value(),
    {
        match self {
            WmbusFormat::FormatA => 0,
            WmbusFormat::FormatB => 1,
        }
    }
}

/// Configure the wm-bus mode according to EN13757-4 2019
/// `rx_bw` is the code of the receiver bandwidth.
pub fn set_wmbus_params_cmd(wmbus_mode: WmbusMode, rx_bw: u8, wmbus_format: WmbusFormat, addr_filt_en: bool, pld_len: u8, pbl_len_tx: u16, pbl_len_detect: u8) -> (r: [u8; 10])
    ensures
        r@ == seq![
            0x02u8,
            0x6Au8,
            (wmbus_mode.spec_value() as int % 16) as u8,
            rx_bw as u8,
            (wmbus_format.spec_value() as int % 2) as u8,
            ((if addr_filt_en { 1int } else { 0int })) as u8,
            pld_len,
            ((pbl_len_tx as int / 256) % 256) as u8,
            (pbl_len_tx as int % 256) as u8,
            pbl_len_detect,
        ],
{
    let r: [u8; 10] = [
        0x02,
        0x6A,
        wmbus_mode.value() % 16,
        rx_bw as u8,
        wmbus_format.value() % 2,
        (if addr_filt_en { 1 } else { 0 }),
        pld_len,
        ((pbl_len_tx / 256) % 256) as u8,
        (pbl_len_tx % 256) as u8,
        pbl_len_detect,
    ];
    assert(r@ =~= seq![
        0x02u8,
        0x6Au8,
        (wmbus_mode.spec_value() as int % 16) as u8,
        rx_bw as u8,
        (wmbus_format.spec_value() as int % 2) as u8,
        ((if addr_filt_en { 1int } else { 0int })) as u8,
        pld_len,
        ((pbl_len_tx as int / 256) % 256) as u8,
        (pbl_len_tx as int % 256) as u8,
        pbl_len_detect,
    ]);
    r
}

/// Get the Rx statistics for wmbus packets
pub fn get_wmbus_rx_stats_req() -> (r: [u8; 2])
    ensures
        r@ == seq![0x02u8, 0x6Cu8],
{
    let r: [u8; 2] = [0x02, 0x6C];
    assert(r@ =~= seq![0x02u8, 0x6Cu8]);
    r
}

/// Get Rx packet status informations for wmbus packets
pub fn get_wmbus_packet_status_req() -> (r: [u8; 2])
    ensures
        r@ == seq![0x02u8, 0x6Du8],
{
    let r: [u8; 2] = [0x02, 0x6D];
    assert(r@ =~= seq![0x02u8, 0x6Du8]);
    r
}

/// Set the WM-Bus address for RX filtering (A-field)
pub fn set_wmbus_address_cmd(address: u64) -> (r: [u8; 8])
    ensures
        r@ == seq![
            0x02u8,
            0x6Eu8,
            ((address as int / 1099511627776) % 256) as u8,
            ((address as int / 4294967296) % 256) as u8,
            ((address as int / 16777216) % 256) as u8,
            ((address as int / 65536) % 256) as u8,
            ((address as int / 256) % 256) as u8,
            (address as int % 256) as u8,
        ],
{
    let r: [u8; 8] = [
        0x02,
        0x6E,
        ((address / 1099511627776) % 256) as u8,
        ((address / 4294967296) % 256) as u8,
        ((address / 16777216) % 256) as u8,
        ((address / 65536) % 256) as u8,
        ((address / 256) % 256) as u8,
        (address % 256) as u8,
    ];
    assert(r@ =~= seq![
        0x02u8,
        0x6Eu8,
        ((address as int / 1099511627776) % 256) as u8,
        ((address as int / 4294967296) % 256) as u8,
        ((address as int / 16777216) % 256) as u8,
        ((address as int / 65536) % 256) as u8,
        ((address as int / 256) % 256) as u8,
        (address as int % 256) as u8,
    ]);
    r
}

/// Response for GetWmbusRxStats command
#[derive(Clone, Copy)]
pub struct WmbusRxStatsRsp(pub [u8; 8]);

impl WmbusRxStatsRsp {
    /// Create a new response buffer
    pub fn new() -> (r: Self)
        ensures
            r.0@ == Seq::new(8, |i: int| 0u8),
    {
        let r = WmbusRxStatsRsp([0u8; 8]);
        assert(r.0@ =~= Seq::new(8, |i: int| 0u8));
        r
    }

    /// Return Status
    pub fn status(&mut self) -> (r: Status)
        ensures
            *final(self) == *old(self),
            r.0 == be_word(old(self).0[0], old(self).0[1]),
    {
        Status::from_array([self.0[0], self.0[1]])
    }

    /// Total number of received packets
    pub fn pkt_rx(&self) -> (r: u16)
        ensures
            r == self.0[3] as int + self.0[2] as int * 256,
    {
        self.0[3] as u16 + self.0[2] as u16 * 256
    }

    /// Number of received packets with a CRC error
    pub fn crc_error(&self) -> (r: u16)
        ensures
            r == self.0[5] as int + self.0[4] as int * 256,
    {
        self.0[5] as u16 + self.0[4] as u16 * 256
    }

    /// Number of packets with a length error
    pub fn len_error(&self) -> (r: u16)
        ensures
            r == self.0[7] as int + self.0[6] as int * 256,
    {
        self.0[7] as u16 + self.0[6] as u16 * 256
    }
}

/// Response for GetWmbusPacketStatus command
#[derive(Clone, Copy)]
pub struct WmbusPacketStatusRsp(pub [u8; 11]);

impl WmbusPacketStatusRsp {
    /// Create a new response buffer
    pub fn new() -> (r: Self)
        ensures
            r.0@ == Seq::new(11, |i: int| 0u8),
    {
        let r = WmbusPacketStatusRsp([0u8; 11]);
        assert(r.0@ =~= Seq::new(11, |i: int| 0u8));
        r
    }

    /// Return Status
    pub fn status(&mut self) -> (r: Status)
        ensures
            *final(self) == *old(self),
            r.0 == be_word(old(self).0[0], old(self).0[1]),
    {
        Status::from_array([self.0[0], self.0[1]])
    }

    /// The demodulated length field. This can be different from get_rx_packet_length (in mode A)
    pub fn l_field(&self) -> (r: u8)
        ensures
            r == self.0[2],
    {
        self.0[2]
    }

    /// Length of the last received packet in bytes (including optional data added in the FIFO, crc, ...)
    pub fn pkt_len(&self) -> (r: u16)
        ensures
            r == self.0[4] as int + self.0[3] as int * 256,
    {
        self.0[4] as u16 + self.0[3] as u16 * 256
    }

    /// Average over last packet received of RSSI. Actual signal power is –rssi_avg/2 (dBm)
    pub fn rssi_avg(&self) -> (r: u16)
        ensures
            r == (self.0[9] as int / 16) % 2 + self.0[5] as int * 2,
    {
        ((self.0[9] / 16) % 2) as u16 + self.0[5] as u16 * 2
    }

    /// Latch RSSI value after syncword detection. Actual signal power is –rssi_sync/2 (dBm)
    pub fn rssi_sync(&self) -> (r: u16)
        ensures
            r == self.0[9] as int % 2 + self.0[6] as int * 2,
    {
        (self.0[9] % 2) as u16 + self.0[6] as u16 * 2
    }

    /// Indicates which crc has failed. In A mode, bit0 is the crc of the header, then each bit is the crc of the subsequent chunks
    pub fn crc_err(&self) -> (r: u32)
        ensures
            r == (self.0[9] as int / 64) % 2 + self.0[8] as int * 2 + self.0[7] as int * 512,
    {
        ((self.0[9] / 64) % 2) as u32 + self.0[8] as u32 * 2 + self.0[7] as u32 * 512
    }

    /// Index of detected syncword (0/1)
    pub fn syncword_idx(&self) -> (r: bool)
        ensures
            r == ((self.0[9] as int / 128) % 2 == 1),
    {
        (self.0[9] / 128) % 2 == 1
    }

    /// Link quality indicator (0.25dB)
    pub fn lqi(&self) -> (r: u8)
        ensures
            r == self.0[10],
    {
        self.0[10]
    }
}

} // verus!

