//! Zigbee commands.
use vstd::prelude::*;

use crate::status::{be_word, Status};

verus! {

/// The modulation and data rate to be used for RX and TX
#[derive(Debug, Clone, Copy, PartialEq, Eq, Structural)]
pub enum ZigbeeMode {
    Oqpsk250,
    Oqpsk100,
    Oqpsk25,
    Bpsk20,
    Bpsk40,
}

impl ZigbeeMode {
    /// The code sent for this value.
    pub open spec fn spec_value(self) -> u8 {
        match self {
            ZigbeeMode::Oqpsk250 => 0,
            ZigbeeMode::Oqpsk100 => 1,
            ZigbeeMode::Oqpsk25 => 2,
            ZigbeeMode::Bpsk20 => 3,
            ZigbeeMode::Bpsk40 => 4,
        }
    }

    /// The code sent for this value
    pub fn value(self) -> (r: u8)
        ensures
            r == self.spec_value(),
    {
        match self {
            ZigbeeMode::Oqpsk250 => 0,
            ZigbeeMode::Oqpsk100 => 1,
            ZigbeeMode::Oqpsk25 => 2,
            ZigbeeMode::Bpsk20 => 3,
            ZigbeeMode::Bpsk40 => 4,
        }
    }
}

/// Set the Rx/Tx mode for FCS (16 bits)
#[derive(Debug, Clone, Copy, PartialEq, Eq, Structural)]
pub enum FcsMode {
    FcsOn,
    FcsInFifo,
}

impl FcsMode {
    /// The code sent for this value.
    pub open spec fn spec_value(self) -> u8 {
        match self {
            FcsMode::FcsOn => 0,
            FcsMode::FcsInFifo => 1,
        }
    }

    /// The code sent for this value
    pub fn value(self) -> (r: u8)
        ensures
            r == self.spec_value(),
    {
        match self {
            FcsMode::FcsOn => 0,
            FcsMode::FcsInFifo => 1,
        }
    }
}

/// Sets the parameters for Zigbee packets
/// `rx_bw` is the code of the receiver bandwidth.
pub fn set_zigbee_params_cmd(zigbee_mode: ZigbeeMode, rx_bw: u8, pld_len: u8, pbl_len_tx: u16, addr_filt_en: bool, fcs_mode: FcsMode) -> (r: [u8; 8])
    ensures
        r@ == seq![
            0x02u8,
            0x9Fu8,
            (zigbee_mode.spec_value() as int) as u8,
            rx_bw as u8,
            pld_len,
            ((pbl_len_tx as int / 256) % 256) as u8,
            (pbl_len_tx as int % 256) as u8,
            (((if addr_filt_en { 4int } else { 0int })) + (fcs_mode.spec_value() as int % 2)) as u8,
        ],
{
    let r: [u8; 8] = [
        0x02,
        0x9F,
        zigbee_mode.value(),
        rx_bw as u8,
        pld_len,
        ((pbl_len_tx / 256) % 256) as u8,
        (pbl_len_tx % 256) as u8,
        (if addr_filt_en { 4 } else { 0 }) + (fcs_mode.value() % 2),
    ];
    assert(r@ =~= seq![
        0x02u8,
        0x9Fu8,
        (zigbee_mode.spec_value() as int) as u8,
        rx_bw as u8,
        pld_len,
        ((pbl_len_tx as int / 256) % 256) as u8,
        (pbl_len_tx as int % 256) as u8,
        (((if addr_filt_en { 4int } else { 0int })) + (fcs_mode.spec_value() as int % 2)) as u8,
    ]);
    r
}

/// Gets the status of the last received packet. Status is updated at the end of a reception (RxDone irq), but rssi_sync is already updated on SyncWordValid irq
pub fn get_zigbee_packet_status_req() -> (r: [u8; 2])
    ensures
        r@ == seq![0x02u8, 0xA1u8],
{
    let r: [u8; 2] = [0x02, 0xA1];
    assert(r@ =~= seq![0x02u8, 0xA1u8]);
    r
}

/// Sets the zigbee packet length without the need to call the full SetZigbeeParams command (slower to run)
pub fn set_zigbee_packet_len_cmd(pld_len: u8) -> (r: [u8; 3])
    ensures
        r@ == seq![
            0x02u8,
            0xA2u8,
            pld_len,
        ],
{
    let r: [u8; 3] = [
        0x02,
        0xA2,
        pld_len,
    ];
    assert(r@ =~= seq![
        0x02u8,
        0xA2u8,
        pld_len,
    ]);
    r
}

/// Sets the Zigbee addresses for filtering in Rx. Frames that don't match the addresses raise an address error IRQ. When a packet is received, the destination address and PAN ID are both checked. Broadcast addresses are matched as well. Multi-cast is not supported or filtered
pub fn set_zigbee_address_cmd(long_dest_addr: u64, short_dest_addr: u16, pan_id: u16, trans_id: u8) -> (r: [u8; 15])
    ensures
        r@ == seq![
            0x02u8,
            0xA3u8,
            ((long_dest_addr as int / 72057594037927936) % 256) as u8,
            ((long_dest_addr as int / 281474976710656) % 256) as u8,
            ((long_dest_addr as int / 1099511627776) % 256) as u8,
            ((long_dest_addr as int / 4294967296) % 256) as u8,
            ((long_dest_addr as int / 16777216) % 256) as u8,
            ((long_dest_addr as int / 65536) % 256) as u8,
            ((long_dest_addr as int / 256) % 256) as u8,
            (long_dest_addr as int % 256) as u8,
            ((short_dest_addr as int / 256) % 256) as u8,
            (short_dest_addr as int % 256) as u8,
            ((pan_id as int / 256) % 256) as u8,
            (pan_id as int % 256) as u8,
            trans_id,
        ],
{
    let r: [u8; 15] = [
        0x02,
        0xA3,
        ((long_dest_addr / 72057594037927936) % 256) as u8,
        ((long_dest_addr / 281474976710656) % 256) as u8,
        ((long_dest_addr / 1099511627776) % 256) as u8,
        ((long_dest_addr / 4294967296) % 256) as u8,
        ((long_dest_addr / 16777216) % 256) as u8,
        ((long_dest_addr / 65536) % 256) as u8,
        ((long_dest_addr / 256) % 256) as u8,
        (long_dest_addr % 256) as u8,
        ((short_dest_addr / 256) % 256) as u8,
        (short_dest_addr % 256) as u8,
        ((pan_id / 256) % 256) as u8,
        (pan_id % 256) as u8,
        trans_id,
    ];
    assert(r@ =~= seq![
        0x02u8,
        0xA3u8,
        ((long_dest_addr as int / 72057594037927936) % 256) as u8,
        ((long_dest_addr as int / 281474976710656) % 256) as u8,
        ((long_dest_addr as int / 1099511627776) % 256) as u8,
        ((long_dest_addr as int / 4294967296) % 256) as u8,
        ((long_dest_addr as int / 16777216) % 256) as u8,
        ((long_dest_addr as int / 65536) % 256) as u8,
        ((long_dest_addr as int / 256) % 256) as u8,
        (long_dest_addr as int % 256) as u8,
        ((short_dest_addr as int / 256) % 256) as u8,
        (short_dest_addr as int % 256) as u8,
        ((pan_id as int / 256) % 256) as u8,
        (pan_id as int % 256) as u8,
        trans_id,
    ]);
    r
}

/// Gets the internal statistics of the received packets. Statistics are reset on a POR, sleep without memory retention and the command ResetRxStats
pub fn get_zigbee_rx_stats_req() -> (r: [u8; 2])
    ensures
        r@ == seq![0x02u8, 0xA0u8],
{
    let r: [u8; 2] = [0x02, 0xA0];
    assert(r@ =~= seq![0x02u8, 0xA0u8]);
    r
}

/// Response for GetZigbeePacketStatus command
#[derive(Clone, Copy)]
pub struct ZigbeePacketStatusRsp(pub [u8; 9]);

impl ZigbeePacketStatusRsp {
    /// Create a new response buffer
    pub fn new() -> (r: Self)
        ensures
            r.0@ == Seq::new(9, |i: int| 0u8),
    {
        let r = ZigbeePacketStatusRsp([0u8; 9]);
        assert(r.0@ =~= Seq::new(9, |i: int| 0u8));
        r
    }

    /// Return Status
    pub fn status(&mut self) -> (r: Status)
        ensures
            *final(self) == *old(self),
            r.0 == be_word(old(self).0[0], old(self).0[1]),
    {
        Status::from_array([self.0[0], self.0[1]])
    }

    /// Content of the received PHY header (the frame length)
    pub fn rx_header(&self) -> (r: u8)
        ensures
            r == self.0[2],
    {
        self.0[2]
    }

    /// Length of the last received packet in bytes (including optional data added in the FIFO, crc, ...)
    pub fn pkt_len(&self) -> (r: u16)
        ensures
            r == self.0[4] as int + self.0[3] as int * 256,
    {
        self.0[4] as u16 + self.0[3] as u16 * 256
    }

    /// RSSI average over the last packet received. Actual signal power is â€“rssi_pkt/2 (dBm)
    pub fn rssi_avg(&self) -> (r: u16)
        ensures
            r == (self.0[7] as int / 4) % 2 + self.0[5] as int * 2,
    {
        ((self.0[7] / 4) % 2) as u16 + self.0[5] as u16 * 2
    }

    /// Latched RSSI value after syncword detection. Actual signal power is â€“rssi_sync/2 (dBm)
    pub fn rssi_sync(&self) -> (r: u16)
        ensures
            r == self.0[7] as int % 2 + self.0[6] as int * 2,
    {
        (self.0[7] % 2) as u16 + self.0[6] as u16 * 2
    }

    /// Link quality indicator (0.25dB)
    pub fn lqi(&self) -> (r: u8)
        ensures
            r == self.0[8],
    {
        self.0[8]
    }
}

/// Response for GetZigbeeRxStats command
#[derive(Clone, Copy)]
pub struct ZigbeeRxStatsRsp(pub [u8; 8]);

impl ZigbeeRxStatsRsp {
    /// Create a new response buffer
    pub fn new() -> (r: Self)
        ensures
            r.0@ == Seq::new(8, |i: int| 0u8),
    {
        let r = ZigbeeRxStatsRsp([0u8; 8]);
        assert(r.0@ =~= Seq::new(8, |i: int| 0u8));
        r
    }

    /// Return Status
    pub fn status(&mut self) -> (r: Status)
        ensures
            *final(self) == *old(self),
            r.0 == be_word(old(self).0[0], old(self).0[1]),
    {
        Status::from_array([self.0[0], self.0[1]])
    }

    /// Total number of received packets
    pub fn pkt_rx(&self) -> (r: u16)
        ensures
            r == self.0[3] as int + self.0[2] as int * 256,
    {
        self.0[3] as u16 + self.0[2] as u16 * 256
    }

    /// Number of received packets with a CRC error
    pub fn crc_error(&self) -> (r: u16)
        ensures
            r == self.0[5] as int + self.0[4] as int * 256,
    {
        self.0[5] as u16 + self.0[4] as u16 * 256
    }

    /// Number of packets with a length error
    pub fn len_error(&self) -> (r: u16)
        ensures
            r == self.0[7] as int + self.0[6] as int * 256,
    {
        self.0[7] as u16 + self.0[6] as u16 * 256
    }
}

} // verus!

