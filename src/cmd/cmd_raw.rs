//! Raw IQ capture and transmit commands.
use vstd::prelude::*;

use crate::status::{be_word, Status};

verus! {

/// Select which memory to use for ddmi capture
#[derive(Debug, Clone, Copy, PartialEq, Eq, Structural)]
pub enum RamSel {
    Off,
    Ram1,
    Ram1p2,
    Ram1p23,
    Ram2,
    Ram2p3,
    Ram3,
}

impl RamSel {
    /// The code sent for this value.
    pub open spec fn spec_value(self) -> u8 {
        match self {
            RamSel::Off => 0,
            RamSel::Ram1 => 1,
            RamSel::Ram1p2 => 2,
            RamSel::Ram1p23 => 3,
            RamSel::Ram2 => 4,
            RamSel::Ram2p3 => 5,
            RamSel::Ram3 => 6,
        }
    }

    /// The code sent for this value
    pub fn value(self) -> (r: u8)
        ensures
            r == self.spec_value(),
    {
        match self {
            RamSel::Off => 0,
            RamSel::Ram1 => 1,
            RamSel::Ram1p2 => 2,
            RamSel::Ram1p23 => 3,
            RamSel::Ram2 => 4,
            RamSel::Ram2p3 => 5,
            RamSel::Ram3 => 6,
        }
    }
}

/// IQ capture mode
#[derive(Debug, Clone, Copy, PartialEq, Eq, Structural)]
pub enum CaptureMode {
    Off,
    Fifo,
    Ddmi,
}

impl CaptureMode {
    /// The code sent for this value.
    pub open spec fn spec_value(self) -> u8 {
        match self {
            CaptureMode::Off => 0,
            CaptureMode::Fifo => 1,
            CaptureMode::Ddmi => 2,
        }
    }

    /// The code sent for this value
    pub fn value(self) -> (r: u8)
        ensures
            r == self.spec_value(),
    {
        match self {
            CaptureMode::Off => 0,
            CaptureMode::Fifo => 1,
            CaptureMode::Ddmi => 2,
        }
    }
}

/// Digital front-end selection for IQ capture
#[derive(Debug, Clone, Copy, PartialEq, Eq, Structural)]
pub enum CaptureDataSel {
    Src,
    Dagc,
    ChannelFilter,
    Decimation,
    Mixer,
    Input,
    SrcGain,
}

impl CaptureDataSel {
    /// The code sent for this value.
    pub open spec fn spec_value(self) -> u8 {
        match self {
            CaptureDataSel::Src => 0,
            CaptureDataSel::Dagc => 1,
            CaptureDataSel::ChannelFilter => 2,
            CaptureDataSel::Decimation => 3,
            CaptureDataSel::Mixer => 4,
            CaptureDataSel::Input => 5,
            CaptureDataSel::SrcGain => 6,
        }
    }

    /// The code sent for this value
    pub fn value(self) -> (r: u8)
        ensures
            r == self.spec_value(),
    {
        match self {
            CaptureDataSel::Src => 0,
            CaptureDataSel::Dagc => 1,
            CaptureDataSel::ChannelFilter => 2,
            CaptureDataSel::Decimation => 3,
            CaptureDataSel::Mixer => 4,
            CaptureDataSel::Input => 5,
            CaptureDataSel::SrcGain => 6,
        }
    }
}

/// TX mode selection
#[derive(Debug, Clone, Copy, PartialEq, Eq, Structural)]
pub enum TxIqMode {
    Iq,
    Freq,
    Phase,
}

impl TxIqMode {
    /// The code sent for this value.
    pub open spec fn spec_value(self) -> u8 {
        match self {
            TxIqMode::Iq => 0,
            TxIqMode::Freq => 1,
            TxIqMode::Phase => 2,
        }
    }

    /// The code sent for this value
    pub fn value(self) -> (r: u8)
        ensures
            r == self.spec_value(),
    {
        match self {
            TxIqMode::Iq => 0,
            TxIqMode::Freq => 1,
            TxIqMode::Phase => 2,
        }
    }
}

/// Trigger selection for the Raw IQ capture start
#[derive(Debug, Clone, Copy, PartialEq, Eq, Structural)]
pub enum CaptureTrigger {
    Soft,
    Rssi,
    External,
    Detect,
    RxDone,
    SyncFound,
    HicIrq13,
    Rtc3,
}

impl CaptureTrigger {
    /// The code sent for this value.
    pub open spec fn spec_value(self) -> u8 {
        match self {
            CaptureTrigger::Soft => 0,
            CaptureTrigger::Rssi => 1,
            CaptureTrigger::External => 2,
            CaptureTrigger::Detect => 3,
            CaptureTrigger::RxDone => 4,
            CaptureTrigger::SyncFound => 5,
            CaptureTrigger::HicIrq13 => 6,
            CaptureTrigger::Rtc3 => 7,
        }
    }

    /// The code sent for this value
    pub fn value(self) -> (r: u8)
        ensures
            r == self.spec_value(),
    {
        match self {
            CaptureTrigger::Soft => 0,
            CaptureTrigger::Rssi => 1,
            CaptureTrigger::External => 2,
            CaptureTrigger::Detect => 3,
            CaptureTrigger::RxDone => 4,
            CaptureTrigger::SyncFound => 5,
            CaptureTrigger::HicIrq13 => 6,
            CaptureTrigger::Rtc3 => 7,
        }
    }
}

/// Sets the raw IQ capture parameters. IQ capture can be done either exclusively using the packet type RAW, or in parallel to the use of a demodulator when in any packet type
/// `rx_bw` is the code of the receiver bandwidth.
pub fn set_raw_iq_capture_params_cmd(rx_bw: u8, sample_rate: u32, ram_sel: RamSel, capture_mode: CaptureMode, capture_data_sel: CaptureDataSel) -> (r: [u8; 8])
    ensures
        r@ == seq![
            0x02u8,
            0x90u8,
            rx_bw as u8,
            ((sample_rate as int / 16777216) % 256) as u8,
            ((sample_rate as int / 65536) % 256) as u8,
            ((sample_rate as int / 256) % 256) as u8,
            (sample_rate as int % 256) as u8,
            (((ram_sel.spec_value() as int % 8) * 32) + ((capture_mode.spec_value() as int % 4) * 8) + (capture_data_sel.spec_value() as int % 8)) as u8,
        ],
{
    let r: [u8; 8] = [
        0x02,
        0x90,
        rx_bw as u8,
        ((sample_rate / 16777216) % 256) as u8,
        ((sample_rate / 65536) % 256) as u8,
        ((sample_rate / 256) % 256) as u8,
        (sample_rate % 256) as u8,
        (ram_sel.value() % 8) * 32 + (capture_mode.value() % 4) * 8 + (capture_data_sel.value() % 8),
    ];
    assert(r@ =~= seq![
        0x02u8,
        0x90u8,
        rx_bw as u8,
        ((sample_rate as int / 16777216) % 256) as u8,
        ((sample_rate as int / 65536) % 256) as u8,
        ((sample_rate as int / 256) % 256) as u8,
        (sample_rate as int % 256) as u8,
        (((ram_sel.spec_value() as int % 8) * 32) + ((capture_mode.spec_value() as int % 4) * 8) + (capture_data_sel.spec_value() as int % 8)) as u8,
    ]);
    r
}

/// Sets the raw IQ capture parameters. IQ capture can be done either exclusively using the packet type RAW, or in parallel to the use of a demodulator when in any packet type
/// `rx_bw` is the code of the receiver bandwidth.
pub fn set_raw_iq_capture_params_adv_cmd(rx_bw: u8, sample_rate: u32, ram_sel: RamSel, capture_mode: CaptureMode, capture_data_sel: CaptureDataSel, capture_delay_us: u16, ddmi_sample_nb: u16, change_dma_arb_size: u8) -> (r: [u8; 13])
    ensures
        r@ == seq![
            0x02u8,
            0x90u8,
            rx_bw as u8,
            ((sample_rate as int / 16777216) % 256) as u8,
            ((sample_rate as int / 65536) % 256) as u8,
            ((sample_rate as int / 256) % 256) as u8,
            (sample_rate as int % 256) as u8,
            (((ram_sel.spec_value() as int % 8) * 32) + ((capture_mode.spec_value() as int % 4) * 8) + (capture_data_sel.spec_value() as int % 8)) as u8,
            ((capture_delay_us as int / 256) % 256) as u8,
            (capture_delay_us as int % 256) as u8,
            ((ddmi_sample_nb as int / 256) % 256) as u8,
            (ddmi_sample_nb as int % 256) as u8,
            change_dma_arb_size,
        ],
{
    let r: [u8; 13] = [
        0x02,
        0x90,
        rx_bw as u8,
        ((sample_rate / 16777216) % 256) as u8,
        ((sample_rate / 65536) % 256) as u8,
        ((sample_rate / 256) % 256) as u8,
        (sample_rate % 256) as u8,
        (ram_sel.value() % 8) * 32 + (capture_mode.value() % 4) * 8 + (capture_data_sel.value() % 8),
        ((capture_delay_us / 256) % 256) as u8,
        (capture_delay_us % 256) as u8,
        ((ddmi_sample_nb / 256) % 256) as u8,
        (ddmi_sample_nb % 256) as u8,
        change_dma_arb_size,
    ];
    assert(r@ =~= seq![
        0x02u8,
        0x90u8,
        rx_bw as u8,
        ((sample_rate as int / 16777216) % 256) as u8,
        ((sample_rate as int / 65536) % 256) as u8,
        ((sample_rate as int / 256) % 256) as u8,
        (sample_rate as int % 256) as u8,
        (((ram_sel.spec_value() as int % 8) * 32) + ((capture_mode.spec_value() as int % 4) * 8) + (capture_data_sel.spec_value() as int % 8)) as u8,
        ((capture_delay_us as int / 256) % 256) as u8,
        (capture_delay_us as int % 256) as u8,
        ((ddmi_sample_nb as int / 256) % 256) as u8,
        (ddmi_sample_nb as int % 256) as u8,
        change_dma_arb_size,
    ]);
    r
}

/// Gets the number of captured DDMI sample.
pub fn get_raw_iq_ddmi_cnt_req() -> (r: [u8; 2])
    ensures
        r@ == seq![0x02u8, 0x91u8],
{
    let r: [u8; 2] = [0x02, 0x91];
    assert(r@ =~= seq![0x02u8, 0x91u8]);
    r
}

/// Reads out num bytes starting at relative offset from the DDMI RAMs. Note: in case of 16bit IQ samples, the format is LITTLE ENDIAN
pub fn get_raw_iq_ddmi_data_req(offset: u16, num: u8) -> (r: [u8; 5])
    ensures
        r@ == seq![
            0x02u8,
            0x92u8,
            ((offset as int / 256) % 256) as u8,
            (offset as int % 256) as u8,
            num,
        ],
{
    let r: [u8; 5] = [
        0x02,
        0x92,
        ((offset / 256) % 256) as u8,
        (offset % 256) as u8,
        num,
    ];
    assert(r@ =~= seq![
        0x02u8,
        0x92u8,
        ((offset as int / 256) % 256) as u8,
        (offset as int % 256) as u8,
        num,
    ]);
    r
}

/// Sets the parameters used for TX. Note: for mode = IQ, tx_sample_num is the number of IQ pairs, so the number of bytes to write into the TX FIFO is 2*tx_sample_num
pub fn set_raw_iq_tx_params_cmd(tx_sample_num: u16, tx_sample_rate: u32, tx_iq_mode: TxIqMode) -> (r: [u8; 9])
    ensures
        r@ == seq![
            0x02u8,
            0x93u8,
            ((tx_sample_num as int / 256) % 256) as u8,
            (tx_sample_num as int % 256) as u8,
            ((tx_sample_rate as int / 16777216) % 256) as u8,
            ((tx_sample_rate as int / 65536) % 256) as u8,
            ((tx_sample_rate as int / 256) % 256) as u8,
            (tx_sample_rate as int % 256) as u8,
            (tx_iq_mode.spec_value() as int % 4) as u8,
        ],
{
    let r: [u8; 9] = [
        0x02,
        0x93,
        ((tx_sample_num / 256) % 256) as u8,
        (tx_sample_num % 256) as u8,
        ((tx_sample_rate / 16777216) % 256) as u8,
        ((tx_sample_rate / 65536) % 256) as u8,
        ((tx_sample_rate / 256) % 256) as u8,
        (tx_sample_rate % 256) as u8,
        tx_iq_mode.value() % 4,
    ];
    assert(r@ =~= seq![
        0x02u8,
        0x93u8,
        ((tx_sample_num as int / 256) % 256) as u8,
        (tx_sample_num as int % 256) as u8,
        ((tx_sample_rate as int / 16777216) % 256) as u8,
        ((tx_sample_rate as int / 65536) % 256) as u8,
        ((tx_sample_rate as int / 256) % 256) as u8,
        (tx_sample_rate as int % 256) as u8,
        (tx_iq_mode.spec_value() as int % 4) as u8,
    ]);
    r
}

/// Sets the raw IQ capture trigger parameters
pub fn set_raw_iq_trigger_cmd(trigger_start: CaptureTrigger, trigger_stop: CaptureTrigger) -> (r: [u8; 3])
    ensures
        r@ == seq![
            0x02u8,
            0x94u8,
            (((trigger_start.spec_value() as int % 16) * 16) + (trigger_stop.spec_value() as int % 16)) as u8,
        ],
{
    let r: [u8; 3] = [
        0x02,
        0x94,
        (trigger_start.value() % 16) * 16 + (trigger_stop.value() % 16),
    ];
    assert(r@ =~= seq![
        0x02u8,
        0x94u8,
        (((trigger_start.spec_value() as int % 16) * 16) + (trigger_stop.spec_value() as int % 16)) as u8,
    ]);
    r
}

/// Sets the raw IQ capture trigger parameters, with the RSSI thresholds
pub fn set_raw_iq_trigger_adv_cmd(trigger_start: CaptureTrigger, trigger_stop: CaptureTrigger, rssi_up: u16, rssi_down: u16) -> (r: [u8; 6])
    ensures
        r@ == seq![
            0x02u8,
            0x94u8,
            ((trigger_start.spec_value() as int % 16) * 16 + trigger_stop.spec_value() as int % 16) as u8,
            ((rssi_up as int / 2) % 256) as u8,
            ((rssi_down as int / 2) % 256) as u8,
            ((rssi_up as int % 256) as u8) | (((rssi_down as int % 256) * 2) % 256) as u8,
        ],
{
    let r: [u8; 6] = [
        0x02,
        0x94,
        (trigger_start.value() % 16) * 16 + trigger_stop.value() % 16,
        ((rssi_up / 2) % 256) as u8,
        ((rssi_down / 2) % 256) as u8,
        ((rssi_up % 256) as u8) | (((rssi_down % 256) * 2) % 256) as u8,
    ];
    assert(r@ =~= seq![
        0x02u8,
        0x94u8,
        ((trigger_start.spec_value() as int % 16) * 16 + trigger_stop.spec_value() as int % 16) as u8,
        ((rssi_up as int / 2) % 256) as u8,
        ((rssi_down as int / 2) % 256) as u8,
        ((rssi_up as int % 256) as u8) | (((rssi_down as int % 256) * 2) % 256) as u8,
    ]);
    r
}

/// Response for GetRawIqDdmiCnt command
#[derive(Clone, Copy)]
pub struct RawIqDdmiCntRsp(pub [u8; 4]);

impl RawIqDdmiCntRsp {
    /// Create a new response buffer
    pub fn new() -> (r: Self)
        ensures
            r.0@ == Seq::new(4, |i: int| 0u8),
    {
        let r = RawIqDdmiCntRsp([0u8; 4]);
        assert(r.0@ =~= Seq::new(4, |i: int| 0u8));
        r
    }

    /// Return Status
    pub fn status(&mut self) -> (r: Status)
        ensures
            *final(self) == *old(self),
            r.0 == be_word(old(self).0[0], old(self).0[1]),
    {
        Status::from_array([self.0[0], self.0[1]])
    }

    /// High when wrapping occured during capture
    pub fn wrapped(&self) -> (r: bool)
        ensures
            r == ((self.0[2] as int / 128) % 2 == 1),
    {
        (self.0[2] / 128) % 2 == 1
    }

    /// Number of captured IQ bytes for ddmi
    pub fn cnt(&self) -> (r: u16)
        ensures
            r == self.0[3] as int + (self.0[2] as int % 128) * 256,
    {
        self.0[3] as u16 + (self.0[2] % 128) as u16 * 256
    }
}

/// Response for GetRawIqDdmiData command
#[derive(Clone, Copy)]
pub struct RawIqDdmiDataRsp(pub [u8; 2]);

impl RawIqDdmiDataRsp {
    /// Create a new response buffer
    pub fn new() -> (r: Self)
        ensures
            r.0@ == Seq::new(2, |i: int| 0u8),
    {
        let r = RawIqDdmiDataRsp([0u8; 2]);
        assert(r.0@ =~= Seq::new(2, |i: int| 0u8));
        r
    }

    /// Return Status
    pub fn status(&mut self) -> (r: Status)
        ensures
            *final(self) == *old(self),
            r.0 == be_word(old(self).0[0], old(self).0[1]),
    {
        Status::from_array([self.0[0], self.0[1]])
    }
}

} // verus!

