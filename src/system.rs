//! System settings: chip modes, retention of registers across sleep, and
//! the SIMO regulator tuning.
use vstd::prelude::*;

use crate::constants::{ADDR_CPFSK_DEMOD, ADDR_CPFSK_DETECT, ADDR_LORA_PARAM, ADDR_LORA_TX_CFG1, ADDR_SIMO_CFG};

verus! {

/// Chip Mode: Sleep/Standby/Fs/...
#[derive(Clone, Copy, Debug, PartialEq, Eq, Structural)]
pub enum ChipMode {
    /// Set chip in sleep mode without retention: will wakeup on NSS
    DeepSleep,
    /// Set chip in sleep mode with retention: will wakeup on NSS.
    DeepRetention,
    /// Set chip in sleep mode without retention with timeout on 32k clock
    Sleep(u32),
    /// Set chip in sleep mode with retention and timeout on 32k clock
    Retention(u32),
    /// Set Chip in Standby using RC clock
    StandbyRc,
    /// Set Chip in Standby using crystal oscillator.
    StandbyXosc,
    /// Set Chip in Frequency Synthesis: allows immediate TX/RX
    Fs,
    /// Set Chip in Transmit mode
    Tx,
    /// Set Chip in Receive mode
    Rx,
}

/// SIMO frequency for low bandwidth in pll step (4.30MHz)
pub const SIMO_FREQ_LBW: u32 = 4_508_877;
/// SIMO frequency for high bandwidth in pll step (2.80MHz)
pub const SIMO_FREQ_HBW: u32 = 2_936_013;
/// SIMO Timing control for wide-band case
pub const SIMO_TIME_WIDE: u32 = 0xBD;
/// SIMO Timing control default value
pub const SIMO_TIME_DEFAULT: u32 = 0xFF;

/// Convert a frequency in PLL steps to Hz (a step is 15625/16384 Hz)
pub fn pllstep_to_hz(val_step: u32) -> (r: u32)
    ensures
        r == (val_step as int * 15625) / 16384,
{
    let val_scaled: u64 = (val_step as u64) * 15625;
    assert(val_scaled as int / 16384 <= val_step) by (nonlinear_arith)
        requires val_scaled == val_step as int * 15625, val_step >= 0;
    (val_scaled / 16384) as u32
}

/// List of additional registers to keep in retention
#[derive(Default, Clone, Copy, PartialEq, Eq, Structural)]
pub struct RetentionCfg(pub u8);

/// Retention flag of the SIMO register
pub const RET_SIMO: u8 = 1;
/// Retention flag of the LoRa SX127x SF6/Syncword compatibility register
pub const RET_LORA_SX127X_SF6_SW: u8 = 2;
/// Retention flag of the LoRa SX127x hopping compatibility register
pub const RET_LORA_SX127X_HOP: u8 = 4;
/// Retention flag of the CPFSK demodulator registers (BLE coded, Wi-SUN tracking)
pub const RET_CPFSK_DEMOD: u8 = 8;

impl RetentionCfg {
    /// True when the configuration holds `flag`.
    pub open spec fn has(self, flag: u8) -> bool {
        self.0 & flag != 0
    }

    /// Default configuration with no register
    pub fn new() -> (r: Self)
        ensures
            r.0 == 0,
    {
        RetentionCfg(0)
    }

    /// Add SIMO register to retention
    pub fn with_simo(self) -> (r: Self)
        ensures
            r.0 == self.0 | RET_SIMO,
    {
        RetentionCfg(self.0 | RET_SIMO)
    }

    /// Add LoRa SX127x SF6/Syncword compatibility mode register to retention
    pub fn with_lora_sx127x_sf6_sw(self) -> (r: Self)
        ensures
            r.0 == self.0 | RET_LORA_SX127X_SF6_SW,
    {
        RetentionCfg(self.0 | RET_LORA_SX127X_SF6_SW)
    }

    /// Add LoRa SX127x Frequency Hopping compatibility mode register to retention
    pub fn with_lora_sx127x_hopping(self) -> (r: Self)
        ensures
            r.0 == self.0 | RET_LORA_SX127X_HOP,
    {
        RetentionCfg(self.0 | RET_LORA_SX127X_HOP)
    }

    /// Add BLE Coded register to retention
    pub fn with_ble_coded(self) -> (r: Self)
        ensures
            r.0 == self.0 | RET_CPFSK_DEMOD,
    {
        RetentionCfg(self.0 | RET_CPFSK_DEMOD)
    }

    /// Add WISUN FDev tracking register to retention
    pub fn with_wisun_tracking(self) -> (r: Self)
        ensures
            r.0 == self.0 | RET_CPFSK_DEMOD,
    {
        RetentionCfg(self.0 | RET_CPFSK_DEMOD)
    }

    /// Flag when configuration enable SIMO register to retention
    pub fn has_simo(self) -> (r: bool)
        ensures
            r == self.has(RET_SIMO),
    {
        (self.0 & RET_SIMO) != 0
    }

    /// Flag when configuration enable LoRa SX127x SF6/Syncword compatibility mode register to retention
    pub fn has_lora_sx127x_sf6_sw(self) -> (r: bool)
        ensures
            r == self.has(RET_LORA_SX127X_SF6_SW),
    {
        (self.0 & RET_LORA_SX127X_SF6_SW) != 0
    }

    /// Flag when configuration enable LoRa SX127x frequency hopping compatibility mode register to retention
    pub fn has_lora_sx127x_hopping(self) -> (r: bool)
        ensures
            r == self.has(RET_LORA_SX127X_HOP),
    {
        (self.0 & RET_LORA_SX127X_HOP) != 0
    }

    /// Flag when configuration enable BLE Coded register to retention
    pub fn has_cpfsk_demod(self) -> (r: bool)
        ensures
            r == self.has(RET_CPFSK_DEMOD),
    {
        (self.0 & RET_CPFSK_DEMOD) != 0
    }
}

/// The registers that a retention configuration keeps, in slot order.
pub open spec fn retention_addrs(cfg: RetentionCfg) -> Seq<u32> {
    (if cfg.has(RET_SIMO) { seq![ADDR_SIMO_CFG] } else { Seq::empty() })
        + (if cfg.has(RET_LORA_SX127X_SF6_SW) { seq![ADDR_LORA_PARAM] } else { Seq::empty() })
        + (if cfg.has(RET_LORA_SX127X_HOP) { seq![ADDR_LORA_TX_CFG1] } else { Seq::empty() })
        + (if cfg.has(RET_CPFSK_DEMOD) { seq![ADDR_CPFSK_DEMOD, ADDR_CPFSK_DETECT] } else { Seq::empty() })
}

/// The retention slots to program for a configuration: each register
/// address with its slot, slots numbered from 0 in order
pub fn retention_slots(cfg: RetentionCfg) -> (r: Vec<(u8, u32)>)
    ensures
        r@.len() == retention_addrs(cfg).len(),
        forall|i: int| 0 <= i < r@.len() ==> #[trigger] r@[i] == (i as u8, retention_addrs(cfg)[i]),
{
    let mut addrs: Vec<u32> = Vec::new();
    if cfg.has_simo() {
        addrs.push(ADDR_SIMO_CFG);
    }
    if cfg.has_lora_sx127x_sf6_sw() {
        addrs.push(ADDR_LORA_PARAM);
    }
    if cfg.has_lora_sx127x_hopping() {
        addrs.push(ADDR_LORA_TX_CFG1);
    }
    if cfg.has_cpfsk_demod() {
        addrs.push(ADDR_CPFSK_DEMOD);
        addrs.push(ADDR_CPFSK_DETECT);
    }
    assert(addrs@ =~= retention_addrs(cfg));
    let mut r: Vec<(u8, u32)> = Vec::new();
    let mut slot: u8 = 0;
    while (slot as usize) < addrs.len()
        invariant
            addrs@ == retention_addrs(cfg),
            addrs@.len() <= 5,
            r@.len() == slot,
            slot <= addrs@.len(),
            forall|i: int| 0 <= i < r@.len() ==> #[trigger] r@[i] == (i as u8, addrs@[i]),
        decreases addrs@.len() - slot,
    {
        r.push((slot, addrs[slot as usize]));
        slot = slot + 1;
    }
    r
}

/// SIMO settings for the current front-end configuration: the timing
/// control and the frequency (PLL steps), from the ADC control and AAF
/// configuration registers
pub fn simo_settings(adc_ctrl: u32, aaf_cfg: u32) -> (r: (u32, u32))
    ensures
        r.0 == (if aaf_cfg % 4 != 1 && (adc_ctrl / 256) % 4 < 3 { SIMO_TIME_WIDE } else { SIMO_TIME_DEFAULT }),
        r.1 == (if (adc_ctrl / 256) % 4 == 1 { SIMO_FREQ_HBW } else { SIMO_FREQ_LBW }),
{
    let ana_dec = (adc_ctrl / 256) % 4;
    let is_hf = aaf_cfg % 4 == 1;
    let timing = if !is_hf && ana_dec < 3 { SIMO_TIME_WIDE } else { SIMO_TIME_DEFAULT };
    let freq = if ana_dec == 1 { SIMO_FREQ_HBW } else { SIMO_FREQ_LBW };
    (timing, freq)
}

} // verus!
