//! Register addresses used by the driver.
use vstd::prelude::*;

verus! {

/// Address for the ADC control
pub const ADDR_ADC_CTRL: u32 = 0xF40200;
/// Address for the AAF configuration
pub const ADDR_AAF_CFG: u32 = 0xF40430;
/// Address for the dcdc configuration
pub const ADDR_SIMO_CFG: u32 = 0xF20024;
/// Address for the dcdc frequency
pub const ADDR_SIMO_FREQ: u32 = 0x80004C;
/// Address for RF frequency
pub const ADDR_FREQ_RF: u32 = 0xF40144;
/// Address of the CPFSK detector configuration
pub const ADDR_CPFSK_DETECT: u32 = 0xF30C14;
/// Address of the CPFSK demodulator configuration
pub const ADDR_CPFSK_DEMOD: u32 = 0xF30C28;
/// Address of the LoRa parameters
pub const ADDR_LORA_PARAM: u32 = 0xF30A14;
/// Address of the LoRa TX configuration
pub const ADDR_LORA_TX_CFG1: u32 = 0xF30A24;

} // verus!
