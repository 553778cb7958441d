//! FIFO interrupt configuration.
use vstd::prelude::*;

verus! {

/// Opcode that streams bytes into the TX FIFO.
pub const WRITE_TX_FIFO_OPCODE: [u8; 2] = [0x00, 0x02];

/// Opcode that streams bytes out of the RX FIFO.
pub const READ_RX_FIFO_OPCODE: [u8; 2] = [0x00, 0x01];

/// FIFO IRQ enable flags
#[derive(Default, Clone, Copy, PartialEq, Eq, Structural)]
pub struct FifoIrqEn(pub u8);

impl FifoIrqEn {

    /// All IRQ disabled
    pub fn none() -> (r: Self)
        ensures
            r.0 == 0x00,
    {
        FifoIrqEn(0x00)
    }

    /// Enable High and low IRQ
    pub fn high_low() -> (r: Self)
        ensures
            r.0 == 0x06,
    {
        FifoIrqEn(0x06)
    }

    /// All IRQ enabled
    pub fn all() -> (r: Self)
        ensures
            r.0 == 0x3F,
    {
        FifoIrqEn(0x3F)
    }

    /// Return the byte representation of the enable
    pub fn value(&self) -> (r: u8)
        ensures
            r == self.0,
    {
        self.0
    }

    /// Enable Fifo empty IRQ
    pub fn with_empty(&self) -> (r: Self)
        ensures
            r.0 == self.0 | 0x01,
    {
        FifoIrqEn(self.0 | 0x01)
    }

    /// Enable Fifo low IRQ
    pub fn with_low(&self) -> (r: Self)
        ensures
            r.0 == self.0 | 0x02,
    {
        FifoIrqEn(self.0 | 0x02)
    }

    /// Enable Fifo high IRQ
    pub fn with_high(&self) -> (r: Self)
        ensures
            r.0 == self.0 | 0x04,
    {
        FifoIrqEn(self.0 | 0x04)
    }

    /// Enable Fifo full IRQ
    pub fn with_full(&self) -> (r: Self)
        ensures
            r.0 == self.0 | 0x08,
    {
        FifoIrqEn(self.0 | 0x08)
    }

    /// Enable Fifo overflow IRQ
    pub fn with_overflow(&self) -> (r: Self)
        ensures
            r.0 == self.0 | 0x10,
    {
        FifoIrqEn(self.0 | 0x10)
    }

    /// Enable Fifo underflow IRQ
    pub fn with_underflow(&self) -> (r: Self)
        ensures
            r.0 == self.0 | 0x20,
    {
        FifoIrqEn(self.0 | 0x20)
    }

    /// Fifo empty IRQ enabled
    pub fn has_empty(&self) -> (r: bool)
        ensures
            r == (self.0 & 0x01 != 0),
    {
        self.0 & 0x01 != 0
    }

    /// Fifo low IRQ enabled
    pub fn has_low(&self) -> (r: bool)
        ensures
            r == (self.0 & 0x02 != 0),
    {
        self.0 & 0x02 != 0
    }

    /// Fifo high IRQ enabled
    pub fn has_high(&self) -> (r: bool)
        ensures
            r == (self.0 & 0x04 != 0),
    {
        self.0 & 0x04 != 0
    }

    /// Fifo full IRQ enabled
    pub fn has_full(&self) -> (r: bool)
        ensures
            r == (self.0 & 0x08 != 0),
    {
        self.0 & 0x08 != 0
    }

    /// Fifo overflow IRQ enabled
    pub fn has_overflow(&self) -> (r: bool)
        ensures
            r == (self.0 & 0x10 != 0),
    {
        self.0 & 0x10 != 0
    }

    /// Fifo underflow IRQ enabled
    pub fn has_underflow(&self) -> (r: bool)
        ensures
            r == (self.0 & 0x20 != 0),
    {
        self.0 & 0x20 != 0
    }

}

/// FIFO IRQ configuration: enables and thresholds
#[derive(Default, Clone, Copy, PartialEq, Eq, Structural)]
pub struct FifoIrqCfg {
    pub en: FifoIrqEn,
    pub thr_low: u16,
    pub thr_high: u16,
}

impl FifoIrqCfg {
    /// Create configuration for FIFO IRQ (TX or RX)
    pub fn new(en: FifoIrqEn, thr_low: u16, thr_high: u16) -> (r: Self)
        ensures
            r == (FifoIrqCfg { en, thr_low, thr_high }),
    {
        FifoIrqCfg { en, thr_low, thr_high }
    }
}

} // verus!
