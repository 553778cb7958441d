//! Power amplifier over-current protection threshold.
use vstd::prelude::*;

verus! {

/// Over-current protection threshold of the low-frequency power amplifier
#[derive(Clone, Copy, Debug, PartialEq, Eq, Structural)]
pub enum PaLfOcpThr {
    Default,
    Low900Mhz,
}

impl PaLfOcpThr {
    /// The threshold code.
    pub open spec fn spec_value(self) -> u32 {
        match self {
            PaLfOcpThr::Default => 55,
            PaLfOcpThr::Low900Mhz => 41,
        }
    }

    /// The threshold placed in its register field (bits 24:19)
    pub fn field(self) -> (r: u32)
        ensures
            r == self.spec_value() * 0x80000,
    {
        match self {
            PaLfOcpThr::Default => 55 * 0x80000,
            PaLfOcpThr::Low900Mhz => 41 * 0x80000,
        }
    }
}

} // verus!
