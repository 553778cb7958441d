//! Driver core for a multi-protocol radio transceiver driven over SPI.
//!
//! The library holds the verified parts of the driver: the decoding of the
//! status word and the interrupt flags, the command scratch buffer, the
//! decisions of the busy-wait strategies, the command transport as a state
//! machine, and the byte encoders and decoders of the protocol commands.
//! The hardware itself (pins, SPI bus, timers) is driven by the caller, which
//! performs the actions that the transport asks for.
use vstd::prelude::*;

pub mod status;
pub mod buffer;
pub mod transport;
pub mod busy;
pub mod cmd;
pub mod constants;
pub mod fifo;
pub mod system;
pub mod lora;
pub mod lrfhss;
pub mod wisun;
pub mod wmbus;
pub mod zigbee;
pub mod ble;
pub mod zwave;
pub mod radio;

verus! {

/// Error reported by a driver operation.
#[derive(Debug, Clone, Copy, PartialEq, Eq, Structural)]
pub enum Lr2021Error {
    /// Unable to set or get a pin level
    Pin,
    /// Unable to use the SPI bus
    Spi,
    /// Last command failed
    CmdFail,
    /// Last command had invalid parameters
    CmdErr,
    /// Timeout while waiting for the busy line to clear
    BusyTimeout,
    /// Command larger than the scratch buffer
    InvalidSize,
    /// Undecodable command status
    Unknown,
}

} // verus!
