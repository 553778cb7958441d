//! Device status and interrupt flags.
//!
//! The status is the 16-bit big-endian word sent back at the start of every
//! SPI transaction:
//!  - bits 11:9 command status
//!  - bit 8 interrupt pending
//!  - bits 7:4 reset source
//!  - bits 2:0 chip mode
use vstd::prelude::*;

use crate::Lr2021Error;

verus! {

/// The 16-bit word made of two bytes, most significant first.
pub open spec fn be_word(hi: u8, lo: u8) -> u16 {
    (hi as int * 256 + lo as int) as u16
}

/// Status sent at the beginning of each SPI command.
#[derive(Default, Clone, Copy, PartialEq, Eq, Structural)]
pub struct Status(pub u16);

/// Command status
#[derive(Debug, Clone, Copy, PartialEq, Eq, Structural)]
pub enum CmdStatus {
    /// Last command could not be executed
    Fail,
    /// Last command had invalid parameters or the opcode is unknown
    PErr,
    /// Last command succeeded
    Success,
    /// Last command succeeded and data is now streaming
    Data,
    /// Unknown status
    Unknown,
}

/// The command status that a 3-bit code stands for.
pub open spec fn cmd_status_of(code: u8) -> CmdStatus {
    if code == 0 {
        CmdStatus::Fail
    } else if code == 1 {
        CmdStatus::PErr
    } else if code == 2 {
        CmdStatus::Success
    } else if code == 3 {
        CmdStatus::Data
    } else {
        CmdStatus::Unknown
    }
}

/// The result that a command status maps to.
pub open spec fn check_of(c: CmdStatus) -> Result<(), Lr2021Error> {
    match c {
        CmdStatus::Unknown => Err(Lr2021Error::Unknown),
        CmdStatus::Fail => Err(Lr2021Error::CmdFail),
        CmdStatus::PErr => Err(Lr2021Error::CmdErr),
        CmdStatus::Success | CmdStatus::Data => Ok(()),
    }
}

impl From<u8> for CmdStatus {
    fn from(value: u8) -> (r: Self) {
        match value {
            0 => CmdStatus::Fail,
            1 => CmdStatus::PErr,
            2 => CmdStatus::Success,
            3 => CmdStatus::Data,
            _ => CmdStatus::Unknown,
        }
    }
}

impl vstd::std_specs::convert::FromSpecImpl<u8> for CmdStatus {
    open spec fn obeys_from_spec() -> bool {
        true
    }

    open spec fn from_spec(v: u8) -> CmdStatus {
        cmd_status_of(v)
    }
}

impl CmdStatus {
    /// Check command status and return Ok/Err
    pub fn check(&self) -> (r: Result<(), Lr2021Error>)
        ensures
            r == check_of(*self),
    {
        match self {
            CmdStatus::Unknown => Err(Lr2021Error::Unknown),
            CmdStatus::Fail => Err(Lr2021Error::CmdFail),
            CmdStatus::PErr => Err(Lr2021Error::CmdErr),
            CmdStatus::Success | CmdStatus::Data => Ok(()),
        }
    }
}

/// Reset source
#[derive(Debug, Clone, Copy, PartialEq, Eq, Structural)]
pub enum ResetSrc {
    Cleared,
    Analog,
    External,
    Watchdog,
    Iocd,
    Rtc,
    /// Unknown source
    Unknown,
}

/// The reset source that a 4-bit code stands for.
pub open spec fn reset_src_of(code: u8) -> ResetSrc {
    if code == 0 {
        ResetSrc::Cleared
    } else if code == 1 {
        ResetSrc::Analog
    } else if code == 2 {
        ResetSrc::External
    } else if code == 4 {
        ResetSrc::Watchdog
    } else if code == 5 {
        ResetSrc::Iocd
    } else if code == 6 {
        ResetSrc::Rtc
    } else {
        ResetSrc::Unknown
    }
}

/// Chip mode
#[derive(Debug, Clone, Copy, PartialEq, Eq, Structural)]
pub enum ChipModeStatus {
    Sleep,
    Rc,
    Xosc,
    Fs,
    Rx,
    Tx,
    /// Unknown mode
    Unknown,
}

/// The chip mode that a 3-bit code stands for.
pub open spec fn chip_mode_of(code: u8) -> ChipModeStatus {
    if code == 0 {
        ChipModeStatus::Sleep
    } else if code == 1 {
        ChipModeStatus::Rc
    } else if code == 2 {
        ChipModeStatus::Xosc
    } else if code == 3 {
        ChipModeStatus::Fs
    } else if code == 4 {
        ChipModeStatus::Rx
    } else if code == 5 {
        ChipModeStatus::Tx
    } else {
        ChipModeStatus::Unknown
    }
}

/// The byte at index `i` of `s`, or zero past its end.
pub open spec fn byte_or_zero(s: Seq<u8>, i: int) -> u8 {
    if 0 <= i < s.len() {
        s[i]
    } else {
        0
    }
}

impl Status {
    /// Bits 11:9 of the word, as a command status.
    pub open spec fn spec_cmd(self) -> CmdStatus {
        cmd_status_of(((self.0 / 512) % 8) as u8)
    }

    /// Bit 8 of the word.
    pub open spec fn spec_irq(self) -> bool {
        (self.0 / 256) % 2 == 1
    }

    /// Bits 7:4 of the word, as a reset source.
    pub open spec fn spec_reset_src(self) -> ResetSrc {
        reset_src_of(((self.0 / 16) % 16) as u8)
    }

    /// Bits 2:0 of the word, as a chip mode.
    pub open spec fn spec_chip_mode(self) -> ChipModeStatus {
        chip_mode_of((self.0 % 8) as u8)
    }

    /// Create a status from its two bytes, most significant first
    pub fn from_array(bytes: [u8; 2]) -> (r: Status)
        ensures
            r.0 == be_word(bytes[0], bytes[1]),
    {
        Status((bytes[0] as u16) * 256 + bytes[1] as u16)
    }

    /// Create a status from the first two bytes of a slice; missing bytes read as zero
    pub fn from_slice(bytes: &[u8]) -> (r: Status)
        ensures
            r.0 == be_word(byte_or_zero(bytes@, 0), byte_or_zero(bytes@, 1)),
    {
        let hi: u8 = if bytes.len() > 0 { bytes[0] } else { 0 };
        let lo: u8 = if bytes.len() > 1 { bytes[1] } else { 0 };
        Status((hi as u16) * 256 + lo as u16)
    }

    /// Return command status
    pub fn cmd(&self) -> (r: CmdStatus)
        ensures
            r == self.spec_cmd(),
    {
        let bits_cmd = ((self.0 / 512) % 8) as u8;
        CmdStatus::from(bits_cmd)
    }

    /// Return true when the last command succeeded
    pub fn is_ok(&self) -> (r: bool)
        ensures
            r == (self.spec_cmd() == CmdStatus::Success || self.spec_cmd() == CmdStatus::Data),
    {
        let c = self.cmd();
        c == CmdStatus::Success || c == CmdStatus::Data
    }

    /// Return true if an interrupt is pending
    pub fn irq(&self) -> (r: bool)
        ensures
            r == self.spec_irq(),
    {
        (self.0 / 256) % 2 == 1
    }

    /// Return source of last reset
    pub fn reset_src(&self) -> (r: ResetSrc)
        ensures
            r == self.spec_reset_src(),
    {
        let bits_rst = (self.0 / 16) % 16;
        match bits_rst {
            0 => ResetSrc::Cleared,
            1 => ResetSrc::Analog,
            2 => ResetSrc::External,
            4 => ResetSrc::Watchdog,
            5 => ResetSrc::Iocd,
            6 => ResetSrc::Rtc,
            _ => ResetSrc::Unknown,
        }
    }

    /// Return the chip mode
    pub fn chip_mode(&self) -> (r: ChipModeStatus)
        ensures
            r == self.spec_chip_mode(),
    {
        let bits_mode = self.0 % 8;
        match bits_mode {
            0 => ChipModeStatus::Sleep,
            1 => ChipModeStatus::Rc,
            2 => ChipModeStatus::Xosc,
            3 => ChipModeStatus::Fs,
            4 => ChipModeStatus::Rx,
            5 => ChipModeStatus::Tx,
            _ => ChipModeStatus::Unknown,
        }
    }

    /// Check command status and return Ok/Err
    pub fn check(&self) -> (r: Result<(), Lr2021Error>)
        ensures
            r == check_of(self.spec_cmd()),
    {
        self.cmd().check()
    }
}

/// The code that a command status is sent as (an unknown status as 7).
pub open spec fn cmd_code(c: CmdStatus) -> int {
    match c {
        CmdStatus::Fail => 0,
        CmdStatus::PErr => 1,
        CmdStatus::Success => 2,
        CmdStatus::Data => 3,
        CmdStatus::Unknown => 7,
    }
}

/// The code that a reset source is sent as (an unknown source as 15).
pub open spec fn reset_code(r: ResetSrc) -> int {
    match r {
        ResetSrc::Cleared => 0,
        ResetSrc::Analog => 1,
        ResetSrc::External => 2,
        ResetSrc::Watchdog => 4,
        ResetSrc::Iocd => 5,
        ResetSrc::Rtc => 6,
        ResetSrc::Unknown => 15,
    }
}

/// The code that a chip mode is sent as (an unknown mode as 7).
pub open spec fn mode_code(m: ChipModeStatus) -> int {
    match m {
        ChipModeStatus::Sleep => 0,
        ChipModeStatus::Rc => 1,
        ChipModeStatus::Xosc => 2,
        ChipModeStatus::Fs => 3,
        ChipModeStatus::Rx => 4,
        ChipModeStatus::Tx => 5,
        ChipModeStatus::Unknown => 7,
    }
}

/// The status word that carries the given fields.
pub open spec fn status_of_fields(c: CmdStatus, irq: bool, rst: ResetSrc, mode: ChipModeStatus) -> Status {
    Status((cmd_code(c) * 512 + (if irq { 256int } else { 0int }) + reset_code(rst) * 16 + mode_code(mode)) as u16)
}

proof fn lemma_word_fields(c: int, i: int, r: int, m: int)
    requires
        0 <= c < 8,
        0 <= i < 2,
        0 <= r < 16,
        0 <= m < 8,
    ensures
        ({
            let w = c * 512 + i * 256 + r * 16 + m;
            &&& 0 <= w < 65536
            &&& (w / 512) % 8 == c
            &&& (w / 256) % 2 == i
            &&& (w / 16) % 16 == r
            &&& w % 8 == m
        }),
{
    let w = c * 512 + i * 256 + r * 16 + m;
    assert(w / 512 == c) by (nonlinear_arith)
        requires w == c * 512 + i * 256 + r * 16 + m, 0 <= i < 2, 0 <= r < 16, 0 <= m < 8, 0 <= c;
    assert(w / 256 == c * 2 + i) by (nonlinear_arith)
        requires w == c * 512 + i * 256 + r * 16 + m, 0 <= i < 2, 0 <= r < 16, 0 <= m < 8, 0 <= c;
    assert(w / 16 == c * 32 + i * 16 + r) by (nonlinear_arith)
        requires w == c * 512 + i * 256 + r * 16 + m, 0 <= i < 2, 0 <= r < 16, 0 <= m < 8, 0 <= c;
    assert(w % 8 == m) by (nonlinear_arith)
        requires w == c * 512 + i * 256 + r * 16 + m, 0 <= i < 2, 0 <= r < 16, 0 <= m < 8, 0 <= c;
    assert((c * 2 + i) % 2 == i) by (nonlinear_arith)
        requires 0 <= i < 2, 0 <= c;
    assert((c * 32 + i * 16 + r) % 16 == r) by (nonlinear_arith)
        requires 0 <= i < 2, 0 <= r < 16, 0 <= c;
}

/// Decoding a status word built from a command status, an interrupt flag, a
/// reset source and a chip mode gives back those same four fields.
pub proof fn lemma_status_fields_round_trip(c: CmdStatus, irq: bool, rst: ResetSrc, mode: ChipModeStatus)
    ensures
        status_of_fields(c, irq, rst, mode).spec_cmd() == c,
        status_of_fields(c, irq, rst, mode).spec_irq() == irq,
        status_of_fields(c, irq, rst, mode).spec_reset_src() == rst,
        status_of_fields(c, irq, rst, mode).spec_chip_mode() == mode,
{
    lemma_word_fields(cmd_code(c), if irq { 1 } else { 0 }, reset_code(rst), mode_code(mode));
}

/// Two statuses decoded from the same two bytes are equal, field by field.
pub proof fn lemma_decode_status_deterministic(bytes: [u8; 2], s1: Status, s2: Status)
    requires
        s1.0 == be_word(bytes[0], bytes[1]),
        s2.0 == be_word(bytes[0], bytes[1]),
    ensures
        s1 == s2,
        s1.spec_cmd() == s2.spec_cmd(),
        s1.spec_irq() == s2.spec_irq(),
        s1.spec_reset_src() == s2.spec_reset_src(),
        s1.spec_chip_mode() == s2.spec_chip_mode(),
{
}

/// RX FIFO threshold reached
pub const IRQ_MASK_RX_FIFO: u32 = 0x00000001;

/// TX FIFO threshold reached
pub const IRQ_MASK_TX_FIFO: u32 = 0x00000002;

/// Valid ranging request received (slave)
pub const IRQ_MASK_RNG_REQ_VLD: u32 = 0x00000004;

/// IRQ for time-stamping end of packet Tx, without dependent delay of mode switching.
/// Only to be used for timestamping, not for changing mode or re-configuring the device.
pub const IRQ_MASK_TX_TIMESTAMP: u32 = 0x00000008;

/// IRQ for time-stamping end of packet Rx, without dependent delay of demodulation or mode switching.
/// Only to be used for timestamping, not for changing mode or re-configuring the device.
pub const IRQ_MASK_RX_TIMESTAMP: u32 = 0x00000010;

/// Preamble detected
pub const IRQ_MASK_PREAMBLE_DETECTED: u32 = 0x00000020;

/// LoRa header detected / Valid sync word
pub const IRQ_MASK_HEADER_VALID: u32 = 0x00000040;

/// Channel activity detected
pub const IRQ_MASK_CAD_DETECTED: u32 = 0x00000080;

/// LoRa header precise timestamp (explicit mode). In implicit mode will assert after 8 symbols of the payload.
pub const IRQ_MASK_LORA_HDR_TIMESTAMP: u32 = 0x00000100;

/// LoRa header CRC error
pub const IRQ_MASK_HEADER_ERR: u32 = 0x00000200;

/// End of life
pub const IRQ_MASK_EOL: u32 = 0x00000400;

/// PA OCP/OVP was triggered
pub const IRQ_MASK_PA: u32 = 0x00000800;

/// IRQ for LoRa intra-packet hopping
pub const IRQ_MASK_LORA_TX_RX_HOP: u32 = 0x00001000;

/// Syncword match failed after detection (for debug)
pub const IRQ_MASK_SYNC_FAIL: u32 = 0x00002000;

/// End of LoRa symbol (for debug)
pub const IRQ_MASK_LORA_SYMBOL_END: u32 = 0x00004000;

/// New statistics available in timestamp register (debug)
pub const IRQ_MASK_LORA_TIMESTAMP_STAT: u32 = 0x00008000;

/// An error other than a command error occurred (See GetErrors)
pub const IRQ_MASK_ERROR: u32 = 0x00010000;

/// There was a host command fail/error
pub const IRQ_MASK_CMD: u32 = 0x00020000;

/// Packet received
pub const IRQ_MASK_RX_DONE: u32 = 0x00040000;

/// Packet transmission completed
pub const IRQ_MASK_TX_DONE: u32 = 0x00080000;

/// Channel activity detection finished
pub const IRQ_MASK_CAD_DONE: u32 = 0x00100000;

/// Rx or Tx timeout
pub const IRQ_MASK_TIMEOUT: u32 = 0x00200000;

/// IRQ raised if the packet was received with a wrong CRC
pub const IRQ_MASK_CRC_ERROR: u32 = 0x00400000;

/// IRQ raised if the packet was received with a length error
pub const IRQ_MASK_LEN_ERROR: u32 = 0x00800000;

/// IRQ raised if the packet was received with a wrong address match
pub const IRQ_MASK_ADDR_ERROR: u32 = 0x01000000;

/// IRQ after each ramp-up for intra-packet hopping
pub const IRQ_MASK_FHSS: u32 = 0x02000000;

/// Host can load new frequencies table
pub const IRQ_MASK_INTER_PACKET1: u32 = 0x04000000;

/// Host can load new payload
pub const IRQ_MASK_INTER_PACKET2: u32 = 0x08000000;

/// Slave sent its ranging response
pub const IRQ_MASK_RNG_RESP_DONE: u32 = 0x10000000;

/// Ranging request discarded (no address match)
pub const IRQ_MASK_RNG_REQ_DIS: u32 = 0x20000000;

/// Master received a valid ranging response from the slave
pub const IRQ_MASK_RNG_EXCH_VLD: u32 = 0x40000000;

/// Master did not receive a response from the slave
pub const IRQ_MASK_RNG_TIMEOUT: u32 = 0x80000000;

/// Mask of the interrupts used for LoRa TX/RX (preamble detected, header ok/err, tx/rx done, CAD, timeout, CRC error)
pub const IRQ_MASK_LORA_TXRX: u32 = IRQ_MASK_PREAMBLE_DETECTED | IRQ_MASK_HEADER_ERR | IRQ_MASK_HEADER_VALID
    | IRQ_MASK_RX_DONE | IRQ_MASK_TX_DONE | IRQ_MASK_CAD_DETECTED | IRQ_MASK_CAD_DONE | IRQ_MASK_TIMEOUT
    | IRQ_MASK_CRC_ERROR;
/// Mask of the interrupts used for FSK TX/RX (preamble detected, tx/rx done, timeout, CRC/length error)
pub const IRQ_MASK_FSK_TXRX: u32 = IRQ_MASK_PREAMBLE_DETECTED | IRQ_MASK_RX_DONE | IRQ_MASK_TX_DONE
    | IRQ_MASK_LEN_ERROR | IRQ_MASK_TIMEOUT | IRQ_MASK_CRC_ERROR;

/// The 32-bit word made of four bytes, most significant first.
pub open spec fn be_word32(b0: u8, b1: u8, b2: u8, b3: u8) -> u32 {
    (b0 as int * 0x1000000 + b1 as int * 0x10000 + b2 as int * 0x100 + b3 as int) as u32
}

/// Interrupt flags: one bit per interrupt source (see the `IRQ_MASK_*` constants).
#[derive(Default, Clone, Copy, PartialEq, Eq, Structural)]
pub struct Intr(pub u32);

impl Intr {
    /// True when any bit of `mask` is raised.
    pub open spec fn flag(self, mask: u32) -> bool {
        self.0 & mask != 0
    }

    /// Create interrupt flags from the first four bytes of a slice, most
    /// significant first; missing bytes read as zero (a command shorter than
    /// six bytes only echoes part of the flags)
    pub fn from_slice(bytes: &[u8]) -> (r: Intr)
        ensures
            r.0 == be_word32(
                byte_or_zero(bytes@, 0),
                byte_or_zero(bytes@, 1),
                byte_or_zero(bytes@, 2),
                byte_or_zero(bytes@, 3),
            ),
    {
        let b0: u8 = if bytes.len() > 0 { bytes[0] } else { 0 };
        let b1: u8 = if bytes.len() > 1 { bytes[1] } else { 0 };
        let b2: u8 = if bytes.len() > 2 { bytes[2] } else { 0 };
        let b3: u8 = if bytes.len() > 3 { bytes[3] } else { 0 };
        Intr((b0 as u32) * 0x1000000 + (b1 as u32) * 0x10000 + (b2 as u32) * 0x100 + b3 as u32)
    }

    /// Create interrupt flags from a mask value (an OR of `IRQ_MASK_*` constants)
    pub fn new(value: u32) -> (r: Intr)
        ensures
            r.0 == value,
    {
        Intr(value)
    }

    /// Interrupts on TX/RX done and on timeout
    pub fn new_txrx() -> (r: Intr)
        ensures
            r.0 == IRQ_MASK_RX_DONE | IRQ_MASK_TX_DONE | IRQ_MASK_TIMEOUT,
    {
        Intr(IRQ_MASK_RX_DONE | IRQ_MASK_TX_DONE | IRQ_MASK_TIMEOUT)
    }

    /// Interrupts for LoRa ranging: exchange valid, response done, request
    /// discarded, timeout and ranging timeout
    pub fn new_ranging() -> (r: Intr)
        ensures
            r.0 == IRQ_MASK_RNG_EXCH_VLD | IRQ_MASK_RNG_RESP_DONE | IRQ_MASK_RNG_REQ_DIS
                | IRQ_MASK_TIMEOUT | IRQ_MASK_RNG_TIMEOUT,
    {
        Intr(IRQ_MASK_RNG_EXCH_VLD | IRQ_MASK_RNG_RESP_DONE | IRQ_MASK_RNG_REQ_DIS | IRQ_MASK_TIMEOUT
            | IRQ_MASK_RNG_TIMEOUT)
    }

    /// Return the interrupt flags as a u32
    pub fn value(&self) -> (r: u32)
        ensures
            r == self.0,
    {
        self.0
    }

    /// True when any interrupt of the mask is raised
    pub fn intr_match(&self, mask: u32) -> (r: bool)
        ensures
            r == self.flag(mask),
    {
        self.value() & mask != 0
    }

    /// True when no interrupt is raised
    pub fn none(&self) -> (r: bool)
        ensures
            r == (self.0 == 0),
    {
        self.0 == 0
    }

    /// Returns true if RX FIFO threshold reached interrupt has been raised
    pub fn rx_fifo(&self) -> (r: bool)
        ensures
            r == self.flag(IRQ_MASK_RX_FIFO),
    {
        (self.0 & IRQ_MASK_RX_FIFO) != 0
    }

    /// Returns true if TX FIFO threshold reached interrupt has been raised
    pub fn tx_fifo(&self) -> (r: bool)
        ensures
            r == self.flag(IRQ_MASK_TX_FIFO),
    {
        (self.0 & IRQ_MASK_TX_FIFO) != 0
    }

    /// Returns true if valid ranging request received (slave) interrupt has been raised
    pub fn rng_req_vld(&self) -> (r: bool)
        ensures
            r == self.flag(IRQ_MASK_RNG_REQ_VLD),
    {
        (self.0 & IRQ_MASK_RNG_REQ_VLD) != 0
    }

    /// Returns true if TX timestamp interrupt has been raised.
    /// IRq for time-stamping end of packet Tx, without dependent delay of mode switching.
    /// Only to be used for timestamping, not for changing mode or re-configuring the device.
    pub fn tx_timestamp(&self) -> (r: bool)
        ensures
            r == self.flag(IRQ_MASK_TX_TIMESTAMP),
    {
        (self.0 & IRQ_MASK_TX_TIMESTAMP) != 0
    }

    /// Returns true if RX timestamp interrupt has been raised.
    /// IRq for time-stamping end of packet Rx, without dependent delay of demodulation or mode switching.
    /// Only to be used for timestamping, not for changing mode or re-configuring the device.
    pub fn rx_timestamp(&self) -> (r: bool)
        ensures
            r == self.flag(IRQ_MASK_RX_TIMESTAMP),
    {
        (self.0 & IRQ_MASK_RX_TIMESTAMP) != 0
    }

    /// Returns true if preamble detected interrupt has been raised
    pub fn preamble_detected(&self) -> (r: bool)
        ensures
            r == self.flag(IRQ_MASK_PREAMBLE_DETECTED),
    {
        (self.0 & IRQ_MASK_PREAMBLE_DETECTED) != 0
    }

    /// Returns true if LoRa header detected / valid sync word interrupt has been raised
    pub fn header_valid(&self) -> (r: bool)
        ensures
            r == self.flag(IRQ_MASK_HEADER_VALID),
    {
        (self.0 & IRQ_MASK_HEADER_VALID) != 0
    }

    /// Returns true if channel activity detected interrupt has been raised
    pub fn cad_detected(&self) -> (r: bool)
        ensures
            r == self.flag(IRQ_MASK_CAD_DETECTED),
    {
        (self.0 & IRQ_MASK_CAD_DETECTED) != 0
    }

    /// Returns true if LoRa header precise timestamp interrupt has been raised.
    /// In explicit mode: LoRa header precise timestamp. In implicit mode will assert after 8 symbols of the payload.
    pub fn lora_hdr_timestamp(&self) -> (r: bool)
        ensures
            r == self.flag(IRQ_MASK_LORA_HDR_TIMESTAMP),
    {
        (self.0 & IRQ_MASK_LORA_HDR_TIMESTAMP) != 0
    }

    /// Returns true if LoRa header CRC error interrupt has been raised
    pub fn header_err(&self) -> (r: bool)
        ensures
            r == self.flag(IRQ_MASK_HEADER_ERR),
    {
        (self.0 & IRQ_MASK_HEADER_ERR) != 0
    }

    /// Returns true if end of life interrupt has been raised
    pub fn eol(&self) -> (r: bool)
        ensures
            r == self.flag(IRQ_MASK_EOL),
    {
        (self.0 & IRQ_MASK_EOL) != 0
    }

    /// Returns true if PA OCP/OVP was triggered interrupt has been raised
    pub fn pa(&self) -> (r: bool)
        ensures
            r == self.flag(IRQ_MASK_PA),
    {
        (self.0 & IRQ_MASK_PA) != 0
    }

    /// Returns true if LoRa intra-packet hopping interrupt has been raised
    pub fn lora_tx_rx_hop(&self) -> (r: bool)
        ensures
            r == self.flag(IRQ_MASK_LORA_TX_RX_HOP),
    {
        (self.0 & IRQ_MASK_LORA_TX_RX_HOP) != 0
    }

    /// Returns true if syncword match failed after detection interrupt has been raised (for debug)
    pub fn sync_fail(&self) -> (r: bool)
        ensures
            r == self.flag(IRQ_MASK_SYNC_FAIL),
    {
        (self.0 & IRQ_MASK_SYNC_FAIL) != 0
    }

    /// Returns true if end of LoRa symbol interrupt has been raised (for debug)
    pub fn lora_symbol_end(&self) -> (r: bool)
        ensures
            r == self.flag(IRQ_MASK_LORA_SYMBOL_END),
    {
        (self.0 & IRQ_MASK_LORA_SYMBOL_END) != 0
    }

    /// Returns true if new statistics available in timestamp register interrupt has been raised (debug)
    pub fn lora_timestamp_stat(&self) -> (r: bool)
        ensures
            r == self.flag(IRQ_MASK_LORA_TIMESTAMP_STAT),
    {
        (self.0 & IRQ_MASK_LORA_TIMESTAMP_STAT) != 0
    }

    /// Returns true if an error other than a command error occurred interrupt has been raised (See GetErrors)
    pub fn error(&self) -> (r: bool)
        ensures
            r == self.flag(IRQ_MASK_ERROR),
    {
        (self.0 & IRQ_MASK_ERROR) != 0
    }

    /// Returns true if there was a host command fail/error interrupt has been raised
    pub fn cmd(&self) -> (r: bool)
        ensures
            r == self.flag(IRQ_MASK_CMD),
    {
        (self.0 & IRQ_MASK_CMD) != 0
    }

    /// Returns true if packet received interrupt has been raised
    pub fn rx_done(&self) -> (r: bool)
        ensures
            r == self.flag(IRQ_MASK_RX_DONE),
    {
        (self.0 & IRQ_MASK_RX_DONE) != 0
    }

    /// Returns true if packet transmission completed interrupt has been raised
    pub fn tx_done(&self) -> (r: bool)
        ensures
            r == self.flag(IRQ_MASK_TX_DONE),
    {
        (self.0 & IRQ_MASK_TX_DONE) != 0
    }

    /// Returns true if channel activity detection finished interrupt has been raised
    pub fn cad_done(&self) -> (r: bool)
        ensures
            r == self.flag(IRQ_MASK_CAD_DONE),
    {
        (self.0 & IRQ_MASK_CAD_DONE) != 0
    }

    /// Returns true if Rx or Tx timeout interrupt has been raised
    pub fn timeout(&self) -> (r: bool)
        ensures
            r == self.flag(IRQ_MASK_TIMEOUT),
    {
        (self.0 & IRQ_MASK_TIMEOUT) != 0
    }

    /// Returns true if the packet was received with a wrong CRC interrupt has been raised
    pub fn crc_error(&self) -> (r: bool)
        ensures
            r == self.flag(IRQ_MASK_CRC_ERROR),
    {
        (self.0 & IRQ_MASK_CRC_ERROR) != 0
    }

    /// Returns true if the packet was received with a length error interrupt has been raised
    pub fn len_error(&self) -> (r: bool)
        ensures
            r == self.flag(IRQ_MASK_LEN_ERROR),
    {
        (self.0 & IRQ_MASK_LEN_ERROR) != 0
    }

    /// Returns true if the packet was received with a wrong address match interrupt has been raised
    pub fn addr_error(&self) -> (r: bool)
        ensures
            r == self.flag(IRQ_MASK_ADDR_ERROR),
    {
        (self.0 & IRQ_MASK_ADDR_ERROR) != 0
    }

    /// Returns true if IRQ after each ramp-up for intra-packet hopping interrupt has been raised
    pub fn fhss(&self) -> (r: bool)
        ensures
            r == self.flag(IRQ_MASK_FHSS),
    {
        (self.0 & IRQ_MASK_FHSS) != 0
    }

    /// Returns true if host can load new frequencies table interrupt has been raised
    pub fn inter_packet1(&self) -> (r: bool)
        ensures
            r == self.flag(IRQ_MASK_INTER_PACKET1),
    {
        (self.0 & IRQ_MASK_INTER_PACKET1) != 0
    }

    /// Returns true if host can load new payload interrupt has been raised
    pub fn inter_packet2(&self) -> (r: bool)
        ensures
            r == self.flag(IRQ_MASK_INTER_PACKET2),
    {
        (self.0 & IRQ_MASK_INTER_PACKET2) != 0
    }

    /// Returns true if slave sent its ranging response interrupt has been raised
    pub fn rng_resp_done(&self) -> (r: bool)
        ensures
            r == self.flag(IRQ_MASK_RNG_RESP_DONE),
    {
        (self.0 & IRQ_MASK_RNG_RESP_DONE) != 0
    }

    /// Returns true if ranging request discarded (no address match) interrupt has been raised
    pub fn rng_req_dis(&self) -> (r: bool)
        ensures
            r == self.flag(IRQ_MASK_RNG_REQ_DIS),
    {
        (self.0 & IRQ_MASK_RNG_REQ_DIS) != 0
    }

    /// Returns true if master received a valid ranging response from the slave interrupt has been raised
    pub fn rng_exch_vld(&self) -> (r: bool)
        ensures
            r == self.flag(IRQ_MASK_RNG_EXCH_VLD),
    {
        (self.0 & IRQ_MASK_RNG_EXCH_VLD) != 0
    }

    /// Returns true if master did not receive a response from the slave interrupt has been raised
    pub fn rng_timeout(&self) -> (r: bool)
        ensures
            r == self.flag(IRQ_MASK_RNG_TIMEOUT),
    {
        (self.0 & IRQ_MASK_RNG_TIMEOUT) != 0
    }
}

impl From<u32> for Intr {
    fn from(value: u32) -> (r: Self) {
        Intr::new(value)
    }
}

impl vstd::std_specs::convert::FromSpecImpl<u32> for Intr {
    open spec fn obeys_from_spec() -> bool {
        true
    }

    open spec fn from_spec(v: u32) -> Intr {
        Intr(v)
    }
}

} // verus!
