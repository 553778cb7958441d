//! Byte encoders of the chip's commands and decoders of its responses.
//!
//! Each command is a fixed-size byte array: a two-byte opcode followed by
//! its parameters, multi-byte values most significant byte first. Each
//! response holds the two status bytes followed by its fields.
pub mod cmd_lrfhss;
pub mod cmd_ranging;
pub mod cmd_raw;
pub mod cmd_wisun;
pub mod cmd_wmbus;
pub mod cmd_zigbee;

use vstd::prelude::*;

verus! {

/// The four bytes of a 32-bit value, most significant first.
pub open spec fn be32(x: u32) -> Seq<u8> {
    seq![
        ((x as int / 0x1000000) % 256) as u8,
        ((x as int / 0x10000) % 256) as u8,
        ((x as int / 0x100) % 256) as u8,
        (x as int % 256) as u8,
    ]
}

/// The two bytes of a 16-bit value, most significant first.
pub open spec fn be16(x: u16) -> Seq<u8> {
    seq![((x as int / 0x100) % 256) as u8, (x as int % 256) as u8]
}

/// The four bytes of a 32-bit value, most significant first
pub fn be32_bytes(x: u32) -> (r: [u8; 4])
    ensures
        r@ == be32(x),
{
    let r: [u8; 4] = [((x / 0x1000000) % 256) as u8, ((x / 0x10000) % 256) as u8, ((x / 0x100) % 256) as u8, (x % 256) as u8];
    assert(r@ =~= be32(x));
    r
}

} // verus!
