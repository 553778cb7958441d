//! LR-FHSS commands.
use vstd::prelude::*;

use crate::status::{be_word, Status};

verus! {

/// Coding rate selection
#[derive(Debug, Clone, Copy, PartialEq, Eq, Structural)]
pub enum LrfhssCr {
    Cr5p6,
    Cr2p3,
    Cr1p2,
    Cr1p3,
}

impl LrfhssCr {
    /// The code sent for this value.
    pub open spec fn spec_value(self) -> u8 {
        match self {
            LrfhssCr::Cr5p6 => 0,
            LrfhssCr::Cr2p3 => 1,
            LrfhssCr::Cr1p2 => 2,
            LrfhssCr::Cr1p3 => 3,
        }
    }

    /// The code sent for this value
    pub fn value(self) -> (r: u8)
        ensures
            r == self.spec_value(),
    {
        match self {
            LrfhssCr::Cr5p6 => 0,
            LrfhssCr::Cr2p3 => 1,
            LrfhssCr::Cr1p2 => 2,
            LrfhssCr::Cr1p3 => 3,
        }
    }
}

/// Frequency grid selection (25.39kHz or 3.91kHz)
#[derive(Debug, Clone, Copy, PartialEq, Eq, Structural)]
pub enum Grid {
    Grid25,
    Grid4,
}

impl Grid {
    /// The code sent for this value.
    pub open spec fn spec_value(self) -> u8 {
        match self {
            Grid::Grid25 => 0,
            Grid::Grid4 => 1,
        }
    }

    /// The code sent for this value
    pub fn value(self) -> (r: u8)
        ensures
            r == self.spec_value(),
    {
        match self {
            Grid::Grid25 => 0,
            Grid::Grid4 => 1,
        }
    }
}

/// Hopping mode selection
#[derive(Debug, Clone, Copy, PartialEq, Eq, Structural)]
pub enum Hopping {
    NoHopping,
    Hopping,
    TestPayloadEncoded,
    TestPaRamp,
}

impl Hopping {
    /// The code sent for this value.
    pub open spec fn spec_value(self) -> u8 {
        match self {
            Hopping::NoHopping => 0,
            Hopping::Hopping => 1,
            Hopping::TestPayloadEncoded => 2,
            Hopping::TestPaRamp => 3,
        }
    }

    /// The code sent for this value
    pub fn value(self) -> (r: u8)
        ensures
            r == self.spec_value(),
    {
        match self {
            Hopping::NoHopping => 0,
            Hopping::Hopping => 1,
            Hopping::TestPayloadEncoded => 2,
            Hopping::TestPaRamp => 3,
        }
    }
}

/// Bandwidth occupied by hopping pattern
#[derive(Debug, Clone, Copy, PartialEq, Eq, Structural)]
pub enum LrfhssBw {
    Bw39p06,
    Bw85p94,
    Bw136p72,
    Bw183p59,
    Bw335p94,
    Bw386p72,
    Bw722p66,
    Bw773p44,
    Bw1523p4,
    Bw1574p2,
}

impl LrfhssBw {
    /// The code sent for this value.
    pub open spec fn spec_value(self) -> u8 {
        match self {
            LrfhssBw::Bw39p06 => 0,
            LrfhssBw::Bw85p94 => 1,
            LrfhssBw::Bw136p72 => 2,
            LrfhssBw::Bw183p59 => 3,
            LrfhssBw::Bw335p94 => 4,
            LrfhssBw::Bw386p72 => 5,
            LrfhssBw::Bw722p66 => 6,
            LrfhssBw::Bw773p44 => 7,
            LrfhssBw::Bw1523p4 => 8,
            LrfhssBw::Bw1574p2 => 9,
        }
    }

    /// The code sent for this value
    pub fn value(self) -> (r: u8)
        ensures
            r == self.spec_value(),
    {
        match self {
            LrfhssBw::Bw39p06 => 0,
            LrfhssBw::Bw85p94 => 1,
            LrfhssBw::Bw136p72 => 2,
            LrfhssBw::Bw183p59 => 3,
            LrfhssBw::Bw335p94 => 4,
            LrfhssBw::Bw386p72 => 5,
            LrfhssBw::Bw722p66 => 6,
            LrfhssBw::Bw773p44 => 7,
            LrfhssBw::Bw1523p4 => 8,
            LrfhssBw::Bw1574p2 => 9,
        }
    }
}

/// Prepare LR-FHSS packet in the FIFO without sending it
pub fn lr_fhss_build_frame_cmd(sync_header_cnt: u8, lrfhss_cr: LrfhssCr, grid: Grid, hopping: Hopping, lrfhss_bw: LrfhssBw, sequence: u16, offset: i8) -> (r: [u8; 8])
    ensures
        r@ == seq![
            0x02u8,
            0x56u8,
            ((sync_header_cnt as int % 16) + ((lrfhss_cr.spec_value() as int % 16) * 16)) as u8,
            ((grid.spec_value() as int % 16) * 16) as u8,
            ((hopping.spec_value() as int % 16) + ((lrfhss_bw.spec_value() as int % 16) * 16)) as u8,
            ((sequence as int / 256) % 256) as u8,
            (sequence as int % 256) as u8,
            offset as u8,
        ],
{
    let r: [u8; 8] = [
        0x02,
        0x56,
        (sync_header_cnt % 16) + (lrfhss_cr.value() % 16) * 16,
        (grid.value() % 16) * 16,
        (hopping.value() % 16) + (lrfhss_bw.value() % 16) * 16,
        ((sequence / 256) % 256) as u8,
        (sequence % 256) as u8,
        offset as u8,
    ];
    assert(r@ =~= seq![
        0x02u8,
        0x56u8,
        ((sync_header_cnt as int % 16) + ((lrfhss_cr.spec_value() as int % 16) * 16)) as u8,
        ((grid.spec_value() as int % 16) * 16) as u8,
        ((hopping.spec_value() as int % 16) + ((lrfhss_bw.spec_value() as int % 16) * 16)) as u8,
        ((sequence as int / 256) % 256) as u8,
        (sequence as int % 256) as u8,
        offset as u8,
    ]);
    r
}

/// Sets the LR-FHSS syncword. Reset value is { 0x2C, 0x0F, 0x79, 0x95 }
pub fn set_lr_fhss_sync_word_cmd(syncword: u32) -> (r: [u8; 6])
    ensures
        r@ == seq![
            0x02u8,
            0x57u8,
            ((syncword as int / 16777216) % 256) as u8,
            ((syncword as int / 65536) % 256) as u8,
            ((syncword as int / 256) % 256) as u8,
            (syncword as int % 256) as u8,
        ],
{
    let r: [u8; 6] = [
        0x02,
        0x57,
        ((syncword / 16777216) % 256) as u8,
        ((syncword / 65536) % 256) as u8,
        ((syncword / 256) % 256) as u8,
        (syncword % 256) as u8,
    ];
    assert(r@ =~= seq![
        0x02u8,
        0x57u8,
        ((syncword as int / 16777216) % 256) as u8,
        ((syncword as int / 65536) % 256) as u8,
        ((syncword as int / 256) % 256) as u8,
        (syncword as int % 256) as u8,
    ]);
    r
}

/// Writes the LR-FHSS hopping table.
pub fn write_lr_fhss_hopping_table_cmd(hop_en: bool, freq_hz: bool, pkt_length: u16, nb_used_freqs: u8, nb_hopping_blocks: u8) -> (r: [u8; 7])
    ensures
        r@ == seq![
            0x02u8,
            0x59u8,
            (((if hop_en { 1int } else { 0int })) + ((if freq_hz { 128int } else { 0int }))) as u8,
            ((pkt_length as int / 256) % 256) as u8,
            (pkt_length as int % 256) as u8,
            nb_used_freqs,
            nb_hopping_blocks,
        ],
{
    let r: [u8; 7] = [
        0x02,
        0x59,
        (if hop_en { 1 } else { 0 }) + (if freq_hz { 128 } else { 0 }),
        ((pkt_length / 256) % 256) as u8,
        (pkt_length % 256) as u8,
        nb_used_freqs,
        nb_hopping_blocks,
    ];
    assert(r@ =~= seq![
        0x02u8,
        0x59u8,
        (((if hop_en { 1int } else { 0int })) + ((if freq_hz { 128int } else { 0int }))) as u8,
        ((pkt_length as int / 256) % 256) as u8,
        (pkt_length as int % 256) as u8,
        nb_used_freqs,
        nb_hopping_blocks,
    ]);
    r
}

} // verus!

