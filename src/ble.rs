//! BLE constant tone extension descriptors.
use vstd::prelude::*;

verus! {

/// Sampling period of Angle of Arrival data
#[derive(Debug, Clone, Copy, PartialEq, Eq, Structural)]
pub enum AoaSampling {
    Cte1us,
    Cte2us,
}

/// Constant Tone Extension kind from last received header
#[derive(Debug, Clone, Copy, PartialEq, Eq, Structural)]
pub enum CteKind {
    AoA,
    AoD1us,
    AoD2us,
}

/// The kind that the two low bits of a header byte stand for (3 reads as AoA).
pub open spec fn cte_kind_of(value: u8) -> CteKind {
    if value % 4 == 2 {
        CteKind::AoD2us
    } else if value % 4 == 1 {
        CteKind::AoD1us
    } else {
        CteKind::AoA
    }
}

impl From<u8> for CteKind {
    fn from(value: u8) -> (r: Self) {
        match value % 4 {
            2 => CteKind::AoD2us,
            1 => CteKind::AoD1us,
            _ => CteKind::AoA,
        }
    }
}

impl vstd::std_specs::convert::FromSpecImpl<u8> for CteKind {
    open spec fn obeys_from_spec() -> bool {
        true
    }

    open spec fn from_spec(v: u8) -> CteKind {
        cte_kind_of(v)
    }
}

/// Info on constant tone extension from last received packet
#[derive(Debug, Clone, Copy, PartialEq, Eq, Structural)]
pub struct CteInfo {
    /// Number of CTE sample stored
    pub nb_sample: u8,
    /// Kind of CTE (extracted from header)
    pub kind: CteKind,
}

} // verus!
