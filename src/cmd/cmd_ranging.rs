//! Ranging commands.
use vstd::prelude::*;

use crate::status::{be_word, Status};

verus! {

/// Defines how many of the 4 bytes of the address are checked against the request address sent by the initiator. Checked bytes are the LSB if check_length<4
#[derive(Debug, Clone, Copy, PartialEq, Eq, Structural)]
pub enum CheckLength {
    Addr8b,
    Addr16b,
    Addr24b,
    Addr32b,
}

impl CheckLength {
    /// The code sent for this value.
    pub open spec fn spec_value(self) -> u8 {
        match self {
            CheckLength::Addr8b => 1,
            CheckLength::Addr16b => 2,
            CheckLength::Addr24b => 3,
            CheckLength::Addr32b => 4,
        }
    }

    /// The code sent for this value
    pub fn value(self) -> (r: u8)
        ensures
            r == self.spec_value(),
    {
        match self {
            CheckLength::Addr8b => 1,
            CheckLength::Addr16b => 2,
            CheckLength::Addr24b => 3,
            CheckLength::Addr32b => 4,
        }
    }
}

/// Type of ranging result to return
#[derive(Debug, Clone, Copy, PartialEq, Eq, Structural)]
pub enum RangingResKind {
    LatestRaw,
    ExtendedRaw,
    GainSteps,
}

impl RangingResKind {
    /// The code sent for this value.
    pub open spec fn spec_value(self) -> u8 {
        match self {
            RangingResKind::LatestRaw => 0,
            RangingResKind::ExtendedRaw => 1,
            RangingResKind::GainSteps => 2,
        }
    }

    /// The code sent for this value
    pub fn value(self) -> (r: u8)
        ensures
            r == self.spec_value(),
    {
        match self {
            RangingResKind::LatestRaw => 0,
            RangingResKind::ExtendedRaw => 1,
            RangingResKind::GainSteps => 2,
        }
    }
}

/// Sets the ranging Id for this device (used by the responder)
pub fn set_ranging_addr_cmd(addr: u32, check_length: CheckLength) -> (r: [u8; 7])
    ensures
        r@ == seq![
            0x02u8,
            0x78u8,
            ((addr as int / 16777216) % 256) as u8,
            ((addr as int / 65536) % 256) as u8,
            ((addr as int / 256) % 256) as u8,
            (addr as int % 256) as u8,
            (check_length.spec_value() as int % 8) as u8,
        ],
{
    let r: [u8; 7] = [
        0x02,
        0x78,
        ((addr / 16777216) % 256) as u8,
        ((addr / 65536) % 256) as u8,
        ((addr / 256) % 256) as u8,
        (addr % 256) as u8,
        check_length.value() % 8,
    ];
    assert(r@ =~= seq![
        0x02u8,
        0x78u8,
        ((addr as int / 16777216) % 256) as u8,
        ((addr as int / 65536) % 256) as u8,
        ((addr as int / 256) % 256) as u8,
        (addr as int % 256) as u8,
        (check_length.spec_value() as int % 8) as u8,
    ]);
    r
}

/// Sets the ranging Id for the requests (used by the initiator)
pub fn set_ranging_req_addr_cmd(req_addr: u32) -> (r: [u8; 6])
    ensures
        r@ == seq![
            0x02u8,
            0x79u8,
            ((req_addr as int / 16777216) % 256) as u8,
            ((req_addr as int / 65536) % 256) as u8,
            ((req_addr as int / 256) % 256) as u8,
            (req_addr as int % 256) as u8,
        ],
{
    let r: [u8; 6] = [
        0x02,
        0x79,
        ((req_addr / 16777216) % 256) as u8,
        ((req_addr / 65536) % 256) as u8,
        ((req_addr / 256) % 256) as u8,
        (req_addr % 256) as u8,
    ];
    assert(r@ =~= seq![
        0x02u8,
        0x79u8,
        ((req_addr as int / 16777216) % 256) as u8,
        ((req_addr as int / 65536) % 256) as u8,
        ((req_addr as int / 256) % 256) as u8,
        (req_addr as int % 256) as u8,
    ]);
    r
}

/// Gets the ranging result (For Master or spy only). Based on type parameter, different results are returned. The Distance [m] = rng1*150/(2^12*LoraBW), with LoraBW in MHz. For extended mode type=1 results, rng1 and rng2 values should be averaged to get a distance estimation unaffected by Doppler effect
pub fn get_ranging_result_req(ranging_res_kind: RangingResKind) -> (r: [u8; 3])
    ensures
        r@ == seq![
            0x02u8,
            0x7Au8,
            (ranging_res_kind.spec_value() as int) as u8,
        ],
{
    let r: [u8; 3] = [
        0x02,
        0x7A,
        ranging_res_kind.value(),
    ];
    assert(r@ =~= seq![
        0x02u8,
        0x7Au8,
        (ranging_res_kind.spec_value() as int) as u8,
    ]);
    r
}

/// Sets the Tx->Rx delay for the ranging calibration
pub fn set_ranging_tx_rx_delay_cmd(delay: u32) -> (r: [u8; 6])
    ensures
        r@ == seq![
            0x02u8,
            0x7Bu8,
            ((delay as int / 16777216) % 256) as u8,
            ((delay as int / 65536) % 256) as u8,
            ((delay as int / 256) % 256) as u8,
            (delay as int % 256) as u8,
        ],
{
    let r: [u8; 6] = [
        0x02,
        0x7B,
        ((delay / 16777216) % 256) as u8,
        ((delay / 65536) % 256) as u8,
        ((delay / 256) % 256) as u8,
        (delay % 256) as u8,
    ];
    assert(r@ =~= seq![
        0x02u8,
        0x7Bu8,
        ((delay as int / 16777216) % 256) as u8,
        ((delay as int / 65536) % 256) as u8,
        ((delay as int / 256) % 256) as u8,
        (delay as int % 256) as u8,
    ]);
    r
}

/// Sets the ranging specific parameters
pub fn set_ranging_params_cmd(extended: bool, spy_mode: bool, nb_symbols: u8) -> (r: [u8; 3])
    ensures
        r@ == seq![
            0x02u8,
            0x7Cu8,
            (((if extended { 128int } else { 0int })) + ((if spy_mode { 64int } else { 0int })) + (nb_symbols as int % 64)) as u8,
        ],
{
    let r: [u8; 3] = [
        0x02,
        0x7C,
        (if extended { 128 } else { 0 }) + (if spy_mode { 64 } else { 0 }) + (nb_symbols % 64),
    ];
    assert(r@ =~= seq![
        0x02u8,
        0x7Cu8,
        (((if extended { 128int } else { 0int })) + ((if spy_mode { 64int } else { 0int })) + (nb_symbols as int % 64)) as u8,
    ]);
    r
}

/// Gets the ranging counters for ranging exchanges. Statistics are reset on a POR, sleep without memory retention and the command ResetRxStats. Note: for extended ranging mode, the counters are incremented twice, once for each request/response
pub fn get_ranging_stats_req() -> (r: [u8; 2])
    ensures
        r@ == seq![0x02u8, 0x7Du8],
{
    let r: [u8; 2] = [0x02, 0x7D];
    assert(r@ =~= seq![0x02u8, 0x7Du8]);
    r
}

/// Response for GetRangingResult command
#[derive(Clone, Copy)]
pub struct RangingResultRsp(pub [u8; 6]);

impl RangingResultRsp {
    /// Create a new response buffer
    pub fn new() -> (r: Self)
        ensures
            r.0@ == Seq::new(6, |i: int| 0u8),
    {
        let r = RangingResultRsp([0u8; 6]);
        assert(r.0@ =~= Seq::new(6, |i: int| 0u8));
        r
    }

    /// Return Status
    pub fn status(&mut self) -> (r: Status)
        ensures
            *final(self) == *old(self),
            r.0 == be_word(old(self).0[0], old(self).0[1]),
    {
        Status::from_array([self.0[0], self.0[1]])
    }

    /// Ranging measurement value. Distance in meter is given by rng*150/(2^12*Bandwidth),
    pub fn rng(&self) -> (r: i32)
        ensures
            r == self.0[4] as int + self.0[3] as int * 256 + self.0[2] as int * 65536 - (if self.0[2] >= 128 { 0x1000000int } else { 0int }),
    {
        let raw: i32 = self.0[4] as i32 + self.0[3] as i32 * 256 + self.0[2] as i32 * 65536;
        raw - if self.0[2] >= 128 { 0x1000000 } else { 0 }
    }

    /// RSSI value
    pub fn rssi(&self) -> (r: u8)
        ensures
            r == self.0[5],
    {
        self.0[5]
    }
}

/// Response for GetRangingExtResult command
#[derive(Clone, Copy)]
pub struct RangingExtResultRsp(pub [u8; 10]);

impl RangingExtResultRsp {
    /// Create a new response buffer
    pub fn new() -> (r: Self)
        ensures
            r.0@ == Seq::new(10, |i: int| 0u8),
    {
        let r = RangingExtResultRsp([0u8; 10]);
        assert(r.0@ =~= Seq::new(10, |i: int| 0u8));
        r
    }

    /// Return Status
    pub fn status(&mut self) -> (r: Status)
        ensures
            *final(self) == *old(self),
            r.0 == be_word(old(self).0[0], old(self).0[1]),
    {
        Status::from_array([self.0[0], self.0[1]])
    }

    /// First ranging measurement value
    pub fn rng1(&self) -> (r: i32)
        ensures
            r == self.0[4] as int + self.0[3] as int * 256 + self.0[2] as int * 65536 - (if self.0[2] >= 128 { 0x1000000int } else { 0int }),
    {
        let raw: i32 = self.0[4] as i32 + self.0[3] as i32 * 256 + self.0[2] as i32 * 65536;
        raw - if self.0[2] >= 128 { 0x1000000 } else { 0 }
    }

    /// RSSI value for first ranging measurement
    pub fn rssi1(&self) -> (r: u8)
        ensures
            r == self.0[5],
    {
        self.0[5]
    }

    /// Second ranging measurement value
    pub fn rng2(&self) -> (r: i32)
        ensures
            r == self.0[8] as int + self.0[7] as int * 256 + self.0[6] as int * 65536 - (if self.0[6] >= 128 { 0x1000000int } else { 0int }),
    {
        let raw: i32 = self.0[8] as i32 + self.0[7] as i32 * 256 + self.0[6] as i32 * 65536;
        raw - if self.0[6] >= 128 { 0x1000000 } else { 0 }
    }

    /// RSSI value for second ranging measurement
    pub fn rssi2(&self) -> (r: u8)
        ensures
            r == self.0[9],
    {
        self.0[9]
    }
}

/// Response for GetRangingGainStep command
#[derive(Clone, Copy)]
pub struct RangingGainStepRsp(pub [u8; 4]);

impl RangingGainStepRsp {
    /// Create a new response buffer
    pub fn new() -> (r: Self)
        ensures
            r.0@ == Seq::new(4, |i: int| 0u8),
    {
        let r = RangingGainStepRsp([0u8; 4]);
        assert(r.0@ =~= Seq::new(4, |i: int| 0u8));
        r
    }

    /// Return Status
    pub fn status(&mut self) -> (r: Status)
        ensures
            *final(self) == *old(self),
            r.0 == be_word(old(self).0[0], old(self).0[1]),
    {
        Status::from_array([self.0[0], self.0[1]])
    }

    /// Radio gain used for first measurement
    pub fn gain1(&self) -> (r: u8)
        ensures
            r == self.0[2],
    {
        self.0[2]
    }

    /// Radio gain used for second measurement (if available)
    pub fn gain2(&self) -> (r: u8)
        ensures
            r == self.0[3],
    {
        self.0[3]
    }
}

/// Response for GetRangingStats command
#[derive(Clone, Copy)]
pub struct RangingStatsRsp(pub [u8; 12]);

impl RangingStatsRsp {
    /// Create a new response buffer
    pub fn new() -> (r: Self)
        ensures
            r.0@ == Seq::new(12, |i: int| 0u8),
    {
        let r = RangingStatsRsp([0u8; 12]);
        assert(r.0@ =~= Seq::new(12, |i: int| 0u8));
        r
    }

    /// Return Status
    pub fn status(&mut self) -> (r: Status)
        ensures
            *final(self) == *old(self),
            r.0 == be_word(old(self).0[0], old(self).0[1]),
    {
        Status::from_array([self.0[0], self.0[1]])
    }

    /// Number of valid ranging exchanges
    pub fn exchange_valid(&self) -> (r: u16)
        ensures
            r == self.0[3] as int + self.0[2] as int * 256,
    {
        self.0[3] as u16 + self.0[2] as u16 * 256
    }

    /// Number of valid ranging requests
    pub fn request_valid(&self) -> (r: u16)
        ensures
            r == self.0[5] as int + self.0[4] as int * 256,
    {
        self.0[5] as u16 + self.0[4] as u16 * 256
    }

    /// Number of completed responses
    pub fn response_done(&self) -> (r: u16)
        ensures
            r == self.0[7] as int + self.0[6] as int * 256,
    {
        self.0[7] as u16 + self.0[6] as u16 * 256
    }

    /// Number of timeouts (For Initiator role: no response received from responder; For Responder role: no extended request received in extended mode)
    pub fn timeout(&self) -> (r: u16)
        ensures
            r == self.0[9] as int + self.0[8] as int * 256,
    {
        self.0[9] as u16 + self.0[8] as u16 * 256
    }

    /// Number of discarded requests
    pub fn request_discarded(&self) -> (r: u16)
        ensures
            r == self.0[11] as int + self.0[10] as int * 256,
    {
        self.0[11] as u16 + self.0[10] as u16 * 256
    }
}

} // verus!

