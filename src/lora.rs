//! LoRa settings that need no command of their own: blanking, ranging
//! frequency estimation, timing-sync pulse width, detector frequency range,
//! and the intra-packet frequency hopping table.
use vstd::prelude::*;

use crate::cmd::be32;

verus! {

/// LoRa Blanking configuration
#[derive(Debug, Clone, Copy, PartialEq, Eq, Structural)]
pub struct BlankingCfg {
    /// Threshold on SNR margin (0.5dB) to enable symbol domain blanking (0-15)
    pub snr_thr: u8,
    /// Gain (0-3) to adapt threshold based on average SNR
    pub thr_gain: u8,
    /// Symbol domain blanking coefficient (0 to 3, with 0 being hard-blanking)
    pub symb_gain: u8,
    /// Threshold on RSSI (0.5dB) for time domain blanking (0-15)
    pub rssi_thr: u8,
    /// Enable Time domain blanking during detection
    pub detect: bool,
}

impl BlankingCfg {
    /// Blanking disabled
    pub fn off() -> (r: Self)
        ensures
            r == (BlankingCfg { snr_thr: 0, thr_gain: 0, symb_gain: 0, rssi_thr: 0, detect: false }),
    {
        BlankingCfg { snr_thr: 0, thr_gain: 0, symb_gain: 0, rssi_thr: 0, detect: false }
    }

    /// Blanking enabled at symbol domain only
    pub fn symbol() -> (r: Self)
        ensures
            r == (BlankingCfg { snr_thr: 8, thr_gain: 2, symb_gain: 2, rssi_thr: 0, detect: false }),
    {
        BlankingCfg { snr_thr: 8, thr_gain: 2, symb_gain: 2, rssi_thr: 0, detect: false }
    }

    /// Blanking enabled at time-Domain & symbol domain
    pub fn td_symb() -> (r: Self)
        ensures
            r == (BlankingCfg { snr_thr: 8, thr_gain: 2, symb_gain: 2, rssi_thr: 7, detect: false }),
    {
        BlankingCfg { snr_thr: 8, thr_gain: 2, symb_gain: 2, rssi_thr: 7, detect: false }
    }

    /// Blanking fully enabled including during detection
    pub fn full() -> (r: Self)
        ensures
            r == (BlankingCfg { snr_thr: 8, thr_gain: 2, symb_gain: 2, rssi_thr: 7, detect: true }),
    {
        BlankingCfg { snr_thr: 8, thr_gain: 2, symb_gain: 2, rssi_thr: 7, detect: true }
    }
}

/// Frequency estimation during ranging exchange (valid only on responder side)
#[derive(Debug, Clone, Copy, PartialEq, Eq, Structural)]
pub struct RangingFei {
    /// Frequency estimation on first exchange
    pub fei1: i32,
    /// Frequency estimation on second exchange
    pub fei2: i32,
}

/// Define duration of the TimingSync pulse of the responder
#[derive(Debug, Clone, Copy, PartialEq, Eq, Structural)]
pub enum TimingSyncPulseWidth {
    W1,
    W5,
    W52,
    W520,
    W5200,
    W52k,
    W260k,
    W1024k,
}

/// Define Frequency range tolerated by detector
#[derive(Debug, Clone, Copy, PartialEq, Eq, Structural)]
pub enum FreqRange {
    /// +/- Bandwidth/4
    Narrow,
    /// +/- Bandwidth/3
    Medium,
    /// +/- Bandwidth/2
    Wide,
}

/// Largest number of hops that the LoRa hopping command carries.
pub const LORA_MAX_HOPS: usize = 63;

/// The parameter bytes of the LoRa hopping command: hopping enable and the
/// period (13 bits), then each hop frequency.
pub open spec fn lora_hopping_bytes(period: u16, freq_hops: Seq<u32>) -> Seq<u8> {
    seq![
        0x02u8,
        0x2Cu8,
        (if freq_hops.len() == 0 { 0int } else { 0x40 + (period as int / 256) % 32 }) as u8,
        (period as int % 256) as u8,
    ] + Seq::new(4 * freq_hops.len(), |i: int| be32(freq_hops[i / 4])[i % 4])
}

/// Build the LoRa intra-packet hopping command for the scratch buffer:
/// returns its bytes and the number of them to send (all but the last)
pub fn lora_hopping_cmd(period: u16, freq_hops: &[u32]) -> (r: (Vec<u8>, usize))
    requires
        freq_hops@.len() <= LORA_MAX_HOPS,
    ensures
        r.0@ == lora_hopping_bytes(period, freq_hops@),
        r.1 == 3 + 4 * freq_hops@.len(),
{
    let mut r: Vec<u8> = Vec::new();
    r.push(0x02);
    r.push(0x2C);
    r.push(if freq_hops.len() == 0 { 0 } else { 0x40 + ((period / 256) % 32) as u8 });
    r.push((period % 256) as u8);
    let ghost head = r@;
    let mut i: usize = 0;
    while i < freq_hops.len()
        invariant
            i <= freq_hops@.len() <= LORA_MAX_HOPS,
            head.len() == 4,
            r@.len() == 4 + 4 * i,
            r@.subrange(0, 4) == head,
            forall|j: int| 4 <= j < 4 + 4 * i ==> #[trigger] r@[j] == be32(freq_hops@[(j - 4) / 4])[(j - 4) % 4],
        decreases freq_hops@.len() - i,
    {
        let f = freq_hops[i];
        let b = crate::cmd::be32_bytes(f);
        r.push(b[0]);
        r.push(b[1]);
        r.push(b[2]);
        r.push(b[3]);
        i = i + 1;
        assert forall|j: int| 4 <= j < 4 + 4 * i implies #[trigger] r@[j] == be32(freq_hops@[(j - 4) / 4])[(j - 4) % 4] by {
            if j >= 4 * i {
                assert((j - 4) / 4 == i - 1);
                assert(b@ == be32(f));
            }
        }
    }
    let ghost expected = lora_hopping_bytes(period, freq_hops@);
    assert forall|j: int| 0 <= j < r@.len() implies r@[j] == expected[j] by {
        if j < 4 {
            assert(r@[j] == r@.subrange(0, 4)[j]);
        } else {
            assert(r@[j] == be32(freq_hops@[(j - 4) / 4])[(j - 4) % 4]);
        }
    }
    assert(r@ =~= expected);
    (r, 3 + 4 * freq_hops.len())
}

} // verus!
