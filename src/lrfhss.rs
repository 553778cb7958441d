//! LR-FHSS hopping table entries.
use vstd::prelude::*;

use crate::cmd::{be16, be32};

verus! {

/// One entry of the LR-FHSS hopping table
#[derive(Clone, Copy, PartialEq, Eq, Structural)]
pub struct LrfhssHop {
    /// Frequency
    pub freq: u32,
    /// Duration of the hop in number of symbol
    pub len: u16,
}

impl LrfhssHop {
    /// The six bytes that the hopping table holds for this hop: frequency then duration
    pub fn to_bytes(&self) -> (r: [u8; 6])
        ensures
            r@ == be32(self.freq) + be16(self.len),
    {
        let f = crate::cmd::be32_bytes(self.freq);
        let r: [u8; 6] = [f[0], f[1], f[2], f[3], ((self.len / 256) % 256) as u8, (self.len % 256) as u8];
        assert(r@ =~= be32(self.freq) + be16(self.len));
        r
    }
}

/// The bytes of a hopping table: six per hop, in order.
pub open spec fn hopping_table_bytes(hops: Seq<LrfhssHop>) -> Seq<u8> {
    Seq::new(6 * hops.len(), |i: int| (be32(hops[i / 6].freq) + be16(hops[i / 6].len))[i % 6])
}

/// The payload that follows the hopping table command: each hop's bytes in order
pub fn hopping_table(hops: &[LrfhssHop]) -> (r: Vec<u8>)
    requires
        6 * hops@.len() <= usize::MAX,
    ensures
        r@ == hopping_table_bytes(hops@),
{
    let mut r: Vec<u8> = Vec::new();
    let mut i: usize = 0;
    while i < hops.len()
        invariant
            i <= hops@.len(),
            6 * hops@.len() <= usize::MAX,
            r@.len() == 6 * i,
            forall|j: int| 0 <= j < 6 * i ==> #[trigger] r@[j] == (be32(hops@[j / 6].freq) + be16(hops@[j / 6].len))[j % 6],
        decreases hops@.len() - i,
    {
        let b = hops[i].to_bytes();
        let mut k: usize = 0;
        while k < 6
            invariant
                i < hops@.len(),
                k <= 6,
                r@.len() == 6 * i + k,
                b@ == be32(hops@[i as int].freq) + be16(hops@[i as int].len),
                forall|j: int| 0 <= j < 6 * i + k ==> #[trigger] r@[j] == (be32(hops@[j / 6].freq) + be16(hops@[j / 6].len))[j % 6],
            decreases 6 - k,
        {
            r.push(b[k]);
            proof {
                let j = 6 * i + k;
                assert(j / 6 == i as int);
                assert(j % 6 == k as int);
            }
            k = k + 1;
        }
        i = i + 1;
    }
    assert(r@ =~= hopping_table_bytes(hops@));
    r
}

} // verus!
