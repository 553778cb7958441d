//! The command scratch buffer: a two-byte status header followed by a data
//! region large enough for the largest fixed-size command.
use vstd::prelude::*;

use crate::status::{be_word, cmd_status_of, CmdStatus, Status};

verus! {

/// Size of the data region of the scratch buffer.
pub const BUFFER_SIZE: usize = 256;

/// Size of the status header at the front of the scratch buffer.
pub const HEADER_SIZE: usize = 2;

/// Command buffer: status header then data region.
pub struct CmdBuffer {
    bytes: Vec<u8>,
}

/// `s` with the bytes from `offset` on replaced by `src`.
pub open spec fn overwrite(s: Seq<u8>, offset: int, src: Seq<u8>) -> Seq<u8> {
    Seq::new(s.len(), |i: int| if offset <= i < offset + src.len() { src[i - offset] } else { s[i] })
}

/// The number of header bytes that a slice of `n` bytes updates.
pub open spec fn header_take(n: int) -> int {
    if n < 2 { n } else { 2 }
}

impl View for CmdBuffer {
    type V = Seq<u8>;

    closed spec fn view(&self) -> Seq<u8> {
        self.bytes@
    }
}

impl CmdBuffer {
    /// The buffer holds exactly its header and its data region.
    pub open spec fn wf(&self) -> bool {
        self@.len() == HEADER_SIZE + BUFFER_SIZE
    }

    /// The status that the header holds.
    pub open spec fn spec_status(&self) -> Status {
        Status(be_word(self@[0], self@[1]))
    }

    /// The data region.
    pub open spec fn spec_data(&self) -> Seq<u8> {
        self@.subrange(HEADER_SIZE as int, (HEADER_SIZE + BUFFER_SIZE) as int)
    }

    /// Create a zero initialized buffer
    pub fn new() -> (r: Self)
        ensures
            r.wf(),
            r@ == Seq::new((HEADER_SIZE + BUFFER_SIZE) as nat, |i: int| 0u8),
    {
        let mut bytes: Vec<u8> = Vec::new();
        while bytes.len() < HEADER_SIZE + BUFFER_SIZE
            invariant
                bytes.len() <= HEADER_SIZE + BUFFER_SIZE,
                forall|i: int| 0 <= i < bytes.len() ==> bytes@[i] == 0u8,
            decreases HEADER_SIZE + BUFFER_SIZE - bytes.len(),
        {
            bytes.push(0);
        }
        let r = CmdBuffer { bytes };
        assert(r@ =~= Seq::new((HEADER_SIZE + BUFFER_SIZE) as nat, |i: int| 0u8));
        r
    }

    /// Set the first two bytes to 0, the NOP command
    pub fn nop(&mut self)
        requires
            old(self).wf(),
        ensures
            final(self).wf(),
            final(self)@ == old(self)@.update(0, 0u8).update(1, 0u8),
    {
        self.bytes.set(0, 0);
        self.bytes.set(1, 0);
    }

    /// Return the header as a status
    pub fn status(&self) -> (r: Status)
        requires
            self.wf(),
        ensures
            r == self.spec_status(),
    {
        Status::from_array([self.bytes[0], self.bytes[1]])
    }

    /// Copy the first bytes of a slice, up to two, into the header
    pub fn updt_status(&mut self, bytes: &[u8])
        requires
            old(self).wf(),
        ensures
            final(self).wf(),
            final(self)@ == overwrite(old(self)@, 0, bytes@.take(header_take(bytes@.len() as int))),
    {
        let n: usize = if bytes.len() < HEADER_SIZE { bytes.len() } else { HEADER_SIZE };
        self.write_raw(0, bytes, n);
    }

    /// Return the command status held in the header
    pub fn cmd_status(&self) -> (r: CmdStatus)
        requires
            self.wf(),
        ensures
            r == cmd_status_of(((self@[0] / 2) % 8) as u8),
            r == self.spec_status().spec_cmd(),
    {
        let b0 = self.bytes[0];
        let b1 = self.bytes[1];
        assert(((b0 as int * 256 + b1 as int) / 512) % 8 == (b0 as int / 2) % 8) by (nonlinear_arith)
            requires 0 <= b1 < 256, 0 <= b0 < 256;
        CmdStatus::from((b0 / 2) % 8)
    }

    /// One byte of the header
    pub(crate) fn header_byte(&self, i: usize) -> (r: u8)
        requires
            self.wf(),
            i < HEADER_SIZE,
        ensures
            r == self@[i as int],
    {
        self.bytes[i]
    }

    /// A copy of the data region
    pub fn data(&self) -> (r: Vec<u8>)
        requires
            self.wf(),
        ensures
            r@ == self.spec_data(),
    {
        let mut r: Vec<u8> = Vec::new();
        let mut i: usize = HEADER_SIZE;
        while i < HEADER_SIZE + BUFFER_SIZE
            invariant
                self.wf(),
                HEADER_SIZE <= i <= HEADER_SIZE + BUFFER_SIZE,
                r@ == self@.subrange(HEADER_SIZE as int, i as int),
            decreases HEADER_SIZE + BUFFER_SIZE - i,
        {
            r.push(self.bytes[i]);
            i = i + 1;
            assert(r@ =~= self@.subrange(HEADER_SIZE as int, i as int));
        }
        r
    }

    /// Write bytes into the data region, from `offset` on
    pub fn write_data(&mut self, offset: usize, src: &[u8])
        requires
            old(self).wf(),
            offset + src@.len() <= BUFFER_SIZE,
        ensures
            final(self).wf(),
            final(self)@ == overwrite(old(self)@, HEADER_SIZE + offset, src@),
    {
        self.write_raw(HEADER_SIZE + offset, src, src.len());
        assert(src@.take(src@.len() as int) =~= src@);
    }

    /// Write the first `n` bytes of `src` at `offset`, header included
    pub(crate) fn write_raw(&mut self, offset: usize, src: &[u8], n: usize)
        requires
            old(self).wf(),
            n <= src@.len(),
            offset + n <= HEADER_SIZE + BUFFER_SIZE,
        ensures
            final(self).wf(),
            final(self)@ == overwrite(old(self)@, offset as int, src@.take(n as int)),
    {
        let ghost before = self@;
        let mut i: usize = 0;
        while i < n
            invariant
                self.wf(),
                n <= src@.len(),
                offset + n <= HEADER_SIZE + BUFFER_SIZE,
                i <= n,
                self@ == overwrite(before, offset as int, src@.take(i as int)),
            decreases n - i,
        {
            self.bytes.set(offset + i, src[i]);
            i = i + 1;
            assert(self@ =~= overwrite(before, offset as int, src@.take(i as int)));
        }
    }
}

impl Default for CmdBuffer {
    fn default() -> (r: Self)
        ensures
            r.wf(),
            r@ == Seq::new((HEADER_SIZE + BUFFER_SIZE) as nat, |i: int| 0u8),
    {
        CmdBuffer::new()
    }
}

} // verus!
