//! The command transport: the half-duplex exchange with the chip, as a state
//! machine.
//!
//! A transaction is started by one of the command methods of [`Transport`],
//! which returns the first [`Action`] to perform. The caller performs each
//! action on the hardware (busy line, chip select, reset line, SPI bus, timer)
//! and hands the outcome back to [`Transport::step`] as an [`Event`], with the
//! bytes read when the action was a transfer, until the action is
//! [`Action::Finish`]. Chip select is released on every path that ends in an
//! error.
use vstd::prelude::*;

use crate::buffer::{header_take, overwrite, CmdBuffer, BUFFER_SIZE, HEADER_SIZE};
use crate::status::{be_word, be_word32, check_of, Intr, Status};
use crate::Lr2021Error;

verus! {

/// Busy-wait budget before a command is sent (µs).
pub const CMD_TIMEOUT_US: u64 = 100_000;

/// Busy-wait budget before a response is read (µs).
pub const RSP_TIMEOUT_US: u64 = 1_000;

/// Time the reset line is held at each level during a reset (µs).
pub const RESET_HOLD_US: u64 = 10_000;

/// Largest number of 32-bit words that one memory read returns.
pub const MAX_READ_WORDS: u8 = 40;

/// The kind of transaction in progress.
#[derive(Debug, Clone, Copy, PartialEq, Eq, Structural)]
pub enum Op {
    /// Send a command and leave chip select asserted
    Begin,
    /// Send a command
    Write,
    /// Send a command, then read its response
    WriteRead,
    /// Send an opcode, then a payload whose echo lands in the data region
    DataWrite,
    /// Send an opcode, then a payload exchanged for the bytes read
    DataReadWrite,
    /// Send the start of the data region as a command
    BufWrite,
    /// Send the start of the data region as a command, then read its response
    BufRead,
    /// Wake the chip from sleep
    WakeUp,
    /// Pulse the reset line
    Reset,
    /// Send a memory read command, then read the words into the scratch buffer
    ReadMem,
}

/// Where a transaction stands: the action last asked for.
#[derive(Debug, Clone, Copy, PartialEq, Eq, Structural)]
pub enum Stage {
    /// No transaction was started
    Idle,
    /// Waiting for busy to clear before the command
    WaitCmd,
    /// Asserting chip select for the command
    SelectCmd,
    /// Transferring the command
    XferCmd,
    /// Transferring the payload
    XferData,
    /// Releasing chip select after the command
    DeselectCmd,
    /// Waiting for busy to clear before the response
    WaitRsp,
    /// Asserting chip select for the response
    SelectRsp,
    /// Transferring the response
    XferRsp,
    /// Releasing chip select after the response
    DeselectRsp,
    /// Releasing chip select before reporting an error
    DeselectErr(Lr2021Error),
    /// Driving the reset line low
    ResetLow,
    /// Holding the reset line low
    ResetHoldLow,
    /// Driving the reset line high
    ResetHigh,
    /// Holding the reset line high
    ResetHoldHigh,
    /// Asserting chip select to wake the chip
    WakeSelect,
    /// Waiting for busy to clear while chip select wakes the chip
    WakeWait,
    /// Releasing chip select after the wake-up
    WakeDeselect,
    /// The transaction has ended
    Finished,
}

/// What the caller has to do next.
#[derive(Debug, Clone, Copy, PartialEq, Eq)]
pub enum Action {
    /// Wait until the busy line is low, at most this many µs
    WaitReady(u64),
    /// Drive chip select: `true` releases it (high), `false` asserts it (low)
    SetNss(bool),
    /// Drive the reset line to this level (`true` is high)
    SetReset(bool),
    /// Wait this many µs
    Delay(u64),
    /// Transfer the bytes of [`Transport::outgoing`] full duplex and report the bytes read
    Transfer,
    /// The transaction has ended with this result
    Finish(Result<(), Lr2021Error>),
}

/// The outcome of the last action.
#[derive(Debug, Clone, Copy, PartialEq, Eq, Structural)]
pub enum Event {
    /// The action succeeded (busy is low, the pin was driven, the delay elapsed, the transfer completed)
    Done,
    /// The busy line did not clear in time
    Timeout,
    /// A pin could not be read or driven
    PinFailed,
    /// The SPI transfer failed
    SpiFailed,
}

/// The state of a transport, as a mathematical value.
pub struct TxState {
    pub op: Op,
    pub stage: Stage,
    /// Chip select was last asked to be asserted
    pub selected: bool,
    /// The scratch buffer: header then data region
    pub buffer: Seq<u8>,
    /// The command or opcode bytes
    pub req: Seq<u8>,
    /// The payload, or the bytes sent while reading the response
    pub payload: Seq<u8>,
    /// Number of data-region bytes sent by the buffer commands
    pub len: int,
    /// The bytes read back as the response
    pub response: Seq<u8>,
}

/// The error that a failed action reports.
pub open spec fn event_error(ev: Event) -> Lr2021Error {
    match ev {
        Event::Timeout => Lr2021Error::BusyTimeout,
        Event::PinFailed => Lr2021Error::Pin,
        Event::SpiFailed => Lr2021Error::Spi,
        Event::Done => Lr2021Error::Unknown,
    }
}

/// The result that the status held in a buffer's header maps to.
pub open spec fn header_check(buffer: Seq<u8>) -> Result<(), Lr2021Error> {
    check_of(Status(be_word(buffer[0], buffer[1])).spec_cmd())
}

/// The smaller of two integers.
pub open spec fn min(a: int, b: int) -> int {
    if a < b { a } else { b }
}

/// True for the transactions that send a command from a caller's bytes.
pub open spec fn sends_request(op: Op) -> bool {
    op == Op::Begin || op == Op::Write || op == Op::WriteRead || op == Op::DataWrite || op == Op::DataReadWrite
}

/// True for the transactions that send the start of the data region as the command.
pub open spec fn sends_buffer(op: Op) -> bool {
    op == Op::BufWrite || op == Op::BufRead
}

/// True for the transactions that read a response after the command.
pub open spec fn reads_response(op: Op) -> bool {
    op == Op::WriteRead || op == Op::BufRead || op == Op::ReadMem
}

/// True for the transactions that send a payload after the opcode.
pub open spec fn sends_payload(op: Op) -> bool {
    op == Op::DataWrite || op == Op::DataReadWrite
}

/// A transaction is under way: `step` may be called.
pub open spec fn running(s: TxState) -> bool {
    s.stage != Stage::Idle && s.stage != Stage::Finished
}

/// True when the transaction's bytes exceed the data region.
pub open spec fn oversized(op: Op, req: Seq<u8>, payload: Seq<u8>, len: int) -> bool {
    ||| req.len() > BUFFER_SIZE
    ||| op == Op::DataWrite && payload.len() > BUFFER_SIZE
    ||| sends_buffer(op) && len > BUFFER_SIZE
    ||| op == Op::ReadMem && len > 4 * MAX_READ_WORDS
}

/// The state and first action of a transaction.
pub open spec fn start(buffer: Seq<u8>, op: Op, req: Seq<u8>, payload: Seq<u8>, len: int) -> (TxState, Action) {
    let s = TxState { op, stage: Stage::Finished, selected: false, buffer, req, payload, len, response: Seq::empty() };
    if op == Op::Reset {
        (TxState { stage: Stage::ResetLow, ..s }, Action::SetReset(false))
    } else if op == Op::WakeUp {
        (TxState { stage: Stage::WakeSelect, selected: true, ..s }, Action::SetNss(false))
    } else if op == Op::ReadMem && len > 4 * MAX_READ_WORDS {
        (s, Action::Finish(Err(Lr2021Error::CmdErr)))
    } else if oversized(op, req, payload, len) {
        (s, Action::Finish(Err(Lr2021Error::InvalidSize)))
    } else {
        (TxState { stage: Stage::WaitCmd, ..s }, Action::WaitReady(CMD_TIMEOUT_US))
    }
}

/// End the transaction with an error, releasing chip select first when it was asserted.
pub open spec fn fail(s: TxState, e: Lr2021Error) -> (TxState, Action) {
    if s.selected {
        (TxState { stage: Stage::DeselectErr(e), selected: false, ..s }, Action::SetNss(true))
    } else {
        (TxState { stage: Stage::Finished, ..s }, Action::Finish(Err(e)))
    }
}

/// The buffer after the command transfer read `rx`.
pub open spec fn command_echo(s: TxState, rx: Seq<u8>) -> Seq<u8> {
    if sends_buffer(s.op) {
        let data = overwrite(s.buffer, HEADER_SIZE as int, rx.take(min(rx.len() as int, s.len)));
        overwrite(data, 0, rx.take(header_take(rx.len() as int)))
    } else {
        overwrite(s.buffer, 0, rx.take(min(rx.len() as int, s.req.len() as int)))
    }
}

/// The step after the command transfer read `rx`.
pub open spec fn after_command(s: TxState, rx: Seq<u8>) -> (TxState, Action) {
    let t = TxState { buffer: command_echo(s, rx), ..s };
    if s.op == Op::Begin {
        match header_check(t.buffer) {
            Ok(()) => (TxState { stage: Stage::Finished, ..t }, Action::Finish(Ok(()))),
            Err(e) => fail(t, e),
        }
    } else if sends_payload(s.op) {
        match header_check(t.buffer) {
            Ok(()) => (TxState { stage: Stage::XferData, ..t }, Action::Transfer),
            Err(e) => fail(t, e),
        }
    } else {
        (TxState { stage: Stage::DeselectCmd, selected: false, ..t }, Action::SetNss(true))
    }
}

/// The step after the payload transfer read `rx`.
pub open spec fn after_payload(s: TxState, rx: Seq<u8>) -> (TxState, Action) {
    let t = if s.op == Op::DataWrite {
        TxState { buffer: overwrite(s.buffer, HEADER_SIZE as int, rx.take(min(rx.len() as int, s.payload.len() as int))), ..s }
    } else {
        TxState { response: rx, ..s }
    };
    (TxState { stage: Stage::DeselectCmd, selected: false, ..t }, Action::SetNss(true))
}

/// The step once chip select was released after the command.
pub open spec fn after_command_released(s: TxState) -> (TxState, Action) {
    if sends_payload(s.op) {
        (TxState { stage: Stage::Finished, ..s }, Action::Finish(Ok(())))
    } else if reads_response(s.op) {
        match header_check(s.buffer) {
            Ok(()) => (TxState { stage: Stage::WaitRsp, ..s }, Action::WaitReady(RSP_TIMEOUT_US)),
            Err(e) => (TxState { stage: Stage::Finished, ..s }, Action::Finish(Err(e))),
        }
    } else {
        (TxState { stage: Stage::Finished, ..s }, Action::Finish(header_check(s.buffer)))
    }
}

/// The step after an action that succeeded (`rx`: the bytes read by a transfer).
pub open spec fn next_done(s: TxState, rx: Seq<u8>) -> (TxState, Action) {
    match s.stage {
        Stage::WaitCmd => (TxState { stage: Stage::SelectCmd, selected: true, ..s }, Action::SetNss(false)),
        Stage::SelectCmd => (TxState { stage: Stage::XferCmd, ..s }, Action::Transfer),
        Stage::XferCmd => after_command(s, rx),
        Stage::XferData => after_payload(s, rx),
        Stage::DeselectCmd => after_command_released(s),
        Stage::WaitRsp => (TxState { stage: Stage::SelectRsp, selected: true, ..s }, Action::SetNss(false)),
        Stage::SelectRsp => if s.op == Op::ReadMem {
            (TxState { stage: Stage::XferRsp, buffer: s.buffer.update(0, 0u8).update(1, 0u8), ..s }, Action::Transfer)
        } else {
            (TxState { stage: Stage::XferRsp, ..s }, Action::Transfer)
        },
        Stage::XferRsp => if s.op == Op::ReadMem {
            (
                TxState {
                    stage: Stage::DeselectRsp,
                    selected: false,
                    response: rx,
                    buffer: overwrite(s.buffer, 0, rx.take(min(rx.len() as int, s.len))),
                    ..s
                },
                Action::SetNss(true),
            )
        } else {
            (
            TxState {
                stage: Stage::DeselectRsp,
                selected: false,
                response: rx,
                buffer: overwrite(s.buffer, 0, rx.take(header_take(rx.len() as int))),
                ..s
            },
            Action::SetNss(true),
        )
        },
        Stage::DeselectRsp => (TxState { stage: Stage::Finished, ..s }, Action::Finish(header_check(s.buffer))),
        Stage::ResetLow => (TxState { stage: Stage::ResetHoldLow, ..s }, Action::Delay(RESET_HOLD_US)),
        Stage::ResetHoldLow => (TxState { stage: Stage::ResetHigh, ..s }, Action::SetReset(true)),
        Stage::ResetHigh => (TxState { stage: Stage::ResetHoldHigh, ..s }, Action::Delay(RESET_HOLD_US)),
        Stage::ResetHoldHigh => (TxState { stage: Stage::Finished, ..s }, Action::Finish(Ok(()))),
        Stage::WakeSelect => (TxState { stage: Stage::WakeWait, ..s }, Action::WaitReady(CMD_TIMEOUT_US)),
        Stage::WakeWait => (TxState { stage: Stage::WakeDeselect, selected: false, ..s }, Action::SetNss(true)),
        Stage::WakeDeselect => (TxState { stage: Stage::Finished, ..s }, Action::Finish(Ok(()))),
        _ => (TxState { stage: Stage::Finished, ..s }, Action::Finish(Err(Lr2021Error::Unknown))),
    }
}

/// The next state and action of a running transaction, given the outcome of the last action.
pub open spec fn next(s: TxState, ev: Event, rx: Seq<u8>) -> (TxState, Action) {
    match s.stage {
        Stage::DeselectErr(e) => (TxState { stage: Stage::Finished, ..s }, Action::Finish(Err(e))),
        _ => if ev == Event::Done {
            next_done(s, rx)
        } else {
            fail(s, event_error(ev))
        },
    }
}

/// The bytes that a transfer asked for in state `s` sends.
pub open spec fn outgoing_of(s: TxState) -> Seq<u8> {
    if s.stage == Stage::XferCmd {
        if sends_buffer(s.op) {
            s.buffer.subrange(HEADER_SIZE as int, HEADER_SIZE + s.len)
        } else {
            s.req
        }
    } else if s.stage == Stage::XferRsp && s.op == Op::ReadMem {
        s.buffer.subrange(0, s.len)
    } else if s.stage == Stage::XferData || s.stage == Stage::XferRsp {
        s.payload
    } else {
        Seq::empty()
    }
}

/// The driver state behind a device: the scratch buffer and the transaction
/// in progress.
pub struct Transport {
    buffer: CmdBuffer,
    op: Op,
    stage: Stage,
    selected: bool,
    req: Vec<u8>,
    payload: Vec<u8>,
    len: usize,
    response: Vec<u8>,
}

impl View for Transport {
    type V = TxState;

    closed spec fn view(&self) -> TxState {
        TxState {
            op: self.op,
            stage: self.stage,
            selected: self.selected,
            buffer: self.buffer@,
            req: self.req@,
            payload: self.payload@,
            len: self.len as int,
            response: self.response@,
        }
    }
}

impl Transport {
    /// The buffer has its fixed size, and a running transaction fits in it.
    pub open spec fn wf(&self) -> bool {
        &&& self@.buffer.len() == HEADER_SIZE + BUFFER_SIZE
        &&& running(self@) ==> !oversized(self@.op, self@.req, self@.payload, self@.len)
    }

    proof fn lemma_buffer_wf(&self)
        requires
            self.wf(),
        ensures
            self.buffer.wf(),
    {
    }

    /// A transport with a zeroed buffer and no transaction
    pub fn new() -> (r: Transport)
        ensures
            r.wf(),
            r@.stage == Stage::Idle,
            !r@.selected,
            r@.buffer == Seq::new((HEADER_SIZE + BUFFER_SIZE) as nat, |i: int| 0u8),
    {
        Transport {
            buffer: CmdBuffer::new(),
            op: Op::Write,
            stage: Stage::Idle,
            selected: false,
            req: Vec::new(),
            payload: Vec::new(),
            len: 0,
            response: Vec::new(),
        }
    }

    fn open_tx(&mut self, op: Op, req: &[u8], payload: &[u8], len: usize) -> (a: Action)
        requires
            old(self).wf(),
            op == Op::Reset || op == Op::WakeUp ==> req@.len() == 0 && payload@.len() == 0 && len == 0,
            !sends_buffer(op) && op != Op::ReadMem ==> len == 0,
            sends_buffer(op) ==> req@.len() == 0,
        ensures
            final(self).wf(),
            (final(self)@, a) == start(old(self)@.buffer, op, req@, payload@, len as int),
    {
        self.op = op;
        self.selected = false;
        self.req = vstd::slice::slice_to_vec(req);
        self.payload = vstd::slice::slice_to_vec(payload);
        self.len = len;
        self.response = Vec::new();
        self.stage = Stage::Finished;
        match op {
            Op::Reset => {
                self.stage = Stage::ResetLow;
                Action::SetReset(false)
            },
            Op::WakeUp => {
                self.stage = Stage::WakeSelect;
                self.selected = true;
                Action::SetNss(false)
            },
            Op::ReadMem => {
                if len > 4 * (MAX_READ_WORDS as usize) {
                    Action::Finish(Err(Lr2021Error::CmdErr))
                } else if req.len() > BUFFER_SIZE {
                    Action::Finish(Err(Lr2021Error::InvalidSize))
                } else {
                    self.stage = Stage::WaitCmd;
                    Action::WaitReady(CMD_TIMEOUT_US)
                }
            },
            Op::BufWrite | Op::BufRead => {
                if len > BUFFER_SIZE {
                    Action::Finish(Err(Lr2021Error::InvalidSize))
                } else {
                    self.stage = Stage::WaitCmd;
                    Action::WaitReady(CMD_TIMEOUT_US)
                }
            },
            _ => {
                if req.len() > BUFFER_SIZE || (op == Op::DataWrite && payload.len() > BUFFER_SIZE) {
                    Action::Finish(Err(Lr2021Error::InvalidSize))
                } else {
                    self.stage = Stage::WaitCmd;
                    Action::WaitReady(CMD_TIMEOUT_US)
                }
            },
        }
    }

    /// Start sending a command and leave chip select asserted on success, so
    /// that the caller can stream more bytes
    pub fn cmd_wr_begin(&mut self, req: &[u8]) -> (a: Action)
        requires
            old(self).wf(),
        ensures
            final(self).wf(),
            (final(self)@, a) == start(old(self)@.buffer, Op::Begin, req@, Seq::empty(), 0),
    {
        let none: Vec<u8> = Vec::new();
        self.open_tx(Op::Begin, req, none.as_slice(), 0)
    }

    /// Start sending a command
    pub fn cmd_wr(&mut self, req: &[u8]) -> (a: Action)
        requires
            old(self).wf(),
        ensures
            final(self).wf(),
            (final(self)@, a) == start(old(self)@.buffer, Op::Write, req@, Seq::empty(), 0),
    {
        let none: Vec<u8> = Vec::new();
        self.open_tx(Op::Write, req, none.as_slice(), 0)
    }

    /// Start sending a command and reading its response; `rsp` holds the
    /// bytes sent while the response is read, as many as the response has
    pub fn cmd_rd(&mut self, req: &[u8], rsp: &[u8]) -> (a: Action)
        requires
            old(self).wf(),
        ensures
            final(self).wf(),
            (final(self)@, a) == start(old(self)@.buffer, Op::WriteRead, req@, rsp@, 0),
    {
        self.open_tx(Op::WriteRead, req, rsp, 0)
    }

    /// Start sending an opcode followed by a variable-length payload, whose
    /// echo is kept in the data region
    pub fn cmd_data_wr(&mut self, opcode: &[u8], data: &[u8]) -> (a: Action)
        requires
            old(self).wf(),
        ensures
            final(self).wf(),
            (final(self)@, a) == start(old(self)@.buffer, Op::DataWrite, opcode@, data@, 0),
    {
        self.open_tx(Op::DataWrite, opcode, data, 0)
    }

    /// Start sending an opcode followed by a variable-length payload, whose
    /// exchange is kept as the response
    pub fn cmd_data_rw(&mut self, opcode: &[u8], data: &[u8]) -> (a: Action)
        requires
            old(self).wf(),
        ensures
            final(self).wf(),
            (final(self)@, a) == start(old(self)@.buffer, Op::DataReadWrite, opcode@, data@, 0),
    {
        self.open_tx(Op::DataReadWrite, opcode, data, 0)
    }

    /// Start sending the first `len` bytes of the data region as a command
    pub fn cmd_buf_wr(&mut self, len: usize) -> (a: Action)
        requires
            old(self).wf(),
        ensures
            final(self).wf(),
            (final(self)@, a) == start(old(self)@.buffer, Op::BufWrite, Seq::empty(), Seq::empty(), len as int),
    {
        let none: Vec<u8> = Vec::new();
        self.open_tx(Op::BufWrite, none.as_slice(), none.as_slice(), len)
    }

    /// Start sending the first `len` bytes of the data region as a command,
    /// then reading a response of `rsp.len()` bytes
    pub fn cmd_buf_rd(&mut self, len: usize, rsp: &[u8]) -> (a: Action)
        requires
            old(self).wf(),
        ensures
            final(self).wf(),
            (final(self)@, a) == start(old(self)@.buffer, Op::BufRead, Seq::empty(), rsp@, len as int),
    {
        let none: Vec<u8> = Vec::new();
        self.open_tx(Op::BufRead, none.as_slice(), rsp, len)
    }

    /// Start reading `nb32` 32-bit words of memory: send the read command
    /// `req`, then read the words into the scratch buffer, status first
    /// (at most `MAX_READ_WORDS` words)
    pub fn rd_mem(&mut self, req: &[u8], nb32: u8) -> (a: Action)
        requires
            old(self).wf(),
        ensures
            final(self).wf(),
            (final(self)@, a) == start(old(self)@.buffer, Op::ReadMem, req@, Seq::empty(), 4 * nb32),
    {
        let none: Vec<u8> = Vec::new();
        self.open_tx(Op::ReadMem, req, none.as_slice(), 4 * (nb32 as usize))
    }

    /// Start waking the chip: assert chip select until busy clears
    pub fn wake_up(&mut self) -> (a: Action)
        requires
            old(self).wf(),
        ensures
            final(self).wf(),
            (final(self)@, a) == start(old(self)@.buffer, Op::WakeUp, Seq::empty(), Seq::empty(), 0),
    {
        let none: Vec<u8> = Vec::new();
        self.open_tx(Op::WakeUp, none.as_slice(), none.as_slice(), 0)
    }

    /// Start a reset: reset line low, hold, high, hold
    pub fn reset(&mut self) -> (a: Action)
        requires
            old(self).wf(),
        ensures
            final(self).wf(),
            (final(self)@, a) == start(old(self)@.buffer, Op::Reset, Seq::empty(), Seq::empty(), 0),
    {
        let none: Vec<u8> = Vec::new();
        self.open_tx(Op::Reset, none.as_slice(), none.as_slice(), 0)
    }

    fn fail(&mut self, e: Lr2021Error) -> (a: Action)
        requires
            old(self).wf(),
            running(old(self)@),
        ensures
            final(self).wf(),
            (final(self)@, a) == fail(old(self)@, e),
    {
        if self.selected {
            self.stage = Stage::DeselectErr(e);
            self.selected = false;
            Action::SetNss(true)
        } else {
            self.stage = Stage::Finished;
            Action::Finish(Err(e))
        }
    }

    fn header_check(&self) -> (r: Result<(), Lr2021Error>)
        requires
            self.wf(),
        ensures
            r == header_check(self@.buffer),
    {
        proof {
            self.lemma_buffer_wf();
        }
        self.buffer.status().check()
    }

    fn command_done(&mut self, rx: &[u8]) -> (a: Action)
        requires
            old(self).wf(),
            old(self)@.stage == Stage::XferCmd,
        ensures
            final(self).wf(),
            (final(self)@, a) == after_command(old(self)@, rx@),
    {
        proof {
            self.lemma_buffer_wf();
        }
        if self.op == Op::BufWrite || self.op == Op::BufRead {
            let n: usize = if rx.len() < self.len { rx.len() } else { self.len };
            self.buffer.write_raw(HEADER_SIZE, rx, n);
            self.buffer.updt_status(rx);
        } else {
            let n: usize = if rx.len() < self.req.len() { rx.len() } else { self.req.len() };
            self.buffer.write_raw(0, rx, n);
        }
        if self.op == Op::Begin {
            match self.header_check() {
                Ok(()) => {
                    self.stage = Stage::Finished;
                    Action::Finish(Ok(()))
                },
                Err(e) => self.fail(e),
            }
        } else if self.op == Op::DataWrite || self.op == Op::DataReadWrite {
            match self.header_check() {
                Ok(()) => {
                    self.stage = Stage::XferData;
                    Action::Transfer
                },
                Err(e) => self.fail(e),
            }
        } else {
            self.stage = Stage::DeselectCmd;
            self.selected = false;
            Action::SetNss(true)
        }
    }

    fn payload_done(&mut self, rx: &[u8]) -> (a: Action)
        requires
            old(self).wf(),
            old(self)@.stage == Stage::XferData,
        ensures
            final(self).wf(),
            (final(self)@, a) == after_payload(old(self)@, rx@),
    {
        proof {
            self.lemma_buffer_wf();
        }
        if self.op == Op::DataWrite {
            let n: usize = if rx.len() < self.payload.len() { rx.len() } else { self.payload.len() };
            self.buffer.write_raw(HEADER_SIZE, rx, n);
        } else {
            self.response = vstd::slice::slice_to_vec(rx);
        }
        self.stage = Stage::DeselectCmd;
        self.selected = false;
        Action::SetNss(true)
    }

    fn released_done(&mut self) -> (a: Action)
        requires
            old(self).wf(),
            old(self)@.stage == Stage::DeselectCmd,
        ensures
            final(self).wf(),
            (final(self)@, a) == after_command_released(old(self)@),
    {
        if self.op == Op::DataWrite || self.op == Op::DataReadWrite {
            self.stage = Stage::Finished;
            Action::Finish(Ok(()))
        } else if self.op == Op::WriteRead || self.op == Op::BufRead || self.op == Op::ReadMem {
            match self.header_check() {
                Ok(()) => {
                    self.stage = Stage::WaitRsp;
                    Action::WaitReady(RSP_TIMEOUT_US)
                },
                Err(e) => {
                    self.stage = Stage::Finished;
                    Action::Finish(Err(e))
                },
            }
        } else {
            let r = self.header_check();
            self.stage = Stage::Finished;
            Action::Finish(r)
        }
    }

    fn step_done(&mut self, rx: &[u8]) -> (a: Action)
        requires
            old(self).wf(),
            running(old(self)@),
        ensures
            final(self).wf(),
            (final(self)@, a) == next_done(old(self)@, rx@),
    {
        proof {
            self.lemma_buffer_wf();
        }
        match self.stage {
            Stage::WaitCmd => {
                self.stage = Stage::SelectCmd;
                self.selected = true;
                Action::SetNss(false)
            },
            Stage::SelectCmd => {
                self.stage = Stage::XferCmd;
                Action::Transfer
            },
            Stage::XferCmd => self.command_done(rx),
            Stage::XferData => self.payload_done(rx),
            Stage::DeselectCmd => self.released_done(),
            Stage::WaitRsp => {
                self.stage = Stage::SelectRsp;
                self.selected = true;
                Action::SetNss(false)
            },
            Stage::SelectRsp => {
                if self.op == Op::ReadMem {
                    self.buffer.nop();
                }
                self.stage = Stage::XferRsp;
                Action::Transfer
            },
            Stage::XferRsp if self.op == Op::ReadMem => {
                let n: usize = if rx.len() < self.len { rx.len() } else { self.len };
                self.buffer.write_raw(0, rx, n);
                self.response = vstd::slice::slice_to_vec(rx);
                self.stage = Stage::DeselectRsp;
                self.selected = false;
                Action::SetNss(true)
            },
            Stage::XferRsp => {
                self.response = vstd::slice::slice_to_vec(rx);
                self.buffer.updt_status(rx);
                self.stage = Stage::DeselectRsp;
                self.selected = false;
                Action::SetNss(true)
            },
            Stage::DeselectRsp => {
                let r = self.header_check();
                self.stage = Stage::Finished;
                Action::Finish(r)
            },
            Stage::ResetLow => {
                self.stage = Stage::ResetHoldLow;
                Action::Delay(RESET_HOLD_US)
            },
            Stage::ResetHoldLow => {
                self.stage = Stage::ResetHigh;
                Action::SetReset(true)
            },
            Stage::ResetHigh => {
                self.stage = Stage::ResetHoldHigh;
                Action::Delay(RESET_HOLD_US)
            },
            Stage::ResetHoldHigh => {
                self.stage = Stage::Finished;
                Action::Finish(Ok(()))
            },
            Stage::WakeSelect => {
                self.stage = Stage::WakeWait;
                Action::WaitReady(CMD_TIMEOUT_US)
            },
            Stage::WakeWait => {
                self.stage = Stage::WakeDeselect;
                self.selected = false;
                Action::SetNss(true)
            },
            Stage::WakeDeselect => {
                self.stage = Stage::Finished;
                Action::Finish(Ok(()))
            },
            _ => {
                self.stage = Stage::Finished;
                Action::Finish(Err(Lr2021Error::Unknown))
            },
        }
    }

    /// Advance the running transaction with the outcome of the last action
    /// (`rx`: the bytes read, when that action was a transfer)
    pub fn step(&mut self, ev: Event, rx: &[u8]) -> (a: Action)
        requires
            old(self).wf(),
            running(old(self)@),
        ensures
            final(self).wf(),
            (final(self)@, a) == next(old(self)@, ev, rx@),
    {
        if let Stage::DeselectErr(e) = self.stage {
            self.stage = Stage::Finished;
            return Action::Finish(Err(e));
        }
        match ev {
            Event::Done => self.step_done(rx),
            Event::Timeout => self.fail(Lr2021Error::BusyTimeout),
            Event::PinFailed => self.fail(Lr2021Error::Pin),
            Event::SpiFailed => self.fail(Lr2021Error::Spi),
        }
    }

    /// True while a transaction is under way
    pub fn is_running(&self) -> (r: bool)
        ensures
            r == running(self@),
    {
        self.stage != Stage::Idle && self.stage != Stage::Finished
    }

    /// The bytes to send for the transfer just asked for
    pub fn outgoing(&self) -> (r: Vec<u8>)
        requires
            self.wf(),
        ensures
            r@ == outgoing_of(self@),
    {
        proof {
            self.lemma_buffer_wf();
        }
        if self.stage == Stage::XferCmd {
            if self.op == Op::BufWrite || self.op == Op::BufRead {
                let data = self.buffer.data();
                let mut r: Vec<u8> = Vec::new();
                let mut i: usize = 0;
                while i < self.len
                    invariant
                        self.wf(),
                        running(self@),
                        self.op == Op::BufWrite || self.op == Op::BufRead,
                        i <= self.len,
                        data@ == self.buffer.spec_data(),
                        r@ == self@.buffer.subrange(HEADER_SIZE as int, HEADER_SIZE + i),
                    decreases self.len - i,
                {
                    r.push(data[i]);
                    i = i + 1;
                    assert(r@ =~= self@.buffer.subrange(HEADER_SIZE as int, HEADER_SIZE + i));
                }
                r
            } else {
                self.req.clone()
            }
        } else if self.stage == Stage::XferRsp && self.op == Op::ReadMem {
            let data = self.buffer.data();
            let mut r: Vec<u8> = Vec::new();
            let mut i: usize = 0;
            while i < self.len
                invariant
                    self.wf(),
                    running(self@),
                    self.op == Op::ReadMem,
                    i <= self.len,
                    data@ == self.buffer.spec_data(),
                    r@ == self@.buffer.subrange(0, i as int),
                decreases self.len - i,
            {
                r.push(if i < HEADER_SIZE { self.buffer.header_byte(i) } else { data[i - HEADER_SIZE] });
                i = i + 1;
                assert(r@ =~= self@.buffer.subrange(0, i as int));
            }
            r
        } else if self.stage == Stage::XferData || self.stage == Stage::XferRsp {
            self.payload.clone()
        } else {
            Vec::new()
        }
    }

    /// The bytes read back by the last response or payload exchange
    pub fn response(&self) -> (r: Vec<u8>)
        ensures
            r@ == self@.response,
    {
        self.response.clone()
    }
}

impl Transport {
    /// Last status (command status, chip mode, interrupt pending, ...)
    pub fn status(&self) -> (r: Status)
        requires
            self.wf(),
        ensures
            r == Status(be_word(self@.buffer[0], self@.buffer[1])),
    {
        proof {
            self.lemma_buffer_wf();
        }
        self.buffer.status()
    }

    /// A copy of the data region of the scratch buffer
    pub fn buffer(&self) -> (r: Vec<u8>)
        requires
            self.wf(),
        ensures
            r@ == self@.buffer.subrange(HEADER_SIZE as int, (HEADER_SIZE + BUFFER_SIZE) as int),
    {
        proof {
            self.lemma_buffer_wf();
        }
        self.buffer.data()
    }

    /// Write bytes into the data region of the scratch buffer, from `offset`
    /// on, to build a command sent by `cmd_buf_wr` or `cmd_buf_rd`
    pub fn write_buffer(&mut self, offset: usize, src: &[u8])
        requires
            old(self).wf(),
            !running(old(self)@),
            offset + src@.len() <= BUFFER_SIZE,
        ensures
            final(self).wf(),
            final(self)@ == (TxState {
                buffer: overwrite(old(self)@.buffer, HEADER_SIZE + offset, src@),
                ..old(self)@
            }),
    {
        proof {
            self.lemma_buffer_wf();
        }
        self.buffer.write_data(offset, src);
    }

    /// Last captured interrupt flags: data bytes 2 to 5 of the buffer (partial
    /// when the last command was shorter than six bytes)
    pub fn last_intr(&self) -> (r: Intr)
        requires
            self.wf(),
        ensures
            r.0 == be_word32(self@.buffer[4], self@.buffer[5], self@.buffer[6], self@.buffer[7]),
    {
        proof {
            self.lemma_buffer_wf();
        }
        let data = self.buffer.data();
        let bytes: [u8; 4] = [data[2], data[3], data[4], data[5]];
        let r = Intr::from_slice(vstd::array::array_as_slice(&bytes));
        r
    }
}

/// Chip select is asserted exactly in the stages that need it.
pub open spec fn select_consistent(s: TxState) -> bool {
    match s.stage {
        Stage::SelectCmd | Stage::XferCmd | Stage::XferData | Stage::SelectRsp | Stage::XferRsp
        | Stage::WakeSelect | Stage::WakeWait => s.selected,
        Stage::Finished => true,
        _ => !s.selected,
    }
}

/// A command or opcode longer than the data region is refused with
/// `InvalidSize` before any pin or bus activity: the first action already
/// ends the transaction.
pub proof fn lemma_oversized_command_rejected(buffer: Seq<u8>, op: Op, req: Seq<u8>, payload: Seq<u8>)
    requires
        sends_request(op),
        req.len() > BUFFER_SIZE,
    ensures
        start(buffer, op, req, payload, 0).1 == Action::Finish(Err(Lr2021Error::InvalidSize)),
        !running(start(buffer, op, req, payload, 0).0),
        !start(buffer, op, req, payload, 0).0.selected,
{
}

/// A busy-wait that times out never leads to a transfer: the transaction
/// ends with `BusyTimeout`, at once or right after chip select is released.
pub proof fn lemma_busy_timeout_ends(s: TxState, rx: Seq<u8>, ev2: Event, rx2: Seq<u8>)
    requires
        s.stage == Stage::WaitCmd || s.stage == Stage::WaitRsp || s.stage == Stage::WakeWait,
        select_consistent(s),
    ensures
        ({
            let (t, a) = next(s, Event::Timeout, rx);
            ||| a == Action::Finish(Err(Lr2021Error::BusyTimeout))
            ||| a == Action::SetNss(true) && next(t, ev2, rx2).1 == Action::Finish(Err(Lr2021Error::BusyTimeout))
        }),
{
}

/// Every transaction starts with chip select in line with its stage.
pub proof fn lemma_start_select_consistent(buffer: Seq<u8>, op: Op, req: Seq<u8>, payload: Seq<u8>, len: int)
    ensures
        select_consistent(start(buffer, op, req, payload, len).0),
{
}

/// Each step keeps chip select in line with the stage, and a transaction
/// that ends in an error has released chip select; only a successful
/// `Begin` ends with it asserted.
pub proof fn lemma_step_releases_select(s: TxState, ev: Event, rx: Seq<u8>)
    requires
        running(s),
        select_consistent(s),
    ensures
        select_consistent(next(s, ev, rx).0),
        next(s, ev, rx).1 is Finish && next(s, ev, rx).1->0 is Err ==> !next(s, ev, rx).0.selected,
        next(s, ev, rx).1 is Finish && s.op != Op::Begin ==> !next(s, ev, rx).0.selected,
{
}

proof fn lemma_status_byte(b0: u8, b1: u8)
    ensures
        Status(be_word(b0, b1)).spec_cmd() == crate::status::cmd_status_of(((b0 / 2) % 8) as u8),
{
    assert(((b0 as int * 256 + b1 as int) / 512) % 8 == (b0 as int / 2) % 8) by (nonlinear_arith)
        requires 0 <= b1 < 256, 0 <= b0 < 256;
}

/// A command whose status comes back as "failed" ends with `CmdFail`, after
/// exactly one assertion and one release of chip select.
pub proof fn lemma_failed_write_releases_once(buffer: Seq<u8>, req: Seq<u8>, rx: Seq<u8>, rx_last: Seq<u8>)
    requires
        buffer.len() == HEADER_SIZE + BUFFER_SIZE,
        2 <= req.len() <= BUFFER_SIZE,
        rx.len() == req.len(),
        (rx[0] / 2) % 8 == 0,
    ensures
        ({
            let (s0, a0) = start(buffer, Op::Write, req, Seq::empty(), 0);
            let (s1, a1) = next(s0, Event::Done, Seq::empty());
            let (s2, a2) = next(s1, Event::Done, Seq::empty());
            let (s3, a3) = next(s2, Event::Done, rx);
            let (s4, a4) = next(s3, Event::Done, rx_last);
            &&& a0 == Action::WaitReady(CMD_TIMEOUT_US)
            &&& a1 == Action::SetNss(false)
            &&& a2 == Action::Transfer && outgoing_of(s2) == req
            &&& a3 == Action::SetNss(true)
            &&& a4 == Action::Finish(Err(Lr2021Error::CmdFail))
            &&& !running(s4) && !s4.selected
        }),
{
    let (s0, a0) = start(buffer, Op::Write, req, Seq::empty(), 0);
    let (s1, a1) = next(s0, Event::Done, Seq::empty());
    let (s2, a2) = next(s1, Event::Done, Seq::empty());
    let (s3, a3) = next(s2, Event::Done, rx);
    assert(s3.buffer[0] == rx[0] && s3.buffer[1] == rx[1]);
    lemma_status_byte(s3.buffer[0], s3.buffer[1]);
}

/// A command and response that the chip accepts end with `Ok`: the response
/// is the bytes read, and the status header holds its first two bytes.
pub proof fn lemma_write_then_read_ok(buffer: Seq<u8>, req: Seq<u8>, rsp: Seq<u8>, echo: Seq<u8>, rx: Seq<u8>, ev_last: Event)
    requires
        buffer.len() == HEADER_SIZE + BUFFER_SIZE,
        2 <= req.len() <= BUFFER_SIZE,
        echo.len() == req.len(),
        (echo[0] / 2) % 8 == 2 || (echo[0] / 2) % 8 == 3,
        rx.len() >= 2,
        (rx[0] / 2) % 8 == 2 || (rx[0] / 2) % 8 == 3,
    ensures
        ({
            let (s0, a0) = start(buffer, Op::WriteRead, req, rsp, 0);
            let (s1, a1) = next(s0, Event::Done, Seq::empty());
            let (s2, a2) = next(s1, Event::Done, Seq::empty());
            let (s3, a3) = next(s2, Event::Done, echo);
            let (s4, a4) = next(s3, Event::Done, Seq::empty());
            let (s5, a5) = next(s4, Event::Done, Seq::empty());
            let (s6, a6) = next(s5, Event::Done, Seq::empty());
            let (s7, a7) = next(s6, Event::Done, rx);
            let (s8, a8) = next(s7, Event::Done, Seq::empty());
            &&& a2 == Action::Transfer && outgoing_of(s2) == req
            &&& a4 == Action::WaitReady(RSP_TIMEOUT_US)
            &&& a6 == Action::Transfer && outgoing_of(s6) == rsp
            &&& a7 == Action::SetNss(true)
            &&& a8 == Action::Finish(Ok(()))
            &&& s8.response == rx
            &&& s8.buffer[0] == rx[0] && s8.buffer[1] == rx[1]
        }),
{
    let (s0, a0) = start(buffer, Op::WriteRead, req, rsp, 0);
    let (s1, a1) = next(s0, Event::Done, Seq::empty());
    let (s2, a2) = next(s1, Event::Done, Seq::empty());
    let (s3, a3) = next(s2, Event::Done, echo);
    assert(s3.buffer[0] == echo[0] && s3.buffer[1] == echo[1]);
    lemma_status_byte(s3.buffer[0], s3.buffer[1]);
    let (s4, a4) = next(s3, Event::Done, Seq::empty());
    let (s5, a5) = next(s4, Event::Done, Seq::empty());
    let (s6, a6) = next(s5, Event::Done, Seq::empty());
    let (s7, a7) = next(s6, Event::Done, rx);
    assert(s7.buffer[0] == rx[0] && s7.buffer[1] == rx[1]);
    lemma_status_byte(s7.buffer[0], s7.buffer[1]);
}

/// A reset drives the reset line low then high, each followed by the same
/// hold time, with no chip select or bus action.
pub proof fn lemma_reset_sequence(buffer: Seq<u8>)
    ensures
        ({
            let (s0, a0) = start(buffer, Op::Reset, Seq::empty(), Seq::empty(), 0);
            let (s1, a1) = next(s0, Event::Done, Seq::empty());
            let (s2, a2) = next(s1, Event::Done, Seq::empty());
            let (s3, a3) = next(s2, Event::Done, Seq::empty());
            let (s4, a4) = next(s3, Event::Done, Seq::empty());
            &&& a0 == Action::SetReset(false)
            &&& a1 == Action::Delay(RESET_HOLD_US)
            &&& a2 == Action::SetReset(true)
            &&& a3 == Action::Delay(RESET_HOLD_US)
            &&& a4 == Action::Finish(Ok(()))
            &&& !s4.selected
        }),
{
}

} // verus!
