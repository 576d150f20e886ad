//! The driver handle and the decisions of its polling primitives.
//!
//! Every blocking primitive of the driver is a loop that reads a register
//! and decides whether to poll again. Each function here is one turn of
//! such a loop: it takes what the hardware reported and returns what to do
//! next. The code that owns the register block runs the loop around it.
use vstd::prelude::*;
use crate::line_status::{has_mask, data_ready, tx_available, DATA_READY, TX_AVAILABLE};
use vstd::string::StringSliceAdditionalSpecFns;
use crate::text::{crlf, normalize_line_endings};
use crate::init::{init_sequence, init_plan, InitStep};
use crate::registers::{Field, MU_REG_OFFSET, FIELD_WIDTH, field_index, field_address};

verus! {

/// Microseconds per millisecond.
pub const MICROS_PER_MILLI: u64 = 1000;

/// The one failure of the driver: no byte arrived within the read timeout.
#[derive(PartialEq, Eq, Structural, Clone, Copy, Debug)]
pub struct TimedOut;

/// Next action of the transmit loop.
#[derive(PartialEq, Eq, Structural, Clone, Copy, Debug)]
pub enum TxStep {
    /// The FIFO is full: read line status again.
    Poll,
    /// Write this value into the data field; the byte is sent.
    Write(u32),
}

/// Next action of the receive loop.
#[derive(PartialEq, Eq, Structural, Clone, Copy, Debug)]
pub enum RxStep {
    /// Nothing to read yet: read line status again.
    Poll,
    /// A byte is waiting: read the data field.
    Read,
}

/// Next action of the bounded wait.
#[derive(PartialEq, Eq, Structural, Clone, Copy, Debug)]
pub enum WaitStep {
    /// No byte yet, and the deadline has not passed: poll again.
    Poll,
    /// A byte is ready to be read.
    Ready,
    /// The deadline passed with no byte.
    TimedOut,
}

/// The driver handle: the peripheral base whose register block it drives,
/// and the read timeout. Whoever owns that block runs the handle's loops.
pub struct MiniUart {
    io_base: usize,
    timeout: Option<u32>,
}

/// The last microsecond at which a wait started at `start` with a timeout of
/// `ms` milliseconds may still poll: `start + 1000 * ms`, saturated at the
/// clock's largest value, so a deadline beyond the clock's range is never
/// passed.
pub open spec fn deadline_of(start: u64, ms: u32) -> u64 {
    if start + MICROS_PER_MILLI * ms <= u64::MAX {
        (start + MICROS_PER_MILLI * ms) as u64
    } else {
        u64::MAX
    }
}

/// Transmit decision for one line-status reading.
pub open spec fn tx_step(lsr: u32, byte: u8) -> TxStep {
    if tx_available(lsr) {
        TxStep::Write(byte as u32)
    } else {
        TxStep::Poll
    }
}

/// Receive decision for one line-status reading.
pub open spec fn rx_step(lsr: u32) -> RxStep {
    if data_ready(lsr) {
        RxStep::Read
    } else {
        RxStep::Poll
    }
}

/// Bounded-wait decision for a line-status reading `lsr` followed by a
/// clock reading `now`, in a wait that started at `start`.
pub open spec fn wait_step(timeout: Option<u32>, start: u64, lsr: u32, now: u64) -> WaitStep {
    if data_ready(lsr) {
        WaitStep::Ready
    } else {
        match timeout {
            Some(ms) => if now > deadline_of(start, ms) {
                WaitStep::TimedOut
            } else {
                WaitStep::Poll
            },
            None => WaitStep::Poll,
        }
    }
}

/// Computes `deadline_of(start, ms)`.
pub fn deadline(start: u64, ms: u32) -> (r: u64)
    ensures
        r == deadline_of(start, ms),
{
    let span: u64 = MICROS_PER_MILLI * (ms as u64);
    start.saturating_add(span)
}

/// The byte held in a value read from the data field: its low 8 bits.
pub fn received_byte(io: u32) -> (r: u8)
    ensures
        r == io % 256,
{
    (io % 256) as u8
}

impl MiniUart {
    /// The read timeout in milliseconds; `None` waits forever.
    pub closed spec fn timeout_spec(&self) -> Option<u32> {
        self.timeout
    }

    /// The peripheral base the handle was built for; it never changes.
    pub closed spec fn base_spec(&self) -> usize {
        self.io_base
    }

    /// A handle for the mini UART of the peripheral base `io_base`, with no
    /// read timeout, together with the initialization steps that must be
    /// carried out, in order, before the handle is used.
    pub fn new(io_base: usize) -> (r: (MiniUart, Vec<InitStep>))
        ensures
            r.0.timeout_spec() == None::<u32>,
            r.0.base_spec() == io_base,
            r.1@ == init_plan(),
    {
        (MiniUart { io_base, timeout: None }, init_sequence())
    }

    /// The peripheral base the handle was built for.
    pub fn io_base(&self) -> (r: usize)
        ensures
            r == self.base_spec(),
    {
        self.io_base
    }

    /// Bus address of a field of this handle's register block, which starts
    /// at `MU_REG_OFFSET` past the peripheral base; `None` where it does not
    /// fit in `usize`.
    pub fn register_address(&self, f: Field) -> (r: Option<usize>)
        ensures
            r == (if self.base_spec() + MU_REG_OFFSET + FIELD_WIDTH * field_index(f) <= usize::MAX {
                Some((self.base_spec() + MU_REG_OFFSET + FIELD_WIDTH * field_index(f)) as usize)
            } else {
                None::<usize>
            }),
    {
        field_address(self.io_base, f)
    }

    /// Sets the read timeout to `milliseconds`, replacing any earlier one.
    pub fn set_read_timeout(&mut self, milliseconds: u32)
        ensures
            final(self).timeout_spec() == Some(milliseconds),
            final(self).base_spec() == old(self).base_spec(),
    {
        self.timeout = Some(milliseconds);
    }

    /// The read timeout in milliseconds, if one is set.
    pub fn read_timeout(&self) -> (r: Option<u32>)
        ensures
            r == self.timeout_spec(),
    {
        self.timeout
    }

    /// One turn of the transmit loop: write `byte` once the line status
    /// shows space in the FIFO, else poll again.
    pub fn write_byte(&self, lsr: u32, byte: u8) -> (r: TxStep)
        ensures
            r == tx_step(lsr, byte),
    {
        if has_mask(lsr, TX_AVAILABLE) {
            TxStep::Write(byte as u32)
        } else {
            TxStep::Poll
        }
    }

    /// Whether the line status shows a byte ready to be read.
    pub fn has_byte(&self, lsr: u32) -> (r: bool)
        ensures
            r == data_ready(lsr),
    {
        has_mask(lsr, DATA_READY)
    }

    /// One turn of the bounded wait started at `start`: `lsr` is the line
    /// status just read and `now` the clock read after it, in microseconds.
    pub fn wait_for_byte(&self, start: u64, lsr: u32, now: u64) -> (r: WaitStep)
        ensures
            r == wait_step(self.timeout_spec(), start, lsr, now),
    {
        if self.has_byte(lsr) {
            WaitStep::Ready
        } else {
            match self.timeout {
                Some(ms) => if now > deadline(start, ms) {
                    WaitStep::TimedOut
                } else {
                    WaitStep::Poll
                },
                None => WaitStep::Poll,
            }
        }
    }

    /// One turn of the receive loop: read the data field once the line
    /// status shows a byte, else poll again. The timeout plays no part.
    pub fn read_byte(&self, lsr: u32) -> (r: RxStep)
        ensures
            r == rx_step(lsr),
    {
        if self.has_byte(lsr) {
            RxStep::Read
        } else {
            RxStep::Poll
        }
    }

    /// Whether a buffered read that has filled `filled` of `capacity` slots
    /// takes another byte, given the line status just read.
    pub fn read_more(&self, lsr: u32, filled: usize, capacity: usize) -> (r: bool)
        ensures
            r == (data_ready(lsr) && filled < capacity),
    {
        self.has_byte(lsr) && filled < capacity
    }

    /// The bytes to transmit, in order, for the text `s`.
    pub fn write_str(&self, s: &str) -> (r: Vec<u8>)
        ensures
            r@ == crlf(s.spec_bytes()),
    {
        normalize_line_endings(s.as_bytes())
    }
}

} // verus!
