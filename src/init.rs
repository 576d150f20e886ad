//! The initialization sequence of the mini UART.
use vstd::prelude::*;
use crate::registers::{Field, Access, field_access};

verus! {

/// Line-control value selecting 8-bit data.
pub const LCR_EIGHT_BIT: u32 = 0x3;

/// Extended-control value enabling both transmitter and receiver.
pub const CNTL_RX_TX: u32 = 0x3;

/// Reference clock of the peripheral, in Hz.
pub const SYSTEM_CLOCK_HZ: u64 = 250_000_000;

/// Line speed the driver configures.
pub const BAUD_RATE: u64 = 115_200;

/// Divisor for `BAUD_RATE` under `SYSTEM_CLOCK_HZ`.
pub const BAUD_DIVISOR: u32 = 270;

/// This peripheral's bit in the shared auxiliary-enables register.
pub const AUX_ENABLE_BIT: u8 = 1;

/// GPIO line carrying the transmit signal.
pub const TX_PIN: u8 = 14;

/// GPIO line carrying the receive signal.
pub const RX_PIN: u8 = 15;

/// Alternate function that routes both lines to the mini UART.
pub const UART_ALT_FUNCTION: u8 = 5;

/// One step of the initialization sequence.
#[derive(PartialEq, Eq, Structural, Clone, Copy, Debug)]
pub enum InitStep {
    /// Set (never clear) these bits in the auxiliary-enables register.
    EnableAux(u8),
    /// Write a value into a field of the register block.
    Write(Field, u32),
    /// Switch a GPIO line to an alternate function.
    PinAlt(u8, u8),
}

/// `floor(clock / (8 * baud)) - 1`, where that is a non-negative integer.
pub open spec fn divisor_of(clock: int, baud: int) -> Option<int> {
    if baud <= 0 || clock / (8 * baud) == 0 {
        None
    } else {
        Some(clock / (8 * baud) - 1)
    }
}

/// The baud-rate divisor for `clock` Hz and `baud` bits per second:
/// `floor(clock / (8 * baud)) - 1`, or `None` where that is negative or
/// undefined.
pub fn baud_divisor(clock: u64, baud: u64) -> (r: Option<u64>)
    ensures
        r.is_some() == divisor_of(clock as int, baud as int).is_some(),
        r.is_some() ==> r.unwrap() as int == divisor_of(clock as int, baud as int).unwrap(),
{
    if baud == 0 {
        return None;
    }
    if baud > u64::MAX / 8 {
        assert((clock as int) / (8 * (baud as int)) == 0) by (nonlinear_arith)
            requires
                baud > u64::MAX / 8,
                clock <= u64::MAX,
        ;
        return None;
    }
    let q = clock / (8 * baud);
    if q == 0 {
        None
    } else {
        Some(q - 1)
    }
}

/// The value to write back into the shared auxiliary-enables register to
/// set `bits`: the current value with those bits set and every other bit
/// kept.
pub fn enable_bits(current: u8, bits: u8) -> (r: u8)
    ensures
        r == current | bits,
        r & bits == bits,
        r & !bits == current & !bits,
{
    let r = current | bits;
    assert(r & bits == bits) by (bit_vector)
        requires
            r == current | bits,
    ;
    assert(r & !bits == current & !bits) by (bit_vector)
        requires
            r == current | bits,
    ;
    r
}

/// The initialization steps, in the order the hardware needs them.
pub open spec fn init_plan() -> Seq<InitStep> {
    seq![
        InitStep::EnableAux(AUX_ENABLE_BIT),
        InitStep::Write(Field::Lcr, LCR_EIGHT_BIT),
        InitStep::Write(Field::Baud, BAUD_DIVISOR),
        InitStep::PinAlt(TX_PIN, UART_ALT_FUNCTION),
        InitStep::PinAlt(RX_PIN, UART_ALT_FUNCTION),
        InitStep::Write(Field::Cntl, CNTL_RX_TX),
    ]
}

/// Builds the initialization sequence: enable the peripheral, 8-bit mode,
/// baud divisor, pin multiplexing of both lines, then transmitter and
/// receiver on.
pub fn init_sequence() -> (r: Vec<InitStep>)
    ensures
        r@ == init_plan(),
{
    let mut v: Vec<InitStep> = Vec::new();
    v.push(InitStep::EnableAux(AUX_ENABLE_BIT));
    v.push(InitStep::Write(Field::Lcr, LCR_EIGHT_BIT));
    v.push(InitStep::Write(Field::Baud, BAUD_DIVISOR));
    v.push(InitStep::PinAlt(TX_PIN, UART_ALT_FUNCTION));
    v.push(InitStep::PinAlt(RX_PIN, UART_ALT_FUNCTION));
    v.push(InitStep::Write(Field::Cntl, CNTL_RX_TX));
    assert(v@ =~= init_plan());
    v
}

/// The sequence writes only line control, baud divisor and extended
/// control, each of them writable, and sets only this peripheral's enable
/// bit; extended control comes last.
pub proof fn lemma_init_touches_only_config()
    ensures
        forall|i: int|
            0 <= i < init_plan().len() ==> match #[trigger] init_plan()[i] {
                InitStep::Write(f, _) => (f == Field::Lcr || f == Field::Baud || f == Field::Cntl)
                    && field_access(f) == Access::ReadWrite,
                InitStep::EnableAux(bits) => bits == AUX_ENABLE_BIT,
                InitStep::PinAlt(pin, function) => (pin == TX_PIN || pin == RX_PIN)
                    && function == UART_ALT_FUNCTION,
            },
        init_plan().last() == InitStep::Write(Field::Cntl, CNTL_RX_TX),
{
}

/// The fixed divisor is the one the formula gives for the configured clock
/// and line speed.
pub proof fn lemma_fixed_divisor()
    ensures
        divisor_of(SYSTEM_CLOCK_HZ as int, BAUD_RATE as int) == Some(BAUD_DIVISOR as int),
{
    assert(250_000_000int / 921_600int == 271) by (nonlinear_arith);
}

} // verus!
