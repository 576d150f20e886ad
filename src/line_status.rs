//! Decoding of the line-status register.
use vstd::prelude::*;

verus! {

/// Line-status bit: at least one received byte is waiting in the FIFO.
pub const DATA_READY: u32 = 1;

/// Line-status bit: the transmit FIFO can accept at least one byte.
pub const TX_AVAILABLE: u32 = 32;

/// Every bit of `mask` is set in `value`.
pub open spec fn mask_set(value: u32, mask: u32) -> bool {
    value & mask == mask
}

/// The "data ready" flag of a line-status reading.
pub open spec fn data_ready(lsr: u32) -> bool {
    mask_set(lsr, DATA_READY)
}

/// The "transmit space available" flag of a line-status reading.
pub open spec fn tx_available(lsr: u32) -> bool {
    mask_set(lsr, TX_AVAILABLE)
}

/// Tests whether every bit of `mask` is set in `value`.
pub fn has_mask(value: u32, mask: u32) -> (r: bool)
    ensures
        r == mask_set(value, mask),
{
    value & mask == mask
}

/// The two flags are distinct single bits: bit 0 and bit 5.
pub proof fn lemma_flag_bits(lsr: u32)
    ensures
        data_ready(lsr) <==> lsr % 2 == 1,
        tx_available(lsr) <==> (lsr / 32) % 2 == 1,
{
    assert(lsr & 1 == 1 <==> lsr % 2 == 1) by (bit_vector);
    assert(lsr & 32 == 32 <==> (lsr / 32) % 2 == 1) by (bit_vector);
}

} // verus!
