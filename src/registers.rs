//! The mini UART register block: field order, offsets and access discipline.
use vstd::prelude::*;

verus! {

/// Offset of the auxiliary-enables register from the peripheral base.
pub const AUX_ENABLES_OFFSET: usize = 0x215004;

/// Offset of the mini UART register block from the peripheral base.
pub const MU_REG_OFFSET: usize = 0x215040;

/// Width in bytes of every field of the block.
pub const FIELD_WIDTH: usize = 4;

/// Number of fields in the block.
pub const FIELD_COUNT: usize = 11;

/// How a field may be accessed.
#[derive(PartialEq, Eq, Structural, Clone, Copy, Debug)]
pub enum Access {
    ReadWrite,
    ReadOnly,
    Reserved,
}

/// The fields of the block, in hardware order.
#[derive(PartialEq, Eq, Structural, Clone, Copy, Debug)]
pub enum Field {
    /// Data I/O.
    Io,
    /// Interrupt enable.
    Ier,
    /// Interrupt status.
    Iir,
    /// Line control (data format).
    Lcr,
    /// Modem control.
    Mcr,
    /// Line status.
    Lsr,
    /// Modem status.
    Msr,
    /// Scratch, not used.
    Scratch,
    /// Extended control.
    Cntl,
    /// Extended status.
    Stat,
    /// Baud-rate divisor.
    Baud,
}

/// Position of a field in the block.
pub open spec fn field_index(f: Field) -> nat {
    match f {
        Field::Io => 0,
        Field::Ier => 1,
        Field::Iir => 2,
        Field::Lcr => 3,
        Field::Mcr => 4,
        Field::Lsr => 5,
        Field::Msr => 6,
        Field::Scratch => 7,
        Field::Cntl => 8,
        Field::Stat => 9,
        Field::Baud => 10,
    }
}

/// The access discipline of each field.
pub open spec fn field_access(f: Field) -> Access {
    match f {
        Field::Msr | Field::Stat => Access::ReadOnly,
        Field::Scratch => Access::Reserved,
        _ => Access::ReadWrite,
    }
}

/// Byte offset of a field within the block: fields are packed, in order,
/// with no padding.
pub fn field_offset(f: Field) -> (r: usize)
    ensures
        r == FIELD_WIDTH * field_index(f),
        r < FIELD_WIDTH * FIELD_COUNT,
{
    let i: usize = match f {
        Field::Io => 0,
        Field::Ier => 1,
        Field::Iir => 2,
        Field::Lcr => 3,
        Field::Mcr => 4,
        Field::Lsr => 5,
        Field::Msr => 6,
        Field::Scratch => 7,
        Field::Cntl => 8,
        Field::Stat => 9,
        Field::Baud => 10,
    };
    FIELD_WIDTH * i
}

/// The access discipline of a field.
pub fn access(f: Field) -> (r: Access)
    ensures
        r == field_access(f),
{
    match f {
        Field::Msr | Field::Stat => Access::ReadOnly,
        Field::Scratch => Access::Reserved,
        _ => Access::ReadWrite,
    }
}

/// Whether the driver may read the field.
pub fn readable(f: Field) -> (r: bool)
    ensures
        r == (field_access(f) != Access::Reserved),
{
    access(f) != Access::Reserved
}

/// Whether the driver may write the field.
pub fn writable(f: Field) -> (r: bool)
    ensures
        r == (field_access(f) == Access::ReadWrite),
{
    access(f) == Access::ReadWrite
}

/// Bus address of a field for a given peripheral base, or `None` where the
/// address does not fit in `usize`.
pub fn field_address(io_base: usize, f: Field) -> (r: Option<usize>)
    ensures
        r == (if io_base + MU_REG_OFFSET + FIELD_WIDTH * field_index(f) <= usize::MAX {
            Some((io_base + MU_REG_OFFSET + FIELD_WIDTH * field_index(f)) as usize)
        } else {
            None::<usize>
        }),
{
    let off = field_offset(f);
    if io_base > usize::MAX - MU_REG_OFFSET - off {
        None
    } else {
        Some(io_base + MU_REG_OFFSET + off)
    }
}

/// Bus address of the auxiliary-enables register, or `None` where it does
/// not fit in `usize`.
pub fn aux_enables_address(io_base: usize) -> (r: Option<usize>)
    ensures
        r == (if io_base + AUX_ENABLES_OFFSET <= usize::MAX {
            Some((io_base + AUX_ENABLES_OFFSET) as usize)
        } else {
            None::<usize>
        }),
{
    io_base.checked_add(AUX_ENABLES_OFFSET)
}

} // verus!
