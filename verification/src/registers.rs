//! The bits of the registers that the driver reads and writes.

use vstd::prelude::*;

verus! {

/// SR1.SB: a START condition has been generated.
pub const SR1_SB: u32 = 0x0001;

/// SR1.ADDR: the address has been sent and acknowledged.
pub const SR1_ADDR: u32 = 0x0002;

/// SR1.TxE: the data register is empty.
pub const SR1_TXE: u32 = 0x0080;

/// SR1.BERR: a misplaced START or STOP was detected.
pub const SR1_BERR: u32 = 0x0100;

/// SR1.ARLO: arbitration was lost to another master.
pub const SR1_ARLO: u32 = 0x0200;

/// CR1.PE: the peripheral is enabled.
pub const CR1_PE: u32 = 0x0001;

/// CR1.START: a START condition is asked for.
pub const CR1_START: u32 = 0x0100;

/// The bit of the first instance in the APB1 enable and reset registers.
pub const APB1_I2C1: u32 = 0x0020_0000;

/// The bit of the second instance in the APB1 enable and reset registers.
pub const APB1_I2C2: u32 = 0x0040_0000;

/// The value of TRISE after a reset; the other registers reset to zero.
pub const TRISE_RESET: u32 = 0x0002;

/// Whether any bit of `flag` is set in `bits`.
pub open spec fn holds(bits: u32, flag: u32) -> bool {
    bits & flag != 0
}

/// Whether any bit of `flag` is set in `bits`.
pub fn is_set(bits: u32, flag: u32) -> (set: bool)
    ensures
        set == holds(bits, flag),
{
    bits & flag != 0
}

/// Setting bits sets them and leaves every other single bit as it was.
pub proof fn lemma_set_bits(bits: u32, flag: u32, other: u32)
    ensures
        flag != 0 ==> holds(bits | flag, flag),
        other & flag == 0 ==> holds(bits | flag, other) == holds(bits, other),
        holds(bits, other) ==> holds(bits | flag, other),
{
    assert(flag != 0 ==> (bits | flag) & flag != 0) by (bit_vector);
    assert(other & flag == 0 ==> (bits | flag) & other == bits & other) by (bit_vector);
    assert(bits & other != 0 ==> (bits | flag) & other != 0) by (bit_vector);
}

/// Clearing bits clears them and leaves every other bit as it was.
pub proof fn lemma_clear_bits(bits: u32, flag: u32, other: u32)
    ensures
        !holds(bits & !flag, flag),
        other & flag == 0 ==> holds(bits & !flag, other) == holds(bits, other),
        !holds(bits, other) ==> !holds(bits & !flag, other),
{
    assert((bits & !flag) & flag == 0) by (bit_vector);
    assert(other & flag == 0 ==> (bits & !flag) & other == bits & other) by (bit_vector);
    assert(bits & other == 0 ==> (bits & !flag) & other == 0) by (bit_vector);
}

} // verus!
