//! The 64-bit unique device identifier (UID64).
use vstd::prelude::*;

verus! {

/// The two words of the UID64: the device number, then the company and
/// device IDs.
#[derive(Clone, Copy, PartialEq, Eq, Structural, Debug)]
pub struct Uid64Registers {
    /// Device number.
    pub uid64_low: u32,
    /// Company ID (bits 31..8) and device ID (bits 7..0).
    pub uid64_high: u32,
}

/// The unique device identifier.
pub struct Uid64 {
    pub registers: Uid64Registers,
}

impl Uid64 {
    /// The identifier whose words read `registers`.
    pub fn new(registers: Uid64Registers) -> (r: Uid64)
        ensures
            r.registers == registers,
    {
        Uid64 { registers }
    }

    /// The 64-bit identifier: the high word above the low word.
    pub fn get_device_uid64(&self) -> (r: u64)
        ensures
            r == self.registers.uid64_high as u64 * 0x1_0000_0000 + self.registers.uid64_low as u64,
            (r >> 32u64) as u32 == self.registers.uid64_high,
            r as u32 == self.registers.uid64_low,
    {
        let uid_high = self.registers.uid64_high;
        let uid_low = self.registers.uid64_low;
        let r = ((uid_high as u64) << 32u64) | (uid_low as u64);
        assert(r == uid_high as u64 * 0x1_0000_0000 + uid_low as u64 && (r >> 32u64) as u32 == uid_high
            && r as u32 == uid_low) by (bit_vector)
            requires
                r == ((uid_high as u64) << 32u64) | (uid_low as u64),
        ;
        r
    }
}

} // verus!
