//! Power control (PWR): backup domain write access and the Sub-GHz radio
//! signals that are routed through PWR registers.
use vstd::prelude::*;
use crate::bitfield::{clear_flag, field_is_set, is_field_set, set_flag, with_field};

verus! {

/// Disable backup domain write protection (PWR_CR1).
pub const CR1_DBP: u32 = 8;
/// Radio busy signal (PWR_SR2).
pub const SR2_RFBUSYS: u32 = 1;
/// Sub-GHz SPI NSS (PWR_SUBGHZSPICR).
pub const SUBGHZSPICR_NSS: u32 = 15;

/// The PWR registers this driver reads and writes.
#[derive(Clone, Copy, PartialEq, Eq, Structural, Debug)]
pub struct PwrRegisters {
    /// Power control register 1.
    pub cr1: u32,
    /// Power status register 2.
    pub sr2: u32,
    /// Sub-GHz radio SPI control register.
    pub subghzspicr: u32,
}

/// Power control peripheral.
pub struct Pwr {
    /// Current contents of the PWR registers.
    pub registers: PwrRegisters,
}

impl Pwr {
    /// Takes control of the PWR peripheral whose registers hold `registers`.
    pub fn new(registers: PwrRegisters) -> (r: Pwr)
        ensures
            r.registers == registers,
    {
        Pwr { registers }
    }

    /// Enables backup domain write access.
    pub fn enable_backup_domain_access(&mut self)
        ensures
            final(self).registers == (PwrRegisters {
                cr1: with_field(old(self).registers.cr1, CR1_DBP, 1, 1),
                ..old(self).registers
            }),
            field_is_set(final(self).registers.cr1, CR1_DBP, 1),
    {
        self.registers.cr1 = set_flag(self.registers.cr1, CR1_DBP);
    }

    /// Disables backup domain write access.
    pub fn disable_backup_domain_access(&mut self)
        ensures
            final(self).registers == (PwrRegisters {
                cr1: with_field(old(self).registers.cr1, CR1_DBP, 1, 0),
                ..old(self).registers
            }),
            !field_is_set(final(self).registers.cr1, CR1_DBP, 1),
    {
        self.registers.cr1 = clear_flag(self.registers.cr1, CR1_DBP);
    }

    /// Whether backup domain write access is enabled.
    pub fn is_backup_domain_access_enabled(&self) -> (r: bool)
        ensures
            r == field_is_set(self.registers.cr1, CR1_DBP, 1),
    {
        is_field_set(self.registers.cr1, CR1_DBP, 1)
    }

    /// Whether the Sub-GHz radio reports busy.
    pub fn is_rfbusys(&self) -> (r: bool)
        ensures
            r == field_is_set(self.registers.sr2, SR2_RFBUSYS, 1),
    {
        is_field_set(self.registers.sr2, SR2_RFBUSYS, 1)
    }

    /// Drives the Sub-GHz SPI NSS high; it then reads back as set.
    pub fn set_nss(&mut self)
        ensures
            final(self).registers == (PwrRegisters {
                subghzspicr: with_field(old(self).registers.subghzspicr, SUBGHZSPICR_NSS, 1, 1),
                ..old(self).registers
            }),
            field_is_set(final(self).registers.subghzspicr, SUBGHZSPICR_NSS, 1),
    {
        self.registers.subghzspicr = set_flag(self.registers.subghzspicr, SUBGHZSPICR_NSS);
        assert(self.is_set_nss_spec());
    }

    /// Drives the Sub-GHz SPI NSS low; it then reads back as clear.
    pub fn clear_nss(&mut self)
        ensures
            final(self).registers == (PwrRegisters {
                subghzspicr: with_field(old(self).registers.subghzspicr, SUBGHZSPICR_NSS, 1, 0),
                ..old(self).registers
            }),
            !field_is_set(final(self).registers.subghzspicr, SUBGHZSPICR_NSS, 1),
    {
        self.registers.subghzspicr = clear_flag(self.registers.subghzspicr, SUBGHZSPICR_NSS);
        assert(!self.is_set_nss_spec());
    }

    /// Whether the Sub-GHz SPI NSS is set.
    pub open spec fn is_set_nss_spec(&self) -> bool {
        field_is_set(self.registers.subghzspicr, SUBGHZSPICR_NSS, 1)
    }

    /// Whether the Sub-GHz SPI NSS is set.
    pub fn is_set_nss(&self) -> (r: bool)
        ensures
            r == self.is_set_nss_spec(),
    {
        is_field_set(self.registers.subghzspicr, SUBGHZSPICR_NSS, 1)
    }
}

} // verus!
