//! Virtual GPIOs for the Sub-GHz radio: its NSS, busy and interrupt signals
//! are not GPIO pins on this chip, so these types present them as pins.
use vstd::prelude::*;
use crate::bitfield::{field_is_set, with_field};
use crate::pwr::{Pwr, PwrRegisters, SR2_RFBUSYS, SUBGHZSPICR_NSS};

verus! {

/// A signal that can be read as a pin level and written as a pin value.
pub trait VirtualGpioReader {
    /// Whether `read` is available for this signal.
    spec fn can_read(&self) -> bool;

    /// Whether `write` is available for this signal.
    spec fn can_write(&self) -> bool;

    /// The level the signal reads as.
    spec fn level(&self) -> bool;

    /// The level of the signal.
    fn read(&self) -> (r: bool)
        requires
            self.can_read(),
        ensures
            r == self.level(),
    ;

    /// Drives the signal: zero is low, anything else high.
    fn write(&mut self, val: u32)
        requires
            old(self).can_write(),
    ;
}

/// The Sub-GHz SPI NSS line, driven through PWR.
pub struct NSS {
    pub pwr: Pwr,
}

impl NSS {
    /// The NSS line of the PWR peripheral `pwr`.
    pub fn new(pwr: Pwr) -> (r: Self)
        ensures
            r.pwr.registers == pwr.registers,
    {
        NSS { pwr }
    }

    /// Drives NSS high.
    pub fn set(&mut self)
        ensures
            final(self).pwr.registers == (PwrRegisters {
                subghzspicr: with_field(old(self).pwr.registers.subghzspicr, SUBGHZSPICR_NSS, 1, 1),
                ..old(self).pwr.registers
            }),
            final(self).pwr.is_set_nss_spec(),
    {
        self.pwr.set_nss()
    }

    /// Drives NSS low.
    pub fn clear(&mut self)
        ensures
            final(self).pwr.registers == (PwrRegisters {
                subghzspicr: with_field(old(self).pwr.registers.subghzspicr, SUBGHZSPICR_NSS, 1, 0),
                ..old(self).pwr.registers
            }),
            !final(self).pwr.is_set_nss_spec(),
    {
        self.pwr.clear_nss()
    }
}

impl VirtualGpioReader for NSS {
    /// Reading NSS is not implemented.
    open spec fn can_read(&self) -> bool {
        false
    }

    open spec fn can_write(&self) -> bool {
        true
    }

    open spec fn level(&self) -> bool {
        self.pwr.is_set_nss_spec()
    }

    fn read(&self) -> bool {
        self.pwr.is_set_nss()
    }

    /// Writing zero drives NSS low, anything else high.
    fn write(&mut self, val: u32)
        ensures
            final(self).pwr.is_set_nss_spec() == (val != 0),
            final(self).pwr.registers == (PwrRegisters {
                subghzspicr: with_field(old(self).pwr.registers.subghzspicr, SUBGHZSPICR_NSS, 1, if val == 0 { 0 } else { 1 }),
                ..old(self).pwr.registers
            }),
    {
        if val == 0 {
            self.clear();
        } else {
            self.set();
        }
    }
}

/// The Sub-GHz radio interrupt line.
///
/// The radio interrupt is level triggered and can only be cleared by a
/// command to the radio, so it is masked in the interrupt handler and this
/// signal reports whether any other interrupt is pending. `next_pending` is
/// the answer of the interrupt controller to the query built by
/// [`SubGhzRadioSignals::pending_mask`].
pub struct SubGhzRadioSignals {
    pub next_pending: Option<u32>,
}

impl SubGhzRadioSignals {
    /// The interrupt line, with no pending interrupt recorded.
    pub fn new() -> (r: Self)
        ensures
            r.next_pending is None,
    {
        SubGhzRadioSignals { next_pending: None }
    }

    /// The mask handed to the interrupt controller: every line but the radio
    /// line's bit in the second word.
    pub fn pending_mask(radio_irq: u32) -> (r: (u128, u128))
        ensures
            r.0 == u128::MAX,
            r.1 == !(1u128 << (radio_irq % 32) as u128),
    {
        (u128::MAX, !(1u128 << ((radio_irq % 32) as u128)))
    }

    /// Records the interrupt controller's answer to the pending query.
    pub fn record_next_pending(&mut self, irq: Option<u32>)
        ensures
            final(self).next_pending == irq,
    {
        self.next_pending = irq;
    }
}

impl VirtualGpioReader for SubGhzRadioSignals {
    open spec fn can_read(&self) -> bool {
        true
    }

    /// Writing the interrupt line is not implemented.
    open spec fn can_write(&self) -> bool {
        false
    }

    open spec fn level(&self) -> bool {
        self.next_pending is Some
    }

    /// High when some interrupt other than the radio's is pending.
    fn read(&self) -> (r: bool)
        ensures
            r == self.next_pending is Some,
    {
        match self.next_pending {
            Some(_) => true,
            None => false,
        }
    }

    fn write(&mut self, _val: u32) {
    }
}

/// The Sub-GHz radio busy line, read through PWR.
pub struct SubGhzRadioBusy {
    pub pwr: Pwr,
}

impl SubGhzRadioBusy {
    /// The busy line of the PWR peripheral `pwr`.
    pub fn new(pwr: Pwr) -> (r: Self)
        ensures
            r.pwr.registers == pwr.registers,
    {
        SubGhzRadioBusy { pwr }
    }

    /// Whether the radio is busy.
    pub fn is_busy(&self) -> (r: bool)
        ensures
            r == field_is_set(self.pwr.registers.sr2, SR2_RFBUSYS, 1),
    {
        self.pwr.is_rfbusys()
    }
}

impl VirtualGpioReader for SubGhzRadioBusy {
    open spec fn can_read(&self) -> bool {
        true
    }

    open spec fn can_write(&self) -> bool {
        true
    }

    open spec fn level(&self) -> bool {
        field_is_set(self.pwr.registers.sr2, SR2_RFBUSYS, 1)
    }

    /// The busy flag.
    fn read(&self) -> (r: bool)
        ensures
            r == field_is_set(self.pwr.registers.sr2, SR2_RFBUSYS, 1),
    {
        self.is_busy()
    }

    /// Writing the busy line has no effect.
    fn write(&mut self, _val: u32)
        ensures
            final(self).pwr.registers == old(self).pwr.registers,
    {
    }
}

/// Pin configuration.
#[derive(Clone, Copy, PartialEq, Eq, Structural, Debug)]
pub enum Configuration {
    LowPower,
    Input,
    Output,
    InputOutput,
    Function,
    Other,
}

/// Edge on which a pin interrupt fires.
#[derive(Clone, Copy, PartialEq, Eq, Structural, Debug)]
pub enum InterruptEdge {
    RisingEdge,
    FallingEdge,
    EitherEdge,
}

/// Pull resistor of an input pin.
#[derive(Clone, Copy, PartialEq, Eq, Structural, Debug)]
pub enum FloatingState {
    PullUp,
    PullDown,
    PullNone,
}

/// A read-only pin whose level is a radio signal. Its output, interrupt and
/// configuration operations have no effect.
pub struct SubGhzRadioVirtualGpio<R: VirtualGpioReader> {
    pub reader: R,
}

impl<R: VirtualGpioReader> SubGhzRadioVirtualGpio<R> {
    /// A pin reading `reader`.
    pub fn new(reader: R) -> (r: Self)
        ensures
            r.reader == reader,
    {
        SubGhzRadioVirtualGpio { reader }
    }

    /// The level of the signal.
    pub fn read(&self) -> (r: bool)
        requires
            self.reader.can_read(),
        ensures
            r == self.reader.level(),
    {
        let res = self.reader.read();
        res
    }

    /// Interrupts are not supported; nothing to disable.
    pub fn disable_interrupts(&self) {
    }

    /// Interrupts are not supported; nothing to enable.
    pub fn enable_interrupts(&self, _mode: InterruptEdge) {
    }

    /// No interrupt is ever pending on the pin.
    pub fn is_pending(&self) -> (r: bool)
        ensures
            !r,
    {
        false
    }

    /// Interrupts are not supported; the client is never called.
    pub fn set_client<C>(&self, _client: &C) {
    }

    /// The pin cannot be driven.
    pub fn clear(&self) {
    }

    /// The pin cannot be driven.
    pub fn set(&self) {
    }

    /// The pin cannot be driven; toggling reports a low level.
    pub fn toggle(&self) -> (r: bool)
        ensures
            !r,
    {
        false
    }

    /// The pull resistor cannot be changed.
    pub fn set_floating_state(&self, _state: FloatingState) {
    }

    /// The pin is always an input.
    pub fn make_input(&self) -> (r: Configuration)
        ensures
            r == Configuration::Input,
    {
        Configuration::Input
    }
}

} // verus!
