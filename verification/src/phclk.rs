//! Peripheral clocks: which bus clock feeds a peripheral, its frequency, and
//! the RCC enable bit that gates it.
use vstd::prelude::*;
use crate::bitfield::{field_is_set, field_of, with_field};
use crate::rcc::{
    lemma_apb_prescaler_encoding, ppre_division, APBPrescaler, Rcc, RccRegisters, RtcClockSource, AHB1ENR_DMA1EN, AHB1ENR_DMA2EN,
    APB1ENR1_DACEN, APB1ENR1_I2C1EN, APB1ENR1_TIM2EN, APB1ENR1_USART2EN, APB1RSTR1_I2C1RST,
    APB2ENR_USART1EN, BDCR_RTCEN, BDCR_RTCSEL_MASK, BDCR_RTCSEL_SHIFT, CSR_LSION,
};

verus! {

/// Bus and clock name of a peripheral.
#[derive(Clone, Copy, PartialEq, Eq, Structural, Debug)]
pub enum PeripheralClockType {
    AHB1(HCLK1),
    AHB2(HCLK2),
    AHB3(HCLK3),
    APB1(PCLK1),
    APB2(PCLK2),
    RTC,
}

/// Peripherals clocked by HCLK1.
#[derive(Clone, Copy, PartialEq, Eq, Structural, Debug)]
pub enum HCLK1 {
    DMA1,
    DMA2,
    DMAMUX1,
    CRC,
}

/// Peripherals clocked by HCLK3.
#[derive(Clone, Copy, PartialEq, Eq, Structural, Debug)]
pub enum HCLK3 {
    PKA,
    AES,
    RNG,
    HSEM,
    FLASH,
}

/// Peripherals clocked by HCLK2.
#[derive(Clone, Copy, PartialEq, Eq, Structural, Debug)]
pub enum HCLK2 {
    GPIOA,
    GPIOB,
    GPIOC,
    GPIOH,
}

/// Peripherals clocked by PCLK1.
#[derive(Clone, Copy, PartialEq, Eq, Structural, Debug)]
pub enum PCLK1 {
    TIM2,
    RTCAPB,
    WWDG,
    SPI2S2,
    USART2,
    I2C1,
    I2C2,
    I2C3,
    DAC,
    LPTIM1,
    LPUART1,
    LPTIM2,
    LPTIM3,
}

/// Peripherals clocked by PCLK2.
#[derive(Clone, Copy, PartialEq, Eq, Structural, Debug)]
pub enum PCLK2 {
    ADC,
    TIM1,
    SPI1,
    USART1,
    TIM16,
    TIM17,
}

/// The clock of one peripheral.
pub struct PeripheralClock {
    pub clock: PeripheralClockType,
}

/// Timer clock from the bus clock. Without TIMPRE a timer runs at HCLK when
/// the APB prescaler divides by at most 2, otherwise at twice PCLK; with
/// TIMPRE it runs at HCLK when the prescaler divides by at most 4, otherwise
/// at four times PCLK.
pub open spec fn spec_tim_freq(tim_pre: bool, hclk_freq: usize, prescaler: APBPrescaler) -> usize {
    if !tim_pre {
        match prescaler {
            APBPrescaler::DivideBy1 | APBPrescaler::DivideBy2 => hclk_freq,
            _ => (hclk_freq / prescaler.spec_divider() * 2) as usize,
        }
    } else {
        match prescaler {
            APBPrescaler::DivideBy1 | APBPrescaler::DivideBy2 | APBPrescaler::DivideBy4 => hclk_freq,
            _ => (hclk_freq / prescaler.spec_divider() * 4) as usize,
        }
    }
}

/// Computes the timer clock from the bus clock, see [`spec_tim_freq`].
pub fn tim_freq(rcc: &Rcc, hclk_freq: usize, prescaler: APBPrescaler) -> (r: usize)
    ensures
        r == spec_tim_freq(false, hclk_freq, prescaler),
{
    if !rcc.is_enabled_tim_pre() {
        match prescaler {
            APBPrescaler::DivideBy1 | APBPrescaler::DivideBy2 => hclk_freq,
            _ => {
                let d = usize::from(prescaler);
                assert(d >= 4);
                hclk_freq / d * 2
            },
        }
    } else {
        match prescaler {
            APBPrescaler::DivideBy1 | APBPrescaler::DivideBy2 | APBPrescaler::DivideBy4 => hclk_freq,
            _ => {
                let d = usize::from(prescaler);
                assert(d >= 8);
                hclk_freq / d * 4
            },
        }
    }
}

/// The timer clock rule of the reference manual: without TIMPRE a timer runs
/// at PCLK when the APB prescaler is 1 and at twice PCLK otherwise; with
/// TIMPRE it runs at HCLK when the prescaler is 1, 2 or 4 and at four times
/// PCLK otherwise. For a prescaler of 2 without TIMPRE the timer runs at
/// HCLK, which is twice PCLK only when HCLK is even.
pub proof fn lemma_timer_clock_rule(hclk_freq: usize, prescaler: APBPrescaler)
    ensures
        prescaler == APBPrescaler::DivideBy1 ==> spec_tim_freq(false, hclk_freq, prescaler)
            == hclk_freq / prescaler.spec_divider(),
        prescaler != APBPrescaler::DivideBy1 && hclk_freq % 2 == 0 ==> spec_tim_freq(false, hclk_freq, prescaler)
            == hclk_freq / prescaler.spec_divider() * 2,
        prescaler == APBPrescaler::DivideBy1 || prescaler == APBPrescaler::DivideBy2
            || prescaler == APBPrescaler::DivideBy4 ==> spec_tim_freq(true, hclk_freq, prescaler) == hclk_freq,
        !(prescaler == APBPrescaler::DivideBy1 || prescaler == APBPrescaler::DivideBy2
            || prescaler == APBPrescaler::DivideBy4) ==> spec_tim_freq(true, hclk_freq, prescaler)
            == hclk_freq / prescaler.spec_divider() * 4,
        spec_tim_freq(false, hclk_freq, prescaler) <= hclk_freq,
{
}

impl PeripheralClockType {
    /// The clocks whose enable bit the driver knows: DMA1, DMA2, TIM2,
    /// USART2, I2C1, DAC, USART1 and the RTC.
    pub open spec fn can_enable(self) -> bool {
        match self {
            PeripheralClockType::AHB1(HCLK1::DMA1) | PeripheralClockType::AHB1(HCLK1::DMA2) => true,
            PeripheralClockType::APB1(PCLK1::TIM2) | PeripheralClockType::APB1(PCLK1::USART2)
            | PeripheralClockType::APB1(PCLK1::I2C1) | PeripheralClockType::APB1(PCLK1::DAC) => true,
            PeripheralClockType::APB2(PCLK2::USART1) => true,
            PeripheralClockType::RTC => true,
            _ => false,
        }
    }

    /// The clocks the driver can disable: those it can enable, but I2C1.
    pub open spec fn can_disable(self) -> bool {
        self.can_enable() && self != PeripheralClockType::APB1(PCLK1::I2C1)
    }

    /// Whether the enable bit of the clock is set in `regs`.
    pub open spec fn spec_is_enabled(self, regs: RccRegisters) -> bool {
        match self {
            PeripheralClockType::AHB1(HCLK1::DMA1) => field_is_set(regs.ahb1enr, AHB1ENR_DMA1EN, 1),
            PeripheralClockType::AHB1(HCLK1::DMA2) => field_is_set(regs.ahb1enr, AHB1ENR_DMA2EN, 1),
            PeripheralClockType::APB1(PCLK1::TIM2) => field_is_set(regs.apb1enr1, APB1ENR1_TIM2EN, 1),
            PeripheralClockType::APB1(PCLK1::USART2) => field_is_set(regs.apb1enr1, APB1ENR1_USART2EN, 1),
            PeripheralClockType::APB1(PCLK1::I2C1) => field_is_set(regs.apb1enr1, APB1ENR1_I2C1EN, 1),
            PeripheralClockType::APB1(PCLK1::DAC) => field_is_set(regs.apb1enr1, APB1ENR1_DACEN, 1),
            PeripheralClockType::APB2(PCLK2::USART1) => field_is_set(regs.apb2enr, APB2ENR_USART1EN, 1),
            PeripheralClockType::RTC => field_is_set(regs.bdcr, BDCR_RTCEN, 1),
            _ => false,
        }
    }

    /// The registers after enabling the clock. The RTC is clocked from the LSI.
    pub open spec fn spec_after_enable(self, regs: RccRegisters) -> RccRegisters {
        match self {
            PeripheralClockType::AHB1(HCLK1::DMA1) => RccRegisters { ahb1enr: with_field(regs.ahb1enr, AHB1ENR_DMA1EN, 1, 1), ..regs },
            PeripheralClockType::AHB1(HCLK1::DMA2) => RccRegisters { ahb1enr: with_field(regs.ahb1enr, AHB1ENR_DMA2EN, 1, 1), ..regs },
            PeripheralClockType::APB1(PCLK1::TIM2) => RccRegisters { apb1enr1: with_field(regs.apb1enr1, APB1ENR1_TIM2EN, 1, 1), ..regs },
            PeripheralClockType::APB1(PCLK1::USART2) => RccRegisters { apb1enr1: with_field(regs.apb1enr1, APB1ENR1_USART2EN, 1, 1), ..regs },
            PeripheralClockType::APB1(PCLK1::I2C1) => RccRegisters {
                apb1enr1: with_field(regs.apb1enr1, APB1ENR1_I2C1EN, 1, 1),
                apb1rstr1: with_field(with_field(regs.apb1rstr1, APB1RSTR1_I2C1RST, 1, 1), APB1RSTR1_I2C1RST, 1, 0),
                ..regs
            },
            PeripheralClockType::APB1(PCLK1::DAC) => RccRegisters { apb1enr1: with_field(regs.apb1enr1, APB1ENR1_DACEN, 1, 1), ..regs },
            PeripheralClockType::APB2(PCLK2::USART1) => RccRegisters { apb2enr: with_field(regs.apb2enr, APB2ENR_USART1EN, 1, 1), ..regs },
            PeripheralClockType::RTC => RccRegisters {
                csr: with_field(regs.csr, CSR_LSION, 1, 1),
                bdcr: with_field(
                    with_field(regs.bdcr, BDCR_RTCSEL_SHIFT, BDCR_RTCSEL_MASK, Rcc::spec_source_into_u32(RtcClockSource::LSI)),
                    BDCR_RTCEN,
                    1,
                    1,
                ),
                ..regs
            },
            _ => regs,
        }
    }

    /// The registers after disabling the clock. For the RTC this writes 1 to
    /// RTCEN and deselects its source.
    pub open spec fn spec_after_disable(self, regs: RccRegisters) -> RccRegisters {
        match self {
            PeripheralClockType::AHB1(HCLK1::DMA1) => RccRegisters { ahb1enr: with_field(regs.ahb1enr, AHB1ENR_DMA1EN, 1, 0), ..regs },
            PeripheralClockType::AHB1(HCLK1::DMA2) => RccRegisters { ahb1enr: with_field(regs.ahb1enr, AHB1ENR_DMA2EN, 1, 0), ..regs },
            PeripheralClockType::APB1(PCLK1::TIM2) => RccRegisters { apb1enr1: with_field(regs.apb1enr1, APB1ENR1_TIM2EN, 1, 0), ..regs },
            PeripheralClockType::APB1(PCLK1::USART2) => RccRegisters { apb1enr1: with_field(regs.apb1enr1, APB1ENR1_USART2EN, 1, 0), ..regs },
            PeripheralClockType::APB1(PCLK1::DAC) => RccRegisters { apb1enr1: with_field(regs.apb1enr1, APB1ENR1_DACEN, 1, 0), ..regs },
            PeripheralClockType::APB2(PCLK2::USART1) => RccRegisters { apb2enr: with_field(regs.apb2enr, APB2ENR_USART1EN, 1, 0), ..regs },
            PeripheralClockType::RTC => RccRegisters {
                bdcr: with_field(with_field(regs.bdcr, BDCR_RTCEN, 1, 1), BDCR_RTCSEL_SHIFT, BDCR_RTCSEL_MASK, 0),
                ..regs
            },
            _ => regs,
        }
    }
}

/// The frequency of a peripheral's clock follows from HCLK and the prescaler
/// fields of CFGR as the hardware divides: an AHB1, AHB2 or AHB3 peripheral
/// runs at HCLK whatever the registers hold; an APB1 peripheral other than
/// TIM2 runs at HCLK divided by what PPRE1 divides by, an APB2 peripheral
/// at HCLK divided by what PPRE2 divides by; TIM2 runs at HCLK while PPRE1
/// divides by at most 2, else at twice its bus clock.
pub proof fn lemma_frequency_from_registers(c: PeripheralClock, rcc: Rcc, hclk_freq: usize)
    ensures
        ({
            let ppre1 = field_of(rcc.registers.cfgr, 10, 7);
            let ppre2 = field_of(rcc.registers.cfgr, 13, 7);
            &&& (c.clock is AHB1 || c.clock is AHB2 || c.clock is AHB3) ==> c.spec_frequency(&rcc, hclk_freq)
                == hclk_freq as u32
            &&& c.clock is APB1 && c.clock != PeripheralClockType::APB1(PCLK1::TIM2) ==> c.spec_frequency(
                &rcc,
                hclk_freq,
            ) == (hclk_freq as nat / ppre_division(ppre1)) as u32
            &&& c.clock is APB2 ==> c.spec_frequency(&rcc, hclk_freq) == (hclk_freq as nat / ppre_division(ppre2)) as u32
            &&& c.clock == PeripheralClockType::APB1(PCLK1::TIM2) && ppre_division(ppre1) <= 2
                ==> c.spec_frequency(&rcc, hclk_freq) == hclk_freq as u32
            &&& c.clock == PeripheralClockType::APB1(PCLK1::TIM2) && ppre_division(ppre1) > 2
                ==> c.spec_frequency(&rcc, hclk_freq) == (hclk_freq as nat / ppre_division(ppre1) * 2) as u32
        }),
{
    let cfgr = rcc.registers.cfgr;
    assert(field_of(cfgr, 10, 7) < 8 && field_of(cfgr, 13, 7) < 8) by (bit_vector);
    lemma_apb_prescaler_encoding(APBPrescaler::DivideBy1, field_of(cfgr, 10, 7));
    lemma_apb_prescaler_encoding(APBPrescaler::DivideBy1, field_of(cfgr, 13, 7));
}

/// An RCC register that holds peripheral clock enable bits.
#[derive(Clone, Copy, PartialEq, Eq, Structural, Debug)]
pub enum EnableRegister {
    Ahb1enr,
    Apb1enr1,
    Apb2enr,
    Bdcr,
}

impl EnableRegister {
    /// The register's contents in `regs`.
    pub open spec fn value(self, regs: RccRegisters) -> u32 {
        match self {
            EnableRegister::Ahb1enr => regs.ahb1enr,
            EnableRegister::Apb1enr1 => regs.apb1enr1,
            EnableRegister::Apb2enr => regs.apb2enr,
            EnableRegister::Bdcr => regs.bdcr,
        }
    }

    /// `regs` with this register holding `v` and every other one unchanged.
    pub open spec fn with_value(self, regs: RccRegisters, v: u32) -> RccRegisters {
        match self {
            EnableRegister::Ahb1enr => RccRegisters { ahb1enr: v, ..regs },
            EnableRegister::Apb1enr1 => RccRegisters { apb1enr1: v, ..regs },
            EnableRegister::Apb2enr => RccRegisters { apb2enr: v, ..regs },
            EnableRegister::Bdcr => RccRegisters { bdcr: v, ..regs },
        }
    }
}

/// The register and bit that gate a peripheral's clock, as the reference
/// manual places them: DMA1EN is bit 0 and DMA2EN bit 1 of AHB1ENR; TIM2EN
/// bit 0, USART2EN bit 17, I2C1EN bit 21 and DACEN bit 29 of APB1ENR1;
/// USART1EN bit 14 of APB2ENR; RTCEN bit 15 of BDCR. Clocks the driver
/// cannot enable have no bit here.
pub open spec fn clock_enable_bit(t: PeripheralClockType) -> Option<(EnableRegister, u32)> {
    match t {
        PeripheralClockType::AHB1(HCLK1::DMA1) => Some((EnableRegister::Ahb1enr, 0u32)),
        PeripheralClockType::AHB1(HCLK1::DMA2) => Some((EnableRegister::Ahb1enr, 1u32)),
        PeripheralClockType::APB1(PCLK1::TIM2) => Some((EnableRegister::Apb1enr1, 0u32)),
        PeripheralClockType::APB1(PCLK1::USART2) => Some((EnableRegister::Apb1enr1, 17u32)),
        PeripheralClockType::APB1(PCLK1::I2C1) => Some((EnableRegister::Apb1enr1, 21u32)),
        PeripheralClockType::APB1(PCLK1::DAC) => Some((EnableRegister::Apb1enr1, 29u32)),
        PeripheralClockType::APB2(PCLK2::USART1) => Some((EnableRegister::Apb2enr, 14u32)),
        PeripheralClockType::RTC => Some((EnableRegister::Bdcr, 15u32)),
        _ => None,
    }
}

/// Setting, clearing and testing one bit with the field operations.
proof fn lemma_single_bit(x: u32, b: u32)
    requires
        b < 32,
    ensures
        with_field(x, b, 1, 1) == x | (1u32 << b),
        with_field(x, b, 1, 0) == x & !(1u32 << b),
        with_field(with_field(x, b, 1, 1), b, 1, 0) == x & !(1u32 << b),
        field_is_set(x, b, 1) == ((x >> b) & 1 == 1),
{
    assert({
        &&& with_field(x, b, 1, 1) == x | (1u32 << b)
        &&& with_field(x, b, 1, 0) == x & !(1u32 << b)
        &&& with_field(with_field(x, b, 1, 1), b, 1, 0) == x & !(1u32 << b)
        &&& field_is_set(x, b, 1) == ((x >> b) & 1 == 1)
    }) by (bit_vector)
        requires
            b < 32,
    ;
}

/// A peripheral's clock is gated by its own enable bit and nothing else:
/// it reads as enabled exactly when that bit is set; enabling sets that bit
/// and leaves every other bit of every register as it was (I2C1 also ends
/// with its reset bit, bit 21 of APB1RSTR1, cleared; the RTC also turns the
/// LSI on and selects it, RTCSEL 0b10); disabling clears that bit alone (but for the
/// RTC, which keeps RTCEN set and deselects its source).
pub proof fn lemma_enable_bits(t: PeripheralClockType, regs: RccRegisters)
    requires
        t.can_enable(),
    ensures
        clock_enable_bit(t) is Some,
        ({
            let (reg, bit) = clock_enable_bit(t)->0;
            let after = t.spec_after_enable(regs);
            &&& t.spec_is_enabled(regs) == ((reg.value(regs) >> bit) & 1 == 1)
            &&& (reg.value(after) >> bit) & 1 == 1
            &&& t != PeripheralClockType::RTC && t != PeripheralClockType::APB1(PCLK1::I2C1)
                ==> after == reg.with_value(regs, reg.value(regs) | (1u32 << bit))
            &&& t == PeripheralClockType::APB1(PCLK1::I2C1) ==> after == RccRegisters {
                apb1rstr1: regs.apb1rstr1 & !(1u32 << 21u32),
                ..reg.with_value(regs, reg.value(regs) | (1u32 << bit))
            }
            &&& t == PeripheralClockType::RTC ==> {
                &&& after.ahb1enr == regs.ahb1enr
                &&& after.apb1enr1 == regs.apb1enr1
                &&& after.apb2enr == regs.apb2enr
                &&& after.apb1rstr1 == regs.apb1rstr1
                &&& after.cr == regs.cr
                &&& after.cfgr == regs.cfgr
                &&& after.pllcfgr == regs.pllcfgr
                &&& after.ahb2enr == regs.ahb2enr
                &&& after.ahb3enr == regs.ahb3enr
                &&& (after.csr & 1) == 1
                &&& field_of(after.bdcr, 8, 3) == 2
            }
            &&& t.can_disable() && t != PeripheralClockType::RTC ==> t.spec_after_disable(regs)
                == reg.with_value(regs, reg.value(regs) & !(1u32 << bit))
        }),
{
    let (reg, bit) = clock_enable_bit(t)->0;
    lemma_single_bit(reg.value(regs), bit);
    lemma_single_bit(regs.apb1rstr1, 21);
    if t == PeripheralClockType::RTC {
        let sel = with_field(regs.bdcr, BDCR_RTCSEL_SHIFT, BDCR_RTCSEL_MASK, 2);
        lemma_single_bit(sel, 15);
        let csr = regs.csr;
        lemma_single_bit(csr, 0);
        assert((csr | (1u32 << 0u32)) & 1 == 1) by (bit_vector);
        let bdcr = regs.bdcr;
        assert(((sel | (1u32 << 15u32)) >> 15u32) & 1 == 1) by (bit_vector);
        assert(field_of(with_field(bdcr, 8, 3, 2) | (1u32 << 15u32), 8, 3) == 2) by (bit_vector);
    } else {
        let v = reg.value(regs);
        assert(((v | (1u32 << bit)) >> bit) & 1 == 1) by (bit_vector)
            requires
                bit < 32,
        ;
    }
}

impl PeripheralClock {
    /// A clock for the peripheral `clock`.
    pub fn new(clock: PeripheralClockType) -> (r: Self)
        ensures
            r.clock == clock,
    {
        Self { clock }
    }

    /// Configures the clock of the RNG (see [`Rcc::configure_rng_clock`]).
    pub fn configure_rng_clock(&self, rcc: &mut Rcc)
        ensures
            final(rcc).registers == (RccRegisters {
                pllcfgr: with_field(old(rcc).registers.pllcfgr, crate::rcc::PLLCFGR_PLLQ_SHIFT, crate::rcc::PLLCFGR_PLLQ_MASK, 2),
                cr: with_field(old(rcc).registers.cr, crate::rcc::CR_PLLON, 1, 1),
                ..old(rcc).registers
            }),
    {
        rcc.configure_rng_clock();
    }

    /// The frequency of the peripheral's clock, given the HCLK frequency.
    pub open spec fn spec_frequency(&self, rcc: &Rcc, hclk_freq: usize) -> u32 {
        match self.clock {
            PeripheralClockType::APB1(PCLK1::TIM2) => spec_tim_freq(false, hclk_freq, rcc.spec_apb1_prescaler()) as u32,
            PeripheralClockType::APB1(_) => (hclk_freq / rcc.spec_apb1_prescaler().spec_divider()) as u32,
            PeripheralClockType::APB2(_) => (hclk_freq / rcc.spec_apb2_prescaler().spec_divider()) as u32,
            _ => hclk_freq as u32,
        }
    }

    /// The frequency of the peripheral's clock: HCLK for the AHB buses, PCLK
    /// for the APB buses and the timer clock for TIM2. The RTC clock
    /// frequency is not implemented.
    pub fn get_frequency(&self, rcc: &Rcc, hclk_freq: usize) -> (r: u32)
        requires
            self.clock != PeripheralClockType::RTC,
        ensures
            r == self.spec_frequency(rcc, hclk_freq),
    {
        match self.clock {
            PeripheralClockType::AHB1(_) | PeripheralClockType::AHB2(_) | PeripheralClockType::AHB3(_) => hclk_freq as u32,
            PeripheralClockType::APB1(v) => {
                let prescaler = rcc.get_apb1_prescaler();
                match v {
                    PCLK1::TIM2 => tim_freq(rcc, hclk_freq, prescaler) as u32,
                    _ => (hclk_freq / usize::from(prescaler)) as u32,
                }
            },
            PeripheralClockType::APB2(_) => {
                let prescaler = rcc.get_apb2_prescaler();
                (hclk_freq / usize::from(prescaler)) as u32
            },
            PeripheralClockType::RTC => 0,
        }
    }

    /// Whether the peripheral's clock is enabled.
    pub fn is_enabled(&self, rcc: &Rcc) -> (r: bool)
        requires
            self.clock.can_enable(),
        ensures
            r == self.clock.spec_is_enabled(rcc.registers),
    {
        match self.clock {
            PeripheralClockType::AHB1(HCLK1::DMA1) => rcc.is_enabled_dma1_clock(),
            PeripheralClockType::AHB1(HCLK1::DMA2) => rcc.is_enabled_dma2_clock(),
            PeripheralClockType::APB1(PCLK1::TIM2) => rcc.is_enabled_tim2_clock(),
            PeripheralClockType::APB1(PCLK1::USART2) => rcc.is_enabled_usart2_clock(),
            PeripheralClockType::APB1(PCLK1::I2C1) => rcc.is_enabled_i2c1_clock(),
            PeripheralClockType::APB1(PCLK1::DAC) => rcc.is_enabled_dac_clock(),
            PeripheralClockType::APB2(PCLK2::USART1) => rcc.is_enabled_usart1_clock(),
            _ => rcc.is_enabled_rtc_clock(),
        }
    }

    /// Enables the peripheral's clock; afterwards it reads as enabled.
    pub fn enable(&self, rcc: &mut Rcc)
        requires
            self.clock.can_enable(),
        ensures
            final(rcc).registers == self.clock.spec_after_enable(old(rcc).registers),
            self.clock.spec_is_enabled(final(rcc).registers),
    {
        match self.clock {
            PeripheralClockType::AHB1(HCLK1::DMA1) => rcc.enable_dma1_clock(),
            PeripheralClockType::AHB1(HCLK1::DMA2) => rcc.enable_dma2_clock(),
            PeripheralClockType::APB1(PCLK1::TIM2) => rcc.enable_tim2_clock(),
            PeripheralClockType::APB1(PCLK1::USART2) => rcc.enable_usart2_clock(),
            PeripheralClockType::APB1(PCLK1::I2C1) => rcc.enable_i2c1_clock(),
            PeripheralClockType::APB1(PCLK1::DAC) => rcc.enable_dac_clock(),
            PeripheralClockType::APB2(PCLK2::USART1) => rcc.enable_usart1_clock(),
            _ => rcc.enable_rtc_clock(RtcClockSource::LSI),
        }
    }

    /// Disables the peripheral's clock. Afterwards every clock but the RTC
    /// reads as disabled.
    pub fn disable(&self, rcc: &mut Rcc)
        requires
            self.clock.can_disable(),
        ensures
            final(rcc).registers == self.clock.spec_after_disable(old(rcc).registers),
            self.clock != PeripheralClockType::RTC ==> !self.clock.spec_is_enabled(final(rcc).registers),
    {
        match self.clock {
            PeripheralClockType::AHB1(HCLK1::DMA1) => rcc.disable_dma1_clock(),
            PeripheralClockType::AHB1(HCLK1::DMA2) => rcc.disable_dma2_clock(),
            PeripheralClockType::APB1(PCLK1::TIM2) => rcc.disable_tim2_clock(),
            PeripheralClockType::APB1(PCLK1::USART2) => rcc.disable_usart2_clock(),
            PeripheralClockType::APB1(PCLK1::DAC) => rcc.disable_dac_clock(),
            PeripheralClockType::APB2(PCLK2::USART1) => rcc.disable_usart1_clock(),
            _ => rcc.disable_rtc_clock(),
        }
    }
}

} // verus!
