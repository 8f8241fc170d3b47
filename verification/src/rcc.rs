//! Reset and clock control (RCC) of the STM32WLE5.
//!
//! The register file is held as plain values: each method computes the new
//! register contents exactly as a read-modify-write of the hardware register
//! would, so the board can copy them to and from the peripheral.
use vstd::prelude::*;
use vstd::std_specs::convert::FromSpecImpl;
use vstd::arithmetic::power2::{lemma2_to64, pow2};
use crate::bitfield::{
    clear_flag, field_is_set, field_of, field_wf, is_field_set,
    lemma_read_after_write, lemma_small_masks, read_field, set_flag, with_field, write_field,
};

verus! {

// RCC_CR
pub const CR_MSION: u32 = 0;
pub const CR_MSIRDY: u32 = 1;
pub const CR_HSION: u32 = 8;
pub const CR_HSIRDY: u32 = 10;
pub const CR_HSEON: u32 = 16;
pub const CR_HSERDY: u32 = 17;
pub const CR_HSEBYPPWR: u32 = 21;
pub const CR_PLLON: u32 = 24;
pub const CR_PLLRDY: u32 = 25;

// RCC_CFGR
pub const CFGR_SW_SHIFT: u32 = 0;
pub const CFGR_SW_MASK: u32 = 3;
pub const CFGR_SWS_SHIFT: u32 = 2;
pub const CFGR_SWS_MASK: u32 = 3;
pub const CFGR_HPRE_SHIFT: u32 = 4;
pub const CFGR_HPRE_MASK: u32 = 15;
pub const CFGR_PPRE1_SHIFT: u32 = 10;
pub const CFGR_PPRE1_MASK: u32 = 7;
pub const CFGR_PPRE2_SHIFT: u32 = 13;
pub const CFGR_PPRE2_MASK: u32 = 7;
pub const CFGR_MCOSEL_SHIFT: u32 = 24;
pub const CFGR_MCOSEL_MASK: u32 = 15;
pub const CFGR_MCOPRE_SHIFT: u32 = 28;
pub const CFGR_MCOPRE_MASK: u32 = 7;

// RCC_PLLCFGR
pub const PLLCFGR_PLLSRC_SHIFT: u32 = 0;
pub const PLLCFGR_PLLSRC_MASK: u32 = 3;
pub const PLLCFGR_PLLM_SHIFT: u32 = 4;
pub const PLLCFGR_PLLM_MASK: u32 = 7;
pub const PLLCFGR_PLLN_SHIFT: u32 = 8;
pub const PLLCFGR_PLLN_MASK: u32 = 127;
pub const PLLCFGR_PLLP_SHIFT: u32 = 17;
pub const PLLCFGR_PLLP_MASK: u32 = 31;
pub const PLLCFGR_PLLQ_SHIFT: u32 = 25;
pub const PLLCFGR_PLLQ_MASK: u32 = 7;

// Peripheral clock enable and reset bits
pub const AHB1ENR_DMA1EN: u32 = 0;
pub const AHB1ENR_DMA2EN: u32 = 1;
pub const AHB2ENR_GPIOAEN: u32 = 0;
pub const AHB2ENR_GPIOBEN: u32 = 1;
pub const AHB2ENR_GPIOCEN: u32 = 2;
pub const AHB2ENR_GPIOHEN: u32 = 7;
pub const AHB3ENR_RNGEN: u32 = 18;
pub const APB1ENR1_TIM2EN: u32 = 0;
pub const APB1ENR1_USART2EN: u32 = 17;
pub const APB1ENR1_I2C1EN: u32 = 21;
pub const APB1ENR1_DACEN: u32 = 29;
pub const APB1RSTR1_I2C1RST: u32 = 21;
pub const APB2ENR_ADCEN: u32 = 9;
pub const APB2ENR_USART1EN: u32 = 14;

// RCC_BDCR and RCC_CSR
pub const BDCR_RTCSEL_SHIFT: u32 = 8;
pub const BDCR_RTCSEL_MASK: u32 = 3;
pub const BDCR_RTCEN: u32 = 15;
pub const CSR_LSION: u32 = 0;

/// Number of polls of the LSI enable bit before giving up.
pub const LSI_POLL_LIMIT: u32 = 1000;

/// PLLN value after a hardware reset (N = 192).
pub const RESET_PLLN_VALUE: usize = 192;

/// The registers of the RCC that this driver reads and writes.
#[derive(Clone, Copy, PartialEq, Eq, Structural, Debug)]
pub struct RccRegisters {
    /// Clock control register.
    pub cr: u32,
    /// Clock configuration register.
    pub cfgr: u32,
    /// PLL configuration register.
    pub pllcfgr: u32,
    /// AHB1 peripheral clock enable register.
    pub ahb1enr: u32,
    /// AHB2 peripheral clock enable register.
    pub ahb2enr: u32,
    /// AHB3 peripheral clock enable register.
    pub ahb3enr: u32,
    /// APB1 peripheral reset register 1.
    pub apb1rstr1: u32,
    /// APB1 peripheral clock enable register 1.
    pub apb1enr1: u32,
    /// APB2 peripheral clock enable register.
    pub apb2enr: u32,
    /// Backup domain control register.
    pub bdcr: u32,
    /// Control/status register.
    pub csr: u32,
}

/// Clock sources for the RTC.
#[derive(Clone, Copy, PartialEq, Eq, Structural, Debug)]
pub enum RtcClockSource {
    LSI,
    LSE,
    HSERTC,
}

/// Clock sources for the CPU.
#[derive(Clone, Copy, PartialEq, Eq, Structural, Debug)]
pub enum SysClockSource {
    MSI,
    HSI,
    HSE,
    PLL,
}

/// Entry clock of the main PLL.
#[derive(Clone, Copy, PartialEq, Eq, Structural, Debug)]
pub enum PllSource {
    MSI,
    HSI,
    HSE,
}

/// Clock routed to the MCO pin.
#[derive(Clone, Copy, PartialEq, Eq, Structural, Debug)]
pub enum MCO1Source {
    HSI,
    HSE,
    PLL,
}

/// Prescaler of the MCO pin.
#[derive(Clone, Copy, PartialEq, Eq, Structural, Debug)]
pub enum MCO1Divider {
    DivideBy1,
    DivideBy2,
    DivideBy3,
    DivideBy4,
    DivideBy5,
}

/// HSE mode.
#[derive(Clone, Copy, PartialEq, Eq, Structural, Debug)]
pub enum HseMode {
    BYPASS,
    CRYSTAL,
}

/// HCLK1 prescaler.
#[derive(Clone, Copy, PartialEq, Eq, Structural, Debug)]
pub enum AHBPrescaler {
    DivideBy1,
    DivideBy2,
    DivideBy4,
    DivideBy8,
    DivideBy16,
    DivideBy64,
    DivideBy128,
    DivideBy256,
    DivideBy512,
}

/// PCLK1 and PCLK2 prescaler.
#[derive(Clone, Copy, PartialEq, Eq, Structural, Debug)]
pub enum APBPrescaler {
    DivideBy1,
    DivideBy2,
    DivideBy4,
    DivideBy8,
    DivideBy16,
}

/// Main PLL division factor for PLLPCLK.
#[derive(Clone, Copy, PartialEq, Eq, Structural, Debug)]
pub enum PLLP {
    DivideBy2,
    DivideBy4,
    DivideBy6,
    DivideBy8,
}

/// Main PLL division factor for the PLL input clock.
#[derive(Clone, Copy, PartialEq, Eq, Structural, Debug)]
pub enum PLLM {
    DivideBy8,
    DivideBy16,
}

/// Main PLL division factor for PLLQCLK.
#[derive(Clone, Copy, PartialEq, Eq, Structural, Debug)]
pub enum PLLQ {
    DivideBy3,
    DivideBy4,
    DivideBy5,
    DivideBy6,
    DivideBy7,
    DivideBy8,
    DivideBy9,
}

/// Default PLLM divider used when the RCC is initialised (reduced PLL jitter).
pub open spec fn default_pllm() -> PLLM {
    PLLM::DivideBy8
}

/// Default PLLN multiplier: the hardware reset value.
pub const DEFAULT_PLLN_VALUE: usize = RESET_PLLN_VALUE;

/// Default PLLP divider for a PLLM divider.
pub open spec fn spec_default_pllp(m: PLLM) -> PLLP {
    match m {
        PLLM::DivideBy16 => PLLP::DivideBy2,
        PLLM::DivideBy8 => PLLP::DivideBy4,
    }
}

/// Default PLLQ divider for a PLLM divider.
pub open spec fn spec_default_pllq(m: PLLM) -> PLLQ {
    match m {
        PLLM::DivideBy16 => PLLQ::DivideBy4,
        PLLM::DivideBy8 => PLLQ::DivideBy8,
    }
}

/// The PLLM divider the RCC is initialised with.
pub fn default_pllm_value() -> (r: PLLM)
    ensures
        r == default_pllm(),
{
    PLLM::DivideBy8
}

/// The PLLP divider that goes with a PLLM divider.
pub fn default_pllp_value(m: PLLM) -> (r: PLLP)
    ensures
        r == spec_default_pllp(m),
{
    match m {
        PLLM::DivideBy16 => PLLP::DivideBy2,
        PLLM::DivideBy8 => PLLP::DivideBy4,
    }
}

/// The PLLQ divider that goes with a PLLM divider.
pub fn default_pllq_value(m: PLLM) -> (r: PLLQ)
    ensures
        r == spec_default_pllq(m),
{
    match m {
        PLLM::DivideBy16 => PLLQ::DivideBy4,
        PLLM::DivideBy8 => PLLQ::DivideBy8,
    }
}

impl SysClockSource {
    /// Encoding in the SW field.
    pub open spec fn spec_bits(self) -> u32 {
        match self {
            SysClockSource::MSI => 0,
            SysClockSource::HSI => 1,
            SysClockSource::HSE => 2,
            SysClockSource::PLL => 3,
        }
    }

    /// Encoding in the SW field.
    pub fn bits(self) -> (r: u32)
        ensures
            r == self.spec_bits(),
    {
        match self {
            SysClockSource::MSI => 0,
            SysClockSource::HSI => 1,
            SysClockSource::HSE => 2,
            SysClockSource::PLL => 3,
        }
    }

    /// Decoding of the SWS field.
    pub open spec fn from_bits(b: u32) -> SysClockSource {
        if b == 0 {
            SysClockSource::MSI
        } else if b == 1 {
            SysClockSource::HSI
        } else if b == 2 {
            SysClockSource::HSE
        } else {
            SysClockSource::PLL
        }
    }
}

impl PllSource {
    /// Encoding in the PLLSRC field.
    pub open spec fn spec_bits(self) -> u32 {
        match self {
            PllSource::MSI => 1,
            PllSource::HSI => 2,
            PllSource::HSE => 3,
        }
    }

    /// Encoding in the PLLSRC field.
    pub fn bits(self) -> (r: u32)
        ensures
            r == self.spec_bits(),
    {
        match self {
            PllSource::MSI => 1,
            PllSource::HSI => 2,
            PllSource::HSE => 3,
        }
    }

    /// Decoding of the PLLSRC field: 0b01 is MSI, 0b10 HSI16, 0b11 HSE32,
    /// and 0b00 selects no clock.
    pub open spec fn from_bits(b: u32) -> Option<PllSource> {
        if b == 1 {
            Some(PllSource::MSI)
        } else if b == 2 {
            Some(PllSource::HSI)
        } else if b == 3 {
            Some(PllSource::HSE)
        } else {
            None
        }
    }
}

impl MCO1Source {
    /// Encoding in the MCOSEL field.
    pub open spec fn spec_bits(self) -> u32 {
        match self {
            MCO1Source::HSI => 0,
            MCO1Source::HSE => 2,
            MCO1Source::PLL => 3,
        }
    }

    /// Encoding in the MCOSEL field.
    pub fn bits(self) -> (r: u32)
        ensures
            r == self.spec_bits(),
    {
        match self {
            MCO1Source::HSI => 0,
            MCO1Source::HSE => 2,
            MCO1Source::PLL => 3,
        }
    }

    /// Decoding of the MCOSEL field.
    pub open spec fn from_bits(b: u32) -> MCO1Source {
        if b == 0 {
            MCO1Source::HSI
        } else if b == 2 {
            MCO1Source::HSE
        } else {
            MCO1Source::PLL
        }
    }
}

impl MCO1Divider {
    /// Encoding in the MCOPRE field.
    pub open spec fn spec_bits(self) -> u32 {
        match self {
            MCO1Divider::DivideBy1 => 0,
            MCO1Divider::DivideBy2 => 4,
            MCO1Divider::DivideBy3 => 5,
            MCO1Divider::DivideBy4 => 6,
            MCO1Divider::DivideBy5 => 7,
        }
    }

    /// Encoding in the MCOPRE field.
    pub fn bits(self) -> (r: u32)
        ensures
            r == self.spec_bits(),
    {
        match self {
            MCO1Divider::DivideBy1 => 0,
            MCO1Divider::DivideBy2 => 4,
            MCO1Divider::DivideBy3 => 5,
            MCO1Divider::DivideBy4 => 6,
            MCO1Divider::DivideBy5 => 7,
        }
    }

    /// The division factor: X for `DivideByX`.
    pub open spec fn spec_divider(self) -> usize {
        match self {
            MCO1Divider::DivideBy1 => 1,
            MCO1Divider::DivideBy2 => 2,
            MCO1Divider::DivideBy3 => 3,
            MCO1Divider::DivideBy4 => 4,
            MCO1Divider::DivideBy5 => 5,
        }
    }

    /// Decoding of the MCOPRE field.
    pub open spec fn from_bits(b: u32) -> MCO1Divider {
        if b == 4 {
            MCO1Divider::DivideBy2
        } else if b == 5 {
            MCO1Divider::DivideBy3
        } else if b == 6 {
            MCO1Divider::DivideBy4
        } else if b == 7 {
            MCO1Divider::DivideBy5
        } else {
            MCO1Divider::DivideBy1
        }
    }
}

impl AHBPrescaler {
    /// Encoding in the HPRE field.
    pub open spec fn spec_bits(self) -> u32 {
        match self {
            AHBPrescaler::DivideBy1 => 0,
            AHBPrescaler::DivideBy2 => 8,
            AHBPrescaler::DivideBy4 => 9,
            AHBPrescaler::DivideBy8 => 10,
            AHBPrescaler::DivideBy16 => 11,
            AHBPrescaler::DivideBy64 => 12,
            AHBPrescaler::DivideBy128 => 13,
            AHBPrescaler::DivideBy256 => 14,
            AHBPrescaler::DivideBy512 => 15,
        }
    }

    /// Encoding in the HPRE field.
    pub fn bits(self) -> (r: u32)
        ensures
            r == self.spec_bits(),
    {
        match self {
            AHBPrescaler::DivideBy1 => 0,
            AHBPrescaler::DivideBy2 => 8,
            AHBPrescaler::DivideBy4 => 9,
            AHBPrescaler::DivideBy8 => 10,
            AHBPrescaler::DivideBy16 => 11,
            AHBPrescaler::DivideBy64 => 12,
            AHBPrescaler::DivideBy128 => 13,
            AHBPrescaler::DivideBy256 => 14,
            AHBPrescaler::DivideBy512 => 15,
        }
    }

    /// Decoding of the HPRE field: values below 8 mean no division.
    pub open spec fn from_bits(b: u32) -> AHBPrescaler {
        if b == 8 {
            AHBPrescaler::DivideBy2
        } else if b == 9 {
            AHBPrescaler::DivideBy4
        } else if b == 10 {
            AHBPrescaler::DivideBy8
        } else if b == 11 {
            AHBPrescaler::DivideBy16
        } else if b == 12 {
            AHBPrescaler::DivideBy64
        } else if b == 13 {
            AHBPrescaler::DivideBy128
        } else if b == 14 {
            AHBPrescaler::DivideBy256
        } else if b == 15 {
            AHBPrescaler::DivideBy512
        } else {
            AHBPrescaler::DivideBy1
        }
    }

    /// The division factor.
    pub open spec fn spec_divider(self) -> usize {
        match self {
            AHBPrescaler::DivideBy1 => 1,
            AHBPrescaler::DivideBy2 => 2,
            AHBPrescaler::DivideBy4 => 4,
            AHBPrescaler::DivideBy8 => 8,
            AHBPrescaler::DivideBy16 => 16,
            AHBPrescaler::DivideBy64 => 64,
            AHBPrescaler::DivideBy128 => 128,
            AHBPrescaler::DivideBy256 => 256,
            AHBPrescaler::DivideBy512 => 512,
        }
    }
}

impl APBPrescaler {
    /// Encoding in the PPRE1 and PPRE2 fields.
    pub open spec fn spec_bits(self) -> u32 {
        match self {
            APBPrescaler::DivideBy1 => 0,
            APBPrescaler::DivideBy2 => 4,
            APBPrescaler::DivideBy4 => 5,
            APBPrescaler::DivideBy8 => 6,
            APBPrescaler::DivideBy16 => 7,
        }
    }

    /// Encoding in the PPRE1 and PPRE2 fields.
    pub fn bits(self) -> (r: u32)
        ensures
            r == self.spec_bits(),
    {
        match self {
            APBPrescaler::DivideBy1 => 0,
            APBPrescaler::DivideBy2 => 4,
            APBPrescaler::DivideBy4 => 5,
            APBPrescaler::DivideBy8 => 6,
            APBPrescaler::DivideBy16 => 7,
        }
    }

    /// Decoding of the PPRE1 and PPRE2 fields: 0b0xx means no division.
    pub open spec fn from_bits(b: u32) -> APBPrescaler {
        if b == 4 {
            APBPrescaler::DivideBy2
        } else if b == 5 {
            APBPrescaler::DivideBy4
        } else if b == 6 {
            APBPrescaler::DivideBy8
        } else if b == 7 {
            APBPrescaler::DivideBy16
        } else {
            APBPrescaler::DivideBy1
        }
    }

    /// The division factor.
    pub open spec fn spec_divider(self) -> usize {
        match self {
            APBPrescaler::DivideBy1 => 1,
            APBPrescaler::DivideBy2 => 2,
            APBPrescaler::DivideBy4 => 4,
            APBPrescaler::DivideBy8 => 8,
            APBPrescaler::DivideBy16 => 16,
        }
    }
}

impl PLLP {
    /// Encoding in the PLLP field.
    pub open spec fn spec_bits(self) -> u32 {
        match self {
            PLLP::DivideBy2 => 0,
            PLLP::DivideBy4 => 1,
            PLLP::DivideBy6 => 2,
            PLLP::DivideBy8 => 3,
        }
    }

    /// Encoding in the PLLP field.
    pub fn bits(self) -> (r: u32)
        ensures
            r == self.spec_bits(),
    {
        match self {
            PLLP::DivideBy2 => 0,
            PLLP::DivideBy4 => 1,
            PLLP::DivideBy6 => 2,
            PLLP::DivideBy8 => 3,
        }
    }

    /// Decoding of the PLLP field.
    pub open spec fn from_bits(b: u32) -> PLLP {
        if b == 0 {
            PLLP::DivideBy2
        } else if b == 1 {
            PLLP::DivideBy4
        } else if b == 2 {
            PLLP::DivideBy6
        } else {
            PLLP::DivideBy8
        }
    }

    /// The division factor: `(encoding + 1) * 2`.
    pub open spec fn spec_divider(self) -> usize {
        ((self.spec_bits() + 1) * 2) as usize
    }
}

impl PLLM {
    /// The value written to the PLLM field.
    pub open spec fn spec_bits(self) -> u32 {
        match self {
            PLLM::DivideBy8 => 8,
            PLLM::DivideBy16 => 16,
        }
    }

    /// The value written to the PLLM field.
    pub fn bits(self) -> (r: u32)
        ensures
            r == self.spec_bits(),
    {
        match self {
            PLLM::DivideBy8 => 8,
            PLLM::DivideBy16 => 16,
        }
    }
}

impl PLLM {
    /// The division factor: X for `DivideByX`.
    pub open spec fn spec_divider(self) -> usize {
        match self {
            PLLM::DivideBy8 => 8,
            PLLM::DivideBy16 => 16,
        }
    }
}

impl PLLQ {
    /// The value written to the PLLQ field.
    pub open spec fn spec_bits(self) -> u32 {
        match self {
            PLLQ::DivideBy3 => 3,
            PLLQ::DivideBy4 => 4,
            PLLQ::DivideBy5 => 5,
            PLLQ::DivideBy6 => 6,
            PLLQ::DivideBy7 => 7,
            PLLQ::DivideBy8 => 8,
            PLLQ::DivideBy9 => 9,
        }
    }

    /// The value written to the PLLQ field.
    pub fn bits(self) -> (r: u32)
        ensures
            r == self.spec_bits(),
    {
        match self {
            PLLQ::DivideBy3 => 3,
            PLLQ::DivideBy4 => 4,
            PLLQ::DivideBy5 => 5,
            PLLQ::DivideBy6 => 6,
            PLLQ::DivideBy7 => 7,
            PLLQ::DivideBy8 => 8,
            PLLQ::DivideBy9 => 9,
        }
    }

    /// The division factor: X for `DivideByX`.
    pub open spec fn spec_divider(self) -> usize {
        match self {
            PLLQ::DivideBy3 => 3,
            PLLQ::DivideBy4 => 4,
            PLLQ::DivideBy5 => 5,
            PLLQ::DivideBy6 => 6,
            PLLQ::DivideBy7 => 7,
            PLLQ::DivideBy8 => 8,
            PLLQ::DivideBy9 => 9,
        }
    }

    /// Decoding of the PLLQ field, defined on 3 to 9.
    pub open spec fn from_bits(b: u32) -> PLLQ {
        if b == 3 {
            PLLQ::DivideBy3
        } else if b == 4 {
            PLLQ::DivideBy4
        } else if b == 5 {
            PLLQ::DivideBy5
        } else if b == 6 {
            PLLQ::DivideBy6
        } else if b == 7 {
            PLLQ::DivideBy7
        } else if b == 8 {
            PLLQ::DivideBy8
        } else {
            PLLQ::DivideBy9
        }
    }
}

/// The fields of the RCC that hold more than one bit all fit in their register.
pub proof fn lemma_rcc_fields_wf()
    ensures
        field_wf(CFGR_SW_SHIFT, CFGR_SW_MASK),
        field_wf(CFGR_SWS_SHIFT, CFGR_SWS_MASK),
        field_wf(CFGR_HPRE_SHIFT, CFGR_HPRE_MASK),
        field_wf(CFGR_PPRE1_SHIFT, CFGR_PPRE1_MASK),
        field_wf(CFGR_PPRE2_SHIFT, CFGR_PPRE2_MASK),
        field_wf(CFGR_MCOSEL_SHIFT, CFGR_MCOSEL_MASK),
        field_wf(CFGR_MCOPRE_SHIFT, CFGR_MCOPRE_MASK),
        field_wf(PLLCFGR_PLLSRC_SHIFT, PLLCFGR_PLLSRC_MASK),
        field_wf(PLLCFGR_PLLM_SHIFT, PLLCFGR_PLLM_MASK),
        field_wf(PLLCFGR_PLLN_SHIFT, PLLCFGR_PLLN_MASK),
        field_wf(PLLCFGR_PLLP_SHIFT, PLLCFGR_PLLP_MASK),
        field_wf(PLLCFGR_PLLQ_SHIFT, PLLCFGR_PLLQ_MASK),
        field_wf(BDCR_RTCSEL_SHIFT, BDCR_RTCSEL_MASK),
{
    assert(
        (3u32 << 0u32) >> 0u32 == 3u32
        && (3u32 << 2u32) >> 2u32 == 3u32
        && (15u32 << 4u32) >> 4u32 == 15u32
        && (7u32 << 10u32) >> 10u32 == 7u32
        && (7u32 << 13u32) >> 13u32 == 7u32
        && (15u32 << 24u32) >> 24u32 == 15u32
        && (7u32 << 28u32) >> 28u32 == 7u32
        && (7u32 << 4u32) >> 4u32 == 7u32
        && (127u32 << 8u32) >> 8u32 == 127u32
        && (31u32 << 17u32) >> 17u32 == 31u32
        && (7u32 << 25u32) >> 25u32 == 7u32
        && (3u32 << 8u32) >> 8u32 == 3u32
    ) by (bit_vector);
}

/// Writing `value` to a field that can hold it reads back as `value`.
pub proof fn lemma_field_roundtrip(reg: u32, shift: u32, mask: u32, value: u32)
    requires
        field_wf(shift, mask),
        value <= mask,
        mask == 3 || mask == 7 || mask == 15 || mask == 31 || mask == 127,
    ensures
        field_of(with_field(reg, shift, mask, value), shift, mask) == value,
{
    lemma_read_after_write(reg, shift, mask, value);
    lemma_small_masks();
}

/// Every register encoding of a prescaler, divider or clock source decodes
/// back to the setting it encodes.
pub proof fn lemma_encodings_decode(
    sys: SysClockSource,
    mco_src: MCO1Source,
    mco_div: MCO1Divider,
    ahb: AHBPrescaler,
    apb: APBPrescaler,
    p: PLLP,
    q: PLLQ,
)
    ensures
        SysClockSource::from_bits(sys.spec_bits()) == sys,
        MCO1Source::from_bits(mco_src.spec_bits()) == mco_src,
        MCO1Divider::from_bits(mco_div.spec_bits()) == mco_div,
        AHBPrescaler::from_bits(ahb.spec_bits()) == ahb,
        APBPrescaler::from_bits(apb.spec_bits()) == apb,
        PLLP::from_bits(p.spec_bits()) == p,
        PLLQ::from_bits(q.spec_bits()) == q,
{
}

/// The division factor of `DivideByX` is X; for PLLP it is
/// `(encoding + 1) * 2`.
pub proof fn lemma_dividers(ahb: AHBPrescaler, apb: APBPrescaler, p: PLLP)
    ensures
        ahb.spec_divider() == match ahb {
            AHBPrescaler::DivideBy1 => 1usize,
            AHBPrescaler::DivideBy2 => 2,
            AHBPrescaler::DivideBy4 => 4,
            AHBPrescaler::DivideBy8 => 8,
            AHBPrescaler::DivideBy16 => 16,
            AHBPrescaler::DivideBy64 => 64,
            AHBPrescaler::DivideBy128 => 128,
            AHBPrescaler::DivideBy256 => 256,
            AHBPrescaler::DivideBy512 => 512,
        },
        apb.spec_divider() == match apb {
            APBPrescaler::DivideBy1 => 1usize,
            APBPrescaler::DivideBy2 => 2,
            APBPrescaler::DivideBy4 => 4,
            APBPrescaler::DivideBy8 => 8,
            APBPrescaler::DivideBy16 => 16,
        },
        p.spec_divider() == match p {
            PLLP::DivideBy2 => 2usize,
            PLLP::DivideBy4 => 4,
            PLLP::DivideBy6 => 6,
            PLLP::DivideBy8 => 8,
        },
{
}

/// The fields sit where the reference manual places them: in CFGR, SW at
/// bits 1:0, SWS 3:2, HPRE 7:4, PPRE1 12:10, PPRE2 15:13, MCOSEL 27:24 and
/// MCOPRE 30:28; in PLLCFGR, PLLSRC 1:0, PLLM 6:4, PLLN 14:8, PLLP 21:17 and
/// PLLQ 27:25; in BDCR, RTCSEL 9:8 and RTCEN bit 15; in CSR, LSION bit 0;
/// in CR, MSION 0, MSIRDY 1, HSION 8, HSIRDY 10, HSEON 16, HSERDY 17,
/// HSEBYPPWR 21, PLLON 24 and PLLRDY 25; GPIOAEN, GPIOBEN, GPIOCEN and
/// GPIOHEN at bits 0, 1, 2 and 7 of AHB2ENR, RNGEN at bit 18 of AHB3ENR,
/// ADCEN at bit 9 of APB2ENR and I2C1RST at bit 21 of APB1RSTR1.
pub proof fn lemma_register_layout()
    ensures
        CFGR_SW_SHIFT == 0 && CFGR_SW_MASK == 0b11,
        CFGR_SWS_SHIFT == 2 && CFGR_SWS_MASK == 0b11,
        CFGR_HPRE_SHIFT == 4 && CFGR_HPRE_MASK == 0b1111,
        CFGR_PPRE1_SHIFT == 10 && CFGR_PPRE1_MASK == 0b111,
        CFGR_PPRE2_SHIFT == 13 && CFGR_PPRE2_MASK == 0b111,
        CFGR_MCOSEL_SHIFT == 24 && CFGR_MCOSEL_MASK == 0b1111,
        CFGR_MCOPRE_SHIFT == 28 && CFGR_MCOPRE_MASK == 0b111,
        PLLCFGR_PLLSRC_SHIFT == 0 && PLLCFGR_PLLSRC_MASK == 0b11,
        PLLCFGR_PLLM_SHIFT == 4 && PLLCFGR_PLLM_MASK == 0b111,
        PLLCFGR_PLLN_SHIFT == 8 && PLLCFGR_PLLN_MASK == 0b111_1111,
        PLLCFGR_PLLP_SHIFT == 17 && PLLCFGR_PLLP_MASK == 0b1_1111,
        PLLCFGR_PLLQ_SHIFT == 25 && PLLCFGR_PLLQ_MASK == 0b111,
        BDCR_RTCSEL_SHIFT == 8 && BDCR_RTCSEL_MASK == 0b11 && BDCR_RTCEN == 15,
        CSR_LSION == 0,
        CR_MSION == 0 && CR_MSIRDY == 1 && CR_HSION == 8 && CR_HSIRDY == 10,
        CR_HSEON == 16 && CR_HSERDY == 17 && CR_HSEBYPPWR == 21,
        CR_PLLON == 24 && CR_PLLRDY == 25,
        AHB2ENR_GPIOAEN == 0 && AHB2ENR_GPIOBEN == 1 && AHB2ENR_GPIOCEN == 2 && AHB2ENR_GPIOHEN == 7,
        AHB3ENR_RNGEN == 18 && APB2ENR_ADCEN == 9 && APB1RSTR1_I2C1RST == 21,
{
}

/// The default PLL dividers give the documented outputs from the 16 MHz HSI
/// with N = 192, whichever PLLM divider is chosen: a 96 MHz main output and
/// a 48 MHz PLL48CLK.
pub proof fn lemma_default_pll_outputs(m: PLLM)
    ensures
        16_000_000int / (m.spec_divider() as int) * 192 / (spec_default_pllp(m).spec_divider() as int) == 96_000_000,
        16_000_000int / (m.spec_divider() as int) * 192 / (spec_default_pllq(m).spec_divider() as int) == 48_000_000,
        DEFAULT_PLLN_VALUE == 192,
{
    match m {
        PLLM::DivideBy8 => {
            assert(16_000_000int / 8 * 192 / 4 == 96_000_000) by (nonlinear_arith);
            assert(16_000_000int / 8 * 192 / 8 == 48_000_000) by (nonlinear_arith);
        },
        PLLM::DivideBy16 => {
            assert(16_000_000int / 16 * 192 / 2 == 96_000_000) by (nonlinear_arith);
            assert(16_000_000int / 16 * 192 / 4 == 48_000_000) by (nonlinear_arith);
        },
    }
}

/// The division the hardware applies for a PPRE1/PPRE2 field value: 0b0xx
/// does not divide, 0b1xx divides by 2 to the power xx + 1.
pub open spec fn ppre_division(bits: u32) -> nat {
    if bits < 4 {
        1
    } else {
        pow2((bits - 3) as nat)
    }
}

/// The division the hardware applies for an HPRE field value: 0b0xxx does
/// not divide, 0b10xx divides by 2 to the power xx + 1, 0b11xx by 2 to the
/// power xx + 3 (there is no division by 32).
pub open spec fn hpre_division(bits: u32) -> nat {
    if bits < 8 {
        1
    } else if bits < 12 {
        pow2((bits - 7) as nat)
    } else {
        pow2((bits - 6) as nat)
    }
}

/// Each APB prescaler is written as the PPRE value that makes the hardware
/// divide by its factor, and each PPRE value reads back as the prescaler
/// dividing by what the hardware divides by.
pub proof fn lemma_apb_prescaler_encoding(apb: APBPrescaler, bits: u32)
    ensures
        ppre_division(apb.spec_bits()) == apb.spec_divider(),
        apb.spec_bits() < 8,
        bits < 8 ==> APBPrescaler::from_bits(bits).spec_divider() == ppre_division(bits),
{
    lemma2_to64();
}

/// Each AHB prescaler is written as the HPRE value that makes the hardware
/// divide by its factor, and each HPRE value reads back as the prescaler
/// dividing by what the hardware divides by.
pub proof fn lemma_ahb_prescaler_encoding(ahb: AHBPrescaler, bits: u32)
    ensures
        hpre_division(ahb.spec_bits()) == ahb.spec_divider(),
        ahb.spec_bits() < 16,
        bits < 16 ==> AHBPrescaler::from_bits(bits).spec_divider() == hpre_division(bits),
{
    lemma2_to64();
}

/// The PLL and MCO dividers are written as the driver defines them: the
/// PLLQ and PLLM fields get the divider's own number, the PLLP field the
/// value `v` with `(v + 1) * 2` the divider, and the MCOPRE field 0 for no
/// division and `d + 2` for a division by `d` from 2 to 5. Reading a field
/// back gives the divider it encodes.
pub proof fn lemma_divider_encodings(q: PLLQ, m: PLLM, p: PLLP, mco: MCO1Divider, bits: u32)
    ensures
        q.spec_bits() == q.spec_divider(),
        3 <= bits <= 9 ==> PLLQ::from_bits(bits).spec_divider() == bits,
        m.spec_bits() == m.spec_divider(),
        (p.spec_bits() + 1) * 2 == p.spec_divider(),
        bits < 4 ==> (bits + 1) * 2 == PLLP::from_bits(bits).spec_divider(),
        mco.spec_bits() == if mco.spec_divider() == 1 { 0 } else { mco.spec_divider() + 2 },
        4 <= bits < 8 ==> MCO1Divider::from_bits(bits).spec_divider() + 2 == bits,
        bits < 4 ==> MCO1Divider::from_bits(bits).spec_divider() == 1,
{
}

/// The clock selections are written with their fixed field values: SW/SWS
/// MSI 0b00, HSI16 0b01, HSE32 0b10, PLL 0b11; PLLSRC MSI 0b01, HSI16 0b10,
/// HSE32 0b11; MCOSEL HSI16 0b0000, HSE32 0b0010, PLL 0b0011; RTCSEL LSE
/// 0b01, LSI 0b10, HSE32/32 0b11. Reading SWS
/// back gives the clock it encodes.
pub proof fn lemma_clock_selection_encodings(bits: u32)
    ensures
        SysClockSource::MSI.spec_bits() == 0,
        SysClockSource::HSI.spec_bits() == 1,
        SysClockSource::HSE.spec_bits() == 2,
        SysClockSource::PLL.spec_bits() == 3,
        bits < 4 ==> SysClockSource::from_bits(bits).spec_bits() == bits,
        PllSource::MSI.spec_bits() == 1,
        PllSource::HSI.spec_bits() == 2,
        PllSource::HSE.spec_bits() == 3,
        MCO1Source::HSI.spec_bits() == 0,
        MCO1Source::HSE.spec_bits() == 2,
        MCO1Source::PLL.spec_bits() == 3,
        Rcc::spec_source_into_u32(RtcClockSource::LSE) == 1,
        Rcc::spec_source_into_u32(RtcClockSource::LSI) == 2,
        Rcc::spec_source_into_u32(RtcClockSource::HSERTC) == 3,
{
}

/// Every entry clock reads back from the PLLSRC field as itself.
pub proof fn lemma_pll_source_roundtrip(source: PllSource)
    ensures
        PllSource::from_bits(source.spec_bits()) == Some(source),
{
}

/// The default PLL configuration reads back as: HSI entry clock, P divides
/// by 4, N holds the low seven bits of 192, and the 3-bit M and Q fields hold
/// the low bits of 8. Every other bit of the register keeps its value.
pub proof fn lemma_default_pll_configuration(pllcfgr: u32)
    ensures
        ({
            let r = Rcc::spec_default_pllcfgr(pllcfgr);
            &&& field_of(r, PLLCFGR_PLLSRC_SHIFT, PLLCFGR_PLLSRC_MASK) == PllSource::HSI.spec_bits()
            &&& PllSource::from_bits(field_of(r, PLLCFGR_PLLSRC_SHIFT, PLLCFGR_PLLSRC_MASK)) == Some(PllSource::HSI)
            &&& field_of(r, PLLCFGR_PLLM_SHIFT, PLLCFGR_PLLM_MASK) == 0
            &&& field_of(r, PLLCFGR_PLLN_SHIFT, PLLCFGR_PLLN_MASK) == 64
            &&& PLLP::from_bits(field_of(r, PLLCFGR_PLLP_SHIFT, PLLCFGR_PLLP_MASK)) == PLLP::DivideBy4
            &&& field_of(r, PLLCFGR_PLLQ_SHIFT, PLLCFGR_PLLQ_MASK) == 0
            &&& r & !0x0e3e_7f73u32 == pllcfgr & !0x0e3e_7f73u32
        }),
{
    let r1 = with_field(pllcfgr, 0, 3, 2);
    let r2 = with_field(r1, 4, 7, 8);
    let r3 = with_field(r2, 8, 127, 192);
    let r4 = with_field(r3, 17, 31, 1);
    let r5 = with_field(r4, 25, 7, 8);
    assert(r5 == Rcc::spec_default_pllcfgr(pllcfgr));
    assert({
        &&& field_of(r5, 0, 3) == 2
        &&& field_of(r5, 4, 7) == 0
        &&& field_of(r5, 8, 127) == 64
        &&& field_of(r5, 17, 31) == 1
        &&& field_of(r5, 25, 7) == 0
        &&& r5 & !0x0e3e_7f73u32 == pllcfgr & !0x0e3e_7f73u32
    }) by (bit_vector)
        requires
            r1 == with_field(pllcfgr, 0, 3, 2),
            r2 == with_field(r1, 4, 7, 8),
            r3 == with_field(r2, 8, 127, 192),
            r4 == with_field(r3, 17, 31, 1),
            r5 == with_field(r4, 25, 7, 8),
    ;
}

/// Reset and clock control.
pub struct Rcc {
    /// Current contents of the RCC registers.
    pub registers: RccRegisters,
}

impl Rcc {
    /// The PLL configuration register after the default PLL set-up.
    pub open spec fn spec_default_pllcfgr(pllcfgr: u32) -> u32 {
        let r1 = with_field(pllcfgr, PLLCFGR_PLLSRC_SHIFT, PLLCFGR_PLLSRC_MASK, PllSource::HSI.spec_bits());
        let r2 = with_field(r1, PLLCFGR_PLLM_SHIFT, PLLCFGR_PLLM_MASK, default_pllm().spec_bits());
        let r3 = with_field(r2, PLLCFGR_PLLN_SHIFT, PLLCFGR_PLLN_MASK, DEFAULT_PLLN_VALUE as u32);
        let r4 = with_field(r3, PLLCFGR_PLLP_SHIFT, PLLCFGR_PLLP_MASK, spec_default_pllp(default_pllm()).spec_bits());
        with_field(r4, PLLCFGR_PLLQ_SHIFT, PLLCFGR_PLLQ_MASK, spec_default_pllq(default_pllm()).spec_bits())
    }

    /// Takes control of the RCC whose registers currently hold `registers`
    /// and applies the default PLL configuration.
    pub fn new(registers: RccRegisters) -> (rcc: Self)
        ensures
            rcc.registers == (RccRegisters {
                pllcfgr: Self::spec_default_pllcfgr(registers.pllcfgr),
                ..registers
            }),
    {
        let mut rcc = Self { registers };
        rcc.init();
        rcc
    }

    // Some clocks need to be initialized before use
    fn init(&mut self)
        ensures
            final(self).registers == (RccRegisters {
                pllcfgr: Self::spec_default_pllcfgr(old(self).registers.pllcfgr),
                ..old(self).registers
            }),
    {
        self.init_pll_clock();
    }

    // Default PLL configuration: HSI source, M = 8, the reset N and the
    // matching P and Q dividers.
    fn init_pll_clock(&mut self)
        ensures
            final(self).registers == (RccRegisters {
                pllcfgr: Self::spec_default_pllcfgr(old(self).registers.pllcfgr),
                ..old(self).registers
            }),
    {
        let m = default_pllm_value();
        self.set_pll_clocks_source(PllSource::HSI);
        self.set_pll_clocks_m_divider(m);
        self.set_pll_clock_n_multiplier(DEFAULT_PLLN_VALUE);
        self.set_pll_clock_p_divider(default_pllp_value(m));
        self.set_pll_clock_q_divider(default_pllq_value(m));
    }

    /// The system clock source reported by the SWS field.
    pub open spec fn spec_sys_clock_source(&self) -> SysClockSource {
        SysClockSource::from_bits(field_of(self.registers.cfgr, CFGR_SWS_SHIFT, CFGR_SWS_MASK))
    }

    /// The raw PLLSRC field.
    pub open spec fn spec_pll_source_bits(&self) -> u32 {
        field_of(self.registers.pllcfgr, PLLCFGR_PLLSRC_SHIFT, PLLCFGR_PLLSRC_MASK)
    }

    /// Gets the current system clock source.
    pub fn get_sys_clock_source(&self) -> (r: SysClockSource)
        ensures
            r == self.spec_sys_clock_source(),
    {
        let sws = read_field(self.registers.cfgr, CFGR_SWS_SHIFT, CFGR_SWS_MASK);
        if sws == 0 {
            SysClockSource::MSI
        } else if sws == 1 {
            SysClockSource::HSI
        } else if sws == 2 {
            SysClockSource::HSE
        } else {
            SysClockSource::PLL
        }
    }

    /// Selects the system clock source (the SW field). The source must be
    /// enabled; the hardware reports the switch in SWS.
    pub fn set_sys_clock_source(&mut self, source: SysClockSource)
        ensures
            final(self).registers == (RccRegisters {
                cfgr: with_field(old(self).registers.cfgr, CFGR_SW_SHIFT, CFGR_SW_MASK, source.spec_bits()),
                ..old(self).registers
            }),
            field_of(final(self).registers.cfgr, CFGR_SW_SHIFT, CFGR_SW_MASK) == source.spec_bits(),
    {
        proof {
            lemma_rcc_fields_wf();
            lemma_field_roundtrip(self.registers.cfgr, CFGR_SW_SHIFT, CFGR_SW_MASK, source.spec_bits());
        }
        self.registers.cfgr = write_field(self.registers.cfgr, CFGR_SW_SHIFT, CFGR_SW_MASK, source.bits());
    }

    /// Whether the MSI clock drives the system clock, directly or through the PLL.
    pub fn is_msi_clock_system_clock(&self) -> (r: bool)
        ensures
            r == (self.spec_sys_clock_source() == SysClockSource::MSI
                || (self.spec_sys_clock_source() == SysClockSource::PLL
                    && self.spec_pll_source_bits() == PllSource::MSI.spec_bits())),
    {
        let system_clock_source = self.get_sys_clock_source();
        system_clock_source == SysClockSource::MSI || (system_clock_source == SysClockSource::PLL
            && read_field(self.registers.pllcfgr, PLLCFGR_PLLSRC_SHIFT, PLLCFGR_PLLSRC_MASK)
            == PllSource::MSI.bits())
    }

    /// Whether the HSI clock drives the system clock, directly or through the PLL.
    pub fn is_hsi_clock_system_clock(&self) -> (r: bool)
        ensures
            r == (self.spec_sys_clock_source() == SysClockSource::HSI
                || (self.spec_sys_clock_source() == SysClockSource::PLL
                    && self.spec_pll_source_bits() == PllSource::HSI.spec_bits())),
    {
        let system_clock_source = self.get_sys_clock_source();
        system_clock_source == SysClockSource::HSI || (system_clock_source == SysClockSource::PLL
            && read_field(self.registers.pllcfgr, PLLCFGR_PLLSRC_SHIFT, PLLCFGR_PLLSRC_MASK)
            == PllSource::HSI.bits())
    }

    /// Whether the HSE clock drives the system clock, directly or through the PLL.
    pub fn is_hse_clock_system_clock(&self) -> (r: bool)
        ensures
            r == (self.spec_sys_clock_source() == SysClockSource::HSE
                || (self.spec_sys_clock_source() == SysClockSource::PLL
                    && self.spec_pll_source_bits() == PllSource::HSE.spec_bits())),
    {
        let system_clock_source = self.get_sys_clock_source();
        system_clock_source == SysClockSource::HSE || (system_clock_source == SysClockSource::PLL
            && read_field(self.registers.pllcfgr, PLLCFGR_PLLSRC_SHIFT, PLLCFGR_PLLSRC_MASK)
            == PllSource::HSE.bits())
    }

    /// MSI clock: stop the oscillator.
    pub fn disable_msi_clock(&mut self)
        ensures
            final(self).registers == (RccRegisters {
                cr: with_field(old(self).registers.cr, CR_MSION, 1, 0),
                ..old(self).registers
            }),
            !field_is_set(final(self).registers.cr, CR_MSION, 1),
    {
        self.registers.cr = clear_flag(self.registers.cr, CR_MSION);
    }

    /// MSI clock: start the oscillator.
    pub fn enable_msi_clock(&mut self)
        ensures
            final(self).registers == (RccRegisters {
                cr: with_field(old(self).registers.cr, CR_MSION, 1, 1),
                ..old(self).registers
            }),
            field_is_set(final(self).registers.cr, CR_MSION, 1),
    {
        self.registers.cr = set_flag(self.registers.cr, CR_MSION);
    }

    /// Whether the MSI oscillator is switched on.
    pub fn is_enabled_msi_clock(&self) -> (r: bool)
        ensures
            r == field_is_set(self.registers.cr, CR_MSION, 1),
    {
        is_field_set(self.registers.cr, CR_MSION, 1)
    }

    /// Whether the MSI oscillator is stable.
    pub fn is_ready_msi_clock(&self) -> (r: bool)
        ensures
            r == field_is_set(self.registers.cr, CR_MSIRDY, 1),
    {
        is_field_set(self.registers.cr, CR_MSIRDY, 1)
    }

    /// HSI clock: stop the oscillator. It must not drive the system clock.
    pub fn disable_hsi_clock(&mut self)
        ensures
            final(self).registers == (RccRegisters {
                cr: with_field(old(self).registers.cr, CR_HSION, 1, 0),
                ..old(self).registers
            }),
            !field_is_set(final(self).registers.cr, CR_HSION, 1),
    {
        self.registers.cr = clear_flag(self.registers.cr, CR_HSION);
    }

    /// HSI clock: start the oscillator.
    pub fn enable_hsi_clock(&mut self)
        ensures
            final(self).registers == (RccRegisters {
                cr: with_field(old(self).registers.cr, CR_HSION, 1, 1),
                ..old(self).registers
            }),
            field_is_set(final(self).registers.cr, CR_HSION, 1),
    {
        self.registers.cr = set_flag(self.registers.cr, CR_HSION);
    }

    /// Whether the HSI oscillator is switched on.
    pub fn is_enabled_hsi_clock(&self) -> (r: bool)
        ensures
            r == field_is_set(self.registers.cr, CR_HSION, 1),
    {
        is_field_set(self.registers.cr, CR_HSION, 1)
    }

    /// Whether the HSI oscillator is stable.
    pub fn is_ready_hsi_clock(&self) -> (r: bool)
        ensures
            r == field_is_set(self.registers.cr, CR_HSIRDY, 1),
    {
        is_field_set(self.registers.cr, CR_HSIRDY, 1)
    }

    /// Routes the HSE32 VDDTCXO output to PB0-VDDTCXO.
    pub fn enable_hse_clock_bypass(&mut self)
        ensures
            final(self).registers == (RccRegisters {
                cr: with_field(old(self).registers.cr, CR_HSEBYPPWR, 1, 1),
                ..old(self).registers
            }),
            field_is_set(final(self).registers.cr, CR_HSEBYPPWR, 1),
    {
        self.registers.cr = set_flag(self.registers.cr, CR_HSEBYPPWR);
    }

    /// HSE clock: start the oscillator.
    pub fn enable_hse_clock(&mut self)
        ensures
            final(self).registers == (RccRegisters {
                cr: with_field(old(self).registers.cr, CR_HSEON, 1, 1),
                ..old(self).registers
            }),
            field_is_set(final(self).registers.cr, CR_HSEON, 1),
    {
        self.registers.cr = set_flag(self.registers.cr, CR_HSEON);
    }

    /// Whether the HSE oscillator is switched on.
    pub fn is_enabled_hse_clock(&self) -> (r: bool)
        ensures
            r == field_is_set(self.registers.cr, CR_HSEON, 1),
    {
        is_field_set(self.registers.cr, CR_HSEON, 1)
    }

    /// Whether the HSE oscillator is stable.
    pub fn is_ready_hse_clock(&self) -> (r: bool)
        ensures
            r == field_is_set(self.registers.cr, CR_HSERDY, 1),
    {
        is_field_set(self.registers.cr, CR_HSERDY, 1)
    }

    /// Main PLL: stop it. It must not drive the system clock.
    pub fn disable_pll_clock(&mut self)
        ensures
            final(self).registers == (RccRegisters {
                cr: with_field(old(self).registers.cr, CR_PLLON, 1, 0),
                ..old(self).registers
            }),
            !field_is_set(final(self).registers.cr, CR_PLLON, 1),
    {
        self.registers.cr = clear_flag(self.registers.cr, CR_PLLON);
    }

    /// Main PLL: start it.
    pub fn enable_pll_clock(&mut self)
        ensures
            final(self).registers == (RccRegisters {
                cr: with_field(old(self).registers.cr, CR_PLLON, 1, 1),
                ..old(self).registers
            }),
            field_is_set(final(self).registers.cr, CR_PLLON, 1),
    {
        self.registers.cr = set_flag(self.registers.cr, CR_PLLON);
    }

    /// Whether the main PLL is switched on.
    pub fn is_enabled_pll_clock(&self) -> (r: bool)
        ensures
            r == field_is_set(self.registers.cr, CR_PLLON, 1),
    {
        is_field_set(self.registers.cr, CR_PLLON, 1)
    }

    /// Whether the main PLL is locked (its output is stable).
    pub fn is_locked_pll_clock(&self) -> (r: bool)
        ensures
            r == field_is_set(self.registers.cr, CR_PLLRDY, 1),
    {
        is_field_set(self.registers.cr, CR_PLLRDY, 1)
    }

    /// HSE clock: stop the oscillator and its VDDTCXO output.
    pub fn disable_hse_clock(&mut self)
        ensures
            final(self).registers == (RccRegisters {
                cr: with_field(with_field(old(self).registers.cr, CR_HSEON, 1, 0), CR_HSEBYPPWR, 1, 0),
                ..old(self).registers
            }),
            !field_is_set(final(self).registers.cr, CR_HSEON, 1),
            !field_is_set(final(self).registers.cr, CR_HSEBYPPWR, 1),
    {
        let cr = clear_flag(self.registers.cr, CR_HSEON);
        proof {
            assert(!field_is_set(with_field(cr, 21, 1, 0), 16, 1)) by (bit_vector)
                requires
                    !field_is_set(cr, 16, 1),
            ;
        }
        self.registers.cr = clear_flag(cr, CR_HSEBYPPWR);
    }

}

impl Rcc {
    /// Gets the entry clock of the main PLL, decoded from the PLLSRC field;
    /// `None` when the field selects no clock.
    pub fn get_pll_clocks_source(&self) -> (r: Option<PllSource>)
        ensures
            r == PllSource::from_bits(self.spec_pll_source_bits()),
    {
        let bits = read_field(self.registers.pllcfgr, PLLCFGR_PLLSRC_SHIFT, PLLCFGR_PLLSRC_MASK);
        if bits == 1 {
            Some(PllSource::MSI)
        } else if bits == 2 {
            Some(PllSource::HSI)
        } else if bits == 3 {
            Some(PllSource::HSE)
        } else {
            None
        }
    }

    /// Selects the entry clock of the main PLL. Only to be called while all
    /// PLL clocks are disabled.
    pub fn set_pll_clocks_source(&mut self, source: PllSource)
        ensures
            final(self).registers == (RccRegisters {
                pllcfgr: with_field(old(self).registers.pllcfgr, PLLCFGR_PLLSRC_SHIFT, PLLCFGR_PLLSRC_MASK, source.spec_bits()),
                ..old(self).registers
            }),
            final(self).spec_pll_source_bits() == source.spec_bits(),
            PllSource::from_bits(final(self).spec_pll_source_bits()) == Some(source),
    {
        proof {
            lemma_rcc_fields_wf();
            lemma_field_roundtrip(self.registers.pllcfgr, PLLCFGR_PLLSRC_SHIFT, PLLCFGR_PLLSRC_MASK, source.spec_bits());
        }
        self.registers.pllcfgr = write_field(self.registers.pllcfgr, PLLCFGR_PLLSRC_SHIFT, PLLCFGR_PLLSRC_MASK, source.bits());
    }

    /// Writes the PLLM divider's value to the 3-bit PLLM field, which keeps
    /// its low three bits. Only to be called while all PLL clocks are disabled.
    pub fn set_pll_clocks_m_divider(&mut self, m: PLLM)
        ensures
            final(self).registers == (RccRegisters {
                pllcfgr: with_field(old(self).registers.pllcfgr, PLLCFGR_PLLM_SHIFT, PLLCFGR_PLLM_MASK, m.spec_bits()),
                ..old(self).registers
            }),
    {
        self.registers.pllcfgr = write_field(self.registers.pllcfgr, PLLCFGR_PLLM_SHIFT, PLLCFGR_PLLM_MASK, m.bits());
    }

    /// The PLLN multiplier.
    pub fn get_pll_clock_n_multiplier(&self) -> (r: usize)
        ensures
            r == field_of(self.registers.pllcfgr, PLLCFGR_PLLN_SHIFT, PLLCFGR_PLLN_MASK),
    {
        read_field(self.registers.pllcfgr, PLLCFGR_PLLN_SHIFT, PLLCFGR_PLLN_MASK) as usize
    }

    /// Writes the PLLN multiplier; the 7-bit field keeps the low bits of `n`.
    /// Only to be called while the main PLL is disabled.
    pub fn set_pll_clock_n_multiplier(&mut self, n: usize)
        ensures
            final(self).registers == (RccRegisters {
                pllcfgr: with_field(old(self).registers.pllcfgr, PLLCFGR_PLLN_SHIFT, PLLCFGR_PLLN_MASK, n as u32),
                ..old(self).registers
            }),
            field_of(final(self).registers.pllcfgr, PLLCFGR_PLLN_SHIFT, PLLCFGR_PLLN_MASK) == (n as u32) & PLLCFGR_PLLN_MASK,
    {
        proof {
            lemma_rcc_fields_wf();
            lemma_read_after_write(self.registers.pllcfgr, PLLCFGR_PLLN_SHIFT, PLLCFGR_PLLN_MASK, n as u32);
        }
        self.registers.pllcfgr = write_field(self.registers.pllcfgr, PLLCFGR_PLLN_SHIFT, PLLCFGR_PLLN_MASK, n as u32);
    }

    /// The PLLP divider; encodings above 2 read as division by 8.
    pub fn get_pll_clock_p_divider(&self) -> (r: PLLP)
        ensures
            r == PLLP::from_bits(field_of(self.registers.pllcfgr, PLLCFGR_PLLP_SHIFT, PLLCFGR_PLLP_MASK)),
    {
        let p = read_field(self.registers.pllcfgr, PLLCFGR_PLLP_SHIFT, PLLCFGR_PLLP_MASK);
        if p == 0 {
            PLLP::DivideBy2
        } else if p == 1 {
            PLLP::DivideBy4
        } else if p == 2 {
            PLLP::DivideBy6
        } else {
            PLLP::DivideBy8
        }
    }

    /// Writes the PLLP divider. Only to be called while the main PLL is disabled.
    pub fn set_pll_clock_p_divider(&mut self, p: PLLP)
        ensures
            final(self).registers == (RccRegisters {
                pllcfgr: with_field(old(self).registers.pllcfgr, PLLCFGR_PLLP_SHIFT, PLLCFGR_PLLP_MASK, p.spec_bits()),
                ..old(self).registers
            }),
            PLLP::from_bits(field_of(final(self).registers.pllcfgr, PLLCFGR_PLLP_SHIFT, PLLCFGR_PLLP_MASK)) == p,
    {
        proof {
            lemma_rcc_fields_wf();
            lemma_field_roundtrip(self.registers.pllcfgr, PLLCFGR_PLLP_SHIFT, PLLCFGR_PLLP_MASK, p.spec_bits());
        }
        self.registers.pllcfgr = write_field(self.registers.pllcfgr, PLLCFGR_PLLP_SHIFT, PLLCFGR_PLLP_MASK, p.bits());
    }

    /// The PLLQ divider; the field must hold a value from 3 to 9.
    pub fn _get_pll_clock_q_divider(&self) -> (r: PLLQ)
        requires
            3 <= field_of(self.registers.pllcfgr, PLLCFGR_PLLQ_SHIFT, PLLCFGR_PLLQ_MASK) <= 9,
        ensures
            r == PLLQ::from_bits(field_of(self.registers.pllcfgr, PLLCFGR_PLLQ_SHIFT, PLLCFGR_PLLQ_MASK)),
    {
        let q = read_field(self.registers.pllcfgr, PLLCFGR_PLLQ_SHIFT, PLLCFGR_PLLQ_MASK);
        if q == 3 {
            PLLQ::DivideBy3
        } else if q == 4 {
            PLLQ::DivideBy4
        } else if q == 5 {
            PLLQ::DivideBy5
        } else if q == 6 {
            PLLQ::DivideBy6
        } else if q == 7 {
            PLLQ::DivideBy7
        } else if q == 8 {
            PLLQ::DivideBy8
        } else {
            PLLQ::DivideBy9
        }
    }

    /// Writes the PLLQ divider's value to the 3-bit PLLQ field, which keeps
    /// its low three bits. Only to be called while the main PLL is disabled.
    pub fn set_pll_clock_q_divider(&mut self, q: PLLQ)
        ensures
            final(self).registers == (RccRegisters {
                pllcfgr: with_field(old(self).registers.pllcfgr, PLLCFGR_PLLQ_SHIFT, PLLCFGR_PLLQ_MASK, q.spec_bits()),
                ..old(self).registers
            }),
            field_of(final(self).registers.pllcfgr, PLLCFGR_PLLQ_SHIFT, PLLCFGR_PLLQ_MASK) == q.spec_bits() & PLLCFGR_PLLQ_MASK,
    {
        proof {
            lemma_rcc_fields_wf();
            lemma_read_after_write(self.registers.pllcfgr, PLLCFGR_PLLQ_SHIFT, PLLCFGR_PLLQ_MASK, q.spec_bits());
        }
        self.registers.pllcfgr = write_field(self.registers.pllcfgr, PLLCFGR_PLLQ_SHIFT, PLLCFGR_PLLQ_MASK, q.bits());
    }

    /// The AHB prescaler programmed in HPRE.
    pub open spec fn spec_ahb_prescaler(&self) -> AHBPrescaler {
        AHBPrescaler::from_bits(field_of(self.registers.cfgr, CFGR_HPRE_SHIFT, CFGR_HPRE_MASK))
    }

    /// The APB1 prescaler programmed in PPRE1.
    pub open spec fn spec_apb1_prescaler(&self) -> APBPrescaler {
        APBPrescaler::from_bits(field_of(self.registers.cfgr, CFGR_PPRE1_SHIFT, CFGR_PPRE1_MASK))
    }

    /// The APB2 prescaler programmed in PPRE2.
    pub open spec fn spec_apb2_prescaler(&self) -> APBPrescaler {
        APBPrescaler::from_bits(field_of(self.registers.cfgr, CFGR_PPRE2_SHIFT, CFGR_PPRE2_MASK))
    }

    /// Sets the AHB prescaler.
    pub fn set_ahb_prescaler(&mut self, ahb_prescaler: AHBPrescaler)
        ensures
            final(self).registers == (RccRegisters {
                cfgr: with_field(old(self).registers.cfgr, CFGR_HPRE_SHIFT, CFGR_HPRE_MASK, ahb_prescaler.spec_bits()),
                ..old(self).registers
            }),
            final(self).spec_ahb_prescaler() == ahb_prescaler,
    {
        proof {
            lemma_rcc_fields_wf();
            lemma_field_roundtrip(self.registers.cfgr, CFGR_HPRE_SHIFT, CFGR_HPRE_MASK, ahb_prescaler.spec_bits());
        }
        self.registers.cfgr = write_field(self.registers.cfgr, CFGR_HPRE_SHIFT, CFGR_HPRE_MASK, ahb_prescaler.bits());
    }

    /// Gets the AHB prescaler.
    pub fn get_ahb_prescaler(&self) -> (r: AHBPrescaler)
        ensures
            r == self.spec_ahb_prescaler(),
    {
        let v = read_field(self.registers.cfgr, CFGR_HPRE_SHIFT, CFGR_HPRE_MASK);
        if v == 8 {
            AHBPrescaler::DivideBy2
        } else if v == 9 {
            AHBPrescaler::DivideBy4
        } else if v == 10 {
            AHBPrescaler::DivideBy8
        } else if v == 11 {
            AHBPrescaler::DivideBy16
        } else if v == 12 {
            AHBPrescaler::DivideBy64
        } else if v == 13 {
            AHBPrescaler::DivideBy128
        } else if v == 14 {
            AHBPrescaler::DivideBy256
        } else if v == 15 {
            AHBPrescaler::DivideBy512
        } else {
            AHBPrescaler::DivideBy1
        }
    }

    /// Sets the APB1 prescaler.
    pub fn set_apb1_prescaler(&mut self, apb1_prescaler: APBPrescaler)
        ensures
            final(self).registers == (RccRegisters {
                cfgr: with_field(old(self).registers.cfgr, CFGR_PPRE1_SHIFT, CFGR_PPRE1_MASK, apb1_prescaler.spec_bits()),
                ..old(self).registers
            }),
            final(self).spec_apb1_prescaler() == apb1_prescaler,
    {
        proof {
            lemma_rcc_fields_wf();
            lemma_field_roundtrip(self.registers.cfgr, CFGR_PPRE1_SHIFT, CFGR_PPRE1_MASK, apb1_prescaler.spec_bits());
        }
        self.registers.cfgr = write_field(self.registers.cfgr, CFGR_PPRE1_SHIFT, CFGR_PPRE1_MASK, apb1_prescaler.bits());
    }

    /// Gets the APB1 prescaler.
    pub fn get_apb1_prescaler(&self) -> (r: APBPrescaler)
        ensures
            r == self.spec_apb1_prescaler(),
    {
        Self::apb_prescaler_from_field(read_field(self.registers.cfgr, CFGR_PPRE1_SHIFT, CFGR_PPRE1_MASK))
    }

    /// Sets the APB2 prescaler.
    pub fn set_apb2_prescaler(&mut self, apb2_prescaler: APBPrescaler)
        ensures
            final(self).registers == (RccRegisters {
                cfgr: with_field(old(self).registers.cfgr, CFGR_PPRE2_SHIFT, CFGR_PPRE2_MASK, apb2_prescaler.spec_bits()),
                ..old(self).registers
            }),
            final(self).spec_apb2_prescaler() == apb2_prescaler,
    {
        proof {
            lemma_rcc_fields_wf();
            lemma_field_roundtrip(self.registers.cfgr, CFGR_PPRE2_SHIFT, CFGR_PPRE2_MASK, apb2_prescaler.spec_bits());
        }
        self.registers.cfgr = write_field(self.registers.cfgr, CFGR_PPRE2_SHIFT, CFGR_PPRE2_MASK, apb2_prescaler.bits());
    }

    /// Gets the APB2 prescaler.
    pub fn get_apb2_prescaler(&self) -> (r: APBPrescaler)
        ensures
            r == self.spec_apb2_prescaler(),
    {
        Self::apb_prescaler_from_field(read_field(self.registers.cfgr, CFGR_PPRE2_SHIFT, CFGR_PPRE2_MASK))
    }

    fn apb_prescaler_from_field(v: u32) -> (r: APBPrescaler)
        ensures
            r == APBPrescaler::from_bits(v),
    {
        if v == 4 {
            APBPrescaler::DivideBy2
        } else if v == 5 {
            APBPrescaler::DivideBy4
        } else if v == 6 {
            APBPrescaler::DivideBy8
        } else if v == 7 {
            APBPrescaler::DivideBy16
        } else {
            APBPrescaler::DivideBy1
        }
    }

    /// Selects the clock routed to the MCO pin.
    pub fn set_mco1_clock_source(&mut self, source: MCO1Source)
        ensures
            final(self).registers == (RccRegisters {
                cfgr: with_field(old(self).registers.cfgr, CFGR_MCOSEL_SHIFT, CFGR_MCOSEL_MASK, source.spec_bits()),
                ..old(self).registers
            }),
            MCO1Source::from_bits(field_of(final(self).registers.cfgr, CFGR_MCOSEL_SHIFT, CFGR_MCOSEL_MASK)) == source,
    {
        proof {
            lemma_rcc_fields_wf();
            lemma_field_roundtrip(self.registers.cfgr, CFGR_MCOSEL_SHIFT, CFGR_MCOSEL_MASK, source.spec_bits());
        }
        self.registers.cfgr = write_field(self.registers.cfgr, CFGR_MCOSEL_SHIFT, CFGR_MCOSEL_MASK, source.bits());
    }

    /// The clock routed to the MCO pin.
    pub fn get_mco1_clock_source(&self) -> (r: MCO1Source)
        ensures
            r == MCO1Source::from_bits(field_of(self.registers.cfgr, CFGR_MCOSEL_SHIFT, CFGR_MCOSEL_MASK)),
    {
        let v = read_field(self.registers.cfgr, CFGR_MCOSEL_SHIFT, CFGR_MCOSEL_MASK);
        if v == 0 {
            MCO1Source::HSI
        } else if v == 2 {
            MCO1Source::HSE
        } else {
            MCO1Source::PLL
        }
    }

    /// Sets the MCO prescaler.
    pub fn set_mco1_clock_divider(&mut self, divider: MCO1Divider)
        ensures
            final(self).registers == (RccRegisters {
                cfgr: with_field(old(self).registers.cfgr, CFGR_MCOPRE_SHIFT, CFGR_MCOPRE_MASK, divider.spec_bits()),
                ..old(self).registers
            }),
            MCO1Divider::from_bits(field_of(final(self).registers.cfgr, CFGR_MCOPRE_SHIFT, CFGR_MCOPRE_MASK)) == divider,
    {
        proof {
            lemma_rcc_fields_wf();
            lemma_field_roundtrip(self.registers.cfgr, CFGR_MCOPRE_SHIFT, CFGR_MCOPRE_MASK, divider.spec_bits());
        }
        self.registers.cfgr = write_field(self.registers.cfgr, CFGR_MCOPRE_SHIFT, CFGR_MCOPRE_MASK, divider.bits());
    }

    /// The MCO prescaler.
    pub fn get_mco1_clock_divider(&self) -> (r: MCO1Divider)
        ensures
            r == MCO1Divider::from_bits(field_of(self.registers.cfgr, CFGR_MCOPRE_SHIFT, CFGR_MCOPRE_MASK)),
    {
        let v = read_field(self.registers.cfgr, CFGR_MCOPRE_SHIFT, CFGR_MCOPRE_MASK);
        if v == 4 {
            MCO1Divider::DivideBy2
        } else if v == 5 {
            MCO1Divider::DivideBy3
        } else if v == 6 {
            MCO1Divider::DivideBy4
        } else if v == 7 {
            MCO1Divider::DivideBy5
        } else {
            MCO1Divider::DivideBy1
        }
    }

    /// Sets PLLQ to 2 and starts the main PLL, which clocks the RNG.
    pub fn configure_rng_clock(&mut self)
        ensures
            final(self).registers == (RccRegisters {
                pllcfgr: with_field(old(self).registers.pllcfgr, PLLCFGR_PLLQ_SHIFT, PLLCFGR_PLLQ_MASK, 2),
                cr: with_field(old(self).registers.cr, CR_PLLON, 1, 1),
                ..old(self).registers
            }),
            field_is_set(final(self).registers.cr, CR_PLLON, 1),
    {
        self.registers.pllcfgr = write_field(self.registers.pllcfgr, PLLCFGR_PLLQ_SHIFT, PLLCFGR_PLLQ_MASK, 2);
        self.registers.cr = set_flag(self.registers.cr, CR_PLLON);
    }
}

impl Rcc {

    /// Whether the I2C1 clock is enabled.
    pub fn is_enabled_i2c1_clock(&self) -> (r: bool)
        ensures
            r == field_is_set(self.registers.apb1enr1, APB1ENR1_I2C1EN, 1),
    {
        is_field_set(self.registers.apb1enr1, APB1ENR1_I2C1EN, 1)
    }

    /// Enables the I2C1 clock and pulses the I2C1 reset, leaving it released.
    pub fn enable_i2c1_clock(&mut self)
        ensures
            final(self).registers == (RccRegisters {
                apb1enr1: with_field(old(self).registers.apb1enr1, APB1ENR1_I2C1EN, 1, 1),
                apb1rstr1: with_field(
                    with_field(old(self).registers.apb1rstr1, APB1RSTR1_I2C1RST, 1, 1),
                    APB1RSTR1_I2C1RST,
                    1,
                    0,
                ),
                ..old(self).registers
            }),
            field_is_set(final(self).registers.apb1enr1, APB1ENR1_I2C1EN, 1),
            !field_is_set(final(self).registers.apb1rstr1, APB1RSTR1_I2C1RST, 1),
    {
        self.registers.apb1enr1 = set_flag(self.registers.apb1enr1, APB1ENR1_I2C1EN);
        self.registers.apb1rstr1 = set_flag(self.registers.apb1rstr1, APB1RSTR1_I2C1RST);
        self.registers.apb1rstr1 = clear_flag(self.registers.apb1rstr1, APB1RSTR1_I2C1RST);
    }

    /// Disables the I2C1 clock.
    pub fn disable_i2c1_clock(&mut self)
        ensures
            final(self).registers == (RccRegisters {
                apb1enr1: with_field(old(self).registers.apb1enr1, APB1ENR1_I2C1EN, 1, 0),
                ..old(self).registers
            }),
            !field_is_set(final(self).registers.apb1enr1, APB1ENR1_I2C1EN, 1),
    {
        self.registers.apb1enr1 = clear_flag(self.registers.apb1enr1, APB1ENR1_I2C1EN);
    }

    /// Whether the timers run from HCLK (the TIMPRE mode). The register map
    /// of this chip declares no TIMPRE bit, so the answer is always no.
    pub fn is_enabled_tim_pre(&self) -> (r: bool)
        ensures
            r == false,
    {
        false
    }

    /// Whether the TIM2 clock is enabled.
    pub fn is_enabled_tim2_clock(&self) -> (r: bool)
        ensures
            r == field_is_set(self.registers.apb1enr1, APB1ENR1_TIM2EN, 1),
    {
        is_field_set(self.registers.apb1enr1, APB1ENR1_TIM2EN, 1)
    }

    /// Enables the TIM2 clock.
    pub fn enable_tim2_clock(&mut self)
        ensures
            final(self).registers == (RccRegisters {
                apb1enr1: with_field(old(self).registers.apb1enr1, APB1ENR1_TIM2EN, 1, 1),
                ..old(self).registers
            }),
            field_is_set(final(self).registers.apb1enr1, APB1ENR1_TIM2EN, 1),
    {
        self.registers.apb1enr1 = set_flag(self.registers.apb1enr1, APB1ENR1_TIM2EN);
    }

    /// Disables the TIM2 clock.
    pub fn disable_tim2_clock(&mut self)
        ensures
            final(self).registers == (RccRegisters {
                apb1enr1: with_field(old(self).registers.apb1enr1, APB1ENR1_TIM2EN, 1, 0),
                ..old(self).registers
            }),
            !field_is_set(final(self).registers.apb1enr1, APB1ENR1_TIM2EN, 1),
    {
        self.registers.apb1enr1 = clear_flag(self.registers.apb1enr1, APB1ENR1_TIM2EN);
    }

    /// Whether the DMA1 clock is enabled.
    pub fn is_enabled_dma1_clock(&self) -> (r: bool)
        ensures
            r == field_is_set(self.registers.ahb1enr, AHB1ENR_DMA1EN, 1),
    {
        is_field_set(self.registers.ahb1enr, AHB1ENR_DMA1EN, 1)
    }

    /// Enables the DMA1 clock.
    pub fn enable_dma1_clock(&mut self)
        ensures
            final(self).registers == (RccRegisters {
                ahb1enr: with_field(old(self).registers.ahb1enr, AHB1ENR_DMA1EN, 1, 1),
                ..old(self).registers
            }),
            field_is_set(final(self).registers.ahb1enr, AHB1ENR_DMA1EN, 1),
    {
        self.registers.ahb1enr = set_flag(self.registers.ahb1enr, AHB1ENR_DMA1EN);
    }

    /// Disables the DMA1 clock.
    pub fn disable_dma1_clock(&mut self)
        ensures
            final(self).registers == (RccRegisters {
                ahb1enr: with_field(old(self).registers.ahb1enr, AHB1ENR_DMA1EN, 1, 0),
                ..old(self).registers
            }),
            !field_is_set(final(self).registers.ahb1enr, AHB1ENR_DMA1EN, 1),
    {
        self.registers.ahb1enr = clear_flag(self.registers.ahb1enr, AHB1ENR_DMA1EN);
    }

    /// Whether the DMA2 clock is enabled.
    pub fn is_enabled_dma2_clock(&self) -> (r: bool)
        ensures
            r == field_is_set(self.registers.ahb1enr, AHB1ENR_DMA2EN, 1),
    {
        is_field_set(self.registers.ahb1enr, AHB1ENR_DMA2EN, 1)
    }

    /// Enables the DMA2 clock.
    pub fn enable_dma2_clock(&mut self)
        ensures
            final(self).registers == (RccRegisters {
                ahb1enr: with_field(old(self).registers.ahb1enr, AHB1ENR_DMA2EN, 1, 1),
                ..old(self).registers
            }),
            field_is_set(final(self).registers.ahb1enr, AHB1ENR_DMA2EN, 1),
    {
        self.registers.ahb1enr = set_flag(self.registers.ahb1enr, AHB1ENR_DMA2EN);
    }

    /// Disables the DMA2 clock.
    pub fn disable_dma2_clock(&mut self)
        ensures
            final(self).registers == (RccRegisters {
                ahb1enr: with_field(old(self).registers.ahb1enr, AHB1ENR_DMA2EN, 1, 0),
                ..old(self).registers
            }),
            !field_is_set(final(self).registers.ahb1enr, AHB1ENR_DMA2EN, 1),
    {
        self.registers.ahb1enr = clear_flag(self.registers.ahb1enr, AHB1ENR_DMA2EN);
    }

    /// Whether the GPIO port H clock is enabled.
    pub fn is_enabled_gpioh_clock(&self) -> (r: bool)
        ensures
            r == field_is_set(self.registers.ahb2enr, AHB2ENR_GPIOHEN, 1),
    {
        is_field_set(self.registers.ahb2enr, AHB2ENR_GPIOHEN, 1)
    }

    /// Enables the GPIO port H clock.
    pub fn enable_gpioh_clock(&mut self)
        ensures
            final(self).registers == (RccRegisters {
                ahb2enr: with_field(old(self).registers.ahb2enr, AHB2ENR_GPIOHEN, 1, 1),
                ..old(self).registers
            }),
            field_is_set(final(self).registers.ahb2enr, AHB2ENR_GPIOHEN, 1),
    {
        self.registers.ahb2enr = set_flag(self.registers.ahb2enr, AHB2ENR_GPIOHEN);
    }

    /// Disables the GPIO port H clock.
    pub fn disable_gpioh_clock(&mut self)
        ensures
            final(self).registers == (RccRegisters {
                ahb2enr: with_field(old(self).registers.ahb2enr, AHB2ENR_GPIOHEN, 1, 0),
                ..old(self).registers
            }),
            !field_is_set(final(self).registers.ahb2enr, AHB2ENR_GPIOHEN, 1),
    {
        self.registers.ahb2enr = clear_flag(self.registers.ahb2enr, AHB2ENR_GPIOHEN);
    }

    /// Whether the GPIO port C clock is enabled.
    pub fn is_enabled_gpioc_clock(&self) -> (r: bool)
        ensures
            r == field_is_set(self.registers.ahb2enr, AHB2ENR_GPIOCEN, 1),
    {
        is_field_set(self.registers.ahb2enr, AHB2ENR_GPIOCEN, 1)
    }

    /// Enables the GPIO port C clock.
    pub fn enable_gpioc_clock(&mut self)
        ensures
            final(self).registers == (RccRegisters {
                ahb2enr: with_field(old(self).registers.ahb2enr, AHB2ENR_GPIOCEN, 1, 1),
                ..old(self).registers
            }),
            field_is_set(final(self).registers.ahb2enr, AHB2ENR_GPIOCEN, 1),
    {
        self.registers.ahb2enr = set_flag(self.registers.ahb2enr, AHB2ENR_GPIOCEN);
    }

    /// Disables the GPIO port C clock.
    pub fn disable_gpioc_clock(&mut self)
        ensures
            final(self).registers == (RccRegisters {
                ahb2enr: with_field(old(self).registers.ahb2enr, AHB2ENR_GPIOCEN, 1, 0),
                ..old(self).registers
            }),
            !field_is_set(final(self).registers.ahb2enr, AHB2ENR_GPIOCEN, 1),
    {
        self.registers.ahb2enr = clear_flag(self.registers.ahb2enr, AHB2ENR_GPIOCEN);
    }

    /// Whether the GPIO port B clock is enabled.
    pub fn is_enabled_gpiob_clock(&self) -> (r: bool)
        ensures
            r == field_is_set(self.registers.ahb2enr, AHB2ENR_GPIOBEN, 1),
    {
        is_field_set(self.registers.ahb2enr, AHB2ENR_GPIOBEN, 1)
    }

    /// Enables the GPIO port B clock.
    pub fn enable_gpiob_clock(&mut self)
        ensures
            final(self).registers == (RccRegisters {
                ahb2enr: with_field(old(self).registers.ahb2enr, AHB2ENR_GPIOBEN, 1, 1),
                ..old(self).registers
            }),
            field_is_set(final(self).registers.ahb2enr, AHB2ENR_GPIOBEN, 1),
    {
        self.registers.ahb2enr = set_flag(self.registers.ahb2enr, AHB2ENR_GPIOBEN);
    }

    /// Disables the GPIO port B clock.
    pub fn disable_gpiob_clock(&mut self)
        ensures
            final(self).registers == (RccRegisters {
                ahb2enr: with_field(old(self).registers.ahb2enr, AHB2ENR_GPIOBEN, 1, 0),
                ..old(self).registers
            }),
            !field_is_set(final(self).registers.ahb2enr, AHB2ENR_GPIOBEN, 1),
    {
        self.registers.ahb2enr = clear_flag(self.registers.ahb2enr, AHB2ENR_GPIOBEN);
    }

    /// Whether the GPIO port A clock is enabled.
    pub fn is_enabled_gpioa_clock(&self) -> (r: bool)
        ensures
            r == field_is_set(self.registers.ahb2enr, AHB2ENR_GPIOAEN, 1),
    {
        is_field_set(self.registers.ahb2enr, AHB2ENR_GPIOAEN, 1)
    }

    /// Enables the GPIO port A clock.
    pub fn enable_gpioa_clock(&mut self)
        ensures
            final(self).registers == (RccRegisters {
                ahb2enr: with_field(old(self).registers.ahb2enr, AHB2ENR_GPIOAEN, 1, 1),
                ..old(self).registers
            }),
            field_is_set(final(self).registers.ahb2enr, AHB2ENR_GPIOAEN, 1),
    {
        self.registers.ahb2enr = set_flag(self.registers.ahb2enr, AHB2ENR_GPIOAEN);
    }

    /// Disables the GPIO port A clock.
    pub fn disable_gpioa_clock(&mut self)
        ensures
            final(self).registers == (RccRegisters {
                ahb2enr: with_field(old(self).registers.ahb2enr, AHB2ENR_GPIOAEN, 1, 0),
                ..old(self).registers
            }),
            !field_is_set(final(self).registers.ahb2enr, AHB2ENR_GPIOAEN, 1),
    {
        self.registers.ahb2enr = clear_flag(self.registers.ahb2enr, AHB2ENR_GPIOAEN);
    }

    /// Whether the USART1 clock is enabled.
    pub fn is_enabled_usart1_clock(&self) -> (r: bool)
        ensures
            r == field_is_set(self.registers.apb2enr, APB2ENR_USART1EN, 1),
    {
        is_field_set(self.registers.apb2enr, APB2ENR_USART1EN, 1)
    }

    /// Enables the USART1 clock.
    pub fn enable_usart1_clock(&mut self)
        ensures
            final(self).registers == (RccRegisters {
                apb2enr: with_field(old(self).registers.apb2enr, APB2ENR_USART1EN, 1, 1),
                ..old(self).registers
            }),
            field_is_set(final(self).registers.apb2enr, APB2ENR_USART1EN, 1),
    {
        self.registers.apb2enr = set_flag(self.registers.apb2enr, APB2ENR_USART1EN);
    }

    /// Disables the USART1 clock.
    pub fn disable_usart1_clock(&mut self)
        ensures
            final(self).registers == (RccRegisters {
                apb2enr: with_field(old(self).registers.apb2enr, APB2ENR_USART1EN, 1, 0),
                ..old(self).registers
            }),
            !field_is_set(final(self).registers.apb2enr, APB2ENR_USART1EN, 1),
    {
        self.registers.apb2enr = clear_flag(self.registers.apb2enr, APB2ENR_USART1EN);
    }

    /// Whether the USART2 clock is enabled.
    pub fn is_enabled_usart2_clock(&self) -> (r: bool)
        ensures
            r == field_is_set(self.registers.apb1enr1, APB1ENR1_USART2EN, 1),
    {
        is_field_set(self.registers.apb1enr1, APB1ENR1_USART2EN, 1)
    }

    /// Enables the USART2 clock.
    pub fn enable_usart2_clock(&mut self)
        ensures
            final(self).registers == (RccRegisters {
                apb1enr1: with_field(old(self).registers.apb1enr1, APB1ENR1_USART2EN, 1, 1),
                ..old(self).registers
            }),
            field_is_set(final(self).registers.apb1enr1, APB1ENR1_USART2EN, 1),
    {
        self.registers.apb1enr1 = set_flag(self.registers.apb1enr1, APB1ENR1_USART2EN);
    }

    /// Disables the USART2 clock.
    pub fn disable_usart2_clock(&mut self)
        ensures
            final(self).registers == (RccRegisters {
                apb1enr1: with_field(old(self).registers.apb1enr1, APB1ENR1_USART2EN, 1, 0),
                ..old(self).registers
            }),
            !field_is_set(final(self).registers.apb1enr1, APB1ENR1_USART2EN, 1),
    {
        self.registers.apb1enr1 = clear_flag(self.registers.apb1enr1, APB1ENR1_USART2EN);
    }

    /// Whether the ADC clock is enabled.
    pub fn is_enabled_adc1_clock(&self) -> (r: bool)
        ensures
            r == field_is_set(self.registers.apb2enr, APB2ENR_ADCEN, 1),
    {
        is_field_set(self.registers.apb2enr, APB2ENR_ADCEN, 1)
    }

    /// Enables the ADC clock.
    pub fn enable_adc1_clock(&mut self)
        ensures
            final(self).registers == (RccRegisters {
                apb2enr: with_field(old(self).registers.apb2enr, APB2ENR_ADCEN, 1, 1),
                ..old(self).registers
            }),
            field_is_set(final(self).registers.apb2enr, APB2ENR_ADCEN, 1),
    {
        self.registers.apb2enr = set_flag(self.registers.apb2enr, APB2ENR_ADCEN);
    }

    /// Disables the ADC clock.
    pub fn disable_adc1_clock(&mut self)
        ensures
            final(self).registers == (RccRegisters {
                apb2enr: with_field(old(self).registers.apb2enr, APB2ENR_ADCEN, 1, 0),
                ..old(self).registers
            }),
            !field_is_set(final(self).registers.apb2enr, APB2ENR_ADCEN, 1),
    {
        self.registers.apb2enr = clear_flag(self.registers.apb2enr, APB2ENR_ADCEN);
    }

    /// Whether the DAC clock is enabled.
    pub fn is_enabled_dac_clock(&self) -> (r: bool)
        ensures
            r == field_is_set(self.registers.apb1enr1, APB1ENR1_DACEN, 1),
    {
        is_field_set(self.registers.apb1enr1, APB1ENR1_DACEN, 1)
    }

    /// Enables the DAC clock.
    pub fn enable_dac_clock(&mut self)
        ensures
            final(self).registers == (RccRegisters {
                apb1enr1: with_field(old(self).registers.apb1enr1, APB1ENR1_DACEN, 1, 1),
                ..old(self).registers
            }),
            field_is_set(final(self).registers.apb1enr1, APB1ENR1_DACEN, 1),
    {
        self.registers.apb1enr1 = set_flag(self.registers.apb1enr1, APB1ENR1_DACEN);
    }

    /// Disables the DAC clock.
    pub fn disable_dac_clock(&mut self)
        ensures
            final(self).registers == (RccRegisters {
                apb1enr1: with_field(old(self).registers.apb1enr1, APB1ENR1_DACEN, 1, 0),
                ..old(self).registers
            }),
            !field_is_set(final(self).registers.apb1enr1, APB1ENR1_DACEN, 1),
    {
        self.registers.apb1enr1 = clear_flag(self.registers.apb1enr1, APB1ENR1_DACEN);
    }

    /// Whether the true RNG clock is enabled.
    pub fn is_enabled_rng_clock(&self) -> (r: bool)
        ensures
            r == field_is_set(self.registers.ahb3enr, AHB3ENR_RNGEN, 1),
    {
        is_field_set(self.registers.ahb3enr, AHB3ENR_RNGEN, 1)
    }

    /// Enables the true RNG clock.
    pub fn enable_rng_clock(&mut self)
        ensures
            final(self).registers == (RccRegisters {
                ahb3enr: with_field(old(self).registers.ahb3enr, AHB3ENR_RNGEN, 1, 1),
                ..old(self).registers
            }),
            field_is_set(final(self).registers.ahb3enr, AHB3ENR_RNGEN, 1),
    {
        self.registers.ahb3enr = set_flag(self.registers.ahb3enr, AHB3ENR_RNGEN);
    }

    /// Disables the true RNG clock.
    pub fn disable_rng_clock(&mut self)
        ensures
            final(self).registers == (RccRegisters {
                ahb3enr: with_field(old(self).registers.ahb3enr, AHB3ENR_RNGEN, 1, 0),
                ..old(self).registers
            }),
            !field_is_set(final(self).registers.ahb3enr, AHB3ENR_RNGEN, 1),
    {
        self.registers.ahb3enr = clear_flag(self.registers.ahb3enr, AHB3ENR_RNGEN);
    }

    /// The RTCSEL encoding of an RTC clock source.
    pub open spec fn spec_source_into_u32(source: RtcClockSource) -> u32 {
        match source {
            RtcClockSource::LSE => 1,
            RtcClockSource::LSI => 2,
            RtcClockSource::HSERTC => 3,
        }
    }

    /// The RTCSEL encoding of an RTC clock source.
    pub fn source_into_u32(source: RtcClockSource) -> (r: u32)
        ensures
            r == Self::spec_source_into_u32(source),
    {
        match source {
            RtcClockSource::LSE => 1,
            RtcClockSource::LSI => 2,
            RtcClockSource::HSERTC => 3,
        }
    }

    /// Starts the LSI oscillator.
    pub fn enable_lsi_clock(&mut self)
        ensures
            final(self).registers == (RccRegisters {
                csr: with_field(old(self).registers.csr, CSR_LSION, 1, 1),
                ..old(self).registers
            }),
            field_is_set(final(self).registers.csr, CSR_LSION, 1),
    {
        self.registers.csr = set_flag(self.registers.csr, CSR_LSION);
    }

    /// Whether the RTC kernel clock is enabled.
    pub fn is_enabled_rtc_clock(&self) -> (r: bool)
        ensures
            r == field_is_set(self.registers.bdcr, BDCR_RTCEN, 1),
    {
        is_field_set(self.registers.bdcr, BDCR_RTCEN, 1)
    }

    /// Starts the LSI oscillator, waits (a bounded number of polls) for its
    /// enable bit to read back, selects `source` for the RTC and enables the
    /// RTC kernel clock.
    pub fn enable_rtc_clock(&mut self, source: RtcClockSource)
        ensures
            final(self).registers == (RccRegisters {
                csr: with_field(old(self).registers.csr, CSR_LSION, 1, 1),
                bdcr: with_field(
                    with_field(old(self).registers.bdcr, BDCR_RTCSEL_SHIFT, BDCR_RTCSEL_MASK, Self::spec_source_into_u32(source)),
                    BDCR_RTCEN,
                    1,
                    1,
                ),
                ..old(self).registers
            }),
            field_is_set(final(self).registers.bdcr, BDCR_RTCEN, 1),
            field_of(final(self).registers.bdcr, BDCR_RTCSEL_SHIFT, BDCR_RTCSEL_MASK) == Self::spec_source_into_u32(source),
    {
        self.enable_lsi_clock();
        let mut counter: u32 = LSI_POLL_LIMIT;
        while counter > 0 && !is_field_set(self.registers.csr, CSR_LSION, 1)
            invariant
                counter == LSI_POLL_LIMIT,
                field_is_set(self.registers.csr, CSR_LSION, 1),
            decreases counter,
        {
            counter = counter - 1;
        }
        // The enable bit was just written, so the poll never runs out.
        assert(counter == LSI_POLL_LIMIT);
        let source_num = Self::source_into_u32(source);
        let bdcr = write_field(self.registers.bdcr, BDCR_RTCSEL_SHIFT, BDCR_RTCSEL_MASK, source_num);
        proof {
            lemma_rcc_fields_wf();
            lemma_field_roundtrip(self.registers.bdcr, BDCR_RTCSEL_SHIFT, BDCR_RTCSEL_MASK, source_num);
            assert((1u32 << 15u32) & (3u32 << 8u32) == 0) by (bit_vector);
            crate::bitfield::lemma_write_other_field(bdcr, BDCR_RTCEN, 1, 1, BDCR_RTCSEL_SHIFT, BDCR_RTCSEL_MASK);
        }
        self.registers.bdcr = set_flag(bdcr, BDCR_RTCEN);
    }

    /// Writes 1 to RTCEN and deselects the RTC clock source (RTCSEL = 0).
    pub fn disable_rtc_clock(&mut self)
        ensures
            final(self).registers == (RccRegisters {
                bdcr: with_field(
                    with_field(old(self).registers.bdcr, BDCR_RTCEN, 1, 1),
                    BDCR_RTCSEL_SHIFT,
                    BDCR_RTCSEL_MASK,
                    0,
                ),
                ..old(self).registers
            }),
            field_of(final(self).registers.bdcr, BDCR_RTCSEL_SHIFT, BDCR_RTCSEL_MASK) == 0,
    {
        let bdcr = write_field(self.registers.bdcr, BDCR_RTCEN, 1, 1);
        proof {
            lemma_rcc_fields_wf();
            lemma_field_roundtrip(bdcr, BDCR_RTCSEL_SHIFT, BDCR_RTCSEL_MASK, 0);
        }
        self.registers.bdcr = write_field(bdcr, BDCR_RTCSEL_SHIFT, BDCR_RTCSEL_MASK, 0);
    }
}

impl From<AHBPrescaler> for usize {
    fn from(item: AHBPrescaler) -> (r: usize) {
        match item {
            AHBPrescaler::DivideBy1 => 1,
            AHBPrescaler::DivideBy2 => 2,
            AHBPrescaler::DivideBy4 => 4,
            AHBPrescaler::DivideBy8 => 8,
            AHBPrescaler::DivideBy16 => 16,
            AHBPrescaler::DivideBy64 => 64,
            AHBPrescaler::DivideBy128 => 128,
            AHBPrescaler::DivideBy256 => 256,
            AHBPrescaler::DivideBy512 => 512,
        }
    }
}

impl FromSpecImpl<AHBPrescaler> for usize {
    open spec fn obeys_from_spec() -> bool {
        true
    }

    open spec fn from_spec(item: AHBPrescaler) -> usize {
        item.spec_divider()
    }
}

impl From<APBPrescaler> for usize {
    fn from(item: APBPrescaler) -> (r: usize) {
        match item {
            APBPrescaler::DivideBy1 => 1,
            APBPrescaler::DivideBy2 => 2,
            APBPrescaler::DivideBy4 => 4,
            APBPrescaler::DivideBy8 => 8,
            APBPrescaler::DivideBy16 => 16,
        }
    }
}

impl FromSpecImpl<APBPrescaler> for usize {
    open spec fn obeys_from_spec() -> bool {
        true
    }

    open spec fn from_spec(item: APBPrescaler) -> usize {
        item.spec_divider()
    }
}

impl From<PLLP> for usize {
    fn from(item: PLLP) -> (r: usize) {
        let v = item.bits() as usize + 1;
        assert(v << 1 == v * 2) by (bit_vector)
            requires
                v <= 4,
        ;
        v << 1
    }
}

impl FromSpecImpl<PLLP> for usize {
    open spec fn obeys_from_spec() -> bool {
        true
    }

    open spec fn from_spec(item: PLLP) -> usize {
        item.spec_divider()
    }
}

} // verus!
