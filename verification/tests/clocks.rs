use lora_e5::phclk::{PeripheralClock, PeripheralClockType, HCLK1, HCLK2, HCLK3, PCLK1, PCLK2};
use lora_e5::rcc::{APBPrescaler, Rcc, RccRegisters};

fn rcc() -> Rcc {
    Rcc {
        registers: RccRegisters {
            cr: 0,
            cfgr: 0,
            pllcfgr: 0,
            ahb1enr: 0,
            ahb2enr: 0,
            ahb3enr: 0,
            apb1rstr1: 0,
            apb1enr1: 0,
            apb2enr: 0,
            bdcr: 0,
            csr: 0,
        },
    }
}

const HCLK: usize = 48_000_000;

#[test]
fn ahb_peripherals_run_at_hclk() {
    let r = rcc();
    for c in [
        PeripheralClockType::AHB1(HCLK1::DMA1),
        PeripheralClockType::AHB2(HCLK2::GPIOA),
        PeripheralClockType::AHB3(HCLK3::RNG),
    ] {
        assert_eq!(PeripheralClock::new(c).get_frequency(&r, HCLK), 48_000_000);
    }
}

#[test]
fn apb_peripherals_run_at_pclk() {
    let mut r = rcc();
    r.set_apb1_prescaler(APBPrescaler::DivideBy4);
    r.set_apb2_prescaler(APBPrescaler::DivideBy16);
    let usart2 = PeripheralClock::new(PeripheralClockType::APB1(PCLK1::USART2));
    assert_eq!(usart2.get_frequency(&r, HCLK), 12_000_000);
    let usart1 = PeripheralClock::new(PeripheralClockType::APB2(PCLK2::USART1));
    assert_eq!(usart1.get_frequency(&r, HCLK), 3_000_000);
}

#[test]
fn timer_clock_doubles_divided_pclk() {
    let mut r = rcc();
    let tim2 = PeripheralClock::new(PeripheralClockType::APB1(PCLK1::TIM2));
    assert_eq!(tim2.get_frequency(&r, HCLK), 48_000_000);
    r.set_apb1_prescaler(APBPrescaler::DivideBy2);
    assert_eq!(tim2.get_frequency(&r, HCLK), 48_000_000);
    r.set_apb1_prescaler(APBPrescaler::DivideBy4);
    assert_eq!(tim2.get_frequency(&r, HCLK), 24_000_000);
    r.set_apb1_prescaler(APBPrescaler::DivideBy16);
    assert_eq!(tim2.get_frequency(&r, HCLK), 6_000_000);
    // An odd HCLK: the divided clock rounds down before doubling.
    r.set_apb1_prescaler(APBPrescaler::DivideBy8);
    assert_eq!(tim2.get_frequency(&r, 1001), 250);
}

#[test]
fn frequency_is_truncated_to_u32() {
    let r = rcc();
    let c = PeripheralClock::new(PeripheralClockType::AHB1(HCLK1::CRC));
    if usize::BITS == 64 {
        let hclk = ((1u64 << 33) + 5) as usize;
        assert_eq!(c.get_frequency(&r, hclk), 5);
    }
}

#[test]
fn enable_and_disable_peripheral_clocks() {
    let mut r = rcc();
    let cases = [
        PeripheralClockType::AHB1(HCLK1::DMA1),
        PeripheralClockType::AHB1(HCLK1::DMA2),
        PeripheralClockType::APB1(PCLK1::TIM2),
        PeripheralClockType::APB1(PCLK1::USART2),
        PeripheralClockType::APB1(PCLK1::DAC),
        PeripheralClockType::APB2(PCLK2::USART1),
    ];
    for c in cases {
        let clock = PeripheralClock::new(c);
        assert!(!clock.is_enabled(&r));
        clock.enable(&mut r);
        assert!(clock.is_enabled(&r));
        clock.disable(&mut r);
        assert!(!clock.is_enabled(&r));
    }
    assert_eq!(r.registers, rcc().registers);
}

#[test]
fn i2c1_clock_can_only_be_enabled() {
    let mut r = rcc();
    let clock = PeripheralClock::new(PeripheralClockType::APB1(PCLK1::I2C1));
    clock.enable(&mut r);
    assert!(clock.is_enabled(&r));
    assert_eq!(r.registers.apb1enr1, 1 << 21);
}

#[test]
fn rtc_clock_from_lsi() {
    let mut r = rcc();
    let clock = PeripheralClock::new(PeripheralClockType::RTC);
    clock.enable(&mut r);
    assert!(clock.is_enabled(&r));
    assert_eq!(r.registers.bdcr, (1 << 15) | (2 << 8));
    assert_eq!(r.registers.csr, 1);
    clock.disable(&mut r);
    assert_eq!(r.registers.bdcr, 1 << 15);
}

#[test]
fn rng_clock_through_peripheral_clock() {
    let mut r = rcc();
    let clock = PeripheralClock::new(PeripheralClockType::AHB3(HCLK3::RNG));
    clock.configure_rng_clock(&mut r);
    assert_eq!(r.registers.pllcfgr, 2 << 25);
    assert_eq!(r.registers.cr, 1 << 24);
}
