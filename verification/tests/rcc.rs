use lora_e5::rcc::{
    AHBPrescaler, APBPrescaler, MCO1Divider, MCO1Source, PllSource, Rcc, RccRegisters,
    RtcClockSource, SysClockSource, PLLM, PLLP, PLLQ,
};

fn regs(v: u32) -> RccRegisters {
    RccRegisters {
        cr: v,
        cfgr: v,
        pllcfgr: v,
        ahb1enr: v,
        ahb2enr: v,
        ahb3enr: v,
        apb1rstr1: v,
        apb1enr1: v,
        apb2enr: v,
        bdcr: v,
        csr: v,
    }
}

fn rcc_with(v: u32) -> Rcc {
    Rcc { registers: regs(v) }
}

#[test]
fn new_applies_default_pll_configuration() {
    let rcc = Rcc::new(regs(0));
    // PLLSRC = HSI (2), PLLM = 8 & 7 = 0, PLLN = 192 & 127 = 64, PLLP = 1 (/4), PLLQ = 8 & 7 = 0
    assert_eq!(rcc.registers.pllcfgr, 0x0002_4002);
    assert_eq!(rcc.registers.cr, 0);
    assert_eq!(rcc.get_pll_clock_n_multiplier(), 64);
    assert_eq!(rcc.get_pll_clock_p_divider(), PLLP::DivideBy4);
    assert_eq!(rcc.get_pll_clocks_source(), Some(PllSource::HSI));
}

#[test]
fn new_keeps_unrelated_bits() {
    let rcc = Rcc::new(regs(0xFFFF_FFFF));
    assert_eq!(rcc.registers.pllcfgr, (0xFFFF_FFFF & !0x0e3e_7f73) | 0x0002_4002);
    assert_eq!(rcc.registers.cfgr, 0xFFFF_FFFF);
    assert_eq!(rcc.registers.bdcr, 0xFFFF_FFFF);
}

#[test]
fn sys_clock_source_reads_sws() {
    let mut rcc = rcc_with(0);
    assert_eq!(rcc.get_sys_clock_source(), SysClockSource::MSI);
    rcc.registers.cfgr = 0b0100;
    assert_eq!(rcc.get_sys_clock_source(), SysClockSource::HSI);
    rcc.registers.cfgr = 0b1000;
    assert_eq!(rcc.get_sys_clock_source(), SysClockSource::HSE);
    rcc.registers.cfgr = 0b1100;
    assert_eq!(rcc.get_sys_clock_source(), SysClockSource::PLL);
}

#[test]
fn set_sys_clock_source_writes_sw_only() {
    let mut rcc = rcc_with(0);
    rcc.set_sys_clock_source(SysClockSource::HSE);
    assert_eq!(rcc.registers.cfgr, 0b10);
    // The switch status is reported by the hardware, not by the request.
    assert_eq!(rcc.get_sys_clock_source(), SysClockSource::MSI);
    rcc.set_sys_clock_source(SysClockSource::PLL);
    assert_eq!(rcc.registers.cfgr, 0b11);
    rcc.set_sys_clock_source(SysClockSource::MSI);
    assert_eq!(rcc.registers.cfgr, 0);
}

#[test]
fn system_clock_origin() {
    let mut rcc = rcc_with(0);
    assert!(rcc.is_msi_clock_system_clock());
    assert!(!rcc.is_hsi_clock_system_clock());
    rcc.registers.cfgr = 0b0100;
    assert!(rcc.is_hsi_clock_system_clock());
    assert!(!rcc.is_msi_clock_system_clock());
    rcc.registers.cfgr = 0b1000;
    assert!(rcc.is_hse_clock_system_clock());
    // PLL fed by MSI
    rcc.registers.cfgr = 0b1100;
    rcc.registers.pllcfgr = 1;
    assert!(rcc.is_msi_clock_system_clock());
    assert!(!rcc.is_hsi_clock_system_clock());
    rcc.registers.pllcfgr = 2;
    assert!(rcc.is_hsi_clock_system_clock());
    rcc.registers.pllcfgr = 3;
    assert!(rcc.is_hse_clock_system_clock());
    assert!(!rcc.is_msi_clock_system_clock());
}

#[test]
fn oscillator_bits() {
    let mut rcc = rcc_with(0);
    rcc.enable_msi_clock();
    assert_eq!(rcc.registers.cr, 1);
    assert!(rcc.is_enabled_msi_clock());
    assert!(!rcc.is_ready_msi_clock());
    rcc.enable_hsi_clock();
    assert_eq!(rcc.registers.cr, 1 | (1 << 8));
    assert!(rcc.is_enabled_hsi_clock());
    rcc.enable_hse_clock();
    rcc.enable_hse_clock_bypass();
    assert!(rcc.is_enabled_hse_clock());
    assert_eq!(rcc.registers.cr, 1 | (1 << 8) | (1 << 16) | (1 << 21));
    rcc.enable_pll_clock();
    assert!(rcc.is_enabled_pll_clock());
    assert!(!rcc.is_locked_pll_clock());
    rcc.disable_msi_clock();
    rcc.disable_hsi_clock();
    rcc.disable_pll_clock();
    assert!(!rcc.is_enabled_msi_clock());
    assert!(!rcc.is_enabled_hsi_clock());
    assert!(!rcc.is_enabled_pll_clock());
    assert_eq!(rcc.registers.cr, (1 << 16) | (1 << 21));
}

#[test]
fn ready_flags_read_from_register() {
    let rcc = Rcc { registers: RccRegisters { cr: (1 << 1) | (1 << 10) | (1 << 17) | (1 << 25), ..regs(0) } };
    assert!(rcc.is_ready_msi_clock());
    assert!(rcc.is_ready_hsi_clock());
    assert!(rcc.is_ready_hse_clock());
    assert!(rcc.is_locked_pll_clock());
    assert!(!rcc.is_enabled_pll_clock());
}

#[test]
fn disable_hse_clears_enable_and_vddtcxo() {
    let mut rcc = rcc_with(0xFFFF_FFFF);
    rcc.disable_hse_clock();
    assert_eq!(rcc.registers.cr, 0xFFDE_FFFF);
    assert!(!rcc.is_enabled_hse_clock());
}

#[test]
fn pll_source_encoding() {
    let mut rcc = rcc_with(0);
    assert_eq!(rcc.get_pll_clocks_source(), None);
    rcc.set_pll_clocks_source(PllSource::MSI);
    assert_eq!(rcc.registers.pllcfgr, 1);
    assert_eq!(rcc.get_pll_clocks_source(), Some(PllSource::MSI));
    rcc.set_pll_clocks_source(PllSource::HSI);
    assert_eq!(rcc.registers.pllcfgr, 2);
    assert_eq!(rcc.get_pll_clocks_source(), Some(PllSource::HSI));
    rcc.set_pll_clocks_source(PllSource::HSE);
    assert_eq!(rcc.registers.pllcfgr, 3);
    assert_eq!(rcc.get_pll_clocks_source(), Some(PllSource::HSE));
}

#[test]
fn pll_source_set_keeps_other_bits() {
    let mut rcc = rcc_with(0xFFFF_FFF0);
    rcc.set_pll_clocks_source(PllSource::HSI);
    assert_eq!(rcc.registers.pllcfgr, 0xFFFF_FFF2);
    assert_eq!(rcc.get_pll_clocks_source(), Some(PllSource::HSI));
}

#[test]
fn pll_dividers() {
    let mut rcc = rcc_with(0);
    rcc.set_pll_clocks_m_divider(PLLM::DivideBy16);
    assert_eq!(rcc.registers.pllcfgr, 0);
    rcc.set_pll_clock_n_multiplier(100);
    assert_eq!(rcc.get_pll_clock_n_multiplier(), 100);
    assert_eq!(rcc.registers.pllcfgr, 100 << 8);
    rcc.set_pll_clock_n_multiplier(0x1FF);
    assert_eq!(rcc.get_pll_clock_n_multiplier(), 0x7F);
    for p in [PLLP::DivideBy2, PLLP::DivideBy4, PLLP::DivideBy6, PLLP::DivideBy8] {
        rcc.set_pll_clock_p_divider(p);
        assert_eq!(rcc.get_pll_clock_p_divider(), p);
    }
    rcc.registers.pllcfgr = 0b11111 << 17;
    assert_eq!(rcc.get_pll_clock_p_divider(), PLLP::DivideBy8);
    rcc.set_pll_clock_q_divider(PLLQ::DivideBy5);
    assert_eq!((rcc.registers.pllcfgr >> 25) & 7, 5);
    assert_eq!(rcc._get_pll_clock_q_divider(), PLLQ::DivideBy5);
    rcc.set_pll_clock_q_divider(PLLQ::DivideBy3);
    assert_eq!(rcc._get_pll_clock_q_divider(), PLLQ::DivideBy3);
    rcc.set_pll_clock_q_divider(PLLQ::DivideBy9);
    assert_eq!((rcc.registers.pllcfgr >> 25) & 7, 1);
}

#[test]
fn prescalers_round_trip() {
    let mut rcc = rcc_with(0);
    let ahb = [
        AHBPrescaler::DivideBy1,
        AHBPrescaler::DivideBy2,
        AHBPrescaler::DivideBy4,
        AHBPrescaler::DivideBy8,
        AHBPrescaler::DivideBy16,
        AHBPrescaler::DivideBy64,
        AHBPrescaler::DivideBy128,
        AHBPrescaler::DivideBy256,
        AHBPrescaler::DivideBy512,
    ];
    for p in ahb {
        rcc.set_ahb_prescaler(p);
        assert_eq!(rcc.get_ahb_prescaler(), p);
    }
    assert_eq!(rcc.registers.cfgr, 0xF << 4);
    let apb = [
        APBPrescaler::DivideBy1,
        APBPrescaler::DivideBy2,
        APBPrescaler::DivideBy4,
        APBPrescaler::DivideBy8,
        APBPrescaler::DivideBy16,
    ];
    for p in apb {
        rcc.set_apb1_prescaler(p);
        assert_eq!(rcc.get_apb1_prescaler(), p);
        rcc.set_apb2_prescaler(p);
        assert_eq!(rcc.get_apb2_prescaler(), p);
    }
    assert_eq!(rcc.registers.cfgr, (0xF << 4) | (7 << 10) | (7 << 13));
    assert_eq!(rcc.get_ahb_prescaler(), AHBPrescaler::DivideBy512);
}

#[test]
fn prescaler_low_encodings_mean_no_division() {
    let mut rcc = rcc_with(0);
    rcc.registers.cfgr = (7 << 4) | (3 << 10) | (2 << 13);
    assert_eq!(rcc.get_ahb_prescaler(), AHBPrescaler::DivideBy1);
    assert_eq!(rcc.get_apb1_prescaler(), APBPrescaler::DivideBy1);
    assert_eq!(rcc.get_apb2_prescaler(), APBPrescaler::DivideBy1);
}

#[test]
fn mco_settings() {
    let mut rcc = rcc_with(0);
    for s in [MCO1Source::HSI, MCO1Source::HSE, MCO1Source::PLL] {
        rcc.set_mco1_clock_source(s);
        assert_eq!(rcc.get_mco1_clock_source(), s);
    }
    assert_eq!(rcc.registers.cfgr, 3 << 24);
    for d in [
        MCO1Divider::DivideBy1,
        MCO1Divider::DivideBy2,
        MCO1Divider::DivideBy3,
        MCO1Divider::DivideBy4,
        MCO1Divider::DivideBy5,
    ] {
        rcc.set_mco1_clock_divider(d);
        assert_eq!(rcc.get_mco1_clock_divider(), d);
    }
    assert_eq!(rcc.registers.cfgr, (3 << 24) | (7 << 28));
    // LSE (0b1000) is not a supported source and reads as PLL.
    rcc.registers.cfgr = 0b1000 << 24;
    assert_eq!(rcc.get_mco1_clock_source(), MCO1Source::PLL);
}

#[test]
fn rng_clock_configuration() {
    let mut rcc = rcc_with(0);
    rcc.configure_rng_clock();
    assert_eq!(rcc.registers.pllcfgr, 2 << 25);
    assert!(rcc.is_enabled_pll_clock());
    rcc.enable_rng_clock();
    assert!(rcc.is_enabled_rng_clock());
    assert_eq!(rcc.registers.ahb3enr, 1 << 18);
    rcc.disable_rng_clock();
    assert!(!rcc.is_enabled_rng_clock());
}

#[test]
fn i2c1_enable_pulses_reset() {
    let mut rcc = rcc_with(0);
    rcc.registers.apb1rstr1 = 0xFFFF_FFFF;
    rcc.enable_i2c1_clock();
    assert!(rcc.is_enabled_i2c1_clock());
    assert_eq!(rcc.registers.apb1enr1, 1 << 21);
    assert_eq!(rcc.registers.apb1rstr1, 0xFFDF_FFFF);
    rcc.disable_i2c1_clock();
    assert!(!rcc.is_enabled_i2c1_clock());
}

#[test]
fn peripheral_enable_bits() {
    let mut rcc = rcc_with(0);
    rcc.enable_tim2_clock();
    rcc.enable_usart2_clock();
    rcc.enable_dac_clock();
    assert_eq!(rcc.registers.apb1enr1, 1 | (1 << 17) | (1 << 29));
    rcc.enable_dma1_clock();
    rcc.enable_dma2_clock();
    assert_eq!(rcc.registers.ahb1enr, 0b11);
    rcc.enable_gpioa_clock();
    rcc.enable_gpiob_clock();
    rcc.enable_gpioc_clock();
    rcc.enable_gpioh_clock();
    assert_eq!(rcc.registers.ahb2enr, 0b1000_0111);
    rcc.enable_usart1_clock();
    rcc.enable_adc1_clock();
    assert_eq!(rcc.registers.apb2enr, (1 << 14) | (1 << 9));
    assert!(rcc.is_enabled_tim2_clock() && rcc.is_enabled_usart2_clock() && rcc.is_enabled_dac_clock());
    assert!(rcc.is_enabled_dma1_clock() && rcc.is_enabled_dma2_clock());
    assert!(rcc.is_enabled_gpioa_clock() && rcc.is_enabled_gpiob_clock());
    assert!(rcc.is_enabled_gpioc_clock() && rcc.is_enabled_gpioh_clock());
    assert!(rcc.is_enabled_usart1_clock() && rcc.is_enabled_adc1_clock());
    rcc.disable_tim2_clock();
    rcc.disable_usart2_clock();
    rcc.disable_dac_clock();
    rcc.disable_dma1_clock();
    rcc.disable_dma2_clock();
    rcc.disable_gpioa_clock();
    rcc.disable_gpiob_clock();
    rcc.disable_gpioc_clock();
    rcc.disable_gpioh_clock();
    rcc.disable_usart1_clock();
    rcc.disable_adc1_clock();
    assert_eq!(rcc.registers, regs(0));
    assert!(!rcc.is_enabled_tim_pre());
}

#[test]
fn rtc_clock_enable_and_disable() {
    let mut rcc = rcc_with(0);
    assert!(!rcc.is_enabled_rtc_clock());
    rcc.enable_rtc_clock(RtcClockSource::LSE);
    assert_eq!(rcc.registers.csr, 1);
    assert_eq!(rcc.registers.bdcr, (1 << 15) | (1 << 8));
    assert!(rcc.is_enabled_rtc_clock());
    rcc.enable_rtc_clock(RtcClockSource::HSERTC);
    assert_eq!(rcc.registers.bdcr, (1 << 15) | (3 << 8));
    // Disabling writes 1 to RTCEN and deselects the source.
    rcc.disable_rtc_clock();
    assert_eq!(rcc.registers.bdcr, 1 << 15);
    assert!(rcc.is_enabled_rtc_clock());
}

#[test]
fn lsi_clock_enable() {
    let mut rcc = rcc_with(0);
    rcc.enable_lsi_clock();
    assert_eq!(rcc.registers.csr, 1);
}

#[test]
fn rtc_source_encoding() {
    assert_eq!(Rcc::source_into_u32(RtcClockSource::LSE), 1);
    assert_eq!(Rcc::source_into_u32(RtcClockSource::LSI), 2);
    assert_eq!(Rcc::source_into_u32(RtcClockSource::HSERTC), 3);
}

#[test]
fn divider_values() {
    assert_eq!(usize::from(AHBPrescaler::DivideBy1), 1);
    assert_eq!(usize::from(AHBPrescaler::DivideBy64), 64);
    assert_eq!(usize::from(AHBPrescaler::DivideBy512), 512);
    assert_eq!(usize::from(APBPrescaler::DivideBy16), 16);
    assert_eq!(usize::from(APBPrescaler::DivideBy2), 2);
    assert_eq!(usize::from(PLLP::DivideBy2), 2);
    assert_eq!(usize::from(PLLP::DivideBy4), 4);
    assert_eq!(usize::from(PLLP::DivideBy6), 6);
    assert_eq!(usize::from(PLLP::DivideBy8), 8);
}
