use lora_e5::device_signature::{Uid64, Uid64Registers};
use lora_e5::pwr::{Pwr, PwrRegisters};
use lora_e5::subghz_radio::{
    Configuration, FloatingState, InterruptEdge, SubGhzRadioBusy, SubGhzRadioSignals,
    SubGhzRadioVirtualGpio, VirtualGpioReader, NSS,
};

fn pwr(v: u32) -> Pwr {
    Pwr::new(PwrRegisters { cr1: v, sr2: v, subghzspicr: v })
}

#[test]
fn backup_domain_access() {
    let mut p = pwr(0);
    assert!(!p.is_backup_domain_access_enabled());
    p.enable_backup_domain_access();
    assert_eq!(p.registers.cr1, 1 << 8);
    assert!(p.is_backup_domain_access_enabled());
    p.disable_backup_domain_access();
    assert_eq!(p.registers.cr1, 0);
}

#[test]
fn nss_line() {
    let mut p = pwr(0);
    p.set_nss();
    assert!(p.is_set_nss());
    assert_eq!(p.registers.subghzspicr, 1 << 15);
    p.clear_nss();
    assert!(!p.is_set_nss());
    let mut n = NSS::new(pwr(0xFFFF_FFFF));
    n.clear();
    assert_eq!(n.pwr.registers.subghzspicr, 0xFFFF_7FFF);
    n.write(7);
    assert!(n.pwr.is_set_nss());
    n.write(0);
    assert!(!n.pwr.is_set_nss());
    n.set();
    assert_eq!(n.pwr.registers.subghzspicr, 0xFFFF_FFFF);
}

#[test]
fn radio_busy() {
    let b = SubGhzRadioBusy::new(pwr(0));
    assert!(!b.is_busy());
    let mut b = SubGhzRadioBusy::new(Pwr::new(PwrRegisters { cr1: 0, sr2: 0b10, subghzspicr: 0 }));
    assert!(b.is_busy());
    assert!(b.read());
    b.write(0);
    assert!(b.read());
    let gpio = SubGhzRadioVirtualGpio::new(b);
    assert!(gpio.read());
}

#[test]
fn radio_interrupt_line() {
    let mut s = SubGhzRadioSignals::new();
    assert!(!s.read());
    s.record_next_pending(Some(3));
    assert!(s.read());
    let mask = SubGhzRadioSignals::pending_mask(50);
    assert_eq!(mask.0, u128::MAX);
    assert_eq!(mask.1, !(1u128 << 18));
    let gpio = SubGhzRadioVirtualGpio::new(s);
    assert!(gpio.read());
    assert!(!gpio.is_pending());
    assert!(!gpio.toggle());
    assert_eq!(gpio.make_input(), Configuration::Input);
    gpio.set();
    gpio.clear();
    gpio.enable_interrupts(InterruptEdge::EitherEdge);
    gpio.disable_interrupts();
    gpio.set_floating_state(FloatingState::PullNone);
    gpio.set_client(&());
    assert!(gpio.read());
}

#[test]
fn device_uid64() {
    let uid = Uid64::new(Uid64Registers { uid64_low: 0x1234_5678, uid64_high: 0x0080_E105 });
    assert_eq!(uid.get_device_uid64(), 0x0080_E105_1234_5678);
    let uid = Uid64::new(Uid64Registers { uid64_low: 0xFFFF_FFFF, uid64_high: 0 });
    assert_eq!(uid.get_device_uid64(), 0xFFFF_FFFF);
}
