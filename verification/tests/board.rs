use lora_e5::board::{
    panic_blink_pattern, BlinkStep, I2cError, ScanClient, Writer, LONG_DELAY_NOPS, SHORT_DELAY_NOPS,
};

#[test]
fn writer_initialisation() {
    let mut w = Writer { initialized: false };
    w.set_initialized();
    assert!(w.initialized);
}

#[test]
fn scan_client_reports_responding_address() {
    let c = ScanClient::new("i2c2");
    assert_eq!(c.dev_id, 1);
    assert_eq!(c.i2c_master, "i2c2");
    assert_eq!(c.command_complete(Ok(())), Some(1));
    assert_eq!(c.command_complete(Err(I2cError::AddressNak)), None);
}

#[test]
fn panic_blink_pattern_is_long_short_short_long() {
    let p = panic_blink_pattern();
    let expect = [
        (true, LONG_DELAY_NOPS),
        (false, SHORT_DELAY_NOPS),
        (true, SHORT_DELAY_NOPS),
        (false, SHORT_DELAY_NOPS),
        (true, SHORT_DELAY_NOPS),
        (false, SHORT_DELAY_NOPS),
        (true, LONG_DELAY_NOPS),
        (false, LONG_DELAY_NOPS),
    ];
    assert_eq!(p.len(), 8);
    for (step, (on, delay)) in p.iter().zip(expect) {
        assert_eq!(*step, BlinkStep { led_on: on, delay_nops: delay });
    }
    assert_eq!(LONG_DELAY_NOPS, 1_000_000);
    assert_eq!(SHORT_DELAY_NOPS, 100_000);
}
