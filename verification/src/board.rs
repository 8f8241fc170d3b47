//! Board support: the debug writer's state, the I2C scan client and the
//! SDI-12 capsule set-up.
use vstd::prelude::*;
use crate::hil::{Receive, Transmit};
use crate::sdi12_ents::{Sdi12Ents, State};

verus! {

/// Writes kernel debug output to the serial port.
pub struct Writer {
    /// Whether the USART has already been initialised.
    pub initialized: bool,
}

impl Writer {
    /// Records that the USART has already been initialised; initialising it
    /// twice leaves it in an undefined state.
    pub fn set_initialized(&mut self)
        ensures
            final(self).initialized,
    {
        self.initialized = true;
    }
}

/// Busy-wait iterations of a long blink phase.
pub const LONG_DELAY_NOPS: u32 = 1_000_000;
/// Busy-wait iterations of a short blink phase.
pub const SHORT_DELAY_NOPS: u32 = 100_000;

/// One phase of the panic blink: the LED state and how long it is held.
#[derive(Clone, Copy, PartialEq, Eq, Structural, Debug)]
pub struct BlinkStep {
    pub led_on: bool,
    pub delay_nops: u32,
}

/// The LED pattern repeated forever after a kernel panic: long on, then two
/// short flashes, then long on and long off.
pub open spec fn spec_panic_blink_pattern() -> Seq<BlinkStep> {
    seq![
        BlinkStep { led_on: true, delay_nops: LONG_DELAY_NOPS },
        BlinkStep { led_on: false, delay_nops: SHORT_DELAY_NOPS },
        BlinkStep { led_on: true, delay_nops: SHORT_DELAY_NOPS },
        BlinkStep { led_on: false, delay_nops: SHORT_DELAY_NOPS },
        BlinkStep { led_on: true, delay_nops: SHORT_DELAY_NOPS },
        BlinkStep { led_on: false, delay_nops: SHORT_DELAY_NOPS },
        BlinkStep { led_on: true, delay_nops: LONG_DELAY_NOPS },
        BlinkStep { led_on: false, delay_nops: LONG_DELAY_NOPS },
    ]
}

/// One period of the panic blink pattern, see [`spec_panic_blink_pattern`].
pub fn panic_blink_pattern() -> (r: Vec<BlinkStep>)
    ensures
        r@ == spec_panic_blink_pattern(),
{
    let mut v = Vec::new();
    v.push(BlinkStep { led_on: true, delay_nops: LONG_DELAY_NOPS });
    v.push(BlinkStep { led_on: false, delay_nops: SHORT_DELAY_NOPS });
    v.push(BlinkStep { led_on: true, delay_nops: SHORT_DELAY_NOPS });
    v.push(BlinkStep { led_on: false, delay_nops: SHORT_DELAY_NOPS });
    v.push(BlinkStep { led_on: true, delay_nops: SHORT_DELAY_NOPS });
    v.push(BlinkStep { led_on: false, delay_nops: SHORT_DELAY_NOPS });
    v.push(BlinkStep { led_on: true, delay_nops: LONG_DELAY_NOPS });
    v.push(BlinkStep { led_on: false, delay_nops: LONG_DELAY_NOPS });
    assert(v@ =~= spec_panic_blink_pattern());
    v
}

/// Errors an I2C transfer can end with.
#[derive(Clone, Copy, PartialEq, Eq, Structural, Debug)]
pub enum I2cError {
    AddressNak,
    DataNak,
    ArbitrationLost,
    Overrun,
    NotSupported,
    BusError,
    Busy,
}

/// Scans an I2C bus for devices.
pub struct ScanClient<M> {
    /// The device address being probed.
    pub dev_id: u8,
    pub i2c_master: M,
}

impl<M> ScanClient<M> {
    /// A scan on `i2c_master`, starting at address 1.
    pub fn new(i2c_master: M) -> (r: Self)
        ensures
            r.dev_id == 1,
            r.i2c_master == i2c_master,
    {
        Self { dev_id: 1, i2c_master }
    }

    /// A transfer to the probed address ended with `status`: the address to
    /// report as a device, if the transfer succeeded.
    pub fn command_complete(&self, status: Result<(), I2cError>) -> (r: Option<u8>)
        ensures
            r == if status is Ok { Some(self.dev_id) } else { None::<u8> },
    {
        let dev_id = self.dev_id;
        if status.is_ok() {
            Some(dev_id)
        } else {
            None
        }
    }
}

/// Sets up the SDI-12 capsule on `sdi12_driver` with the two kernel buffers,
/// and makes the capsule the driver's transmit and receive client.
pub fn init_sdi12_ents<S: Transmit + Receive>(
    sdi12_driver: S,
    tx_buffer: Vec<u8>,
    rx_buffer: Vec<u8>,
) -> (r: Sdi12Ents<S>)
    ensures
        r.state == State::Idle,
        r.tx_buffer == Some(tx_buffer),
        r.rx_buffer == Some(rx_buffer),
        r.tx_in_progress is None,
        r.rx_in_progress is None,
        r.actions@.len() == 0,
        r.sdi12.has_transmit_client(),
        r.sdi12.has_receive_client(),
        r.sdi12.same_except_clients(sdi12_driver),
        r.sdi12.accepts_transmit() == sdi12_driver.accepts_transmit(),
        r.sdi12.transmit_error() == sdi12_driver.transmit_error(),
        r.sdi12.pending_transmit() == sdi12_driver.pending_transmit(),
        r.sdi12.pending_receive() == sdi12_driver.pending_receive(),
        forall|l: usize, m: usize| #[trigger] r.sdi12.accepts_receive(l, m) == sdi12_driver.accepts_receive(l, m),
{
    let ghost driver = sdi12_driver;
    let mut sdi12_ents = Sdi12Ents::new(tx_buffer, rx_buffer, sdi12_driver);
    sdi12_ents.sdi12.set_transmit_client();
    let ghost with_tx_client = sdi12_ents.sdi12;
    sdi12_ents.sdi12.set_receive_client();
    proof {
        S::lemma_same_except_clients_trans(sdi12_ents.sdi12, with_tx_client, driver);
        S::lemma_same_except_clients_transmit(sdi12_ents.sdi12, driver);
        S::lemma_same_except_clients_receive(sdi12_ents.sdi12, driver);
    }
    sdi12_ents
}

} // verus!
