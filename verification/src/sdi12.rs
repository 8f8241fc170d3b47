//! SDI-12 bus driver on a UART plus a command pin.
//!
//! A transmission starts with a break (the data line held low), then a
//! marking interval (held high), then the UART sends the command. The pin and
//! alarm operations the driver decides on are queued as [`Sdi12Action`]s for
//! the board to carry out; completions for the driver's clients are queued
//! the same way.
use vstd::prelude::*;
use crate::error::{ErrorCode, UartError};
use crate::hil::{Receive, Transmit};

verus! {

/// Length of the break that wakes the sensors.
pub const WAKE_SENSORS_INTERVAL_MS: u32 = 13;
/// Length of the marking interval after the break.
pub const MARKING_INTERVAL_MS: u32 = 9;

/// The UART the SDI-12 data line runs on.
pub trait Uart {
    /// Whether the UART, in its present state, takes a request to send `len`
    /// bytes of a buffer of `buffer_len` bytes.
    spec fn accepts_transmit(&self, buffer_len: usize, len: usize) -> bool;

    /// The error the UART, in its present state, refuses such a request with.
    spec fn transmit_error(&self, buffer_len: usize, len: usize) -> ErrorCode;

    /// The buffer and length of the transmission the UART holds, if any.
    spec fn pending_transmit(&self) -> Option<(Vec<u8>, usize)>;

    /// Whether the UART, in its present state, takes a request to receive
    /// `len` bytes into a buffer of `buffer_len` bytes.
    spec fn accepts_receive(&self, buffer_len: usize, len: usize) -> bool;

    /// The buffer length and byte count of the reception the UART holds, if
    /// any.
    spec fn pending_receive(&self) -> Option<(usize, usize)>;

    /// Starts sending the first `len` bytes of `buffer`. It succeeds exactly
    /// when the UART accepts the request, and the UART then holds `buffer`
    /// and `len`; on failure the buffer comes back with the UART's error. A
    /// reception in progress is not disturbed.
    fn transmit_buffer(&mut self, buffer: Vec<u8>, len: usize) -> (r: Result<(), (ErrorCode, Vec<u8>)>)
        ensures
            (r is Ok) == old(self).accepts_transmit(buffer.len(), len),
            r is Ok ==> final(self).pending_transmit() == Some((buffer, len)),
            r matches Err((e, b)) ==> e == old(self).transmit_error(buffer.len(), len) && b == buffer,
            final(self).pending_receive() == old(self).pending_receive(),
    ;

    /// Starts receiving up to `len` bytes into `buffer`. It succeeds exactly
    /// when the UART accepts the request, and the UART then holds a request
    /// for `len` bytes into a buffer of that length; on failure the buffer
    /// comes back. A transmission in progress is not disturbed.
    fn receive_buffer(&mut self, buffer: Vec<u8>, len: usize) -> (r: Result<(), (ErrorCode, Vec<u8>)>)
        ensures
            (r is Ok) == old(self).accepts_receive(buffer.len(), len),
            r is Ok ==> final(self).pending_receive() == Some((buffer.len(), len)),
            r matches Err((_, b)) ==> b == buffer,
            final(self).pending_transmit() == old(self).pending_transmit(),
    ;
}

/// Where a transmission stands.
#[derive(PartialEq, Eq, Debug)]
pub enum Sdi12State {
    /// Sending the break; `len` bytes of the buffer are to be sent.
    TxBreak(usize, Vec<u8>),
    /// Sending the marking interval.
    Tx(usize, Vec<u8>),
    /// The UART is sending `len` bytes; it holds the buffer.
    Sending(usize),
    /// No transmission.
    Idle,
}

/// Something the driver asks the board to do.
#[derive(PartialEq, Eq, Debug)]
pub enum Sdi12Action {
    /// Drive the command pin low (transmit direction).
    ClearCommandPin,
    /// Drive the command pin high (receive direction).
    SetCommandPin,
    /// Make the UART data pin a GPIO output.
    UartPinMakeOutput,
    /// Drive the UART data pin low.
    ClearUartPin,
    /// Drive the UART data pin high.
    SetUartPin,
    /// Hand the UART data pin back to the USART (alternate function AF7).
    UartPinAlternateFunction,
    /// Fire the driver's alarm after `interval_ms` milliseconds.
    SetAlarm { interval_ms: u32 },
    /// Tell the transmit client that a transmission ended.
    Transmitted { buffer: Vec<u8>, length: usize, status: Result<(), ErrorCode> },
    /// Tell the receive client that a reception ended.
    Received { buffer: Vec<u8>, length: usize, status: Result<(), ErrorCode>, error: UartError },
}

/// The SDI-12 driver.
pub struct Sdi12<U: Uart> {
    pub uart: U,
    pub state: Sdi12State,
    pub tx_client: bool,
    pub rx_client: bool,
    /// Actions decided and not yet carried out.
    pub actions: Vec<Sdi12Action>,
}

/// Whether a driver state is the idle state.
pub open spec fn is_idle(state: Sdi12State) -> bool {
    state is Idle
}

/// Whether the driver's alarm is running: during the break or the marking
/// interval.
pub open spec fn alarm_pending(state: Sdi12State) -> bool {
    state is TxBreak || state is Tx
}

impl<U: Uart> Sdi12<U> {
    /// An idle driver on `uart`, without clients.
    pub fn new(uart: U) -> (r: Self)
        ensures
            r.uart == uart,
            is_idle(r.state),
            !r.tx_client,
            !r.rx_client,
            r.actions@.len() == 0,
    {
        Sdi12 { uart, state: Sdi12State::Idle, tx_client: false, rx_client: false, actions: Vec::new() }
    }

    /// Hands over the pending actions, oldest first.
    pub fn take_actions(&mut self) -> (r: Vec<Sdi12Action>)
        ensures
            r@ == old(self).actions@,
            final(self).actions@.len() == 0,
            final(self).uart == old(self).uart,
            final(self).state == old(self).state,
            final(self).tx_client == old(self).tx_client,
            final(self).rx_client == old(self).rx_client,
    {
        let mut taken = Vec::new();
        std::mem::swap(&mut taken, &mut self.actions);
        taken
    }

    /// The alarm fired. After the break the driver starts the marking
    /// interval; after the marking interval it hands the pin back to the
    /// USART and hands the buffer and length to the UART. If the UART
    /// refuses, the driver is idle again and the client is told of the
    /// failure with the buffer and the UART's error.
    pub fn alarm(&mut self)
        requires
            alarm_pending(old(self).state),
        ensures
            final(self).tx_client == old(self).tx_client,
            final(self).rx_client == old(self).rx_client,
            old(self).state matches Sdi12State::TxBreak(len, data) ==> {
                &&& final(self).state == Sdi12State::Tx(len, data)
                &&& final(self).uart == old(self).uart
                &&& final(self).actions@ == old(self).actions@.push(Sdi12Action::UartPinMakeOutput).push(
                    Sdi12Action::SetUartPin,
                ).push(Sdi12Action::SetAlarm { interval_ms: MARKING_INTERVAL_MS })
            },
            old(self).state matches Sdi12State::Tx(len, data) ==> {
                &&& (final(self).state == Sdi12State::Sending(len)) == old(self).uart.accepts_transmit(data.len(), len)
                &&& final(self).state == Sdi12State::Sending(len) ==> {
                    &&& final(self).uart.pending_transmit() == Some((data, len))
                    &&& final(self).actions@ == old(self).actions@.push(Sdi12Action::UartPinAlternateFunction)
                }
                &&& final(self).state != Sdi12State::Sending(len) ==> {
                    &&& is_idle(final(self).state)
                    &&& final(self).uart.pending_receive() == old(self).uart.pending_receive()
                    &&& final(self).actions@ == if old(self).tx_client {
                        old(self).actions@.push(Sdi12Action::UartPinAlternateFunction).push(
                            Sdi12Action::Transmitted {
                                buffer: data,
                                length: len,
                                status: Err(old(self).uart.transmit_error(data.len(), len)),
                            },
                        )
                    } else {
                        old(self).actions@.push(Sdi12Action::UartPinAlternateFunction)
                    }
                }
                &&& final(self).uart.pending_receive() == old(self).uart.pending_receive()
            },
    {
        let mut state = Sdi12State::Idle;
        std::mem::swap(&mut state, &mut self.state);
        match state {
            Sdi12State::TxBreak(len, data) => {
                self.state = Sdi12State::Tx(len, data);
                self.actions.push(Sdi12Action::UartPinMakeOutput);
                self.actions.push(Sdi12Action::SetUartPin);
                self.actions.push(Sdi12Action::SetAlarm { interval_ms: MARKING_INTERVAL_MS });
            },
            Sdi12State::Tx(len, data) => {
                self.actions.push(Sdi12Action::UartPinAlternateFunction);
                match self.uart.transmit_buffer(data, len) {
                    Ok(()) => {
                        self.state = Sdi12State::Sending(len);
                    },
                    Err((err, buf)) => {
                        if self.tx_client {
                            self.actions.push(
                                Sdi12Action::Transmitted { buffer: buf, length: len, status: Err(err) },
                            );
                        }
                    },
                }
            },
            other => {
                self.state = other;
            },
        }
    }

    /// The UART finished a transmission: the command pin goes high for the
    /// reply, the driver is idle and the client is told.
    pub fn transmitted_buffer(&mut self, buffer: Vec<u8>, length: usize, status: Result<(), ErrorCode>)
        ensures
            is_idle(final(self).state),
            final(self).uart == old(self).uart,
            final(self).tx_client == old(self).tx_client,
            final(self).rx_client == old(self).rx_client,
            final(self).actions@ == if old(self).tx_client {
                old(self).actions@.push(Sdi12Action::SetCommandPin).push(
                    Sdi12Action::Transmitted { buffer, length, status },
                )
            } else {
                old(self).actions@.push(Sdi12Action::SetCommandPin)
            },
    {
        self.actions.push(Sdi12Action::SetCommandPin);
        self.state = Sdi12State::Idle;
        if self.tx_client {
            self.actions.push(Sdi12Action::Transmitted { buffer, length, status });
        }
    }

    /// The UART finished a reception: the driver is idle and the client is told.
    pub fn received_buffer(
        &mut self,
        buffer: Vec<u8>,
        length: usize,
        status: Result<(), ErrorCode>,
        error: UartError,
    )
        ensures
            is_idle(final(self).state),
            final(self).uart == old(self).uart,
            final(self).tx_client == old(self).tx_client,
            final(self).rx_client == old(self).rx_client,
            final(self).actions@ == if old(self).rx_client {
                old(self).actions@.push(Sdi12Action::Received { buffer, length, status, error })
            } else {
                old(self).actions@
            },
    {
        self.state = Sdi12State::Idle;
        if self.rx_client {
            self.actions.push(Sdi12Action::Received { buffer, length, status, error });
        }
    }
}

/// What a receive request answers for the UART's answer: a refusal is
/// reported as `FAIL`, with the buffer the UART gave back.
pub open spec fn spec_receive_result(
    uart_result: Result<(), (ErrorCode, Vec<u8>)>,
) -> Result<(), (ErrorCode, Vec<u8>)> {
    match uart_result {
        Ok(()) => Ok(()),
        Err((_, buf)) => Err((ErrorCode::FAIL, buf)),
    }
}

/// Maps the UART's answer to a receive request, see [`spec_receive_result`].
pub fn receive_result(uart_result: Result<(), (ErrorCode, Vec<u8>)>) -> (r: Result<(), (ErrorCode, Vec<u8>)>)
    ensures
        r == spec_receive_result(uart_result),
{
    match uart_result {
        Ok(()) => Ok(()),
        Err((_err, buf)) => Err((ErrorCode::FAIL, buf)),
    }
}

impl<U: Uart> Transmit for Sdi12<U> {
    /// A new transmission is accepted only when the driver is idle.
    open spec fn accepts_transmit(&self) -> bool {
        is_idle(self.state)
    }

    /// A refused request is answered `BUSY`.
    open spec fn transmit_error(&self) -> ErrorCode {
        ErrorCode::BUSY
    }

    /// The buffer and length held for the break or the marking interval,
    /// or held by the UART while it sends.
    open spec fn pending_transmit(&self) -> Option<(Seq<u8>, usize)> {
        match self.state {
            Sdi12State::TxBreak(len, data) => Some((data@, len)),
            Sdi12State::Tx(len, data) => Some((data@, len)),
            Sdi12State::Sending(_) => match self.uart.pending_transmit() {
                Some((data, len)) => Some((data@, len)),
                None => None,
            },
            Sdi12State::Idle => None,
        }
    }

    open spec fn has_transmit_client(&self) -> bool {
        self.tx_client
    }

    /// The UART, the state and the pending actions are the same.
    open spec fn same_except_clients(self, other: Self) -> bool {
        &&& self.uart == other.uart
        &&& self.state == other.state
        &&& self.actions == other.actions
    }

    proof fn lemma_same_except_clients_trans(a: Self, b: Self, c: Self) {
    }

    proof fn lemma_same_except_clients_transmit(a: Self, b: Self) {
    }

    /// Turns the command pin to transmit. When idle, starts the break: the
    /// data pin becomes an output driven low and the alarm is set for the
    /// wake-up interval. Otherwise (break, marking interval or UART still
    /// sending) the buffer is refused as `BUSY`.
    fn transmit(&mut self, data: Vec<u8>, len: usize) -> (r: Result<(), (ErrorCode, Vec<u8>)>)
        ensures
            final(self).uart == old(self).uart,
            final(self).tx_client == old(self).tx_client,
            final(self).rx_client == old(self).rx_client,
            is_idle(old(self).state) ==> {
                &&& r is Ok
                &&& final(self).state == Sdi12State::TxBreak(len, data)
                &&& final(self).actions@ == old(self).actions@.push(Sdi12Action::ClearCommandPin).push(
                    Sdi12Action::UartPinMakeOutput,
                ).push(Sdi12Action::ClearUartPin).push(
                    Sdi12Action::SetAlarm { interval_ms: WAKE_SENSORS_INTERVAL_MS },
                )
            },
            !is_idle(old(self).state) ==> {
                &&& r == Err::<(), (ErrorCode, Vec<u8>)>((ErrorCode::BUSY, data))
                &&& final(self).state == old(self).state
                &&& final(self).actions@ == old(self).actions@.push(Sdi12Action::ClearCommandPin)
            },
    {
        self.actions.push(Sdi12Action::ClearCommandPin);
        let mut state = Sdi12State::Idle;
        std::mem::swap(&mut state, &mut self.state);
        match state {
            Sdi12State::Idle => {
                self.state = Sdi12State::TxBreak(len, data);
            },
            other => {
                self.state = other;
                return Err((ErrorCode::BUSY, data));
            },
        }
        self.actions.push(Sdi12Action::UartPinMakeOutput);
        self.actions.push(Sdi12Action::ClearUartPin);
        self.actions.push(Sdi12Action::SetAlarm { interval_ms: WAKE_SENSORS_INTERVAL_MS });
        Ok(())
    }

    fn set_transmit_client(&mut self)
        ensures
            final(self).tx_client,
            final(self).uart == old(self).uart,
            final(self).state == old(self).state,
            final(self).rx_client == old(self).rx_client,
            final(self).actions == old(self).actions,
    {
        self.tx_client = true;
    }
}

impl<U: Uart> Receive for Sdi12<U> {
    /// A reception is accepted when the UART accepts it.
    open spec fn accepts_receive(&self, buffer_len: usize, max_len: usize) -> bool {
        self.uart.accepts_receive(buffer_len, max_len)
    }

    /// The reception the UART holds.
    open spec fn pending_receive(&self) -> Option<(usize, usize)> {
        self.uart.pending_receive()
    }

    open spec fn has_receive_client(&self) -> bool {
        self.rx_client
    }

    proof fn lemma_same_except_clients_receive(a: Self, b: Self) {
    }

    /// Hands `buffer` and `max_len` to the UART; it succeeds exactly when the
    /// UART accepts, and a refusal is reported as `FAIL` with the buffer.
    fn receive(&mut self, buffer: Vec<u8>, max_len: usize) -> (r: Result<(), (ErrorCode, Vec<u8>)>)
        ensures
            final(self).state == old(self).state,
            final(self).tx_client == old(self).tx_client,
            final(self).rx_client == old(self).rx_client,
            final(self).actions == old(self).actions,
            (r is Ok) == old(self).uart.accepts_receive(buffer.len(), max_len),
            r is Ok ==> final(self).uart.pending_receive() == Some((buffer.len(), max_len)),
            final(self).uart.pending_transmit() == old(self).uart.pending_transmit(),
            r is Err ==> r == Err::<(), (ErrorCode, Vec<u8>)>((ErrorCode::FAIL, buffer)),
    {
        let uart_result = self.uart.receive_buffer(buffer, max_len);
        receive_result(uart_result)
    }

    fn set_receive_client(&mut self)
        ensures
            final(self).rx_client,
            final(self).uart == old(self).uart,
            final(self).state == old(self).state,
            final(self).tx_client == old(self).tx_client,
            final(self).actions == old(self).actions,
    {
        self.rx_client = true;
    }
}

} // verus!
