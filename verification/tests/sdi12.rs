use lora_e5::board::init_sdi12_ents;
use lora_e5::error::{ErrorCode, UartError};
use lora_e5::hil::{Receive, ReceiveClient, Transmit, TransmitClient};
use lora_e5::sdi12::{Sdi12, Sdi12Action, Sdi12State, Uart, MARKING_INTERVAL_MS, WAKE_SENSORS_INTERVAL_MS};
use lora_e5::sdi12_ents::{
    mask_received, ret_code, CommandReturn, ProcessId, Sdi12Ents, Sdi12EntsAction, Sdi12Status,
    State, UPCALL_SDI12_RX, UPCALL_SDI12_TX,
};

/// A UART that records what it is asked and accepts or refuses as told.
struct MockUart {
    accept_tx: bool,
    accept_rx: bool,
    sent: Vec<(Vec<u8>, usize)>,
    receiving: Vec<(Vec<u8>, usize)>,
}

impl MockUart {
    fn new(accept_tx: bool, accept_rx: bool) -> Self {
        MockUart { accept_tx, accept_rx, sent: Vec::new(), receiving: Vec::new() }
    }
}

impl Uart for MockUart {
    fn pending_transmit(&self) -> Option<(Vec<u8>, usize)> {
        self.sent.last().cloned()
    }

    fn pending_receive(&self) -> Option<(usize, usize)> {
        self.receiving.last().map(|(b, l)| (b.len(), *l))
    }

    fn accepts_transmit(&self, _buffer_len: usize, _len: usize) -> bool {
        self.accept_tx
    }

    fn transmit_error(&self, _buffer_len: usize, _len: usize) -> ErrorCode {
        ErrorCode::OFF
    }

    fn transmit_buffer(&mut self, buffer: Vec<u8>, len: usize) -> Result<(), (ErrorCode, Vec<u8>)> {
        if self.accept_tx {
            self.sent.push((buffer, len));
            Ok(())
        } else {
            Err((ErrorCode::OFF, buffer))
        }
    }

    fn accepts_receive(&self, _buffer_len: usize, _len: usize) -> bool {
        self.accept_rx
    }

    fn receive_buffer(&mut self, buffer: Vec<u8>, len: usize) -> Result<(), (ErrorCode, Vec<u8>)> {
        if self.accept_rx {
            self.receiving.push((buffer, len));
            Ok(())
        } else {
            Err((ErrorCode::SIZE, buffer))
        }
    }
}

#[test]
fn transmit_runs_break_then_marking_then_uart() {
    let mut d = Sdi12::new(MockUart::new(true, true));
    d.set_transmit_client();
    assert_eq!(d.transmit(b"0!".to_vec(), 2), Ok(()));
    assert_eq!(d.state, Sdi12State::TxBreak(2, b"0!".to_vec()));
    assert_eq!(
        d.take_actions(),
        vec![
            Sdi12Action::ClearCommandPin,
            Sdi12Action::UartPinMakeOutput,
            Sdi12Action::ClearUartPin,
            Sdi12Action::SetAlarm { interval_ms: WAKE_SENSORS_INTERVAL_MS },
        ]
    );
    d.alarm();
    assert_eq!(d.state, Sdi12State::Tx(2, b"0!".to_vec()));
    assert_eq!(
        d.take_actions(),
        vec![
            Sdi12Action::UartPinMakeOutput,
            Sdi12Action::SetUartPin,
            Sdi12Action::SetAlarm { interval_ms: MARKING_INTERVAL_MS },
        ]
    );
    d.alarm();
    assert_eq!(d.state, Sdi12State::Sending(2));
    assert_eq!(d.take_actions(), vec![Sdi12Action::UartPinAlternateFunction]);
    assert_eq!(d.uart.sent, vec![(b"0!".to_vec(), 2)]);
    d.transmitted_buffer(b"0!".to_vec(), 2, Ok(()));
    assert_eq!(d.state, Sdi12State::Idle);
    assert_eq!(
        d.take_actions(),
        vec![
            Sdi12Action::SetCommandPin,
            Sdi12Action::Transmitted { buffer: b"0!".to_vec(), length: 2, status: Ok(()) },
        ]
    );
    assert_eq!(WAKE_SENSORS_INTERVAL_MS, 13);
    assert_eq!(MARKING_INTERVAL_MS, 9);
}

#[test]
fn transmit_while_busy_returns_buffer() {
    let mut d = Sdi12::new(MockUart::new(true, true));
    assert_eq!(d.transmit(vec![1, 2, 3], 3), Ok(()));
    let _ = d.take_actions();
    assert_eq!(d.transmit(vec![9], 1), Err((ErrorCode::BUSY, vec![9])));
    assert_eq!(d.take_actions(), vec![Sdi12Action::ClearCommandPin]);
    assert_eq!(d.state, Sdi12State::TxBreak(3, vec![1, 2, 3]));
    d.alarm();
    assert_eq!(d.transmit(vec![8], 1), Err((ErrorCode::BUSY, vec![8])));
    assert_eq!(d.state, Sdi12State::Tx(3, vec![1, 2, 3]));
    d.alarm();
    assert_eq!(d.state, Sdi12State::Sending(3));
    assert_eq!(d.transmit(vec![7], 1), Err((ErrorCode::BUSY, vec![7])));
    assert_eq!(d.state, Sdi12State::Sending(3));
    assert_eq!(d.uart.sent, vec![(vec![1, 2, 3], 3)]);
}

#[test]
fn uart_refusal_reports_failure_to_client() {
    let mut d = Sdi12::new(MockUart::new(false, true));
    d.set_transmit_client();
    d.transmit(vec![5, 6], 2).unwrap();
    d.alarm();
    let _ = d.take_actions();
    d.alarm();
    assert_eq!(d.state, Sdi12State::Idle);
    assert_eq!(
        d.take_actions(),
        vec![
            Sdi12Action::UartPinAlternateFunction,
            Sdi12Action::Transmitted { buffer: vec![5, 6], length: 2, status: Err(ErrorCode::OFF) },
        ]
    );
}

#[test]
fn completions_without_client_are_not_reported() {
    let mut d = Sdi12::new(MockUart::new(true, true));
    d.transmitted_buffer(vec![1], 1, Ok(()));
    assert_eq!(d.take_actions(), vec![Sdi12Action::SetCommandPin]);
    d.received_buffer(vec![1], 1, Ok(()), UartError::NoError);
    assert_eq!(d.take_actions(), vec![]);
    d.set_receive_client();
    d.received_buffer(vec![1], 1, Err(ErrorCode::FAIL), UartError::ParityError);
    assert_eq!(
        d.take_actions(),
        vec![Sdi12Action::Received {
            buffer: vec![1],
            length: 1,
            status: Err(ErrorCode::FAIL),
            error: UartError::ParityError
        }]
    );
    assert_eq!(d.state, Sdi12State::Idle);
}

#[test]
fn receive_maps_uart_refusal_to_fail() {
    let mut d = Sdi12::new(MockUart::new(true, true));
    assert_eq!(d.receive(vec![0; 4], 4), Ok(()));
    assert_eq!(d.uart.receiving, vec![(vec![0; 4], 4)]);
    let mut d = Sdi12::new(MockUart::new(true, false));
    assert_eq!(d.receive(vec![7; 4], 4), Err((ErrorCode::FAIL, vec![7; 4])));
}

fn capsule(accept_tx: bool, accept_rx: bool) -> Sdi12Ents<Sdi12<MockUart>> {
    init_sdi12_ents(Sdi12::new(MockUart::new(accept_tx, accept_rx)), vec![0; 8], vec![0; 8])
}

#[test]
fn init_registers_clients() {
    let c = capsule(true, true);
    assert!(c.sdi12.tx_client);
    assert!(c.sdi12.rx_client);
    assert_eq!(c.state, State::Idle);
    assert_eq!(c.tx_buffer, Some(vec![0; 8]));
    assert_eq!(c.rx_buffer, Some(vec![0; 8]));
}

#[test]
fn command_existence_and_unknown() {
    let mut c = capsule(true, true);
    let p = ProcessId { id: 1 };
    assert_eq!(c.command(0, 0, 0, p), CommandReturn::Success);
    assert_eq!(c.command(3, 0, 0, p), CommandReturn::Success);
    assert_eq!(c.command(4, 0, 0, p), CommandReturn::Failure(ErrorCode::INVAL));
    assert_eq!(c.tx_in_progress, None);
    assert_eq!(c.state, State::Idle);
}

#[test]
fn command_one_sends_address_query() {
    let mut c = capsule(true, true);
    let p = ProcessId { id: 4 };
    assert_eq!(c.command(1, 0, 0, p), CommandReturn::Success);
    assert_eq!(c.tx_in_progress, Some(p));
    assert_eq!(c.state, State::SendingCommand);
    assert_eq!(c.tx_buffer, None);
    assert_eq!(c.sdi12.state, Sdi12State::TxBreak(2, vec![b'?', b'!', 0, 0, 0, 0, 0, 0]));
    // The driver holds the buffer: nothing can be sent.
    assert_eq!(c.command(1, 0, 0, p), CommandReturn::Failure(ErrorCode::INVAL));
    assert_eq!(c.tx_in_progress, None);
}

#[test]
fn command_one_ignores_data_arguments() {
    let mut c = capsule(true, true);
    let p = ProcessId { id: 2 };
    assert_eq!(c.command(1, 17, 99, p), CommandReturn::Success);
    assert_eq!(c.sdi12.state, Sdi12State::TxBreak(2, vec![b'?', b'!', 0, 0, 0, 0, 0, 0]));
}

#[test]
fn command_one_truncates_to_small_buffer() {
    let mut c = init_sdi12_ents(Sdi12::new(MockUart::new(true, true)), vec![0], vec![0; 8]);
    let p = ProcessId { id: 2 };
    assert_eq!(c.command(1, 0, 0, p), CommandReturn::Success);
    assert_eq!(c.sdi12.state, Sdi12State::TxBreak(1, vec![b'?']));
    let mut c = init_sdi12_ents(Sdi12::new(MockUart::new(true, true)), vec![], vec![0; 8]);
    assert_eq!(c.command(1, 0, 0, p), CommandReturn::Failure(ErrorCode::INVAL));
    assert_eq!(c.tx_buffer, Some(vec![]));
    assert_eq!(c.state, State::Idle);
}

#[test]
fn command_send_refused_by_driver_keeps_buffer() {
    let mut c = capsule(true, true);
    let p = ProcessId { id: 2 };
    assert_eq!(c.command(1, 0, 0, p), CommandReturn::Success);
    let _ = c.sdi12.take_actions();
    // Give a buffer back without finishing the driver's transmission.
    c.tx_buffer = Some(vec![0; 4]);
    assert_eq!(c.command(1, 0, 0, p), CommandReturn::Failure(ErrorCode::FAIL));
    assert_eq!(c.tx_in_progress, None);
    assert_eq!(c.tx_buffer, Some(vec![b'?', b'!', 0, 0]));
    assert_eq!(c.sdi12_send_from_buffer(2), Err(ErrorCode::BUSY));
}

#[test]
fn command_two_passes_data2_as_size() {
    let mut c = capsule(true, true);
    let p = ProcessId { id: 3 };
    assert_eq!(c.command(2, 5, 10, p), CommandReturn::Success);
    assert_eq!(c.sdi12.uart.receiving, vec![(vec![0; 8], 10)]);
}

#[test]
fn full_transmission_through_driver_and_capsule() {
    let mut c = capsule(true, true);
    let p = ProcessId { id: 6 };
    assert_eq!(c.command(1, 0, 0, p), CommandReturn::Success);
    c.alarm_fired();
    assert_eq!(c.sdi12.state, Sdi12State::Tx(2, vec![b'?', b'!', 0, 0, 0, 0, 0, 0]));
    c.alarm_fired();
    assert_eq!(c.sdi12.state, Sdi12State::Sending(2));
    let (buf, len) = c.sdi12.uart.sent.pop().unwrap();
    assert_eq!(len, 2);
    c.uart_transmitted(buf, len, Ok(()));
    assert_eq!(c.sdi12.state, Sdi12State::Idle);
    assert_eq!(c.tx_buffer, Some(vec![b'?', b'!', 0, 0, 0, 0, 0, 0]));
    assert_eq!(
        c.take_actions(),
        vec![Sdi12EntsAction::Upcall { process: p, upcall_num: UPCALL_SDI12_TX, args: (0, 2, 0) }]
    );
    assert_eq!(*c.sdi12.actions.last().unwrap(), Sdi12Action::SetCommandPin);
    // Send again: the capsule holds its buffer and the driver is idle.
    assert_eq!(c.command(1, 0, 0, p), CommandReturn::Success);
}

#[test]
fn uart_refusal_returns_buffer_to_capsule() {
    let mut c = capsule(false, true);
    let p = ProcessId { id: 6 };
    assert_eq!(c.command(1, 0, 0, p), CommandReturn::Success);
    c.alarm_fired();
    c.alarm_fired();
    assert_eq!(c.sdi12.state, Sdi12State::Idle);
    assert_eq!(c.tx_buffer, Some(vec![b'?', b'!', 0, 0, 0, 0, 0, 0]));
    assert_eq!(c.state, State::Idle);
    assert_eq!(
        c.take_actions(),
        vec![Sdi12EntsAction::Upcall { process: p, upcall_num: UPCALL_SDI12_TX, args: (4, 2, 0) }]
    );
}

#[test]
fn uart_reception_reaches_process() {
    let mut c = capsule(true, true);
    let p = ProcessId { id: 7 };
    assert_eq!(c.command(2, 0, 3, p), CommandReturn::Success);
    c.uart_received(vec![0xB0, b'1', 0xB3, 0], 3, Ok(()), UartError::NoError);
    assert_eq!(c.rx_buffer, Some(vec![0xB0, b'1', 0xB3, 0]));
    assert_eq!(c.sdi12.state, Sdi12State::Idle);
    assert_eq!(
        c.take_actions(),
        vec![
            Sdi12EntsAction::CopyToProcess { process: p, data: vec![b'0', b'1', b'3'] },
            Sdi12EntsAction::Upcall { process: p, upcall_num: UPCALL_SDI12_RX, args: (0, 3, 0) },
        ]
    );
}

#[test]
fn send_without_buffer_is_nomem() {
    let mut c = capsule(true, true);
    c.tx_buffer = None;
    assert_eq!(c.sdi12_send_from_buffer(2), Err(ErrorCode::NOMEM));
    assert_eq!(c.state, State::SendingCommand);
}

#[test]
fn transmit_completion_signals_process() {
    let mut c = capsule(true, true);
    let p = ProcessId { id: 9 };
    c.command(1, 0, 0, p);
    c.transmitted_buffer(vec![1; 8], 2, Ok(()));
    assert_eq!(c.tx_buffer, Some(vec![1; 8]));
    assert_eq!(c.state, State::Idle);
    assert_eq!(c.tx_in_progress, None);
    assert_eq!(
        c.take_actions(),
        vec![Sdi12EntsAction::Upcall { process: p, upcall_num: UPCALL_SDI12_TX, args: (0, 2, 0) }]
    );
    c.transmitted_buffer(vec![1; 8], 2, Err(ErrorCode::BUSY));
    assert_eq!(c.take_actions(), vec![]);
}

#[test]
fn receive_command_and_completion() {
    let mut c = capsule(true, true);
    let p = ProcessId { id: 3 };
    assert_eq!(c.command(2, 0, 5, p), CommandReturn::Success);
    assert_eq!(c.rx_in_progress, Some(p));
    assert_eq!(c.state, State::ReadingResponse);
    assert_eq!(c.rx_buffer, None);
    assert_eq!(c.sdi12.uart.receiving, vec![(vec![0; 8], 5)]);
    let mut reply = vec![0u8; 8];
    reply[0] = 0xB0; // '0' with bit 7 set
    reply[1] = b'+';
    reply[2] = 0xB1;
    c.receive_buffer(reply.clone(), 3, Err(ErrorCode::FAIL), UartError::FramingError);
    assert_eq!(c.rx_buffer, Some(reply));
    assert_eq!(c.rx_in_progress, None);
    assert_eq!(
        c.take_actions(),
        vec![
            Sdi12EntsAction::CopyToProcess { process: p, data: vec![b'0', b'+', b'1'] },
            Sdi12EntsAction::Upcall { process: p, upcall_num: UPCALL_SDI12_RX, args: (1, 3, 0) },
        ]
    );
}

#[test]
fn receive_refused_keeps_buffer() {
    let mut c = capsule(true, false);
    let p = ProcessId { id: 3 };
    assert_eq!(c.command(2, 0, 5, p), CommandReturn::Failure(ErrorCode::FAIL));
    assert_eq!(c.rx_buffer, Some(vec![0; 8]));
    assert_eq!(c.state, State::Idle);
    assert_eq!(c.rx_in_progress, Some(p));
    c.rx_buffer = None;
    assert_eq!(c.sdi12_start_receive(4), Err(Sdi12Status::Sdi12Error));
}

#[test]
fn receive_completion_without_reader() {
    let mut c = capsule(true, true);
    c.receive_buffer(vec![0xFF; 2], 2, Ok(()), UartError::NoError);
    assert_eq!(c.take_actions(), vec![]);
    assert_eq!(c.rx_buffer, Some(vec![0xFF; 2]));
}

#[test]
fn masking_and_return_codes() {
    assert_eq!(mask_received(&vec![0xFF, 0x7F, 0x80, 0x41], 3), vec![0x7F, 0x7F, 0x00]);
    assert_eq!(ret_code(Ok(())), 0);
    assert_eq!(ret_code(Err(ErrorCode::FAIL)), 1);
    assert_eq!(ret_code(Err(ErrorCode::NOMEM)), 9);
    assert_eq!(ret_code(Err(ErrorCode::NOACK)), 13);
    assert_eq!(usize::from(ErrorCode::INVAL), 6);
    assert_eq!(Sdi12Status::Sdi12Ok.code(), 0);
    assert_eq!(Sdi12Status::Sdi12ParsingError.code(), -3);
}
