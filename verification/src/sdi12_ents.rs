//! System-call driver that gives processes access to SDI-12 environmental
//! sensors.
//!
//! Commands: `0` checks that the driver exists; `1` sends the SDI-12 address
//! query `?!`, which every connected sensor answers with its address (the
//! command pin must be connected, and several sensors answering at once
//! contend on the bus); `2` starts a reception of `data2` bytes, delivered
//! into the process's read-write allow buffer with bit 7 masked off; `3`
//! succeeds without effect. Effects on process memory and upcalls
//! are queued as [`Sdi12EntsAction`]s for the kernel to carry out.
use vstd::prelude::*;
use crate::error::{ErrorCode, UartError};
use crate::hil::{Receive, ReceiveClient, Transmit, TransmitClient};
use crate::sdi12::{alarm_pending, is_idle, Sdi12, Sdi12Action, Sdi12State, Uart};

verus! {

/// Upcall signalled when a reception completes.
pub const UPCALL_SDI12_RX: usize = 0;
/// Upcall signalled when a transmission completes.
pub const UPCALL_SDI12_TX: usize = 1;

/// Outcome of an SDI-12 operation.
#[derive(Clone, Copy, PartialEq, Eq, Structural, Debug)]
pub enum Sdi12Status {
    Sdi12Ok,
    Sdi12Error,
    Sdi12TimeoutOnRead,
    Sdi12ParsingError,
}

impl Sdi12Status {
    /// The numeric status: 0 for success, negative for the errors.
    pub fn code(&self) -> (r: i32)
        ensures
            r == match *self {
                Sdi12Status::Sdi12Ok => 0i32,
                Sdi12Status::Sdi12Error => -1i32,
                Sdi12Status::Sdi12TimeoutOnRead => -2i32,
                Sdi12Status::Sdi12ParsingError => -3i32,
            },
    {
        match *self {
            Sdi12Status::Sdi12Ok => 0,
            Sdi12Status::Sdi12Error => -1,
            Sdi12Status::Sdi12TimeoutOnRead => -2,
            Sdi12Status::Sdi12ParsingError => -3,
        }
    }
}

/// A measurement announced by a sensor.
#[derive(Clone, Copy, PartialEq, Eq, Structural, Debug)]
pub struct Sdi12MeasurmentValues {
    address: u8,
    time: u16,
    numvalues: u8,
}

/// What the capsule is doing.
#[derive(Clone, Copy, PartialEq, Eq, Structural, Debug)]
pub enum State {
    Idle,
    AddressRequest,
    GivingAddress,
    WakingSensors,
    SendingCommand,
    ReadingResponse,
}

/// Per-process state kept by the capsule (none).
#[derive(Default)]
pub struct App;

/// A process.
#[derive(Clone, Copy, PartialEq, Eq, Structural, Debug)]
pub struct ProcessId {
    pub id: usize,
}

/// Answer to a `command` system call.
#[derive(Clone, Copy, PartialEq, Eq, Structural, Debug)]
pub enum CommandReturn {
    Success,
    Failure(ErrorCode),
}

/// Something the capsule asks the kernel to do for a process.
#[derive(PartialEq, Eq, Debug)]
pub enum Sdi12EntsAction {
    /// Copy `data` to the start of the process's read-write allow buffer,
    /// as far as the buffer reaches.
    CopyToProcess { process: ProcessId, data: Vec<u8> },
    /// Schedule upcall `upcall_num` with `args`.
    Upcall { process: ProcessId, upcall_num: usize, args: (usize, usize, usize) },
}

/// The return code of an upcall: 0 on success, else the error's number.
pub open spec fn spec_ret_code(status: Result<(), ErrorCode>) -> usize {
    match status {
        Ok(()) => 0,
        Err(e) => e.spec_code(),
    }
}

/// The actions after a transmission of `length` bytes ended with `status`:
/// the upcall to the process that sent, if any.
pub open spec fn spec_tx_actions(
    actions: Seq<Sdi12EntsAction>,
    process: Option<ProcessId>,
    length: usize,
    status: Result<(), ErrorCode>,
) -> Seq<Sdi12EntsAction> {
    match process {
        Some(p) => actions.push(
            Sdi12EntsAction::Upcall { process: p, upcall_num: UPCALL_SDI12_TX, args: (spec_ret_code(status), length, 0) },
        ),
        None => actions,
    }
}

/// Whether `after` is `before` followed by what a reception of `length`
/// bytes of `buffer` ending with `status` asks for the process that was
/// reading, if any: the bytes with bit 7 masked, then the upcall.
pub open spec fn spec_rx_delivered(
    before: Seq<Sdi12EntsAction>,
    after: Seq<Sdi12EntsAction>,
    process: Option<ProcessId>,
    buffer: Seq<u8>,
    length: usize,
    status: Result<(), ErrorCode>,
) -> bool {
    match process {
        None => after == before,
        Some(p) => {
            let n = before.len();
            &&& after.len() == n + 2
            &&& after.take(n as int) == before
            &&& after[n as int] matches Sdi12EntsAction::CopyToProcess { process, data }
                && process == p && data@ == spec_masked(buffer, length as int)
            &&& after[n + 1int] == Sdi12EntsAction::Upcall {
                process: p,
                upcall_num: UPCALL_SDI12_RX,
                args: (spec_ret_code(status), length, 0),
            }
        },
    }
}

/// The first `n` bytes of `s` with bit 7 cleared.
pub open spec fn spec_masked(s: Seq<u8>, n: int) -> Seq<u8> {
    Seq::new(n as nat, |i: int| s[i] & 0x7f)
}

/// Every byte delivered to a process has bit 7 clear, and a byte that
/// already had it clear is delivered unchanged.
pub proof fn lemma_masked_bytes(s: Seq<u8>, n: int)
    requires
        0 <= n <= s.len(),
    ensures
        spec_masked(s, n).len() == n,
        forall|i: int| 0 <= i < n ==> #[trigger] spec_masked(s, n)[i] < 128,
        forall|i: int| 0 <= i < n && s[i] < 128 ==> #[trigger] spec_masked(s, n)[i] == s[i],
{
    assert(forall|b: u8| #[trigger] (b & 0x7f) < 128 && (b < 128 ==> b & 0x7f == b)) by (bit_vector);
}

/// `buf` with its first `n` bytes replaced by those of `data`.
pub open spec fn spec_copy_prefix(buf: Seq<u8>, data: Seq<u8>, n: int) -> Seq<u8> {
    data.take(n) + buf.skip(n)
}

/// The SDI-12 address query, `?!`: every sensor on the bus answers with its
/// address.
pub open spec fn spec_address_query() -> Seq<u8> {
    seq![63u8, 33u8]
}

/// The SDI-12 address query, see [`spec_address_query`].
pub fn address_query() -> (r: Vec<u8>)
    ensures
        r@ == spec_address_query(),
{
    let r = vec![63u8, 33u8];
    assert(r@ =~= spec_address_query());
    r
}

/// The number of bytes of `data` that fit the capsule's transmit buffer
/// (none without a buffer).
pub open spec fn spec_copy_len(data: Seq<u8>, tx_buffer: Option<Vec<u8>>) -> int {
    match tx_buffer {
        Some(b) => if data.len() < b@.len() { data.len() as int } else { b@.len() as int },
        None => 0,
    }
}

/// The SDI-12 capsule.
pub struct Sdi12Ents<S: Transmit + Receive> {
    pub state: State,
    /// Kernel transmit buffer, absent while the driver holds it.
    pub tx_buffer: Option<Vec<u8>>,
    /// Kernel receive buffer, absent while the driver holds it.
    pub rx_buffer: Option<Vec<u8>>,
    pub sdi12: S,
    pub tx_in_progress: Option<ProcessId>,
    pub rx_in_progress: Option<ProcessId>,
    /// Actions decided and not yet carried out.
    pub actions: Vec<Sdi12EntsAction>,
}

impl<S: Transmit + Receive> Sdi12Ents<S> {
    /// A capsule on the driver `sdi12` with the given kernel buffers.
    pub fn new(tx_buffer: Vec<u8>, rx_buffer: Vec<u8>, sdi12: S) -> (r: Self)
        ensures
            r.state == State::Idle,
            r.tx_buffer == Some(tx_buffer),
            r.rx_buffer == Some(rx_buffer),
            r.sdi12 == sdi12,
            r.tx_in_progress is None,
            r.rx_in_progress is None,
            r.actions@.len() == 0,
    {
        Sdi12Ents {
            state: State::Idle,
            tx_buffer: Some(tx_buffer),
            rx_buffer: Some(rx_buffer),
            sdi12,
            tx_in_progress: None,
            rx_in_progress: None,
            actions: Vec::new(),
        }
    }

    /// Hands over the pending actions, oldest first.
    pub fn take_actions(&mut self) -> (r: Vec<Sdi12EntsAction>)
        ensures
            r@ == old(self).actions@,
            final(self).actions@.len() == 0,
            final(self).state == old(self).state,
            final(self).tx_buffer == old(self).tx_buffer,
            final(self).rx_buffer == old(self).rx_buffer,
            final(self).sdi12 == old(self).sdi12,
            final(self).tx_in_progress == old(self).tx_in_progress,
            final(self).rx_in_progress == old(self).rx_in_progress,
    {
        let mut taken = Vec::new();
        std::mem::swap(&mut taken, &mut self.actions);
        taken
    }

    /// Whether the capsule holds its transmit buffer only while the driver
    /// would accept a transmission.
    pub open spec fn idle_wf(&self) -> bool {
        self.tx_buffer is Some ==> self.sdi12.accepts_transmit()
    }

    /// Sends the first `len` bytes of the transmit buffer. Without a buffer
    /// (the driver still holds it) the answer is `NOMEM`; if the driver
    /// refuses, the buffer is kept and the driver's error returned; if it
    /// accepts, the driver holds the buffer and `len`.
    pub fn sdi12_send_from_buffer(&mut self, len: usize) -> (r: Result<(), ErrorCode>)
        ensures
            old(self).idle_wf() ==> final(self).idle_wf(),
            final(self).state == State::SendingCommand,
            final(self).rx_buffer == old(self).rx_buffer,
            final(self).tx_in_progress == old(self).tx_in_progress,
            final(self).rx_in_progress == old(self).rx_in_progress,
            final(self).actions == old(self).actions,
            final(self).sdi12.has_transmit_client() == old(self).sdi12.has_transmit_client(),
            old(self).tx_buffer is None ==> {
                &&& r == Err::<(), ErrorCode>(ErrorCode::NOMEM)
                &&& final(self).tx_buffer is None
                &&& final(self).sdi12 == old(self).sdi12
            },
            old(self).tx_buffer matches Some(b) ==> {
                &&& (r is Ok) == old(self).sdi12.accepts_transmit()
                &&& r is Ok ==> final(self).tx_buffer is None
                    && final(self).sdi12.pending_transmit() == Some((b@, len))
                &&& r is Err ==> final(self).tx_buffer == old(self).tx_buffer
                    && r == Err::<(), ErrorCode>(old(self).sdi12.transmit_error())
            },
    {
        self.state = State::SendingCommand;
        match self.tx_buffer.take() {
            Some(buffer) => {
                match self.sdi12.transmit(buffer, len) {
                    Ok(()) => Ok(()),
                    Err((e, buf)) => {
                        self.tx_buffer = Some(buf);
                        Err(e)
                    },
                }
            },
            None => Err(ErrorCode::NOMEM),
        }
    }

    /// Starts receiving `size` bytes into the receive buffer. Without a
    /// buffer, or if the driver refuses, the answer is `Sdi12Error` (the
    /// buffer the driver gives back is kept); when the driver accepts, the
    /// capsule is reading the response.
    pub fn sdi12_start_receive(&mut self, size: usize) -> (r: Result<Sdi12Status, Sdi12Status>)
        ensures
            final(self).tx_buffer == old(self).tx_buffer,
            final(self).tx_in_progress == old(self).tx_in_progress,
            final(self).rx_in_progress == old(self).rx_in_progress,
            final(self).actions == old(self).actions,
            final(self).sdi12.accepts_transmit() == old(self).sdi12.accepts_transmit(),
            final(self).sdi12.pending_transmit() == old(self).sdi12.pending_transmit(),
            final(self).sdi12.has_transmit_client() == old(self).sdi12.has_transmit_client(),
            r == Ok::<Sdi12Status, Sdi12Status>(Sdi12Status::Sdi12Ok) || r == Err::<Sdi12Status, Sdi12Status>(Sdi12Status::Sdi12Error),
            r is Err ==> final(self).rx_buffer == old(self).rx_buffer && final(self).state == old(self).state,
            old(self).rx_buffer is None ==> r is Err && final(self).sdi12 == old(self).sdi12,
            old(self).rx_buffer matches Some(b) ==> {
                &&& (r is Ok) == old(self).sdi12.accepts_receive(b.len(), size)
                &&& r is Ok ==> final(self).sdi12.pending_receive() == Some((b.len(), size))
            },
            r is Ok ==> final(self).rx_buffer is None && final(self).state == State::ReadingResponse,
    {
        match self.rx_buffer.take() {
            Some(buf) => {
                match self.sdi12.receive(buf, size) {
                    Ok(()) => {
                        self.state = State::ReadingResponse;
                        Ok(Sdi12Status::Sdi12Ok)
                    },
                    Err((_ecode, returned_buf)) => {
                        self.rx_buffer = Some(returned_buf);
                        Err(Sdi12Status::Sdi12Error)
                    },
                }
            },
            None => Err(Sdi12Status::Sdi12Error),
        }
    }

    /// Copies the first `n` bytes of `data` into the transmit buffer.
    fn copy_to_tx_buffer(&mut self, data: &[u8], n: usize)
        requires
            old(self).tx_buffer is Some,
            n <= data@.len(),
            n <= old(self).tx_buffer->0@.len(),
        ensures
            final(self).tx_buffer is Some,
            final(self).tx_buffer->0@ == spec_copy_prefix(old(self).tx_buffer->0@, data@, n as int),
            final(self).state == old(self).state,
            final(self).rx_buffer == old(self).rx_buffer,
            final(self).sdi12 == old(self).sdi12,
            final(self).tx_in_progress == old(self).tx_in_progress,
            final(self).rx_in_progress == old(self).rx_in_progress,
            final(self).actions == old(self).actions,
    {
        let mut tx_buf = self.tx_buffer.take().unwrap();
        let ghost original = tx_buf@;
        let mut i: usize = 0;
        while i < n
            invariant
                i <= n,
                n <= data@.len(),
                n <= original.len(),
                tx_buf@.len() == original.len(),
                forall|k: int| 0 <= k < i ==> tx_buf@[k] == data@[k],
                forall|k: int| i <= k < original.len() ==> tx_buf@[k] == original[k],
            decreases n - i,
        {
            tx_buf.set(i, data[i]);
            i = i + 1;
        }
        assert(tx_buf@ =~= spec_copy_prefix(original, data@, n as int));
        self.tx_buffer = Some(tx_buf);
    }

    /// The `command` system call from `processid`.
    pub fn command(&mut self, command_num: usize, data1: usize, data2: usize, processid: ProcessId) -> (r: CommandReturn)
        ensures
            old(self).idle_wf() ==> final(self).idle_wf(),
            command_num == 0 || command_num == 3 || command_num > 3 ==> {
                &&& r == if command_num > 3 { CommandReturn::Failure(ErrorCode::INVAL) } else { CommandReturn::Success }
                &&& *final(self) == *old(self)
            },
            command_num == 1 ==> {
                let n = spec_copy_len(spec_address_query(), old(self).tx_buffer);
                &&& final(self).rx_buffer == old(self).rx_buffer
                &&& final(self).rx_in_progress == old(self).rx_in_progress
                &&& final(self).actions == old(self).actions
                &&& n == 0 ==> {
                    &&& r == CommandReturn::Failure(ErrorCode::INVAL)
                    &&& final(self).tx_in_progress is None
                    &&& final(self).state == old(self).state
                    &&& final(self).tx_buffer == old(self).tx_buffer
                    &&& final(self).sdi12 == old(self).sdi12
                }
                &&& n > 0 ==> {
                    let sent = spec_copy_prefix(old(self).tx_buffer->0@, spec_address_query(), n);
                    &&& final(self).state == State::SendingCommand
                    &&& (r == CommandReturn::Success) == old(self).sdi12.accepts_transmit()
                    &&& r == CommandReturn::Success ==> final(self).tx_in_progress == Some(processid)
                        && final(self).tx_buffer is None
                        && final(self).sdi12.pending_transmit() == Some((sent, n as usize))
                    &&& r != CommandReturn::Success ==> r == CommandReturn::Failure(ErrorCode::FAIL)
                        && final(self).tx_in_progress is None
                        && final(self).tx_buffer is Some
                        && final(self).tx_buffer->0@ == sent
                }
            },
            command_num == 2 ==> {
                &&& final(self).rx_in_progress == Some(processid)
                &&& final(self).tx_buffer == old(self).tx_buffer
                &&& final(self).tx_in_progress == old(self).tx_in_progress
                &&& final(self).actions == old(self).actions
                &&& r == CommandReturn::Success || r == CommandReturn::Failure(ErrorCode::FAIL)
                &&& old(self).rx_buffer is None ==> r == CommandReturn::Failure(ErrorCode::FAIL)
                    && final(self).sdi12 == old(self).sdi12
                &&& old(self).rx_buffer matches Some(b) ==> {
                    &&& (r == CommandReturn::Success) == old(self).sdi12.accepts_receive(b.len(), data2)
                    &&& r == CommandReturn::Success ==> final(self).sdi12.pending_receive()
                        == Some((b.len(), data2))
                }
                &&& final(self).sdi12.pending_transmit() == old(self).sdi12.pending_transmit()
                &&& r == CommandReturn::Success ==> final(self).state == State::ReadingResponse
                    && final(self).rx_buffer is None
                &&& r != CommandReturn::Success ==> final(self).state == old(self).state
                    && final(self).rx_buffer == old(self).rx_buffer
            },
    {
        if command_num == 0 {
            CommandReturn::Success
        } else if command_num == 1 {
            self.tx_in_progress = Some(processid);
            let query = address_query();
            let max_len = match &self.tx_buffer {
                Some(b) => if query.len() < b.len() { query.len() } else { b.len() },
                None => 0,
            };
            let mut copied_len: usize = 0;
            if max_len > 0 {
                self.copy_to_tx_buffer(query.as_slice(), max_len);
                copied_len = max_len;
            }
            if copied_len > 0 {
                match self.sdi12_send_from_buffer(copied_len) {
                    Ok(()) => CommandReturn::Success,
                    Err(_) => {
                        self.tx_in_progress = None;
                        CommandReturn::Failure(ErrorCode::FAIL)
                    },
                }
            } else {
                self.tx_in_progress = None;
                CommandReturn::Failure(ErrorCode::INVAL)
            }
        } else if command_num == 2 {
            self.rx_in_progress = Some(processid);
            let size = data2;
            match self.sdi12_start_receive(size) {
                Ok(_) => CommandReturn::Success,
                Err(_) => CommandReturn::Failure(ErrorCode::FAIL),
            }
        } else if command_num == 3 {
            CommandReturn::Success
        } else {
            CommandReturn::Failure(ErrorCode::INVAL)
        }
    }
}

/// The upcall return code for `status`.
pub fn ret_code(status: Result<(), ErrorCode>) -> (r: usize)
    ensures
        r == spec_ret_code(status),
{
    match status {
        Ok(()) => 0,
        Err(e) => usize::from(e),
    }
}

impl<S: Transmit + Receive> TransmitClient for Sdi12Ents<S> {
    /// The transmit buffer comes back, the capsule is idle, and the process
    /// that sent is signalled with the status and length.
    fn transmitted_buffer(&mut self, buffer: Vec<u8>, length: usize, status: Result<(), ErrorCode>)
        ensures
            final(self).tx_buffer == Some(buffer),
            final(self).state == State::Idle,
            final(self).tx_in_progress is None,
            final(self).rx_buffer == old(self).rx_buffer,
            final(self).rx_in_progress == old(self).rx_in_progress,
            final(self).sdi12 == old(self).sdi12,
            final(self).actions@ == spec_tx_actions(old(self).actions@, old(self).tx_in_progress, length, status),
    {
        self.tx_buffer = Some(buffer);
        self.state = State::Idle;
        match self.tx_in_progress.take() {
            Some(processid) => {
                let code = ret_code(status);
                self.actions.push(
                    Sdi12EntsAction::Upcall {
                        process: processid,
                        upcall_num: UPCALL_SDI12_TX,
                        args: (code, length, 0),
                    },
                );
            },
            None => {},
        }
    }
}

/// The first `length` bytes of `buffer` with bit 7 cleared.
pub fn mask_received(buffer: &Vec<u8>, length: usize) -> (r: Vec<u8>)
    requires
        length <= buffer@.len(),
    ensures
        r@ == spec_masked(buffer@, length as int),
{
    let mut data: Vec<u8> = Vec::new();
    let mut i: usize = 0;
    while i < length
        invariant
            i <= length,
            length <= buffer@.len(),
            data@ == spec_masked(buffer@, i as int),
        decreases length - i,
    {
        data.push(buffer[i] & 0x7f);
        i = i + 1;
        assert(data@ =~= spec_masked(buffer@, i as int));
    }
    data
}

impl<S: Transmit + Receive> ReceiveClient for Sdi12Ents<S> {
    /// The received bytes, bit 7 masked off, go to the process that asked,
    /// the receive buffer comes back, and that process is signalled with the
    /// status and length.
    fn receive_buffer(
        &mut self,
        buffer: Vec<u8>,
        length: usize,
        status: Result<(), ErrorCode>,
        _error: UartError,
    )
        ensures
            final(self).rx_buffer == Some(buffer),
            final(self).rx_in_progress is None,
            final(self).state == old(self).state,
            final(self).tx_buffer == old(self).tx_buffer,
            final(self).tx_in_progress == old(self).tx_in_progress,
            final(self).sdi12 == old(self).sdi12,
            spec_rx_delivered(old(self).actions@, final(self).actions@, old(self).rx_in_progress, buffer@, length, status),
    {
        let ghost before = self.actions@;
        let ghost received = buffer@;
        match self.rx_in_progress {
            Some(processid) => {
                let data = mask_received(&buffer, length);
                self.actions.push(Sdi12EntsAction::CopyToProcess { process: processid, data });
            },
            None => {},
        }
        self.rx_buffer = Some(buffer);
        match self.rx_in_progress.take() {
            Some(processid) => {
                let code = ret_code(status);
                self.actions.push(
                    Sdi12EntsAction::Upcall {
                        process: processid,
                        upcall_num: UPCALL_SDI12_RX,
                        args: (code, length, 0),
                    },
                );
                assert(self.actions@.take(before.len() as int) =~= before);
            },
            None => {},
        }
        assert(spec_rx_delivered(before, self.actions@, old(self).rx_in_progress, received, length, status));
    }
}

/// The capsule's own state (all but the driver) is the same in `a` and `b`.
pub open spec fn capsule_same<S: Transmit + Receive>(a: Sdi12Ents<S>, b: Sdi12Ents<S>) -> bool {
    &&& a.state == b.state
    &&& a.tx_buffer == b.tx_buffer
    &&& a.rx_buffer == b.rx_buffer
    &&& a.tx_in_progress == b.tx_in_progress
    &&& a.rx_in_progress == b.rx_in_progress
    &&& a.actions == b.actions
}

/// `after` is the capsule `before` once its transmit buffer came back after
/// `length` bytes ended with `status`.
pub open spec fn capsule_after_transmit<S: Transmit + Receive>(
    before: Sdi12Ents<S>,
    after: Sdi12Ents<S>,
    buffer: Vec<u8>,
    length: usize,
    status: Result<(), ErrorCode>,
) -> bool {
    &&& after.tx_buffer == Some(buffer)
    &&& after.state == State::Idle
    &&& after.tx_in_progress is None
    &&& after.rx_buffer == before.rx_buffer
    &&& after.rx_in_progress == before.rx_in_progress
    &&& after.actions@ == spec_tx_actions(before.actions@, before.tx_in_progress, length, status)
}

/// `after` is the capsule `before` once `length` bytes arrived in `buffer`
/// and the reception ended with `status`.
pub open spec fn capsule_after_receive<S: Transmit + Receive>(
    before: Sdi12Ents<S>,
    after: Sdi12Ents<S>,
    buffer: Vec<u8>,
    length: usize,
    status: Result<(), ErrorCode>,
) -> bool {
    &&& after.rx_buffer == Some(buffer)
    &&& after.rx_in_progress is None
    &&& after.state == before.state
    &&& after.tx_buffer == before.tx_buffer
    &&& after.tx_in_progress == before.tx_in_progress
    &&& spec_rx_delivered(before.actions@, after.actions@, before.rx_in_progress, buffer@, length, status)
}

/// The capsule on the SDI-12 driver: the driver's completions are handed to
/// the capsule here, so the two stay consistent. While the driver is not
/// idle the capsule does not hold its transmit buffer ([`Sdi12Ents::idle_wf`]);
/// every operation keeps this.
impl<U: Uart> Sdi12Ents<Sdi12<U>> {
    /// The driver's alarm fired: the break ends in the marking interval, the
    /// marking interval in the hand-over to the UART. If the UART refuses,
    /// the driver's client (this capsule) gets the buffer back with the
    /// UART's error at once.
    pub fn alarm_fired(&mut self)
        requires
            alarm_pending(old(self).sdi12.state),
        ensures
            old(self).idle_wf() ==> final(self).idle_wf(),
            final(self).sdi12.tx_client == old(self).sdi12.tx_client,
            final(self).sdi12.rx_client == old(self).sdi12.rx_client,
            old(self).sdi12.state matches Sdi12State::TxBreak(len, data) ==> {
                &&& final(self).sdi12.state == Sdi12State::Tx(len, data)
                &&& final(self).sdi12.uart == old(self).sdi12.uart
                &&& final(self).sdi12.actions@ == old(self).sdi12.actions@.push(Sdi12Action::UartPinMakeOutput).push(
                    Sdi12Action::SetUartPin,
                ).push(Sdi12Action::SetAlarm { interval_ms: crate::sdi12::MARKING_INTERVAL_MS })
                &&& capsule_same(*old(self), *final(self))
            },
            old(self).sdi12.state matches Sdi12State::Tx(len, data) ==> {
                &&& (final(self).sdi12.state == Sdi12State::Sending(len))
                    == old(self).sdi12.uart.accepts_transmit(data.len(), len)
                &&& final(self).sdi12.actions@ == old(self).sdi12.actions@.push(Sdi12Action::UartPinAlternateFunction)
                &&& final(self).sdi12.uart.pending_receive() == old(self).sdi12.uart.pending_receive()
                &&& final(self).sdi12.state == Sdi12State::Sending(len) ==> {
                    &&& final(self).sdi12.uart.pending_transmit() == Some((data, len))
                    &&& capsule_same(*old(self), *final(self))
                }
                &&& final(self).sdi12.state != Sdi12State::Sending(len) ==> {
                    &&& is_idle(final(self).sdi12.state)
                    &&& if old(self).sdi12.tx_client {
                        capsule_after_transmit(
                            *old(self),
                            *final(self),
                            data,
                            len,
                            Err(old(self).sdi12.uart.transmit_error(data.len(), len)),
                        )
                    } else {
                        capsule_same(*old(self), *final(self))
                    }
                }
            },
    {
        self.sdi12.alarm();
        let refused = match self.sdi12.state {
            Sdi12State::Idle => true,
            _ => false,
        };
        if refused && self.sdi12.tx_client {
            match self.sdi12.actions.pop() {
                Some(Sdi12Action::Transmitted { buffer, length, status }) => {
                    self.transmitted_buffer(buffer, length, status);
                },
                Some(other) => {
                    self.sdi12.actions.push(other);
                },
                None => {},
            }
        }
    }

    /// The UART finished sending: the driver turns the command pin for the
    /// reply and is idle, and the capsule gets its transmit buffer back.
    pub fn uart_transmitted(&mut self, buffer: Vec<u8>, length: usize, status: Result<(), ErrorCode>)
        ensures
            final(self).idle_wf(),
            is_idle(final(self).sdi12.state),
            final(self).sdi12.uart == old(self).sdi12.uart,
            final(self).sdi12.tx_client == old(self).sdi12.tx_client,
            final(self).sdi12.rx_client == old(self).sdi12.rx_client,
            final(self).sdi12.actions@ == old(self).sdi12.actions@.push(Sdi12Action::SetCommandPin),
            if old(self).sdi12.tx_client {
                capsule_after_transmit(*old(self), *final(self), buffer, length, status)
            } else {
                capsule_same(*old(self), *final(self))
            },
    {
        let ghost driver_actions = self.sdi12.actions@.push(Sdi12Action::SetCommandPin);
        self.sdi12.transmitted_buffer(buffer, length, status);
        if self.sdi12.tx_client {
            match self.sdi12.actions.pop() {
                Some(Sdi12Action::Transmitted { buffer, length, status }) => {
                    assert(self.sdi12.actions@ =~= driver_actions);
                    self.transmitted_buffer(buffer, length, status);
                },
                Some(other) => {
                    self.sdi12.actions.push(other);
                },
                None => {},
            }
        }
    }

    /// The UART finished receiving: the driver is idle, and the capsule
    /// delivers the bytes to the process that was reading.
    pub fn uart_received(&mut self, buffer: Vec<u8>, length: usize, status: Result<(), ErrorCode>, error: UartError)
        requires
            length <= buffer.len(),
        ensures
            final(self).idle_wf(),
            is_idle(final(self).sdi12.state),
            final(self).sdi12.uart == old(self).sdi12.uart,
            final(self).sdi12.tx_client == old(self).sdi12.tx_client,
            final(self).sdi12.rx_client == old(self).sdi12.rx_client,
            final(self).sdi12.actions@ == old(self).sdi12.actions@,
            if old(self).sdi12.rx_client {
                capsule_after_receive(*old(self), *final(self), buffer, length, status)
            } else {
                capsule_same(*old(self), *final(self))
            },
    {
        let ghost driver_actions = self.sdi12.actions@;
        self.sdi12.received_buffer(buffer, length, status, error);
        if self.sdi12.rx_client {
            match self.sdi12.actions.pop() {
                Some(Sdi12Action::Received { buffer, length, status, error }) => {
                    assert(self.sdi12.actions@ =~= driver_actions);
                    self.receive_buffer(buffer, length, status, error);
                },
                Some(other) => {
                    self.sdi12.actions.push(other);
                },
                None => {},
            }
        }
    }
}

} // verus!
