//! The interface between an SDI-12 bus driver and its users.
use vstd::prelude::*;
use crate::error::{ErrorCode, UartError};

verus! {

/// Sending on an SDI-12 bus.
pub trait Transmit: Sized {
    /// Whether a transmit request made now would be accepted.
    spec fn accepts_transmit(&self) -> bool;

    /// The error a transmit request made now would be refused with.
    spec fn transmit_error(&self) -> ErrorCode;

    /// The bytes and length of the transmission the driver holds, if any.
    spec fn pending_transmit(&self) -> Option<(Seq<u8>, usize)>;

    /// Whether a client receives transmit completions.
    spec fn has_transmit_client(&self) -> bool;

    /// Whether `self` and `other` differ at most in their clients.
    spec fn same_except_clients(self, other: Self) -> bool;

    /// Differing at most in the clients is transitive.
    proof fn lemma_same_except_clients_trans(a: Self, b: Self, c: Self)
        requires
            a.same_except_clients(b),
            b.same_except_clients(c),
        ensures
            a.same_except_clients(c),
    ;

    /// Drivers that differ at most in their clients transmit alike.
    proof fn lemma_same_except_clients_transmit(a: Self, b: Self)
        requires
            a.same_except_clients(b),
        ensures
            a.accepts_transmit() == b.accepts_transmit(),
            a.transmit_error() == b.transmit_error(),
            a.pending_transmit() == b.pending_transmit(),
    ;

    /// Starts sending the first `len` bytes of `buffer`. On success the
    /// driver holds `buffer` and `len` until the transmission ends and the
    /// buffer comes back through the client; on failure the buffer comes back
    /// here, unchanged, with the driver's error.
    fn transmit(&mut self, buffer: Vec<u8>, len: usize) -> (r: Result<(), (ErrorCode, Vec<u8>)>)
        ensures
            (r is Ok) == old(self).accepts_transmit(),
            r is Ok ==> final(self).pending_transmit() == Some((buffer@, len)),
            r matches Err((e, b)) ==> e == old(self).transmit_error() && b == buffer,
            final(self).has_transmit_client() == old(self).has_transmit_client(),
    ;

    /// Registers the client of transmit completions; nothing else changes.
    fn set_transmit_client(&mut self)
        ensures
            final(self).has_transmit_client(),
            final(self).same_except_clients(*old(self)),
    ;
}

/// Told when a transmission ends.
pub trait TransmitClient {
    /// The transmission of `length` bytes from `buffer` ended with `status`.
    fn transmitted_buffer(&mut self, buffer: Vec<u8>, length: usize, status: Result<(), ErrorCode>);
}

/// Receiving on an SDI-12 bus.
pub trait Receive: Transmit {
    /// Whether a request to receive `max_len` bytes into a buffer of
    /// `buffer_len` bytes made now would be accepted.
    spec fn accepts_receive(&self, buffer_len: usize, max_len: usize) -> bool;

    /// The buffer length and byte count of the reception the driver holds,
    /// if any.
    spec fn pending_receive(&self) -> Option<(usize, usize)>;

    /// Whether a client receives reception completions.
    spec fn has_receive_client(&self) -> bool;

    /// Drivers that differ at most in their clients receive alike.
    proof fn lemma_same_except_clients_receive(a: Self, b: Self)
        requires
            a.same_except_clients(b),
        ensures
            a.pending_receive() == b.pending_receive(),
            forall|l: usize, m: usize| a.accepts_receive(l, m) == b.accepts_receive(l, m),
    ;

    /// Starts receiving up to `max_len` bytes into `buffer`. It succeeds
    /// exactly when the driver accepts the request, and the driver then holds
    /// the request; on failure the buffer comes back unchanged. Transmission
    /// is not affected.
    fn receive(&mut self, buffer: Vec<u8>, max_len: usize) -> (r: Result<(), (ErrorCode, Vec<u8>)>)
        ensures
            (r is Ok) == old(self).accepts_receive(buffer.len(), max_len),
            r is Ok ==> final(self).pending_receive() == Some((buffer.len(), max_len)),
            r matches Err((_, b)) ==> b == buffer,
            final(self).accepts_transmit() == old(self).accepts_transmit(),
            final(self).pending_transmit() == old(self).pending_transmit(),
            final(self).has_transmit_client() == old(self).has_transmit_client(),
    ;

    /// Registers the client of reception completions; nothing else changes.
    fn set_receive_client(&mut self)
        ensures
            final(self).has_receive_client(),
            final(self).has_transmit_client() == old(self).has_transmit_client(),
            final(self).same_except_clients(*old(self)),
    ;
}

/// Told when a reception ends.
pub trait ReceiveClient {
    /// `length` bytes arrived in `buffer`; the reception ended with `status`
    /// and the line reported `error`.
    fn receive_buffer(
        &mut self,
        buffer: Vec<u8>,
        length: usize,
        status: Result<(), ErrorCode>,
        error: UartError,
    )
        requires
            length <= buffer.len(),
    ;
}

} // verus!
