//! Error codes shared by the drivers and the system-call interface.
use vstd::prelude::*;
use vstd::std_specs::convert::FromSpecImpl;

verus! {

/// Standard error codes of the kernel.
#[derive(Clone, Copy, PartialEq, Eq, Structural, Debug)]
pub enum ErrorCode {
    FAIL,
    BUSY,
    ALREADY,
    OFF,
    RESERVE,
    INVAL,
    SIZE,
    CANCEL,
    NOMEM,
    NOSUPPORT,
    NODEVICE,
    UNINSTALLED,
    NOACK,
}

impl ErrorCode {
    /// The number userspace receives for the error.
    pub open spec fn spec_code(self) -> usize {
        match self {
            ErrorCode::FAIL => 1,
            ErrorCode::BUSY => 2,
            ErrorCode::ALREADY => 3,
            ErrorCode::OFF => 4,
            ErrorCode::RESERVE => 5,
            ErrorCode::INVAL => 6,
            ErrorCode::SIZE => 7,
            ErrorCode::CANCEL => 8,
            ErrorCode::NOMEM => 9,
            ErrorCode::NOSUPPORT => 10,
            ErrorCode::NODEVICE => 11,
            ErrorCode::UNINSTALLED => 12,
            ErrorCode::NOACK => 13,
        }
    }
}

impl From<ErrorCode> for usize {
    fn from(e: ErrorCode) -> (r: usize) {
        match e {
            ErrorCode::FAIL => 1,
            ErrorCode::BUSY => 2,
            ErrorCode::ALREADY => 3,
            ErrorCode::OFF => 4,
            ErrorCode::RESERVE => 5,
            ErrorCode::INVAL => 6,
            ErrorCode::SIZE => 7,
            ErrorCode::CANCEL => 8,
            ErrorCode::NOMEM => 9,
            ErrorCode::NOSUPPORT => 10,
            ErrorCode::NODEVICE => 11,
            ErrorCode::UNINSTALLED => 12,
            ErrorCode::NOACK => 13,
        }
    }
}

impl FromSpecImpl<ErrorCode> for usize {
    open spec fn obeys_from_spec() -> bool {
        true
    }

    open spec fn from_spec(e: ErrorCode) -> usize {
        e.spec_code()
    }
}

/// Each error has its fixed kernel number: FAIL 1, BUSY 2, ALREADY 3, OFF 4,
/// RESERVE 5, INVAL 6, SIZE 7, CANCEL 8, NOMEM 9, NOSUPPORT 10, NODEVICE 11,
/// UNINSTALLED 12, NOACK 13; so no two errors share a number, and none is 0,
/// the number of success.
pub proof fn lemma_error_numbers(e: ErrorCode, f: ErrorCode)
    ensures
        ErrorCode::FAIL.spec_code() == 1,
        ErrorCode::BUSY.spec_code() == 2,
        ErrorCode::ALREADY.spec_code() == 3,
        ErrorCode::OFF.spec_code() == 4,
        ErrorCode::RESERVE.spec_code() == 5,
        ErrorCode::INVAL.spec_code() == 6,
        ErrorCode::SIZE.spec_code() == 7,
        ErrorCode::CANCEL.spec_code() == 8,
        ErrorCode::NOMEM.spec_code() == 9,
        ErrorCode::NOSUPPORT.spec_code() == 10,
        ErrorCode::NODEVICE.spec_code() == 11,
        ErrorCode::UNINSTALLED.spec_code() == 12,
        ErrorCode::NOACK.spec_code() == 13,
        1 <= e.spec_code() <= 13,
        e.spec_code() == f.spec_code() ==> e == f,
{
}

/// Line errors reported by a UART receive.
#[derive(Clone, Copy, PartialEq, Eq, Structural, Debug)]
pub enum UartError {
    ParityError,
    FramingError,
    OverrunError,
    RepeatCallError,
    ResetError,
    BreakError,
    Aborted,
    NoError,
}

} // verus!
