//! Status codes of the native library as a closed set of errors.

use vstd::prelude::*;
use vstd::std_specs::convert::FromSpecImpl;
use crate::native::{
    OPUS_ALLOC_FAIL, OPUS_BAD_ARG, OPUS_BUFFER_TOO_SMALL, OPUS_INTERNAL_ERROR, OPUS_INVALID_PACKET,
    OPUS_INVALID_STATE, OPUS_UNIMPLEMENTED,
};

verus! {

/// What a negative status of a native call means.
#[derive(Copy, Clone, Debug, PartialEq, Eq, Structural)]
pub enum ErrorCode {
    BadArg,
    BufferTooSmall,
    InternalError,
    InvalidPacket,
    Unimplemented,
    InvalidState,
    AllocFail,
    /// Any status that the library does not document.
    Unknown,
}

impl ErrorCode {
    /// The native status that stands for this error. `Unknown` stands for no
    /// native status: it has the largest `i32`.
    pub open spec fn spec_code(self) -> i32 {
        match self {
            ErrorCode::BadArg => OPUS_BAD_ARG,
            ErrorCode::BufferTooSmall => OPUS_BUFFER_TOO_SMALL,
            ErrorCode::InternalError => OPUS_INTERNAL_ERROR,
            ErrorCode::InvalidPacket => OPUS_INVALID_PACKET,
            ErrorCode::Unimplemented => OPUS_UNIMPLEMENTED,
            ErrorCode::InvalidState => OPUS_INVALID_STATE,
            ErrorCode::AllocFail => OPUS_ALLOC_FAIL,
            ErrorCode::Unknown => i32::MAX,
        }
    }

    /// The error that a native status stands for: its own variant for each
    /// of the seven documented codes, `Unknown` for every other status.
    pub open spec fn from_status(v: i32) -> ErrorCode {
        if v == OPUS_BAD_ARG {
            ErrorCode::BadArg
        } else if v == OPUS_BUFFER_TOO_SMALL {
            ErrorCode::BufferTooSmall
        } else if v == OPUS_INTERNAL_ERROR {
            ErrorCode::InternalError
        } else if v == OPUS_INVALID_PACKET {
            ErrorCode::InvalidPacket
        } else if v == OPUS_UNIMPLEMENTED {
            ErrorCode::Unimplemented
        } else if v == OPUS_INVALID_STATE {
            ErrorCode::InvalidState
        } else if v == OPUS_ALLOC_FAIL {
            ErrorCode::AllocFail
        } else {
            ErrorCode::Unknown
        }
    }

    /// The native status that stands for this error, as the native
    /// description lookup takes it.
    #[verifier::when_used_as_spec(spec_code)]
    pub fn code(self) -> (c: i32)
        ensures
            c == self.spec_code(),
    {
        match self {
            ErrorCode::BadArg => OPUS_BAD_ARG,
            ErrorCode::BufferTooSmall => OPUS_BUFFER_TOO_SMALL,
            ErrorCode::InternalError => OPUS_INTERNAL_ERROR,
            ErrorCode::InvalidPacket => OPUS_INVALID_PACKET,
            ErrorCode::Unimplemented => OPUS_UNIMPLEMENTED,
            ErrorCode::InvalidState => OPUS_INVALID_STATE,
            ErrorCode::AllocFail => OPUS_ALLOC_FAIL,
            ErrorCode::Unknown => i32::MAX,
        }
    }
}

impl From<i32> for ErrorCode {
    /// The error that a native status stands for; `Unknown` for every status
    /// outside the documented seven.
    fn from(v: i32) -> (e: ErrorCode) {
        if v == OPUS_BAD_ARG {
            ErrorCode::BadArg
        } else if v == OPUS_BUFFER_TOO_SMALL {
            ErrorCode::BufferTooSmall
        } else if v == OPUS_INTERNAL_ERROR {
            ErrorCode::InternalError
        } else if v == OPUS_INVALID_PACKET {
            ErrorCode::InvalidPacket
        } else if v == OPUS_UNIMPLEMENTED {
            ErrorCode::Unimplemented
        } else if v == OPUS_INVALID_STATE {
            ErrorCode::InvalidState
        } else if v == OPUS_ALLOC_FAIL {
            ErrorCode::AllocFail
        } else {
            ErrorCode::Unknown
        }
    }
}

impl FromSpecImpl<i32> for ErrorCode {
    open spec fn obeys_from_spec() -> bool {
        true
    }

    open spec fn from_spec(v: i32) -> ErrorCode {
        ErrorCode::from_status(v)
    }
}

/// Every error is the error that its own code stands for.
pub proof fn lemma_code_round_trip(e: ErrorCode)
    ensures
        ErrorCode::from_status(e.spec_code()) == e,
{
}

/// Each of the seven documented codes, -1 down to -7, stands for an error of
/// its own, whose code it is. Every other status stands for `Unknown`.
pub proof fn lemma_status_codes(status: i32)
    ensures
        -7 <= status <= -1 ==> ErrorCode::from_status(status) != ErrorCode::Unknown
            && ErrorCode::from_status(status).spec_code() == status,
        !(-7 <= status <= -1) ==> ErrorCode::from_status(status) == ErrorCode::Unknown,
        status == OPUS_BAD_ARG ==> ErrorCode::from_status(status) == ErrorCode::BadArg,
        status == OPUS_BUFFER_TOO_SMALL ==> ErrorCode::from_status(status)
            == ErrorCode::BufferTooSmall,
        status == OPUS_INTERNAL_ERROR ==> ErrorCode::from_status(status)
            == ErrorCode::InternalError,
        status == OPUS_INVALID_PACKET ==> ErrorCode::from_status(status)
            == ErrorCode::InvalidPacket,
        status == OPUS_UNIMPLEMENTED ==> ErrorCode::from_status(status)
            == ErrorCode::Unimplemented,
        status == OPUS_INVALID_STATE ==> ErrorCode::from_status(status) == ErrorCode::InvalidState,
        status == OPUS_ALLOC_FAIL ==> ErrorCode::from_status(status) == ErrorCode::AllocFail,
{
}

/// How the samples of a buffer are represented. Whatever the representation,
/// the samples of the channels are interleaved.
#[derive(Copy, Clone, Debug, PartialEq, Eq, Structural)]
pub enum SampleFormat {
    /// 32-bit floating point.
    F32,
    /// 16-bit signed integers.
    I16,
}

/// A count that is handed to the native library as a native integer is never
/// overstated: where the low 32 bits of a count make an integer that is not
/// negative, that integer does not exceed the count.
pub proof fn lemma_native_count_not_above(count: usize)
    ensures
        count as i32 >= 0 ==> count as i32 <= count,
{
    assert(count as i32 >= 0i32 ==> (count as i32) as usize <= count) by (bit_vector);
}

/// A buffer has room for as many whole frames as it has samples for each
/// channel: a count of frames that does not exceed the samples for each
/// channel, times the channels, does not exceed the buffer.
pub proof fn lemma_room_in_whole_frames(len: int, channels: int, frames: int)
    requires
        0 <= len,
        0 < channels,
        frames >= 0 ==> frames <= len / channels,
    ensures
        frames >= 0 ==> frames * channels <= len,
{
    if frames >= 0 {
        vstd::arithmetic::div_mod::lemma_fundamental_div_mod(len, channels);
        assert(frames * channels <= (len / channels) * channels) by (nonlinear_arith)
            requires
                0 <= frames <= len / channels,
                0 < channels,
        ;
        assert((len / channels) * channels == channels * (len / channels)) by (nonlinear_arith);
    }
}

/// What the status of a native call says where nothing but success is
/// expected of it: an error if it is negative.
pub open spec fn status_result(status: i32) -> Result<(), ErrorCode> {
    if status < 0 {
        Err(ErrorCode::from_status(status))
    } else {
        Ok(())
    }
}

/// What the status of a native call says where it counts what was produced:
/// an error if it is negative, the count otherwise.
pub open spec fn count_result(status: i32) -> Result<usize, ErrorCode> {
    if status < 0 {
        Err(ErrorCode::from_status(status))
    } else {
        Ok(status as usize)
    }
}

/// Reads the status of a native call that returns nothing else.
pub fn check_status(status: i32) -> (r: Result<(), ErrorCode>)
    ensures
        r == status_result(status),
{
    if status < 0 {
        Err(ErrorCode::from(status))
    } else {
        Ok(())
    }
}

/// Reads the status of a native call that counts what it produced.
pub fn check_count(status: i32) -> (r: Result<usize, ErrorCode>)
    ensures
        r == count_result(status),
{
    if status < 0 {
        Err(ErrorCode::from(status))
    } else {
        Ok(status as usize)
    }
}

} // verus!
