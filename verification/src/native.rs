//! Numbers of the native library's interface: status codes, control request
//! codes, and the values some requests take.

use vstd::prelude::*;

verus! {

/// The call succeeded.
pub const OPUS_OK: i32 = 0;

/// One or more invalid or out of range arguments.
pub const OPUS_BAD_ARG: i32 = -1;

/// Not enough bytes allocated in the buffer.
pub const OPUS_BUFFER_TOO_SMALL: i32 = -2;

/// An internal error was detected.
pub const OPUS_INTERNAL_ERROR: i32 = -3;

/// The compressed data passed is corrupted.
pub const OPUS_INVALID_PACKET: i32 = -4;

/// Invalid or unsupported request number.
pub const OPUS_UNIMPLEMENTED: i32 = -5;

/// A codec state is invalid or already freed.
pub const OPUS_INVALID_STATE: i32 = -6;

/// Memory allocation has failed.
pub const OPUS_ALLOC_FAIL: i32 = -7;

pub const OPUS_SET_APPLICATION_REQUEST: u32 = 4000;

pub const OPUS_SET_BITRATE_REQUEST: u32 = 4002;

pub const OPUS_SET_MAX_BANDWIDTH_REQUEST: u32 = 4004;

pub const OPUS_SET_VBR_REQUEST: u32 = 4006;

pub const OPUS_SET_BANDWIDTH_REQUEST: u32 = 4008;

pub const OPUS_SET_COMPLEXITY_REQUEST: u32 = 4010;

pub const OPUS_SET_INBAND_FEC_REQUEST: u32 = 4012;

pub const OPUS_SET_PACKET_LOSS_PERC_REQUEST: u32 = 4014;

pub const OPUS_SET_DTX_REQUEST: u32 = 4016;

pub const OPUS_SET_VBR_CONSTRAINT_REQUEST: u32 = 4020;

pub const OPUS_SET_FORCE_CHANNELS_REQUEST: u32 = 4022;

pub const OPUS_SET_SIGNAL_REQUEST: u32 = 4024;

pub const OPUS_GET_LOOKAHEAD_REQUEST: u32 = 4027;

pub const OPUS_RESET_STATE: u32 = 4028;

pub const OPUS_GET_FINAL_RANGE_REQUEST: u32 = 4031;

pub const OPUS_SET_GAIN_REQUEST: u32 = 4034;

pub const OPUS_SET_LSB_DEPTH_REQUEST: u32 = 4036;

pub const OPUS_SET_EXPERT_FRAME_DURATION_REQUEST: u32 = 4040;

pub const OPUS_SET_PREDICTION_DISABLED_REQUEST: u32 = 4042;

/// Best for most VoIP and videoconference applications.
pub const OPUS_APPLICATION_VOIP: u32 = 2048;

/// Best for broadcast and high-fidelity applications.
pub const OPUS_APPLICATION_AUDIO: u32 = 2049;

/// Only use when lowest-achievable latency is what matters most.
pub const OPUS_APPLICATION_RESTRICTED_LOWDELAY: u32 = 2051;

/// 4 kHz bandpass.
pub const OPUS_BANDWIDTH_NARROWBAND: u32 = 1101;

/// 6 kHz bandpass.
pub const OPUS_BANDWIDTH_MEDIUMBAND: u32 = 1102;

/// 8 kHz bandpass.
pub const OPUS_BANDWIDTH_WIDEBAND: u32 = 1103;

/// 12 kHz bandpass.
pub const OPUS_BANDWIDTH_SUPERWIDEBAND: u32 = 1104;

/// 20 kHz bandpass.
pub const OPUS_BANDWIDTH_FULLBAND: u32 = 1105;

/// Select the frame size from the argument.
pub const OPUS_FRAMESIZE_ARG: u32 = 5000;

pub const OPUS_FRAMESIZE_2_5_MS: u32 = 5001;

pub const OPUS_FRAMESIZE_5_MS: u32 = 5002;

pub const OPUS_FRAMESIZE_10_MS: u32 = 5003;

pub const OPUS_FRAMESIZE_20_MS: u32 = 5004;

pub const OPUS_FRAMESIZE_40_MS: u32 = 5005;

pub const OPUS_FRAMESIZE_60_MS: u32 = 5006;

pub const OPUS_FRAMESIZE_80_MS: u32 = 5007;

pub const OPUS_FRAMESIZE_100_MS: u32 = 5008;

pub const OPUS_FRAMESIZE_120_MS: u32 = 5009;

} // verus!
