//! Plain values that travel between the codec and its user: timestamps,
//! packets of compressed data, frames of samples, stream parameters, option
//! values, and the errors of the streaming interface.

use vstd::prelude::*;
use av_data::rational::Rational64;

verus! {

/// Errors of the streaming interface.
#[derive(Clone, Copy, Debug, PartialEq, Eq)]
pub enum Error {
    /// Invalid input data.
    InvalidData,
    /// Nothing is queued: more input is needed before anything can be
    /// retrieved.
    MoreDataNeeded,
    /// Incomplete input configuration.
    ConfigurationIncomplete,
    /// Invalid input configuration.
    ConfigurationInvalid,
    /// Unsupported requested feature.
    Unsupported(&'static str),
}

/// Describes a codec.
#[derive(Clone, Copy, Debug, PartialEq, Eq)]
pub struct Descr {
    /// The codec name.
    pub codec: &'static str,
    /// The extended codec name.
    pub name: &'static str,
    /// The codec description.
    pub desc: &'static str,
    /// The codec MIME type.
    pub mime: &'static str,
}

/// A time base: the length of one tick in seconds, as a fraction.
#[derive(Clone, Copy, Debug, PartialEq, Eq, Structural)]
pub struct TimeBase {
    pub num: i64,
    pub den: i64,
}

/// The largest sample count, sample rate and term of a time base that
/// `TimeBase::ticks` computes with.
pub const MAX_TERM: i64 = 0x7fff_ffff;

/// How many whole ticks of `num / den` seconds `samples` samples at `rate`
/// samples a second last, computed by `num_rational`, which `av_data`
/// re-exports: `Ratio::new(samples, rate)` divided by `Ratio::new(num, den)`,
/// rounded towards zero by `Ratio::to_integer`.
///
/// `Ratio::new` panics on a zero denominator and the division on a zero
/// divisor, and the products that the division forms, after it has cancelled
/// common factors, must fit 64 bits. The bounds keep all of that away: no
/// product exceeds `MAX_TERM` squared. Of terms that are not negative the
/// quotient rounded towards zero is the floor.
#[verifier::external_body]
fn rescale(samples: i64, rate: i64, num: i64, den: i64) -> (ticks: i64)
    requires
        0 <= samples <= MAX_TERM,
        1 <= rate <= MAX_TERM,
        1 <= num <= MAX_TERM,
        1 <= den <= MAX_TERM,
    ensures
        ticks == (samples * den) / (rate * num),
{
    (Rational64::new(samples, rate) / Rational64::new(num, den)).to_integer()
}

impl TimeBase {
    /// How many whole ticks of this time base `samples` samples at
    /// `sample_rate` samples a second last: `samples / sample_rate` seconds
    /// divided by the length of a tick, rounded down. There is a result where
    /// the rate and both terms of the time base are positive and neither they
    /// nor the sample count exceed `MAX_TERM`.
    pub open spec fn spec_ticks(self, samples: usize, sample_rate: usize) -> Option<i64> {
        if samples <= MAX_TERM && 1 <= sample_rate <= MAX_TERM && 1 <= self.num <= MAX_TERM && 1
            <= self.den <= MAX_TERM {
            Some(((samples * self.den) / (sample_rate * self.num)) as i64)
        } else {
            None
        }
    }

    /// How many whole ticks of this time base `samples` samples at
    /// `sample_rate` samples a second last.
    pub fn ticks(&self, samples: usize, sample_rate: usize) -> (r: Option<i64>)
        ensures
            r == self.spec_ticks(samples, sample_rate),
            r matches Some(n) ==> 0 <= n == (samples * self.den) / (sample_rate * self.num),
    {
        if samples <= MAX_TERM as usize && 1 <= sample_rate && sample_rate <= MAX_TERM as usize
            && 1 <= self.num && self.num <= MAX_TERM && 1 <= self.den && self.den <= MAX_TERM {
            let n = rescale(samples as i64, sample_rate as i64, self.num, self.den);
            proof {
                self.lemma_ticks_in_range(samples, sample_rate);
            }
            Some(n)
        } else {
            None
        }
    }

    /// A duration in ticks is not negative, and it is the quotient itself:
    /// the quotient fits 64 bits.
    pub proof fn lemma_ticks_in_range(self, samples: usize, sample_rate: usize)
        ensures
            self.spec_ticks(samples, sample_rate) matches Some(n) ==> 0 <= n == (samples
                * self.den) / (sample_rate * self.num),
    {
        if self.spec_ticks(samples, sample_rate) is Some {
            let a = samples as int * self.den as int;
            let b = sample_rate as int * self.num as int;
            assert(0 <= a <= MAX_TERM * MAX_TERM) by (nonlinear_arith)
                requires
                    a == samples as int * self.den as int,
                    0 <= samples <= MAX_TERM,
                    1 <= self.den <= MAX_TERM,
            ;
            assert(1 <= b) by (nonlinear_arith)
                requires
                    b == sample_rate as int * self.num as int,
                    1 <= sample_rate,
                    1 <= self.num,
            ;
            lemma_quotient_in_range(a, b);
        }
    }
}

/// A quotient of a number that is not negative by a positive one lies
/// between zero and the number.
proof fn lemma_quotient_in_range(a: int, b: int)
    requires
        0 <= a,
        1 <= b,
    ensures
        0 <= a / b <= a,
{
    vstd::arithmetic::div_mod::lemma_div_pos_is_pos(a, b);
    vstd::arithmetic::div_mod::lemma_div_is_ordered_by_denominator(a, 1, b);
}

/// Timestamp information of a frame or a packet.
#[derive(Clone, Copy, Debug, PartialEq, Eq)]
pub struct TimeInfo {
    /// Presentation timestamp.
    pub pts: Option<i64>,
    /// Decode timestamp.
    pub dts: Option<i64>,
    /// Duration, in ticks of the time base.
    pub duration: Option<u64>,
    /// Time base of the stream.
    pub timebase: Option<TimeBase>,
}

impl TimeInfo {
    /// No timestamp at all.
    pub fn new() -> (t: TimeInfo)
        ensures
            t == (TimeInfo { pts: None, dts: None, duration: None, timebase: None }),
    {
        TimeInfo { pts: None, dts: None, duration: None, timebase: None }
    }
}

/// A packet of compressed data.
#[derive(Clone, Debug, PartialEq, Eq)]
pub struct Packet {
    /// Packet data.
    pub data: Vec<u8>,
    /// Position in the stream, if the packet belongs to one.
    pub pos: Option<usize>,
    /// Index of the stream the packet belongs to.
    pub stream_index: isize,
    /// Timestamp information.
    pub t: TimeInfo,
    /// Whether the packet holds a keyframe.
    pub is_key: bool,
    /// Whether the packet is corrupted.
    pub is_corrupted: bool,
}

/// What a `Packet` holds.
pub struct PacketModel {
    pub data: Seq<u8>,
    pub pos: Option<usize>,
    pub stream_index: isize,
    pub t: TimeInfo,
    pub is_key: bool,
    pub is_corrupted: bool,
}

impl View for Packet {
    type V = PacketModel;

    open spec fn view(&self) -> PacketModel {
        PacketModel {
            data: self.data@,
            pos: self.pos,
            stream_index: self.stream_index,
            t: self.t,
            is_key: self.is_key,
            is_corrupted: self.is_corrupted,
        }
    }
}

impl PacketModel {
    /// A packet that belongs to no stream yet.
    pub open spec fn detached(data: Seq<u8>, t: TimeInfo) -> PacketModel {
        PacketModel {
            data,
            pos: None,
            stream_index: -1isize,
            t,
            is_key: false,
            is_corrupted: false,
        }
    }
}

impl Packet {
    /// A packet with these data and this timestamp that belongs to no stream
    /// yet.
    pub fn detached(data: Vec<u8>, t: TimeInfo) -> (p: Packet)
        ensures
            p@ == PacketModel::detached(data@, t),
    {
        Packet { data, pos: None, stream_index: -1, t, is_key: false, is_corrupted: false }
    }
}

/// Audio stream information of a frame.
#[derive(Clone, Copy, Debug, PartialEq, Eq, Structural)]
pub struct AudioInfo {
    /// Number of samples in each channel.
    pub samples: usize,
    /// Sample rate.
    pub sample_rate: usize,
    /// Number of channels.
    pub channels: usize,
    /// Length of one audio block in samples, if there are blocks.
    pub block_len: Option<usize>,
}

/// What a frame holds.
#[derive(Clone, Copy, Debug, PartialEq, Eq, Structural)]
pub enum MediaKind {
    Video,
    Audio(AudioInfo),
}

/// A frame of interleaved 16-bit samples.
#[derive(Clone, Debug, PartialEq, Eq)]
pub struct Frame {
    /// The kind of frame.
    pub kind: MediaKind,
    /// The samples, interleaved across the channels.
    pub buf: Vec<i16>,
    /// Timestamp information.
    pub t: TimeInfo,
}

/// What a `Frame` holds.
pub struct FrameModel {
    pub kind: MediaKind,
    pub buf: Seq<i16>,
    pub t: TimeInfo,
}

impl View for Frame {
    type V = FrameModel;

    open spec fn view(&self) -> FrameModel {
        FrameModel { kind: self.kind, buf: self.buf@, t: self.t }
    }
}

/// Audio stream parameters.
#[derive(Clone, Copy, Debug, PartialEq, Eq, Structural)]
pub struct AudioParams {
    /// Sample rate.
    pub rate: usize,
    /// Number of channels, if a channel layout is set.
    pub channels: Option<usize>,
}

/// The kind of stream that codec parameters describe.
#[derive(Clone, Copy, Debug, PartialEq, Eq, Structural)]
pub enum ParamsKind {
    Video,
    Audio(AudioParams),
}

/// Codec parameters.
#[derive(Clone, Debug, PartialEq, Eq)]
pub struct CodecParams {
    /// Stream information.
    pub kind: Option<ParamsKind>,
    /// Codec id.
    pub codec_id: Option<&'static str>,
    /// Codec additional data.
    pub extradata: Option<Vec<u8>>,
    /// Codec bit rate.
    pub bit_rate: usize,
    /// Number of samples the decoder must process before its output is
    /// valid.
    pub convergence_window: usize,
    /// Number of samples the codec needs to process before returning data.
    pub delay: usize,
}

/// Accepted option values.
#[derive(Clone, Copy, Debug, PartialEq, Eq)]
pub enum Value<'a> {
    /// Signed integer value.
    I64(i64),
    /// Unsigned integer value.
    U64(u64),
    /// String slice value.
    Str(&'a str),
    /// Boolean value.
    Bool(bool),
    /// Pair of signed integer values.
    Pair(i64, i64),
    /// A pixel format.
    Formaton,
    /// An audio sample format.
    Soniton,
}

} // verus!
