//! The stream identification header: the bytes that tell a decoder how many
//! channels a stream has, how they are spread over the coded streams, and the
//! gain to apply to the output.
//!
//! Layout: bytes 0 to 7 hold the magic `OpusHead`, byte 8 the version, byte 9
//! the channel count, bytes 10 and 11 the pre-skip, bytes 12 to 15 the sample
//! rate, bytes 16 and 17 the output gain, byte 18 the channel mapping family.
//! A mapping table may follow: byte 19 holds the stream count, byte 20 the
//! coupled stream count, and one byte for each channel follows from byte 21
//! on. The integers of more than one byte are little-endian.

use vstd::prelude::*;
use vstd::slice::{slice_subrange, slice_to_vec};
use av_bitstream::byteread::get_i16l;
use av_bitstream::bytewrite::{put_i16l, put_i32l};
use crate::media::Error;

verus! {

/// Length of the fixed part of the header.
pub const OPUS_HEAD_SIZE: usize = 19;

/// The sample rate that the header declares.
pub const OPUS_HEAD_RATE: i32 = 48000;

/// The signed 16-bit integer whose little-endian bytes are `lo` and `hi`.
pub open spec fn i16_from_le(lo: u8, hi: u8) -> int {
    let v = lo as int + 256 * (hi as int);
    if v < 32768 {
        v
    } else {
        v - 65536
    }
}

/// Byte `k` of the little-endian two's complement form of `n`, for `n` of 16
/// or 32 bits and `k` below the width in bytes.
pub open spec fn le_byte(n: int, k: nat) -> u8 {
    let u = if n < 0 {
        n + 0x1_0000_0000
    } else {
        n
    };
    if k == 0 {
        (u % 256) as u8
    } else if k == 1 {
        (u / 0x100 % 256) as u8
    } else if k == 2 {
        (u / 0x1_0000 % 256) as u8
    } else {
        (u / 0x100_0000 % 256) as u8
    }
}

/// `av_bitstream::byteread::get_i16l` reads the first two bytes of `buf` as a
/// little-endian signed integer. It panics on a buffer of fewer than two
/// bytes.
pub assume_specification[ av_bitstream::byteread::get_i16l ](buf: &[u8]) -> (n: i16)
    requires
        buf@.len() > 1,
    ensures
        n as int == i16_from_le(buf@[0], buf@[1]),
;

/// `av_bitstream::bytewrite::put_i16l` overwrites the first two bytes of `buf`
/// with the little-endian form of `n` and leaves the other bytes as they
/// are. It panics on a buffer of fewer than two bytes.
pub assume_specification[ av_bitstream::bytewrite::put_i16l ](buf: &mut [u8], n: i16)
    requires
        old(buf)@.len() > 1,
    ensures
        final(buf)@ == old(buf)@.update(0, le_byte(n as int, 0)).update(1, le_byte(n as int, 1)),
;

/// `av_bitstream::bytewrite::put_i32l` overwrites the first four bytes of
/// `buf` with the little-endian form of `n` and leaves the other bytes as
/// they are. It panics on a buffer of fewer than four bytes.
pub assume_specification[ av_bitstream::bytewrite::put_i32l ](buf: &mut [u8], n: i32)
    requires
        old(buf)@.len() > 3,
    ensures
        final(buf)@ == old(buf)@.update(0, le_byte(n as int, 0)).update(
            1,
            le_byte(n as int, 1),
        ).update(2, le_byte(n as int, 2)).update(3, le_byte(n as int, 3)),
;

/// What a decoder is built from.
#[derive(Clone, Debug, PartialEq, Eq)]
pub struct StreamHeader {
    /// Number of output channels.
    pub channel_count: usize,
    /// Number of coded streams.
    pub stream_count: usize,
    /// Number of coded streams that carry two channels.
    pub coupled_stream_count: usize,
    /// For each output channel, the decoded channel that feeds it.
    pub channel_mapping: Vec<u8>,
    /// Gain to apply to the decoded output.
    pub output_gain_db: i16,
}

/// What a `StreamHeader` holds.
pub struct StreamHeaderModel {
    pub channel_count: nat,
    pub stream_count: nat,
    pub coupled_stream_count: nat,
    pub channel_mapping: Seq<u8>,
    pub output_gain_db: int,
}

impl View for StreamHeader {
    type V = StreamHeaderModel;

    open spec fn view(&self) -> StreamHeaderModel {
        StreamHeaderModel {
            channel_count: self.channel_count as nat,
            stream_count: self.stream_count as nat,
            coupled_stream_count: self.coupled_stream_count as nat,
            channel_mapping: self.channel_mapping@,
            output_gain_db: self.output_gain_db as int,
        }
    }
}

impl StreamHeaderModel {
    /// The streams account for every channel, and every channel has its
    /// entry in the mapping.
    pub open spec fn wf(self) -> bool {
        &&& self.stream_count + self.coupled_stream_count == self.channel_count
        &&& self.channel_mapping.len() == self.channel_count
    }
}

/// The channel count that a header declares: its byte 9, or two if the header
/// is too short to have one.
pub open spec fn declared_channels(bytes: Seq<u8>) -> nat {
    if bytes.len() > 9 {
        bytes[9] as nat
    } else {
        2
    }
}

/// The output gain that a header declares, or zero if the fixed part of the
/// header is not all there.
pub open spec fn declared_gain(bytes: Seq<u8>) -> int {
    if bytes.len() >= OPUS_HEAD_SIZE {
        i16_from_le(bytes[16], bytes[17])
    } else {
        0
    }
}

/// Whether a header declares a channel mapping family other than zero.
pub open spec fn declares_mapping_family(bytes: Seq<u8>) -> bool {
    bytes.len() >= OPUS_HEAD_SIZE && bytes[18] != 0
}

/// Whether a header is long enough to hold a mapping table for the channels
/// it declares.
pub open spec fn has_mapping_table(bytes: Seq<u8>) -> bool {
    bytes.len() >= OPUS_HEAD_SIZE + 2 + declared_channels(bytes)
}

/// The mapping of a stream without a mapping table: each channel is fed by
/// the decoded channel of the same index.
pub open spec fn default_mapping(channels: nat) -> Seq<u8> {
    Seq::new(channels, |i: int| i as u8)
}

/// What a header describes, or `None` where it is rejected.
///
/// With a mapping table, the table gives the streams and the mapping, and the
/// header is rejected unless streams and coupled streams add up to the
/// channels. Without one, only mono and stereo are accepted, and only with
/// mapping family zero: one stream, coupled for stereo.
pub open spec fn parse_header(bytes: Seq<u8>) -> Option<StreamHeaderModel> {
    let channels = declared_channels(bytes);
    if has_mapping_table(bytes) {
        let streams = bytes[OPUS_HEAD_SIZE as int] as nat;
        let coupled = bytes[OPUS_HEAD_SIZE + 1] as nat;
        if streams + coupled != channels {
            None
        } else {
            Some(
                StreamHeaderModel {
                    channel_count: channels,
                    stream_count: streams,
                    coupled_stream_count: coupled,
                    channel_mapping: bytes.subrange(
                        OPUS_HEAD_SIZE + 2,
                        OPUS_HEAD_SIZE + 2 + channels,
                    ),
                    output_gain_db: declared_gain(bytes),
                },
            )
        }
    } else if channels == 0 || channels > 2 || declares_mapping_family(bytes) {
        None
    } else {
        Some(
            StreamHeaderModel {
                channel_count: channels,
                stream_count: 1,
                coupled_stream_count: (channels - 1) as nat,
                channel_mapping: default_mapping(channels),
                output_gain_db: declared_gain(bytes),
            },
        )
    }
}

/// Reads a stream identification header.
///
/// Returns what the header describes, and `ConfigurationInvalid` for a header
/// that is rejected.
pub fn parse_stream_header(extradata: &[u8]) -> (r: Result<StreamHeader, Error>)
    ensures
        match r {
            Ok(h) => parse_header(extradata@) == Some(h@),
            Err(e) => parse_header(extradata@) is None && e == Error::ConfigurationInvalid,
        },
{
    let channels: usize = if extradata.len() > 9 {
        extradata[9] as usize
    } else {
        2
    };
    let mut gain_db: i16 = 0;
    let mut channel_map = false;
    if extradata.len() >= OPUS_HEAD_SIZE {
        gain_db = get_i16l(slice_subrange(extradata, 16, 18));
        channel_map = extradata[18] != 0;
    }
    if extradata.len() >= OPUS_HEAD_SIZE + 2 + channels {
        let streams = extradata[OPUS_HEAD_SIZE] as usize;
        let coupled_streams = extradata[OPUS_HEAD_SIZE + 1] as usize;
        if streams + coupled_streams != channels {
            return Err(Error::ConfigurationInvalid);
        }
        let table = slice_subrange(extradata, OPUS_HEAD_SIZE + 2, OPUS_HEAD_SIZE + 2 + channels);
        Ok(
            StreamHeader {
                channel_count: channels,
                stream_count: streams,
                coupled_stream_count: coupled_streams,
                channel_mapping: slice_to_vec(table),
                output_gain_db: gain_db,
            },
        )
    } else {
        if channels == 0 || channels > 2 || channel_map {
            return Err(Error::ConfigurationInvalid);
        }
        let mut mapping: Vec<u8> = Vec::new();
        mapping.push(0);
        if channels > 1 {
            mapping.push(1);
        }
        assert(mapping@ =~= default_mapping(channels as nat));
        Ok(
            StreamHeader {
                channel_count: channels,
                stream_count: 1,
                coupled_stream_count: channels - 1,
                channel_mapping: mapping,
                output_gain_db: gain_db,
            },
        )
    }
}

/// No header that is accepted leaves a channel without a stream: the streams
/// and the coupled streams of what `parse_header` returns add up to its
/// channels, and its mapping has one entry for each channel.
pub proof fn lemma_parsed_header_is_well_formed(bytes: Seq<u8>)
    ensures
        parse_header(bytes) matches Some(h) ==> h.wf(),
{
}

/// The bytes of a stream identification header for mono and stereo streams:
/// version 1, the channels, the pre-skip, 48 kHz, no gain, and mapping
/// family 0.
pub open spec fn id_header_bytes(channels: u8, pre_skip: i16) -> Seq<u8> {
    seq![
        0x4fu8,
        0x70u8,
        0x75u8,
        0x73u8,
        0x48u8,
        0x65u8,
        0x61u8,
        0x64u8,
        1u8,
        channels,
        le_byte(pre_skip as int, 0),
        le_byte(pre_skip as int, 1),
        0x80u8,
        0xbbu8,
        0u8,
        0u8,
        0u8,
        0u8,
        0u8,
    ]
}

/// Writes the stream identification header of a stream without a mapping
/// table.
pub fn id_header(channels: u8, pre_skip: i16) -> (buf: Vec<u8>)
    ensures
        buf@ == id_header_bytes(channels, pre_skip),
{
    let mut buf: Vec<u8> = vec![0x4f, 0x70, 0x75, 0x73, 0x48, 0x65, 0x61, 0x64];
    buf.resize(OPUS_HEAD_SIZE, 0);
    buf[8] = 1;
    buf[9] = channels;
    let (_, pre_skip_on) = buf.as_mut_slice().split_at_mut(10);
    put_i16l(pre_skip_on, pre_skip);
    let (_, rate_on) = buf.as_mut_slice().split_at_mut(12);
    put_i32l(rate_on, OPUS_HEAD_RATE);
    let (_, gain_on) = buf.as_mut_slice().split_at_mut(16);
    put_i16l(gain_on, 0);
    buf[18] = 0;
    buf
}

/// What `id_header` writes for a mono or stereo stream, `parse_stream_header`
/// accepts: it reads back the channels, one stream, coupled for stereo, the
/// default mapping, and no gain.
pub proof fn lemma_id_header_parses(channels: u8, pre_skip: i16)
    requires
        1 <= channels <= 2,
    ensures
        parse_header(id_header_bytes(channels, pre_skip)) == Some(
            StreamHeaderModel {
                channel_count: channels as nat,
                stream_count: 1,
                coupled_stream_count: (channels - 1) as nat,
                channel_mapping: default_mapping(channels as nat),
                output_gain_db: 0,
            },
        ),
{
}

/// Writing a 16-bit integer in little-endian order and reading the two bytes
/// back gives the integer.
pub proof fn lemma_i16_round_trip(n: i16)
    ensures
        i16_from_le(le_byte(n as int, 0), le_byte(n as int, 1)) == n,
{
}

} // verus!
