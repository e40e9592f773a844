//! The multistream decoder: what to hand the native decoder and what its
//! answers mean, and the packet-in, frame-out decoder of the streaming
//! interface on top of it.
//!
//! Every native call is made by the caller. For a call, a function whose
//! name ends in `_call` gives its arguments, and the function without that
//! ending takes the status that the call returned. A reset is the one call
//! whose status nobody waits for: `reset` and `flush` give its request.

use vstd::prelude::*;
use vstd::slice::slice_to_vec;
use std::collections::VecDeque;
use crate::common::{
    check_count, check_status, count_result, lemma_native_count_not_above,
    lemma_room_in_whole_frames, status_result, ErrorCode, SampleFormat,
};
use crate::header::{parse_header, parse_stream_header, StreamHeader, StreamHeaderModel};
use crate::media::{AudioInfo, Descr, Error, Frame, FrameModel, MediaKind, Packet, TimeInfo};
use crate::native::{OPUS_RESET_STATE, OPUS_SET_GAIN_REQUEST};

verus! {

/// The sample rate that the streaming decoder works at.
pub const DECODER_SAMPLE_RATE: usize = 48000;

/// The most samples that one packet decodes to in each channel: 120 ms at
/// 48 kHz.
pub const MAX_FRAME_SAMPLES: usize = 5760;

/// Arguments of the native call that creates a multistream decoder. With
/// them goes the channel mapping, of which the native constructor reads one
/// byte for each channel.
#[derive(Copy, Clone, Debug, PartialEq, Eq, Structural)]
pub struct CreateCall {
    pub sample_rate: i32,
    pub channels: i32,
    pub streams: i32,
    pub coupled_streams: i32,
}

/// Arguments of the native call that decodes one packet.
#[derive(Copy, Clone, Debug, PartialEq, Eq, Structural)]
pub struct DecodeCall {
    /// The entry point to call: the one that writes samples of this format.
    pub format: SampleFormat,
    /// Whether there is a packet. Without one the native call gets a null
    /// pointer, which stands for a lost packet.
    pub has_data: bool,
    /// Length of the packet in bytes.
    pub len: i32,
    /// The samples that the output buffer has room for in each channel.
    pub frame_size: i32,
    /// 1 to ask for the forward error correction data of the packet, else 0.
    pub decode_fec: i32,
}

/// Arguments of a native control call that sets a value.
#[derive(Copy, Clone, Debug, PartialEq, Eq, Structural)]
pub struct CtlCall {
    pub request: i32,
    pub value: i32,
}

/// What is known of a live native multistream decoder: the number of its
/// channels, which is not zero.
#[derive(Debug, PartialEq, Eq)]
pub struct Decoder {
    channels: usize,
}

impl Decoder {
    #[verifier::type_invariant]
    spec fn has_channels(self) -> bool {
        self.channels > 0
    }

    /// The number of channels.
    pub closed spec fn spec_channels(&self) -> usize {
        self.channels
    }

    /// The number of channels.
    #[verifier::when_used_as_spec(spec_channels)]
    pub fn channels(&self) -> (n: usize)
        ensures
            n == self.spec_channels(),
            n > 0,
    {
        proof {
            use_type_invariant(self);
        }
        self.channels
    }

    /// Arguments of the native constructor. Each count is handed on as the
    /// native integer that its low 32 bits make; nothing is checked here, the
    /// native constructor accepts or rejects the combination. The mapping
    /// must have an entry for each channel: then the native constructor, which
    /// reads as many entries as it is told of channels, stays within it.
    pub fn create_call(
        sample_rate: usize,
        channels: usize,
        streams: usize,
        coupled_streams: usize,
        mapping: &[u8],
    ) -> (call: CreateCall)
        requires
            mapping@.len() >= channels,
        ensures
            call == (CreateCall {
                sample_rate: sample_rate as i32,
                channels: channels as i32,
                streams: streams as i32,
                coupled_streams: coupled_streams as i32,
            }),
            call.channels > 0 ==> call.channels <= mapping@.len(),
    {
        proof {
            lemma_native_count_not_above(channels);
        }
        CreateCall {
            sample_rate: sample_rate as i32,
            channels: channels as i32,
            streams: streams as i32,
            coupled_streams: coupled_streams as i32,
        }
    }

    /// What creating a decoder of `channels` channels came to, given the
    /// status that the native constructor reported.
    ///
    /// A negative status is the error it stands for. With any other status
    /// there is a decoder, unless it would have no channel at all, which is
    /// `BadArg`.
    pub fn create(channels: usize, status: i32) -> (r: Result<Decoder, ErrorCode>)
        ensures
            status < 0 ==> r == Err::<Decoder, ErrorCode>(ErrorCode::from_status(status)),
            status >= 0 && channels == 0 ==> r == Err::<Decoder, ErrorCode>(ErrorCode::BadArg),
            status >= 0 && channels > 0 ==> r is Ok && r->Ok_0.channels() == channels,
    {
        if status < 0 {
            Err(ErrorCode::from(status))
        } else if channels == 0 {
            Err(ErrorCode::BadArg)
        } else {
            Ok(Decoder { channels })
        }
    }

    /// Arguments of the native call that decodes `input` into a buffer of
    /// `out_len` samples of the given format. No input stands for a lost
    /// packet. The room in the buffer is counted in samples of one channel.
    ///
    /// Each length is handed on as the native integer that its low 32 bits
    /// make. Whatever the lengths, the native decoder is told of no more
    /// bytes than the packet has and of no more room than the buffer has.
    pub fn decode_call(
        &self,
        input: Option<&[u8]>,
        format: SampleFormat,
        out_len: usize,
        decode_fec: bool,
    ) -> (call: DecodeCall)
        ensures
            call.format == format,
            call.has_data == (input is Some),
            call.len == match input {
                Some(v) => v@.len() as i32,
                None => 0i32,
            },
            call.frame_size == (out_len / self.channels()) as i32,
            call.decode_fec == if decode_fec {
                1i32
            } else {
                0i32
            },
            input is Some && call.len >= 0 ==> call.len <= input->Some_0@.len(),
            call.frame_size >= 0 ==> call.frame_size * self.channels() <= out_len,
    {
        proof {
            use_type_invariant(self);
            if let Some(v) = input {
                lemma_native_count_not_above(v.len());
            }
            lemma_native_count_not_above((out_len / self.channels) as usize);
            lemma_room_in_whole_frames(
                out_len as int,
                self.channels as int,
                ((out_len / self.channels) as i32) as int,
            );
        }
        let len: i32 = match input {
            Some(v) => v.len() as i32,
            None => 0,
        };
        DecodeCall {
            format,
            has_data: input.is_some(),
            len,
            frame_size: (out_len / self.channels) as i32,
            decode_fec: if decode_fec {
                1
            } else {
                0
            },
        }
    }

    /// What decoding came to, given the status that the native call
    /// returned: the number of samples decoded in each channel, or the error
    /// that a negative status stands for.
    pub fn decode(&mut self, status: i32) -> (r: Result<usize, ErrorCode>)
        ensures
            r == count_result(status),
            *final(self) == *old(self),
    {
        check_count(status)
    }

    /// Whether the decoder takes this control request.
    pub open spec fn accepts(key: u32) -> bool {
        key == OPUS_SET_GAIN_REQUEST
    }

    /// Arguments of the native control call that sets option `key` to `val`,
    /// or `Unimplemented` for a key that the decoder does not take. Only the
    /// output gain can be set.
    pub fn set_option_call(&self, key: u32, val: i32) -> (r: Result<CtlCall, ErrorCode>)
        ensures
            Self::accepts(key) ==> r == Ok::<CtlCall, ErrorCode>(
                CtlCall { request: key as i32, value: val },
            ),
            !Self::accepts(key) ==> r == Err::<CtlCall, ErrorCode>(ErrorCode::Unimplemented),
    {
        if key == OPUS_SET_GAIN_REQUEST {
            Ok(CtlCall { request: key as i32, value: val })
        } else {
            Err(ErrorCode::Unimplemented)
        }
    }

    /// What setting an option came to, given the status that the native
    /// control call returned.
    pub fn set_option(&mut self, status: i32) -> (r: Result<(), ErrorCode>)
        ensures
            r == status_result(status),
            *final(self) == *old(self),
    {
        check_status(status)
    }

    /// The request of the native control call that clears the decoder's
    /// state, as after a seek. The call takes no value, and its status is not
    /// looked at: a reset is not expected to fail.
    pub fn reset(&mut self) -> (request: i32)
        ensures
            request == OPUS_RESET_STATE as i32,
            *final(self) == *old(self),
    {
        OPUS_RESET_STATE as i32
    }
}

/// Describes the decoder and makes decoders of the streaming interface.
#[derive(Clone, Copy, Debug, PartialEq, Eq)]
pub struct Des {
    descr: Descr,
}

/// The descriptor of this decoder.
pub fn descriptor() -> (des: Des)
    ensures
        des.spec_describe() == (Descr {
            codec: "opus",
            name: "libopus",
            desc: "libopus decoder",
            mime: "audio/OPUS",
        }),
{
    Des {
        descr: Descr {
            codec: "opus",
            name: "libopus",
            desc: "libopus decoder",
            mime: "audio/OPUS",
        },
    }
}

impl Des {
    /// The description that this descriptor carries.
    pub closed spec fn spec_describe(&self) -> Descr {
        self.descr
    }

    /// A decoder that has no extradata, is not configured and holds no
    /// frame.
    pub fn create(&self) -> (dec: Dec)
        ensures
            dec@ == DecModel::start(),
    {
        Dec::new()
    }

    /// The description of the codec.
    pub fn describe(&self) -> (descr: &Descr)
        ensures
            *descr == self.spec_describe(),
    {
        &self.descr
    }
}

/// What to do to configure a streaming decoder: the stream header that its
/// extradata holds, then the native calls to make. The constructor call,
/// with which the channel mapping of the header goes, decides whether there
/// is a decoder. The gain call follows on the decoder that it made, and its
/// status does not matter.
#[derive(Debug, PartialEq, Eq)]
pub struct Setup {
    pub header: StreamHeader,
    pub create: CreateCall,
    pub gain: CtlCall,
}

/// What to do to decode one packet into a frame: the length of the buffer
/// of 16-bit samples to decode into, and the native call to make on it.
#[derive(Copy, Clone, Debug, PartialEq, Eq, Structural)]
pub struct DecodeRequest {
    pub buffer_len: usize,
    pub call: DecodeCall,
}

/// The decoder of the streaming interface: it takes extradata, is
/// configured from it, takes packets and hands out the decoded frames in the
/// order in which the packets came.
#[derive(Debug)]
pub struct Dec {
    dec: Option<Configured>,
    extradata: Option<Vec<u8>>,
    pending: VecDeque<Frame>,
}

/// A decoder of a stream that the streaming interface can describe: mono or
/// stereo.
#[derive(Debug)]
struct Configured {
    decoder: Decoder,
}

impl Configured {
    #[verifier::type_invariant]
    spec fn mono_or_stereo(self) -> bool {
        self.decoder.channels() <= 2
    }
}

/// What a `Dec` holds.
pub struct DecModel {
    /// The decoder, once configured.
    pub decoder: Option<Decoder>,
    /// The extradata, once set.
    pub extradata: Option<Seq<u8>>,
    /// The decoded frames that were not retrieved yet, oldest first.
    pub pending: Seq<FrameModel>,
}

impl DecModel {
    /// Nothing set, nothing configured, nothing decoded.
    pub open spec fn start() -> DecModel {
        DecModel { decoder: None, extradata: None, pending: Seq::empty() }
    }

    /// The stream header to configure from, or why there is none: no
    /// extradata was set, its header is rejected, or it describes a stream of
    /// no channel or of more than two, for which no channel layout is
    /// defined.
    pub open spec fn configure_plan(self) -> Result<StreamHeaderModel, Error> {
        match self.extradata {
            None => Err(Error::ConfigurationIncomplete),
            Some(bytes) => match parse_header(bytes) {
                None => Err(Error::ConfigurationInvalid),
                Some(h) => if h.channel_count == 0 || h.channel_count > 2 {
                    Err(Error::Unsupported("channel layout"))
                } else {
                    Ok(h)
                },
            },
        }
    }

    /// The frame that a packet decoded to: `samples` samples in each of the
    /// `channels` channels at 48 kHz, in the buffer `buf`, with the
    /// packet's timestamp `t`.
    pub open spec fn decoded_frame(
        channels: usize,
        samples: usize,
        buf: Seq<i16>,
        t: TimeInfo,
    ) -> FrameModel {
        FrameModel {
            kind: MediaKind::Audio(
                AudioInfo {
                    samples,
                    sample_rate: DECODER_SAMPLE_RATE,
                    channels,
                    block_len: None,
                },
            ),
            buf,
            t,
        }
    }
}

/// No decoder is made for a stream whose streams do not account for its
/// channels: whenever there is a stream header to configure from, its streams
/// and coupled streams add up to its channels, of which there are one or two,
/// and its mapping has an entry for each channel.
pub proof fn lemma_configured_header_is_well_formed(dec: DecModel)
    ensures
        dec.configure_plan() matches Ok(h) ==> h.wf() && 1 <= h.channel_count <= 2,
{
}

impl View for Dec {
    type V = DecModel;

    closed spec fn view(&self) -> DecModel {
        DecModel {
            decoder: match self.dec {
                Some(c) => Some(c.decoder),
                None => None,
            },
            extradata: match self.extradata {
                Some(bytes) => Some(bytes@),
                None => None,
            },
            pending: self.pending@.map_values(|f: Frame| f@),
        }
    }
}

impl Dec {
    /// A decoder that has no extradata, is not configured and holds no
    /// frame.
    pub fn new() -> (dec: Dec)
        ensures
            dec@ == DecModel::start(),
    {
        let dec = Dec { dec: None, extradata: None, pending: VecDeque::with_capacity(1) };
        assert(dec@.pending =~= Seq::empty());
        dec
    }

    /// Keeps a copy of `extra` as the extradata to configure from.
    pub fn set_extradata(&mut self, extra: &[u8])
        ensures
            final(self)@ == (DecModel { extradata: Some(extra@), ..old(self)@ }),
    {
        self.extradata = Some(slice_to_vec(extra));
    }

    /// What to do to configure the decoder from its extradata, or why it
    /// cannot be configured.
    pub fn configure_call(&self) -> (r: Result<Setup, Error>)
        ensures
            match r {
                Ok(setup) => {
                    &&& self@.configure_plan() == Ok::<StreamHeaderModel, Error>(setup.header@)
                    &&& setup.create == (CreateCall {
                        sample_rate: DECODER_SAMPLE_RATE as i32,
                        channels: setup.header.channel_count as i32,
                        streams: setup.header.stream_count as i32,
                        coupled_streams: setup.header.coupled_stream_count as i32,
                    })
                    &&& setup.create.channels > 0 ==> setup.create.channels
                        <= setup.header.channel_mapping@.len()
                    &&& setup.gain == (CtlCall {
                        request: OPUS_SET_GAIN_REQUEST as i32,
                        value: setup.header.output_gain_db as i32,
                    })
                },
                Err(e) => self@.configure_plan() == Err::<StreamHeaderModel, Error>(e),
            },
    {
        match &self.extradata {
            None => Err(Error::ConfigurationIncomplete),
            Some(extradata) => {
                let header = parse_stream_header(extradata.as_slice())?;
                if header.channel_count == 0 || header.channel_count > 2 {
                    return Err(Error::Unsupported("channel layout"));
                }
                let create = Decoder::create_call(
                    DECODER_SAMPLE_RATE,
                    header.channel_count,
                    header.stream_count,
                    header.coupled_stream_count,
                    header.channel_mapping.as_slice(),
                );
                let gain = CtlCall {
                    request: OPUS_SET_GAIN_REQUEST as i32,
                    value: header.output_gain_db as i32,
                };
                Ok(Setup { header, create, gain })
            },
        }
    }

    /// Configures the decoder, given the status that the native constructor
    /// reported for the call of `configure_call`.
    ///
    /// Where `configure_call` gives no call, its error is returned. A
    /// negative status is `ConfigurationInvalid`. Otherwise the decoder is
    /// configured for the channels of the stream header. Only then does
    /// anything change.
    pub fn configure(&mut self, status: i32) -> (r: Result<(), Error>)
        ensures
            match old(self)@.configure_plan() {
                Err(e) => r == Err::<(), Error>(e) && final(self)@ == old(self)@,
                Ok(h) => if status < 0 {
                    r == Err::<(), Error>(Error::ConfigurationInvalid) && final(self)@ == old(self)@
                } else {
                    &&& r == Ok::<(), Error>(())
                    &&& final(self)@.decoder is Some
                    &&& final(self)@.decoder->Some_0.channels() == h.channel_count
                    &&& final(self)@.extradata == old(self)@.extradata
                    &&& final(self)@.pending == old(self)@.pending
                },
            },
    {
        let setup = self.configure_call()?;
        let channels = setup.header.channel_count;
        match Decoder::create(channels, status) {
            Ok(decoder) => {
                self.dec = Some(Configured { decoder });
                Ok(())
            },
            Err(_) => Err(Error::ConfigurationInvalid),
        }
    }

    /// What to do to decode `pkt`: `ConfigurationIncomplete` before the
    /// decoder is configured, else a buffer with room for the longest frame
    /// and the native call that decodes the packet's data into it, without
    /// forward error correction.
    pub fn send_packet_call(&self, pkt: &Packet) -> (r: Result<DecodeRequest, Error>)
        ensures
            match self@.decoder {
                None => r == Err::<DecodeRequest, Error>(Error::ConfigurationIncomplete),
                Some(d) => d.channels() <= 2 && r == Ok::<DecodeRequest, Error>(
                    DecodeRequest {
                        buffer_len: (MAX_FRAME_SAMPLES * d.channels()) as usize,
                        call: DecodeCall {
                            format: SampleFormat::I16,
                            has_data: true,
                            len: pkt.data@.len() as i32,
                            frame_size: MAX_FRAME_SAMPLES as i32,
                            decode_fec: 0,
                        },
                    },
                ),
            },
    {
        match &self.dec {
            None => Err(Error::ConfigurationIncomplete),
            Some(stream) => {
                proof {
                    use_type_invariant(stream);
                }
                let channels = stream.decoder.channels();
                let buffer_len = MAX_FRAME_SAMPLES * channels;
                let call = stream.decoder.decode_call(
                    Some(pkt.data.as_slice()),
                    SampleFormat::I16,
                    buffer_len,
                    false,
                );
                assert(buffer_len / channels == MAX_FRAME_SAMPLES) by {
                    if channels == 1 {
                        assert(buffer_len / 1 == MAX_FRAME_SAMPLES);
                    } else {
                        assert(buffer_len / 2 == MAX_FRAME_SAMPLES);
                    }
                }
                Ok(DecodeRequest { buffer_len, call })
            },
        }
    }

    /// Takes what decoding `pkt` into `buf` came to, given the status that
    /// the native call of `send_packet_call` returned.
    ///
    /// Before the decoder is configured this is `ConfigurationIncomplete`. A
    /// negative status is `InvalidData`. Otherwise the status counts the
    /// samples decoded in each channel, and the frame of that many samples,
    /// with the packet's timestamp, joins the end of the queue.
    pub fn send_packet(&mut self, pkt: &Packet, buf: Vec<i16>, status: i32) -> (r: Result<
        (),
        Error,
    >)
        ensures
            match old(self)@.decoder {
                None => r == Err::<(), Error>(Error::ConfigurationIncomplete) && final(self)@
                    == old(self)@,
                Some(d) => if status < 0 {
                    r == Err::<(), Error>(Error::InvalidData) && final(self)@ == old(self)@
                } else {
                    &&& r == Ok::<(), Error>(())
                    &&& final(self)@ == (DecModel {
                        pending: old(self)@.pending.push(
                            DecModel::decoded_frame(d.channels(), status as usize, buf@, pkt.t),
                        ),
                        ..old(self)@
                    })
                },
            },
    {
        let channels = match &self.dec {
            None => {
                return Err(Error::ConfigurationIncomplete);
            },
            Some(stream) => stream.decoder.channels(),
        };
        match check_count(status) {
            Ok(samples) => {
                let frame = Frame {
                    kind: MediaKind::Audio(
                        AudioInfo {
                            samples,
                            sample_rate: DECODER_SAMPLE_RATE,
                            channels,
                            block_len: None,
                        },
                    ),
                    buf,
                    t: pkt.t,
                };
                let ghost before = self.pending@;
                self.pending.push_back(frame);
                assert(self.pending@.map_values(|f: Frame| f@) =~= before.map_values(
                    |f: Frame| f@,
                ).push(frame@));
                Ok(())
            },
            Err(_) => Err(Error::InvalidData),
        }
    }

    /// Hands out the oldest decoded frame, or `MoreDataNeeded` if none is
    /// waiting.
    pub fn receive_frame(&mut self) -> (r: Result<Frame, Error>)
        ensures
            match r {
                Ok(frame) => {
                    &&& old(self)@.pending.len() > 0
                    &&& frame@ == old(self)@.pending[0]
                    &&& final(self)@ == (DecModel {
                        pending: old(self)@.pending.skip(1),
                        ..old(self)@
                    })
                },
                Err(e) => {
                    &&& old(self)@.pending.len() == 0
                    &&& e == Error::MoreDataNeeded
                    &&& final(self)@ == old(self)@
                },
            },
    {
        let ghost before = self.pending@;
        match self.pending.pop_front() {
            Some(frame) => {
                assert(self.pending@.map_values(|f: Frame| f@) =~= before.map_values(
                    |f: Frame| f@,
                ).skip(1));
                Ok(frame)
            },
            None => Err(Error::MoreDataNeeded),
        }
    }

    /// The request of the native control call that clears the state of the
    /// decoder, as after a seek, or `ConfigurationIncomplete` before the
    /// decoder is configured. The status of the call is not looked at. The
    /// queue stays as it is.
    pub fn flush(&mut self) -> (r: Result<i32, Error>)
        ensures
            final(self)@ == old(self)@,
            old(self)@.decoder is Some ==> r == Ok::<i32, Error>(OPUS_RESET_STATE as i32),
            old(self)@.decoder is None ==> r == Err::<i32, Error>(Error::ConfigurationIncomplete),
    {
        match &self.dec {
            Some(_) => Ok(OPUS_RESET_STATE as i32),
            None => Err(Error::ConfigurationIncomplete),
        }
    }
}

} // verus!
