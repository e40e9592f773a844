//! The multistream encoder: what to hand the native encoder and what its
//! answers mean, and the frame-in, packet-out encoder of the streaming
//! interface on top of it.
//!
//! Every native call is made by the caller. For a call, a function whose
//! name ends in `_call` gives its arguments, and the function without that
//! ending takes the status that the call returned. A reset is the one call
//! whose status nobody waits for: `reset` gives its request.

use vstd::prelude::*;
use vstd::slice::{slice_subrange, slice_to_vec};
use std::collections::VecDeque;
use crate::chunk::{chunk_count, count_chunks, padded, padded_chunk};
use std::str::FromStr;
use crate::common::{
    check_count, check_status, count_result, lemma_native_count_not_above,
    lemma_room_in_whole_frames, status_result, ErrorCode, SampleFormat,
};
use crate::header::{id_header, id_header_bytes};
use crate::media::{
    AudioParams, CodecParams, Descr, Error, Frame, FrameModel, MediaKind, Packet, PacketModel,
    ParamsKind, TimeInfo, Value,
};
use crate::native::{
    OPUS_APPLICATION_AUDIO, OPUS_APPLICATION_RESTRICTED_LOWDELAY, OPUS_APPLICATION_VOIP,
    OPUS_BANDWIDTH_WIDEBAND, OPUS_BUFFER_TOO_SMALL,
    OPUS_GET_FINAL_RANGE_REQUEST, OPUS_GET_LOOKAHEAD_REQUEST, OPUS_RESET_STATE,
    OPUS_SET_APPLICATION_REQUEST, OPUS_SET_BANDWIDTH_REQUEST, OPUS_SET_BITRATE_REQUEST,
    OPUS_SET_COMPLEXITY_REQUEST, OPUS_SET_DTX_REQUEST, OPUS_SET_EXPERT_FRAME_DURATION_REQUEST,
    OPUS_SET_FORCE_CHANNELS_REQUEST, OPUS_SET_GAIN_REQUEST, OPUS_SET_INBAND_FEC_REQUEST,
    OPUS_SET_LSB_DEPTH_REQUEST, OPUS_SET_MAX_BANDWIDTH_REQUEST, OPUS_SET_PACKET_LOSS_PERC_REQUEST,
    OPUS_SET_PREDICTION_DISABLED_REQUEST, OPUS_SET_SIGNAL_REQUEST, OPUS_SET_VBR_CONSTRAINT_REQUEST,
    OPUS_SET_VBR_REQUEST,
};

verus! {

/// Whether two strings hold the same characters.
fn same(a: &str, b: &str) -> (r: bool)
    ensures
        r == (a@ == b@),
{
    let len = a.unicode_len();
    if b.unicode_len() != len {
        return false;
    }
    let mut i: usize = 0;
    while i < len
        invariant
            i <= len == a@.len() == b@.len(),
            forall|j: int| 0 <= j < i ==> a@[j] == b@[j],
        decreases len - i,
    {
        if a.get_char(i) != b.get_char(i) {
            return false;
        }
        i += 1;
    }
    assert(a@ =~= b@);
    true
}

/// The tuning profile of an encoder.
#[derive(Clone, Copy, Debug, PartialEq, Eq, Structural)]
pub enum Application {
    /// Interactive voice.
    Voip,
    /// General audio.
    Audio,
    /// Restricted low delay.
    LowDelay,
}

impl Application {
    /// The native constant of the profile.
    pub open spec fn spec_code(self) -> i32 {
        match self {
            Application::Voip => OPUS_APPLICATION_VOIP as i32,
            Application::Audio => OPUS_APPLICATION_AUDIO as i32,
            Application::LowDelay => OPUS_APPLICATION_RESTRICTED_LOWDELAY as i32,
        }
    }

    /// The native constant of the profile.
    #[verifier::when_used_as_spec(spec_code)]
    pub fn code(self) -> (c: i32)
        ensures
            c == self.spec_code(),
    {
        match self {
            Application::Voip => OPUS_APPLICATION_VOIP as i32,
            Application::Audio => OPUS_APPLICATION_AUDIO as i32,
            Application::LowDelay => OPUS_APPLICATION_RESTRICTED_LOWDELAY as i32,
        }
    }

    /// The profile that a name stands for. The names are `voip`, `audio`
    /// and `lowdelay`, in lower case; nothing else is a name.
    pub open spec fn named(s: Seq<char>) -> Option<Application> {
        if s == "voip"@ {
            Some(Application::Voip)
        } else if s == "audio"@ {
            Some(Application::Audio)
        } else if s == "lowdelay"@ {
            Some(Application::LowDelay)
        } else {
            None
        }
    }

    /// Reads the name of a profile.
    pub fn from_str(s: &str) -> (r: Result<Application, ()>)
        ensures
            match r {
                Ok(a) => Application::named(s@) == Some(a),
                Err(_) => Application::named(s@) is None,
            },
    {
        if same(s, "voip") {
            Ok(Application::Voip)
        } else if same(s, "audio") {
            Ok(Application::Audio)
        } else if same(s, "lowdelay") {
            Ok(Application::LowDelay)
        } else {
            Err(())
        }
    }
}

impl FromStr for Application {
    type Err = ();

    /// Reads the name of a profile, as the inherent `from_str` does.
    fn from_str(s: &str) -> (r: Result<Application, ()>)
        ensures
            match r {
                Ok(a) => Application::named(s@) == Some(a),
                Err(_) => Application::named(s@) is None,
            },
    {
        Application::from_str(s)
    }
}

/// Arguments of the native call that creates a multistream encoder. With
/// them goes the channel mapping, of which the native constructor reads one
/// byte for each channel.
#[derive(Copy, Clone, Debug, PartialEq, Eq, Structural)]
pub struct CreateCall {
    pub sample_rate: i32,
    pub channels: i32,
    pub streams: i32,
    pub coupled_streams: i32,
    pub application: i32,
}

/// Arguments of the native call that encodes one frame.
#[derive(Copy, Clone, Debug, PartialEq, Eq, Structural)]
pub struct EncodeCall {
    /// The entry point to call: the one that reads samples of this format.
    pub format: SampleFormat,
    /// The samples that the input holds for each channel.
    pub frame_size: i32,
    /// The room in the output buffer, in bytes.
    pub max_data_bytes: i32,
}

/// Arguments of a native control call that sets a value.
#[derive(Copy, Clone, Debug, PartialEq, Eq, Structural)]
pub struct CtlCall {
    pub request: i32,
    pub value: u32,
}

/// What is known of a live native multistream encoder: the number of its
/// channels, which is not zero, and its tuning profile.
#[derive(Debug, PartialEq, Eq)]
pub struct Encoder {
    channels: usize,
    application: Application,
}

impl Encoder {
    #[verifier::type_invariant]
    spec fn has_channels(self) -> bool {
        self.channels > 0
    }

    /// The number of channels.
    pub closed spec fn spec_channels(&self) -> usize {
        self.channels
    }

    /// The number of channels.
    #[verifier::when_used_as_spec(spec_channels)]
    pub fn channels(&self) -> (n: usize)
        ensures
            n == self.spec_channels(),
            n > 0,
    {
        proof {
            use_type_invariant(self);
        }
        self.channels
    }

    /// The tuning profile that the encoder was made with.
    pub closed spec fn spec_application(&self) -> Application {
        self.application
    }

    /// The tuning profile that the encoder was made with.
    #[verifier::when_used_as_spec(spec_application)]
    pub fn application(&self) -> (a: Application)
        ensures
            a == self.spec_application(),
    {
        self.application
    }

    /// Arguments of the native constructor. Each count is handed on as the
    /// native integer that its low 32 bits make; nothing is checked here, the
    /// native constructor accepts or rejects the combination. The mapping
    /// must have an entry for each channel: then the native constructor, which
    /// reads as many entries as it is told of channels, stays within it.
    pub fn create_call(
        sample_rate: usize,
        channels: usize,
        streams: usize,
        coupled_streams: usize,
        mapping: &[u8],
        application: Application,
    ) -> (call: CreateCall)
        requires
            mapping@.len() >= channels,
        ensures
            call == (CreateCall {
                sample_rate: sample_rate as i32,
                channels: channels as i32,
                streams: streams as i32,
                coupled_streams: coupled_streams as i32,
                application: application.code(),
            }),
            call.channels > 0 ==> call.channels <= mapping@.len(),
    {
        proof {
            lemma_native_count_not_above(channels);
        }
        CreateCall {
            sample_rate: sample_rate as i32,
            channels: channels as i32,
            streams: streams as i32,
            coupled_streams: coupled_streams as i32,
            application: application.code(),
        }
    }

    /// What creating an encoder of `channels` channels came to, given the
    /// status that the native constructor reported.
    ///
    /// A negative status is the error it stands for. With any other status
    /// there is an encoder, unless it would have no channel at all, which is
    /// `BadArg`.
    pub fn create(channels: usize, application: Application, status: i32) -> (r: Result<
        Encoder,
        ErrorCode,
    >)
        ensures
            status < 0 ==> r == Err::<Encoder, ErrorCode>(ErrorCode::from_status(status)),
            status >= 0 && channels == 0 ==> r == Err::<Encoder, ErrorCode>(ErrorCode::BadArg),
            status >= 0 && channels > 0 ==> {
                &&& r is Ok
                &&& r->Ok_0.channels() == channels
                &&& r->Ok_0.application() == application
            },
    {
        if status < 0 {
            Err(ErrorCode::from(status))
        } else if channels == 0 {
            Err(ErrorCode::BadArg)
        } else {
            Ok(Encoder { channels, application })
        }
    }

    /// Arguments of the native call that encodes an input of `in_len`
    /// samples of the given format into an output buffer of `out_len` bytes.
    /// The length of the frame is counted in samples of one channel.
    ///
    /// Each length is handed on as the native integer that its low 32 bits
    /// make. Whatever the lengths, the native encoder is told of no more
    /// samples than the input has and of no more room than the output has.
    pub fn encode_call(&self, format: SampleFormat, in_len: usize, out_len: usize) -> (call:
        EncodeCall)
        ensures
            call == (EncodeCall {
                format,
                frame_size: (in_len / self.channels()) as i32,
                max_data_bytes: out_len as i32,
            }),
            call.frame_size >= 0 ==> call.frame_size * self.channels() <= in_len,
            call.max_data_bytes >= 0 ==> call.max_data_bytes <= out_len,
    {
        proof {
            use_type_invariant(self);
            lemma_native_count_not_above(out_len);
            lemma_native_count_not_above((in_len / self.channels) as usize);
            lemma_room_in_whole_frames(
                in_len as int,
                self.channels as int,
                ((in_len / self.channels) as i32) as int,
            );
        }
        EncodeCall {
            format,
            frame_size: (in_len / self.channels) as i32,
            max_data_bytes: out_len as i32,
        }
    }

    /// What encoding came to, given the status that the native call
    /// returned: the length of the packet in bytes, or the error that a
    /// negative status stands for. An output buffer that is too small for the
    /// packet is the error `BufferTooSmall`, never a shortened packet.
    pub fn encode(&mut self, status: i32) -> (r: Result<usize, ErrorCode>)
        ensures
            r == count_result(status),
            status == OPUS_BUFFER_TOO_SMALL ==> r == Err::<usize, ErrorCode>(
                ErrorCode::BufferTooSmall,
            ),
            *final(self) == *old(self),
    {
        check_count(status)
    }

    /// Whether the encoder takes this control request to set a value.
    pub open spec fn accepts(key: u32) -> bool {
        ||| key == OPUS_SET_APPLICATION_REQUEST
        ||| key == OPUS_SET_BITRATE_REQUEST
        ||| key == OPUS_SET_MAX_BANDWIDTH_REQUEST
        ||| key == OPUS_SET_VBR_REQUEST
        ||| key == OPUS_SET_BANDWIDTH_REQUEST
        ||| key == OPUS_SET_COMPLEXITY_REQUEST
        ||| key == OPUS_SET_INBAND_FEC_REQUEST
        ||| key == OPUS_SET_PACKET_LOSS_PERC_REQUEST
        ||| key == OPUS_SET_DTX_REQUEST
        ||| key == OPUS_SET_VBR_CONSTRAINT_REQUEST
        ||| key == OPUS_SET_FORCE_CHANNELS_REQUEST
        ||| key == OPUS_SET_SIGNAL_REQUEST
        ||| key == OPUS_SET_GAIN_REQUEST
        ||| key == OPUS_SET_LSB_DEPTH_REQUEST
        ||| key == OPUS_SET_EXPERT_FRAME_DURATION_REQUEST
        ||| key == OPUS_SET_PREDICTION_DISABLED_REQUEST
    }

    /// Whether the encoder takes this control request to read a value.
    pub open spec fn reads(key: u32) -> bool {
        key == OPUS_GET_LOOKAHEAD_REQUEST || key == OPUS_GET_FINAL_RANGE_REQUEST
    }

    /// Arguments of the native control call that sets option `key` to `val`,
    /// or `Unimplemented` for a key that the encoder does not take.
    pub fn set_option_call(&self, key: u32, val: u32) -> (r: Result<CtlCall, ErrorCode>)
        ensures
            Self::accepts(key) ==> r == Ok::<CtlCall, ErrorCode>(
                CtlCall { request: key as i32, value: val },
            ),
            !Self::accepts(key) ==> r == Err::<CtlCall, ErrorCode>(ErrorCode::Unimplemented),
    {
        if key == OPUS_SET_APPLICATION_REQUEST || key == OPUS_SET_BITRATE_REQUEST || key
            == OPUS_SET_MAX_BANDWIDTH_REQUEST || key == OPUS_SET_VBR_REQUEST || key
            == OPUS_SET_BANDWIDTH_REQUEST || key == OPUS_SET_COMPLEXITY_REQUEST || key
            == OPUS_SET_INBAND_FEC_REQUEST || key == OPUS_SET_PACKET_LOSS_PERC_REQUEST || key
            == OPUS_SET_DTX_REQUEST || key == OPUS_SET_VBR_CONSTRAINT_REQUEST || key
            == OPUS_SET_FORCE_CHANNELS_REQUEST || key == OPUS_SET_SIGNAL_REQUEST || key
            == OPUS_SET_GAIN_REQUEST || key == OPUS_SET_LSB_DEPTH_REQUEST || key
            == OPUS_SET_EXPERT_FRAME_DURATION_REQUEST || key
            == OPUS_SET_PREDICTION_DISABLED_REQUEST {
            Ok(CtlCall { request: key as i32, value: val })
        } else {
            Err(ErrorCode::Unimplemented)
        }
    }

    /// What setting an option came to, given the status that the native
    /// control call returned.
    pub fn set_option(&mut self, status: i32) -> (r: Result<(), ErrorCode>)
        ensures
            r == status_result(status),
            *final(self) == *old(self),
    {
        check_status(status)
    }

    /// The request of the native control call that reads option `key`, or
    /// `Unimplemented` for a key that the encoder does not read. The
    /// lookahead and the final state of the range coder can be read.
    pub fn get_option_call(&self, key: u32) -> (r: Result<i32, ErrorCode>)
        ensures
            Self::reads(key) ==> r == Ok::<i32, ErrorCode>(key as i32),
            !Self::reads(key) ==> r == Err::<i32, ErrorCode>(ErrorCode::Unimplemented),
    {
        if key == OPUS_GET_LOOKAHEAD_REQUEST || key == OPUS_GET_FINAL_RANGE_REQUEST {
            Ok(key as i32)
        } else {
            Err(ErrorCode::Unimplemented)
        }
    }

    /// What reading an option came to, given the status that the native
    /// control call returned and the value that it stored: that value, or
    /// the error that a negative status stands for.
    pub fn get_option(&self, status: i32, value: i32) -> (r: Result<i32, ErrorCode>)
        ensures
            status < 0 ==> r == Err::<i32, ErrorCode>(ErrorCode::from_status(status)),
            status >= 0 ==> r == Ok::<i32, ErrorCode>(value),
    {
        if status < 0 {
            Err(ErrorCode::from(status))
        } else {
            Ok(value)
        }
    }

    /// The request of the native control call that clears the encoder's
    /// state. The call takes no value, and its status is not looked at: a
    /// reset is not expected to fail.
    pub fn reset(&mut self) -> (request: i32)
        ensures
            request == OPUS_RESET_STATE as i32,
            *final(self) == *old(self),
    {
        OPUS_RESET_STATE as i32
    }
}


/// The sample rate that the streaming encoder works at.
pub const ENCODER_SAMPLE_RATE: usize = 48000;

/// The samples that the streaming encoder hands the codec at a time in each
/// channel: 20 ms at 48 kHz.
pub const FRAME_SAMPLES: usize = 960;

/// The bit rate of a streaming encoder that was given none.
pub const DEFAULT_BITRATE: usize = 16000;

/// The longest header of a packet.
pub const MAX_HEADER_SIZE: usize = 7;

/// The longest coded frame.
pub const MAX_FRAME_SIZE: usize = 1275;

/// The most coded frames in a packet.
pub const MAX_FRAMES: usize = 3;

/// The longest packet: the room that the output buffer of an encode call
/// has.
pub const MAX_PACKET_SIZE: usize = MAX_HEADER_SIZE + MAX_FRAMES * MAX_FRAME_SIZE;

/// The samples that a decoder must process before its output is valid:
/// 80 ms at 48 kHz.
pub const CONVERGENCE_WINDOW: usize = 3840;

/// Describes the encoder and makes encoders of the streaming interface.
#[derive(Clone, Copy, Debug, PartialEq, Eq)]
pub struct Des {
    descr: Descr,
}

/// The descriptor of this encoder.
pub fn descriptor() -> (des: Des)
    ensures
        des.spec_describe() == (Descr {
            codec: "opus",
            name: "libopus",
            desc: "libopus encoder",
            mime: "audio/OPUS",
        }),
{
    Des {
        descr: Descr {
            codec: "opus",
            name: "libopus",
            desc: "libopus encoder",
            mime: "audio/OPUS",
        },
    }
}

impl Des {
    /// The description that this descriptor carries.
    pub closed spec fn spec_describe(&self) -> Descr {
        self.descr
    }

    /// An encoder that is not configured, has no channels yet and holds no
    /// packet.
    pub fn create(&self) -> (enc: Enc)
        ensures
            enc@ == EncModel::start(),
    {
        let enc = Enc {
            enc: None,
            pending: VecDeque::new(),
            frame_size: FRAME_SAMPLES,
            delay: 0,
            cfg: Cfg {
                channels: 0,
                streams: 0,
                coupled_streams: 0,
                mapping: vec![0, 1],
                application: Application::Audio,
                bitrate: DEFAULT_BITRATE,
            },
            flushing: false,
        };
        assert(enc@.pending =~= Seq::empty());
        enc
    }

    /// The description of the codec.
    pub fn describe(&self) -> (descr: &Descr)
        ensures
            *descr == self.spec_describe(),
    {
        &self.descr
    }
}

/// What a streaming encoder is to be made with.
#[derive(Debug, PartialEq, Eq)]
struct Cfg {
    channels: usize,
    streams: usize,
    coupled_streams: usize,
    mapping: Vec<u8>,
    application: Application,
    bitrate: usize,
}

/// What a streaming encoder is to be made with.
pub struct CfgModel {
    /// Number of input channels.
    pub channels: usize,
    /// Number of coded streams.
    pub streams: usize,
    /// Number of coded streams that carry two channels.
    pub coupled_streams: usize,
    /// For each coded channel, the input channel that feeds it.
    pub mapping: Seq<u8>,
    /// The tuning profile.
    pub application: Application,
    /// Bits per second.
    pub bitrate: usize,
}

impl CfgModel {
    /// There is a channel, the streams account for every channel, and
    /// every channel has its entry in the mapping.
    pub open spec fn is_valid(self) -> bool {
        &&& self.channels > 0
        &&& self.streams + self.coupled_streams == self.channels
        &&& self.mapping.len() == self.channels
    }

    /// The mapping of a mono or stereo stream: each channel feeds the coded
    /// channel of the same index.
    pub open spec fn plain_mapping(channels: usize) -> Seq<u8> {
        if channels > 1 {
            seq![0u8, 1u8]
        } else {
            seq![0u8]
        }
    }
}

impl View for Cfg {
    type V = CfgModel;

    closed spec fn view(&self) -> CfgModel {
        CfgModel {
            channels: self.channels,
            streams: self.streams,
            coupled_streams: self.coupled_streams,
            mapping: self.mapping@,
            application: self.application,
            bitrate: self.bitrate,
        }
    }
}

impl Cfg {
    fn is_valid(&self) -> (b: bool)
        ensures
            b == self@.is_valid(),
    {
        self.channels > 0 && match self.streams.checked_add(self.coupled_streams) {
            Some(sum) => sum == self.channels,
            None => false,
        } && self.mapping.len() == self.channels
    }
}

/// What to do to configure a streaming encoder. The native constructor is
/// called with `create` and `mapping`. On the encoder that it made, each
/// option of `options` is set in turn, and `lookahead` is read. The first
/// negative status ends the sequence.
#[derive(Debug, PartialEq, Eq)]
pub struct Setup {
    pub create: CreateCall,
    pub mapping: Vec<u8>,
    pub options: Vec<CtlCall>,
    pub lookahead: i32,
}

/// The encoder of the streaming interface: it is given its parameters, is
/// configured, takes frames and hands out the packets they were coded to in
/// the order in which the frames came.
#[derive(Debug)]
pub struct Enc {
    enc: Option<Encoder>,
    pending: VecDeque<Packet>,
    frame_size: usize,
    delay: usize,
    cfg: Cfg,
    flushing: bool,
}

/// What an `Enc` holds.
pub struct EncModel {
    /// The encoder, once configured.
    pub encoder: Option<Encoder>,
    /// The packets that were not retrieved yet, oldest first.
    pub pending: Seq<PacketModel>,
    /// The samples handed to the codec at a time in each channel.
    pub frame_size: usize,
    /// The samples that the codec holds back: its lookahead.
    pub delay: usize,
    /// What the encoder is to be made with.
    pub cfg: CfgModel,
    /// Whether the end of the input was announced.
    pub flushing: bool,
}

impl EncModel {
    /// Not configured, nothing queued, frames of 20 ms, general audio at
    /// 16 kbit/s, and no channels yet.
    pub open spec fn start() -> EncModel {
        EncModel {
            encoder: None,
            pending: Seq::empty(),
            frame_size: FRAME_SAMPLES,
            delay: 0,
            cfg: CfgModel {
                channels: 0,
                streams: 0,
                coupled_streams: 0,
                mapping: seq![0u8, 1u8],
                application: Application::Audio,
                bitrate: DEFAULT_BITRATE,
            },
            flushing: false,
        }
    }

    /// What setting option `key` to `val` makes of the encoder, or why the
    /// option is not set.
    ///
    /// `channels`, `streams` and `coupled_streams` take an unsigned integer
    /// and `application` the name of a profile, which is `InvalidData` if it
    /// names none. Any other key, and any other kind of value, is
    /// unsupported.
    pub open spec fn set_option(self, key: Seq<char>, val: Value) -> Result<EncModel, Error> {
        if key == "channels"@ && val is U64 {
            Ok(EncModel { cfg: CfgModel { channels: val->U64_0 as usize, ..self.cfg }, ..self })
        } else if key == "streams"@ && val is U64 {
            Ok(EncModel { cfg: CfgModel { streams: val->U64_0 as usize, ..self.cfg }, ..self })
        } else if key == "coupled_streams"@ && val is U64 {
            Ok(
                EncModel {
                    cfg: CfgModel { coupled_streams: val->U64_0 as usize, ..self.cfg },
                    ..self
                },
            )
        } else if key == "application"@ && val is Str {
            match Application::named(val->Str_0@) {
                Some(a) => Ok(EncModel { cfg: CfgModel { application: a, ..self.cfg }, ..self }),
                None => Err(Error::InvalidData),
            }
        } else {
            Err(Error::Unsupported("Unsupported option"))
        }
    }

    /// What taking over stream parameters makes of the encoder, or why they
    /// are not taken over.
    ///
    /// Only the channel layout of audio parameters counts. Mono and stereo
    /// set the channels, one stream, coupled for stereo, and the plain
    /// mapping. A layout of no channel or of more than two is unsupported.
    /// Parameters without a layout change nothing.
    pub open spec fn set_params(self, kind: Option<ParamsKind>) -> Result<EncModel, Error> {
        match kind {
            Some(ParamsKind::Audio(AudioParams { rate: _, channels: Some(n) })) => if n == 0 || n
                > 2 {
                Err(Error::Unsupported("channel layout"))
            } else {
                Ok(
                    EncModel {
                        cfg: CfgModel {
                            channels: n,
                            streams: 1,
                            coupled_streams: (n - 1) as usize,
                            mapping: CfgModel::plain_mapping(n),
                            ..self.cfg
                        },
                        ..self
                    },
                )
            },
            _ => Ok(self),
        }
    }

    /// The stream identification header of the encoder's output, for a mono
    /// or stereo stream: the channels, and the lookahead as the pre-skip.
    /// There is none for more channels.
    pub open spec fn extradata(self) -> Option<Seq<u8>> {
        if self.cfg.channels > 2 {
            None
        } else {
            Some(id_header_bytes(self.cfg.channels as u8, self.delay as i16))
        }
    }

    /// Why the encoder cannot be configured, if it cannot: it is configured
    /// already, or its parameters are not valid.
    pub open spec fn configure_plan(self) -> Result<(), Error> {
        if self.encoder is Some {
            Err(Error::Unsupported("reconfiguration"))
        } else if !self.cfg.is_valid() {
            Err(Error::ConfigurationInvalid)
        } else {
            Ok(())
        }
    }

    /// The options that configuring sets: the bit rate, wideband, the
    /// highest complexity, a constant bit rate, and no packet loss expected.
    pub open spec fn setup_options(self) -> Seq<CtlCall> {
        seq![
            CtlCall { request: OPUS_SET_BITRATE_REQUEST as i32, value: self.cfg.bitrate as u32 },
            CtlCall { request: OPUS_SET_BANDWIDTH_REQUEST as i32, value: OPUS_BANDWIDTH_WIDEBAND },
            CtlCall { request: OPUS_SET_COMPLEXITY_REQUEST as i32, value: 10 },
            CtlCall { request: OPUS_SET_VBR_REQUEST as i32, value: 0 },
            CtlCall { request: OPUS_SET_VBR_CONSTRAINT_REQUEST as i32, value: 0 },
            CtlCall { request: OPUS_SET_PACKET_LOSS_PERC_REQUEST as i32, value: 0 },
        ]
    }
}

/// Configuring asks for nothing that the encoder refuses: every option that
/// it sets is one that `Encoder::set_option_call` accepts, and the value that
/// it reads is one that `Encoder::get_option_call` reads.
pub proof fn lemma_setup_is_accepted(enc: EncModel, i: int)
    requires
        0 <= i < enc.setup_options().len(),
    ensures
        enc.setup_options()[i].request >= 0,
        Encoder::accepts(enc.setup_options()[i].request as u32),
        Encoder::reads(OPUS_GET_LOOKAHEAD_REQUEST),
{
}

/// What a frame is cut into: the codec frames to encode, in order, each of
/// the same length, and the native call to make on each of them with an
/// output buffer of `data_size` bytes.
#[derive(Debug, PartialEq, Eq)]
pub struct FramePlan {
    pub chunks: Vec<Vec<i16>>,
    pub call: EncodeCall,
    pub data_size: usize,
}

/// What the native encoder made of one codec frame: the output buffer as the
/// call left it, and the status that the call returned.
#[derive(Debug, PartialEq, Eq)]
pub struct Encoded {
    pub data: Vec<u8>,
    pub status: i32,
}

/// The bytes of a packet: as many bytes of the output buffer as the status
/// counts.
pub open spec fn packet_bytes(encoded: Encoded) -> Seq<u8> {
    if 0 <= encoded.status <= encoded.data@.len() {
        encoded.data@.take(encoded.status as int)
    } else {
        encoded.data@
    }
}

/// The timestamp of packet `k` of a frame that starts at `pts`, where each
/// packet lasts `duration` ticks.
pub open spec fn packet_time(pts: int, duration: int, k: int) -> TimeInfo {
    TimeInfo {
        pts: Some((pts + k * duration) as i64),
        dts: Some((pts + k * duration) as i64),
        duration: Some(duration as u64),
        timebase: None,
    }
}

/// The packets of a frame that starts at `pts`, where each packet lasts
/// `duration` ticks.
pub open spec fn stamped(encoded: Seq<Encoded>, pts: int, duration: int) -> Seq<PacketModel> {
    Seq::new(
        encoded.len(),
        |k: int| PacketModel::detached(packet_bytes(encoded[k]), packet_time(pts, duration, k)),
    )
}

impl EncModel {
    /// How a frame is cut: the number of its samples over all channels and
    /// the number of samples of a chunk, or why the frame is not taken.
    ///
    /// The encoder must be configured and the frame must be audio. Both
    /// numbers must fit the machine, the frame must hold the samples it
    /// declares, and a chunk must not be empty: anything else is
    /// `InvalidData`.
    pub open spec fn frame_plan(self, frame: FrameModel) -> Result<(usize, usize), Error> {
        if self.encoder is None {
            Err(Error::ConfigurationIncomplete)
        } else {
            match frame.kind {
                MediaKind::Video => Err(Error::Unsupported("frame kind")),
                MediaKind::Audio(info) => {
                    let input_size = info.samples * info.channels;
                    let chunk_size = self.frame_size * info.channels;
                    if input_size > usize::MAX || chunk_size > usize::MAX || input_size
                        > frame.buf.len() || chunk_size == 0 {
                        Err(Error::InvalidData)
                    } else {
                        Ok((input_size as usize, chunk_size as usize))
                    }
                },
            }
        }
    }

    /// The start and the length in ticks of the packets of a frame, if its
    /// packets can be stamped.
    ///
    /// No encode call may have failed, and the frame must have a
    /// presentation timestamp. Unless the frame is empty, it must have a time
    /// base in which `TimeBase::ticks` gives the length of a codec frame,
    /// and the timestamp that follows the last packet must fit 64 bits.
    pub open spec fn stamps(self, frame: FrameModel, encoded: Seq<Encoded>) -> Option<(int, int)> {
        if exists|k: int| 0 <= k < encoded.len() && (#[trigger] encoded[k]).status < 0 {
            None
        } else {
            match frame.t.pts {
                None => None,
                Some(pts) => if encoded.len() == 0 {
                    Some((pts as int, 0))
                } else {
                    match frame.t.timebase {
                        None => None,
                        Some(timebase) => match timebase.spec_ticks(
                            self.frame_size,
                            ENCODER_SAMPLE_RATE,
                        ) {
                            None => None,
                            Some(duration) => if pts + encoded.len() * duration > i64::MAX {
                                None
                            } else {
                                Some((pts as int, duration as int))
                            },
                        },
                    }
                },
            }
        }
    }

    /// The packets that a frame comes to, given what the native encoder made
    /// of each of its chunks, or why the frame comes to none.
    ///
    /// There must be one result for each chunk of the frame, and the packets
    /// must be stampable: anything else is `InvalidData`.
    pub open spec fn send_frame(self, frame: FrameModel, encoded: Seq<Encoded>) -> Result<
        Seq<PacketModel>,
        Error,
    > {
        match self.frame_plan(frame) {
            Err(e) => Err(e),
            Ok((input_size, chunk_size)) => if encoded.len() != chunk_count(
                input_size as nat,
                chunk_size as nat,
            ) {
                Err(Error::InvalidData)
            } else {
                match self.stamps(frame, encoded) {
                    Some((pts, duration)) => Ok(stamped(encoded, pts, duration)),
                    None => Err(Error::InvalidData),
                }
            },
        }
    }
}

/// The packets of a frame follow one another in time: the first has the
/// frame's presentation timestamp, and each later one starts where the one
/// before it ends, at its timestamp plus its duration. The duration of each
/// is that of a codec frame: its samples over the sample rate, in whole ticks
/// of the frame's time base.
pub proof fn lemma_packets_follow(enc: EncModel, frame: FrameModel, encoded: Seq<Encoded>, k: int)
    requires
        enc.send_frame(frame, encoded) is Ok,
        0 <= k < encoded.len(),
    ensures
        ({
            let packets = enc.send_frame(frame, encoded)->Ok_0;
            &&& packets.len() == encoded.len()
            &&& packets[0].t.pts == frame.t.pts
            &&& packets[k].t.pts is Some
            &&& packets[k].t.duration is Some
            &&& packets[k].t.dts == packets[k].t.pts
            &&& frame.t.timebase is Some
            &&& packets[k].t.duration->Some_0 == (enc.frame_size
                * frame.t.timebase->Some_0.den) / (ENCODER_SAMPLE_RATE
                * frame.t.timebase->Some_0.num)
            &&& k + 1 < encoded.len() ==> {
                &&& packets[k + 1].t.pts is Some
                &&& packets[k + 1].t.pts->Some_0 == packets[k].t.pts->Some_0
                    + packets[k].t.duration->Some_0
            }
        }),
{
    let (pts, duration) = enc.stamps(frame, encoded)->Some_0;
    let n = encoded.len() as int;
    frame.t.timebase->Some_0.lemma_ticks_in_range(enc.frame_size, ENCODER_SAMPLE_RATE);
    assert(0 <= k * duration && k * duration + duration == (k + 1) * duration && (k + 1) * duration
        <= n * duration) by (nonlinear_arith)
        requires
            0 <= k < n,
            0 <= duration,
    ;
}

impl View for Enc {
    type V = EncModel;

    closed spec fn view(&self) -> EncModel {
        EncModel {
            encoder: self.enc,
            pending: self.pending@.map_values(|p: Packet| p@),
            frame_size: self.frame_size,
            delay: self.delay,
            cfg: self.cfg@,
            flushing: self.flushing,
        }
    }
}

impl Enc {
    /// What to do to configure the encoder from its parameters, or why it
    /// cannot be configured.
    pub fn configure_call(&self) -> (r: Result<Setup, Error>)
        ensures
            match r {
                Ok(setup) => {
                    &&& self@.configure_plan() is Ok
                    &&& setup.create == (CreateCall {
                        sample_rate: ENCODER_SAMPLE_RATE as i32,
                        channels: self@.cfg.channels as i32,
                        streams: self@.cfg.streams as i32,
                        coupled_streams: self@.cfg.coupled_streams as i32,
                        application: self@.cfg.application.code(),
                    })
                    &&& setup.mapping@ == self@.cfg.mapping
                    &&& setup.create.channels > 0 ==> setup.create.channels <= setup.mapping@.len()
                    &&& setup.options@ == self@.setup_options()
                    &&& setup.lookahead == OPUS_GET_LOOKAHEAD_REQUEST as i32
                },
                Err(e) => self@.configure_plan() == Err::<(), Error>(e),
            },
    {
        if self.enc.is_some() {
            return Err(Error::Unsupported("reconfiguration"));
        }
        if !self.cfg.is_valid() {
            return Err(Error::ConfigurationInvalid);
        }
        let create = Encoder::create_call(
            ENCODER_SAMPLE_RATE,
            self.cfg.channels,
            self.cfg.streams,
            self.cfg.coupled_streams,
            self.cfg.mapping.as_slice(),
            self.cfg.application,
        );
        let options: Vec<CtlCall> = vec![
            CtlCall { request: OPUS_SET_BITRATE_REQUEST as i32, value: self.cfg.bitrate as u32 },
            CtlCall { request: OPUS_SET_BANDWIDTH_REQUEST as i32, value: OPUS_BANDWIDTH_WIDEBAND },
            CtlCall { request: OPUS_SET_COMPLEXITY_REQUEST as i32, value: 10 },
            CtlCall { request: OPUS_SET_VBR_REQUEST as i32, value: 0 },
            CtlCall { request: OPUS_SET_VBR_CONSTRAINT_REQUEST as i32, value: 0 },
            CtlCall { request: OPUS_SET_PACKET_LOSS_PERC_REQUEST as i32, value: 0 },
        ];
        Ok(
            Setup {
                create,
                mapping: slice_to_vec(self.cfg.mapping.as_slice()),
                options,
                lookahead: OPUS_GET_LOOKAHEAD_REQUEST as i32,
            },
        )
    }

    /// Configures the encoder, given how the native calls of
    /// `configure_call` went: the first negative status, or else the status
    /// of the last call, and the lookahead that was read.
    ///
    /// Where `configure_call` gives no calls, its error is returned. A
    /// negative status is `ConfigurationInvalid`. Otherwise the encoder is
    /// configured with its parameters, and the lookahead is its delay. Only
    /// then does anything change.
    pub fn configure(&mut self, status: i32, lookahead: i32) -> (r: Result<(), Error>)
        ensures
            match old(self)@.configure_plan() {
                Err(e) => r == Err::<(), Error>(e) && final(self)@ == old(self)@,
                Ok(_) => if status < 0 {
                    r == Err::<(), Error>(Error::ConfigurationInvalid) && final(self)@ == old(self)@
                } else {
                    &&& r == Ok::<(), Error>(())
                    &&& final(self)@.encoder is Some
                    &&& final(self)@.encoder->Some_0.channels() == old(self)@.cfg.channels
                    &&& final(self)@.encoder->Some_0.application() == old(self)@.cfg.application
                    &&& final(self)@.delay == lookahead as usize
                    &&& final(self)@.pending == old(self)@.pending
                    &&& final(self)@.frame_size == old(self)@.frame_size
                    &&& final(self)@.cfg == old(self)@.cfg
                    &&& final(self)@.flushing == old(self)@.flushing
                },
            },
    {
        if self.enc.is_some() {
            return Err(Error::Unsupported("reconfiguration"));
        }
        if !self.cfg.is_valid() {
            return Err(Error::ConfigurationInvalid);
        }
        match Encoder::create(self.cfg.channels, self.cfg.application, status) {
            Ok(enc) => {
                self.delay = lookahead as usize;
                self.enc = Some(enc);
                Ok(())
            },
            Err(_) => Err(Error::ConfigurationInvalid),
        }
    }

    /// The stream identification header of the encoder's output, for a mono
    /// or stereo stream; none for more channels.
    pub fn get_extradata(&self) -> (r: Option<Vec<u8>>)
        ensures
            match r {
                Some(bytes) => self@.extradata() == Some(bytes@),
                None => self@.extradata() is None,
            },
    {
        if self.cfg.channels > 2 {
            return None;
        }
        Some(id_header(self.cfg.channels as u8, self.delay as i16))
    }

    /// Sets one of the encoder's parameters by name.
    pub fn set_option<'a>(&mut self, key: &str, val: Value<'a>) -> (r: Result<(), Error>)
        ensures
            match old(self)@.set_option(key@, val) {
                Ok(next) => r == Ok::<(), Error>(()) && final(self)@ == next,
                Err(e) => r == Err::<(), Error>(e) && final(self)@ == old(self)@,
            },
    {
        if same(key, "channels") {
            if let Value::U64(v) = val {
                self.cfg.channels = v as usize;
                return Ok(());
            }
        }
        if same(key, "streams") {
            if let Value::U64(v) = val {
                self.cfg.streams = v as usize;
                return Ok(());
            }
        }
        if same(key, "coupled_streams") {
            if let Value::U64(v) = val {
                self.cfg.coupled_streams = v as usize;
                return Ok(());
            }
        }
        if same(key, "application") {
            if let Value::Str(s) = val {
                match Application::from_str(s) {
                    Ok(a) => {
                        self.cfg.application = a;
                        return Ok(());
                    },
                    Err(_) => {
                        return Err(Error::InvalidData);
                    },
                }
            }
        }
        Err(Error::Unsupported("Unsupported option"))
    }

    /// Takes the channel layout over from stream parameters.
    pub fn set_params(&mut self, params: &CodecParams) -> (r: Result<(), Error>)
        ensures
            match old(self)@.set_params(params.kind) {
                Ok(next) => r == Ok::<(), Error>(()) && final(self)@ == next,
                Err(e) => r == Err::<(), Error>(e) && final(self)@ == old(self)@,
            },
    {
        if let Some(ParamsKind::Audio(info)) = params.kind {
            if let Some(channels) = info.channels {
                if channels == 0 || channels > 2 {
                    return Err(Error::Unsupported("channel layout"));
                }
                self.cfg.channels = channels;
                self.cfg.coupled_streams = channels - 1;
                self.cfg.streams = 1;
                self.cfg.mapping = if channels > 1 {
                    vec![0, 1]
                } else {
                    vec![0]
                };
                assert(self.cfg.mapping@ =~= CfgModel::plain_mapping(channels));
            }
        }
        Ok(())
    }

    /// The parameters of the encoder's output: stereo audio at 48 kHz,
    /// codec `opus`, the stream identification header, the convergence
    /// window and the delay.
    pub fn get_params(&self) -> (r: Result<CodecParams, Error>)
        ensures
            r matches Ok(p) && {
                &&& p.kind == Some(
                    ParamsKind::Audio(AudioParams { rate: ENCODER_SAMPLE_RATE, channels: Some(2) }),
                )
                &&& p.codec_id == Some("opus")
                &&& match p.extradata {
                    Some(bytes) => self@.extradata() == Some(bytes@),
                    None => self@.extradata() is None,
                }
                &&& p.bit_rate == 0
                &&& p.convergence_window == CONVERGENCE_WINDOW
                &&& p.delay == self@.delay
            },
    {
        Ok(
            CodecParams {
                kind: Some(
                    ParamsKind::Audio(AudioParams { rate: ENCODER_SAMPLE_RATE, channels: Some(2) }),
                ),
                codec_id: Some("opus"),
                extradata: self.get_extradata(),
                bit_rate: 0,
                convergence_window: CONVERGENCE_WINDOW,
                delay: self.delay,
            },
        )
    }

    /// How a frame is cut: the number of its samples over all channels and
    /// the number of samples of a chunk.
    fn frame_sizes(&self, frame: &Frame) -> (r: Result<(usize, usize), Error>)
        ensures
            r == self@.frame_plan(frame@),
    {
        if self.enc.is_none() {
            return Err(Error::ConfigurationIncomplete);
        }
        match frame.kind {
            MediaKind::Video => Err(Error::Unsupported("frame kind")),
            MediaKind::Audio(info) => {
                let input_size = match info.samples.checked_mul(info.channels) {
                    Some(n) => n,
                    None => {
                        return Err(Error::InvalidData);
                    },
                };
                let chunk_size = match self.frame_size.checked_mul(info.channels) {
                    Some(n) => n,
                    None => {
                        return Err(Error::InvalidData);
                    },
                };
                if input_size > frame.buf.len() || chunk_size == 0 {
                    return Err(Error::InvalidData);
                }
                Ok((input_size, chunk_size))
            },
        }
    }

    /// Cuts a frame into the codec frames to encode, or says why the frame
    /// is not taken.
    ///
    /// The samples that the frame declares are cut into chunks of the
    /// encoder's frame size, one after the other. The last chunk is filled
    /// up with zeros to the full length.
    pub fn send_frame_call(&self, frame: &Frame) -> (r: Result<FramePlan, Error>)
        ensures
            match r {
                Ok(plan) => {
                    &&& self@.frame_plan(frame@) matches Ok((input_size, chunk_size))
                    &&& plan.chunks@.len() == chunk_count(input_size as nat, chunk_size as nat)
                    &&& forall|k: int|
                        0 <= k < plan.chunks@.len() ==> (#[trigger] plan.chunks@[k])@
                            == padded_chunk(
                            frame.buf@.take(input_size as int),
                            chunk_size as nat,
                            k as nat,
                        )
                    &&& plan.call == (EncodeCall {
                        format: SampleFormat::I16,
                        frame_size: (chunk_size / self@.encoder->Some_0.channels()) as i32,
                        max_data_bytes: MAX_PACKET_SIZE as i32,
                    })
                    &&& plan.call.frame_size >= 0 ==> plan.call.frame_size
                        * self@.encoder->Some_0.channels() <= chunk_size
                    &&& plan.data_size == MAX_PACKET_SIZE
                },
                Err(e) => self@.frame_plan(frame@) == Err::<(usize, usize), Error>(e),
            },
    {
        let (input_size, chunk_size) = self.frame_sizes(frame)?;
        let call = match &self.enc {
            Some(enc) => enc.encode_call(SampleFormat::I16, chunk_size, MAX_PACKET_SIZE),
            None => {
                return Err(Error::ConfigurationIncomplete);
            },
        };
        let count = count_chunks(input_size, chunk_size);
        let mut chunks: Vec<Vec<i16>> = Vec::new();
        let mut k: usize = 0;
        while k < count
            invariant
                k <= count,
                count == chunk_count(input_size as nat, chunk_size as nat),
                chunk_size > 0,
                input_size <= frame.buf@.len(),
                chunks@.len() == k,
                forall|j: int|
                    0 <= j < k ==> (#[trigger] chunks@[j])@ == padded_chunk(
                        frame.buf@.take(input_size as int),
                        chunk_size as nat,
                        j as nat,
                    ),
            decreases count - k,
        {
            let chunk = padded(frame.buf.as_slice(), input_size, chunk_size, k);
            chunks.push(chunk);
            k += 1;
        }
        Ok(FramePlan { chunks, call, data_size: MAX_PACKET_SIZE })
    }

    /// Takes what encoding the chunks of a frame came to: for each chunk of
    /// `send_frame_call`, in order, the output buffer and the status of its
    /// encode call.
    ///
    /// Each status counts the bytes of a packet. The packets join the end of
    /// the queue in the order of their chunks. The first has the frame's
    /// presentation timestamp, and each one after it the timestamp of the
    /// one before plus the ticks that a codec frame lasts in the frame's time
    /// base. Either every packet of the frame is queued or, on an error,
    /// none.
    #[verifier::loop_isolation(false)]
    pub fn send_frame(&mut self, frame: &Frame, encoded: &[Encoded]) -> (r: Result<(), Error>)
        ensures
            match old(self)@.send_frame(frame@, encoded@) {
                Ok(packets) => r == Ok::<(), Error>(()) && final(self)@ == (EncModel {
                    pending: old(self)@.pending + packets,
                    ..old(self)@
                }),
                Err(e) => r == Err::<(), Error>(e) && final(self)@ == old(self)@,
            },
    {
        let (input_size, chunk_size) = self.frame_sizes(frame)?;
        let count = count_chunks(input_size, chunk_size);
        if encoded.len() != count {
            return Err(Error::InvalidData);
        }
        let mut k: usize = 0;
        while k < count
            invariant
                k <= count == encoded@.len(),
                forall|j: int| 0 <= j < k ==> (#[trigger] encoded@[j]).status >= 0,
            decreases count - k,
        {
            if encoded[k].status < 0 {
                return Err(Error::InvalidData);
            }
            k += 1;
        }
        let first = match frame.t.pts {
            Some(pts) => pts,
            None => {
                return Err(Error::InvalidData);
            },
        };
        if count == 0 {
            return Ok(());
        }
        let timebase = match frame.t.timebase {
            Some(timebase) => timebase,
            None => {
                return Err(Error::InvalidData);
            },
        };
        let duration = match timebase.ticks(self.frame_size, ENCODER_SAMPLE_RATE) {
            Some(duration) => duration,
            None => {
                return Err(Error::InvalidData);
            },
        };
        let mut packets: VecDeque<Packet> = VecDeque::new();
        let mut pts = first;
        let mut k: usize = 0;
        while k < count
            invariant
                k <= count == encoded@.len(),
                0 <= duration,
                pts == first + k * duration,
                forall|j: int| 0 <= j < count ==> (#[trigger] encoded@[j]).status >= 0,
                packets@.map_values(|p: Packet| p@) =~= stamped(
                    encoded@.take(k as int),
                    first as int,
                    duration as int,
                ),
            decreases count - k,
        {
            let next = match pts.checked_add(duration) {
                Some(next) => next,
                None => {
                    assert(first + count * duration > i64::MAX) by (nonlinear_arith)
                        requires
                            first + k * duration + duration > i64::MAX,
                            k < count,
                            0 <= duration,
                    ;
                    return Err(Error::InvalidData);
                },
            };
            let len = encoded[k].status as usize;
            let data = if len <= encoded[k].data.len() {
                slice_to_vec(slice_subrange(encoded[k].data.as_slice(), 0, len))
            } else {
                slice_to_vec(encoded[k].data.as_slice())
            };
            let t = TimeInfo {
                pts: Some(pts),
                dts: Some(pts),
                duration: Some(duration as u64),
                timebase: None,
            };
            let packet = Packet::detached(data, t);
            let ghost before = packets@;
            packets.push_back(packet);
            assert(packets@.map_values(|p: Packet| p@) =~= stamped(
                encoded@.take(k as int + 1),
                first as int,
                duration as int,
            )) by {
                let got = packets@.map_values(|p: Packet| p@);
                assert forall|j: int| 0 <= j < k implies got[j] == before.map_values(
                    |p: Packet| p@,
                )[j] by {}
            }
            assert(first + (k + 1) * duration == pts + duration) by (nonlinear_arith)
                requires
                    pts == first + k * duration,
            ;
            pts = next;
            k += 1;
        }
        assert(encoded@.take(count as int) =~= encoded@);
        let ghost queued = self.pending@;
        let ghost fresh = packets@;
        self.pending.append(&mut packets);
        assert(self.pending@.map_values(|p: Packet| p@) =~= queued.map_values(|p: Packet| p@)
            + fresh.map_values(|p: Packet| p@));
        Ok(())
    }

    /// Hands out the oldest packet, or `MoreDataNeeded` if none is waiting.
    pub fn receive_packet(&mut self) -> (r: Result<Packet, Error>)
        ensures
            match r {
                Ok(packet) => {
                    &&& old(self)@.pending.len() > 0
                    &&& packet@ == old(self)@.pending[0]
                    &&& final(self)@ == (EncModel {
                        pending: old(self)@.pending.skip(1),
                        ..old(self)@
                    })
                },
                Err(e) => {
                    &&& old(self)@.pending.len() == 0
                    &&& e == Error::MoreDataNeeded
                    &&& final(self)@ == old(self)@
                },
            },
    {
        let ghost before = self.pending@;
        match self.pending.pop_front() {
            Some(packet) => {
                assert(self.pending@.map_values(|p: Packet| p@) =~= before.map_values(
                    |p: Packet| p@,
                ).skip(1));
                Ok(packet)
            },
            None => Err(Error::MoreDataNeeded),
        }
    }

    /// Takes note that the input has ended.
    pub fn flush(&mut self) -> (r: Result<(), Error>)
        ensures
            r == Ok::<(), Error>(()),
            final(self)@ == (EncModel { flushing: true, ..old(self)@ }),
    {
        self.flushing = true;
        Ok(())
    }
}

} // verus!
