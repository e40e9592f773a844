use libopus::common::{ErrorCode, SampleFormat};
use libopus::encoder::{
    descriptor, Application, CreateCall, CtlCall, Enc, EncodeCall, Encoded, Encoder,
    CONVERGENCE_WINDOW, DEFAULT_BITRATE, ENCODER_SAMPLE_RATE, FRAME_SAMPLES, MAX_PACKET_SIZE,
};
use libopus::header::parse_stream_header;
use libopus::media::{
    AudioInfo, AudioParams, CodecParams, Error, Frame, MediaKind, ParamsKind, TimeBase, TimeInfo,
    Value,
};
use libopus::native::{
    OPUS_APPLICATION_AUDIO, OPUS_APPLICATION_RESTRICTED_LOWDELAY, OPUS_APPLICATION_VOIP,
    OPUS_BANDWIDTH_FULLBAND, OPUS_BANDWIDTH_MEDIUMBAND, OPUS_BANDWIDTH_NARROWBAND,
    OPUS_BANDWIDTH_SUPERWIDEBAND, OPUS_BANDWIDTH_WIDEBAND, OPUS_FRAMESIZE_100_MS,
    OPUS_FRAMESIZE_10_MS, OPUS_FRAMESIZE_120_MS, OPUS_FRAMESIZE_20_MS, OPUS_FRAMESIZE_2_5_MS,
    OPUS_FRAMESIZE_40_MS, OPUS_FRAMESIZE_5_MS, OPUS_FRAMESIZE_60_MS, OPUS_FRAMESIZE_80_MS,
    OPUS_FRAMESIZE_ARG, OPUS_GET_FINAL_RANGE_REQUEST, OPUS_GET_LOOKAHEAD_REQUEST,
    OPUS_RESET_STATE, OPUS_SET_APPLICATION_REQUEST, OPUS_SET_BANDWIDTH_REQUEST,
    OPUS_SET_BITRATE_REQUEST, OPUS_SET_COMPLEXITY_REQUEST, OPUS_SET_DTX_REQUEST,
    OPUS_SET_EXPERT_FRAME_DURATION_REQUEST, OPUS_SET_FORCE_CHANNELS_REQUEST,
    OPUS_SET_GAIN_REQUEST, OPUS_SET_INBAND_FEC_REQUEST, OPUS_SET_LSB_DEPTH_REQUEST,
    OPUS_SET_MAX_BANDWIDTH_REQUEST, OPUS_SET_PACKET_LOSS_PERC_REQUEST,
    OPUS_SET_PREDICTION_DISABLED_REQUEST, OPUS_SET_SIGNAL_REQUEST,
    OPUS_SET_VBR_CONSTRAINT_REQUEST, OPUS_SET_VBR_REQUEST,
};

fn params(channels: Option<usize>) -> CodecParams {
    CodecParams {
        kind: Some(ParamsKind::Audio(AudioParams { rate: 48000, channels })),
        codec_id: None,
        extradata: None,
        bit_rate: 0,
        convergence_window: 0,
        delay: 0,
    }
}

fn configured(channels: usize, lookahead: i32) -> Enc {
    let mut enc = descriptor().create();
    assert_eq!(enc.set_params(&params(Some(channels))), Ok(()));
    assert_eq!(enc.configure(0, lookahead), Ok(()));
    enc
}

fn frame(samples: usize, channels: usize, buf: Vec<i16>, pts: Option<i64>, den: i64) -> Frame {
    Frame {
        kind: MediaKind::Audio(AudioInfo {
            samples,
            sample_rate: 48000,
            channels,
            block_len: None,
        }),
        buf,
        t: TimeInfo { pts, dts: None, duration: None, timebase: Some(TimeBase { num: 1, den }) },
    }
}

fn ramp(len: usize) -> Vec<i16> {
    (0..len).map(|i| (i % 30000) as i16 + 1).collect()
}

fn coded(len: usize, status: i32) -> Encoded {
    Encoded { data: (0..len).map(|i| i as u8).collect(), status }
}

#[test]
fn profiles_are_read_from_their_names() {
    assert_eq!(Application::from_str("voip"), Ok(Application::Voip));
    assert_eq!(Application::from_str("audio"), Ok(Application::Audio));
    assert_eq!(Application::from_str("lowdelay"), Ok(Application::LowDelay));
    assert_eq!("voip".parse::<Application>(), Ok(Application::Voip));
    assert_eq!("audio".parse::<Application>(), Ok(Application::Audio));
    assert_eq!("lowdelay".parse::<Application>(), Ok(Application::LowDelay));
}

#[test]
fn nothing_else_names_a_profile() {
    assert_eq!(Application::from_str(""), Err(()));
    assert_eq!(Application::from_str("Voip"), Err(()));
    assert_eq!(Application::from_str("AUDIO"), Err(()));
    assert_eq!(Application::from_str("low_delay"), Err(()));
    assert_eq!(Application::from_str("lowdelay "), Err(()));
    assert_eq!(Application::from_str(" voip"), Err(()));
    assert_eq!(Application::from_str("voi"), Err(()));
    assert_eq!(Application::from_str("music"), Err(()));
    assert_eq!("Audio".parse::<Application>(), Err(()));
}

#[test]
fn profiles_have_the_native_constants() {
    assert_eq!(Application::Voip.code(), 2048);
    assert_eq!(Application::Audio.code(), 2049);
    assert_eq!(Application::LowDelay.code(), 2051);
    assert_eq!(OPUS_APPLICATION_VOIP, 2048);
    assert_eq!(OPUS_APPLICATION_AUDIO, 2049);
    assert_eq!(OPUS_APPLICATION_RESTRICTED_LOWDELAY, 2051);
}

#[test]
fn request_codes_have_the_native_values() {
    assert_eq!(OPUS_SET_APPLICATION_REQUEST, 4000);
    assert_eq!(OPUS_SET_BITRATE_REQUEST, 4002);
    assert_eq!(OPUS_SET_MAX_BANDWIDTH_REQUEST, 4004);
    assert_eq!(OPUS_SET_VBR_REQUEST, 4006);
    assert_eq!(OPUS_SET_BANDWIDTH_REQUEST, 4008);
    assert_eq!(OPUS_SET_COMPLEXITY_REQUEST, 4010);
    assert_eq!(OPUS_SET_INBAND_FEC_REQUEST, 4012);
    assert_eq!(OPUS_SET_PACKET_LOSS_PERC_REQUEST, 4014);
    assert_eq!(OPUS_SET_DTX_REQUEST, 4016);
    assert_eq!(OPUS_SET_VBR_CONSTRAINT_REQUEST, 4020);
    assert_eq!(OPUS_SET_FORCE_CHANNELS_REQUEST, 4022);
    assert_eq!(OPUS_SET_SIGNAL_REQUEST, 4024);
    assert_eq!(OPUS_GET_LOOKAHEAD_REQUEST, 4027);
    assert_eq!(OPUS_RESET_STATE, 4028);
    assert_eq!(OPUS_GET_FINAL_RANGE_REQUEST, 4031);
    assert_eq!(OPUS_SET_GAIN_REQUEST, 4034);
    assert_eq!(OPUS_SET_LSB_DEPTH_REQUEST, 4036);
    assert_eq!(OPUS_SET_EXPERT_FRAME_DURATION_REQUEST, 4040);
    assert_eq!(OPUS_SET_PREDICTION_DISABLED_REQUEST, 4042);
}

#[test]
fn request_values_have_the_native_values() {
    assert_eq!(OPUS_BANDWIDTH_NARROWBAND, 1101);
    assert_eq!(OPUS_BANDWIDTH_MEDIUMBAND, 1102);
    assert_eq!(OPUS_BANDWIDTH_WIDEBAND, 1103);
    assert_eq!(OPUS_BANDWIDTH_SUPERWIDEBAND, 1104);
    assert_eq!(OPUS_BANDWIDTH_FULLBAND, 1105);
    assert_eq!(OPUS_FRAMESIZE_ARG, 5000);
    assert_eq!(OPUS_FRAMESIZE_2_5_MS, 5001);
    assert_eq!(OPUS_FRAMESIZE_5_MS, 5002);
    assert_eq!(OPUS_FRAMESIZE_10_MS, 5003);
    assert_eq!(OPUS_FRAMESIZE_20_MS, 5004);
    assert_eq!(OPUS_FRAMESIZE_40_MS, 5005);
    assert_eq!(OPUS_FRAMESIZE_60_MS, 5006);
    assert_eq!(OPUS_FRAMESIZE_80_MS, 5007);
    assert_eq!(OPUS_FRAMESIZE_100_MS, 5008);
    assert_eq!(OPUS_FRAMESIZE_120_MS, 5009);
}

#[test]
fn encoder_constructor_call_takes_the_counts_over() {
    assert_eq!(
        Encoder::create_call(48000, 2, 1, 1, &[0, 1], Application::Audio),
        CreateCall {
            sample_rate: 48000,
            channels: 2,
            streams: 1,
            coupled_streams: 1,
            application: 2049,
        }
    );
    assert_eq!(
        Encoder::create_call(16000, 1, 1, 0, &[0, 1], Application::Voip),
        CreateCall {
            sample_rate: 16000,
            channels: 1,
            streams: 1,
            coupled_streams: 0,
            application: 2048,
        }
    );
    assert_eq!(
        Encoder::create_call(24000, 3, 2, 1, &[0, 1, 2], Application::LowDelay).application,
        2051
    );
}

#[test]
fn encoder_keeps_channels_and_profile() {
    let enc = Encoder::create(2, Application::Voip, 0).unwrap();
    assert_eq!(enc.channels(), 2);
    assert_eq!(enc.application(), Application::Voip);
    let enc = Encoder::create(1, Application::LowDelay, 3).unwrap();
    assert_eq!(enc.channels(), 1);
    assert_eq!(enc.application(), Application::LowDelay);
}

#[test]
fn failed_encoder_constructor_is_its_error() {
    assert_eq!(Encoder::create(2, Application::Audio, -1), Err(ErrorCode::BadArg));
    assert_eq!(Encoder::create(2, Application::Audio, -7), Err(ErrorCode::AllocFail));
    assert_eq!(Encoder::create(2, Application::Audio, -5), Err(ErrorCode::Unimplemented));
    assert_eq!(Encoder::create(2, Application::Audio, -99), Err(ErrorCode::Unknown));
    assert_eq!(Encoder::create(0, Application::Audio, 0), Err(ErrorCode::BadArg));
}

#[test]
fn encode_call_counts_the_frame_in_samples_per_channel() {
    let stereo = Encoder::create(2, Application::Audio, 0).unwrap();
    assert_eq!(
        stereo.encode_call(SampleFormat::I16, 1920, 1500),
        EncodeCall { format: SampleFormat::I16, frame_size: 960, max_data_bytes: 1500 }
    );
    assert_eq!(
        stereo.encode_call(SampleFormat::F32, 5761, 0),
        EncodeCall { format: SampleFormat::F32, frame_size: 2880, max_data_bytes: 0 }
    );
    let mono = Encoder::create(1, Application::Audio, 0).unwrap();
    assert_eq!(
        mono.encode_call(SampleFormat::I16, 2880, 3832),
        EncodeCall { format: SampleFormat::I16, frame_size: 2880, max_data_bytes: 3832 }
    );
}

#[test]
fn encode_status_counts_bytes_or_is_an_error() {
    let mut enc = Encoder::create(2, Application::Audio, 0).unwrap();
    assert_eq!(enc.encode(40), Ok(40));
    assert_eq!(enc.encode(0), Ok(0));
    assert_eq!(enc.encode(-1), Err(ErrorCode::BadArg));
    assert_eq!(enc.encode(-3), Err(ErrorCode::InternalError));
}

#[test]
fn output_buffer_too_small_is_never_a_packet() {
    let mut enc = Encoder::create(2, Application::Audio, 0).unwrap();
    assert_eq!(enc.encode(-2), Err(ErrorCode::BufferTooSmall));
    let mut streaming = configured(1, 0);
    let f = frame(960, 1, ramp(960), Some(0), 1000);
    assert_eq!(streaming.send_frame(&f, &[coded(1, -2)]), Err(Error::InvalidData));
    assert_eq!(streaming.receive_packet().err(), Some(Error::MoreDataNeeded));
}

#[test]
fn encoder_takes_the_listed_options() {
    let enc = Encoder::create(2, Application::Audio, 0).unwrap();
    let keys = [
        OPUS_SET_APPLICATION_REQUEST,
        OPUS_SET_BITRATE_REQUEST,
        OPUS_SET_MAX_BANDWIDTH_REQUEST,
        OPUS_SET_VBR_REQUEST,
        OPUS_SET_BANDWIDTH_REQUEST,
        OPUS_SET_COMPLEXITY_REQUEST,
        OPUS_SET_INBAND_FEC_REQUEST,
        OPUS_SET_PACKET_LOSS_PERC_REQUEST,
        OPUS_SET_DTX_REQUEST,
        OPUS_SET_VBR_CONSTRAINT_REQUEST,
        OPUS_SET_FORCE_CHANNELS_REQUEST,
        OPUS_SET_SIGNAL_REQUEST,
        OPUS_SET_GAIN_REQUEST,
        OPUS_SET_LSB_DEPTH_REQUEST,
        OPUS_SET_EXPERT_FRAME_DURATION_REQUEST,
        OPUS_SET_PREDICTION_DISABLED_REQUEST,
    ];
    for key in keys {
        assert_eq!(
            enc.set_option_call(key, 77),
            Ok(CtlCall { request: key as i32, value: 77 })
        );
    }
    assert_eq!(
        enc.set_option_call(OPUS_SET_BITRATE_REQUEST, 16000),
        Ok(CtlCall { request: 4002, value: 16000 })
    );
}

#[test]
fn encoder_takes_no_other_option() {
    let enc = Encoder::create(2, Application::Audio, 0).unwrap();
    let accepted = [
        4000, 4002, 4004, 4006, 4008, 4010, 4012, 4014, 4016, 4020, 4022, 4024, 4034, 4036, 4040,
        4042,
    ];
    for key in 3990u32..4060 {
        if !accepted.contains(&key) {
            assert_eq!(enc.set_option_call(key, 1), Err(ErrorCode::Unimplemented));
        }
    }
    assert_eq!(enc.set_option_call(OPUS_GET_LOOKAHEAD_REQUEST, 1), Err(ErrorCode::Unimplemented));
    assert_eq!(enc.set_option_call(OPUS_RESET_STATE, 1), Err(ErrorCode::Unimplemented));
    assert_eq!(enc.set_option_call(4046, 1), Err(ErrorCode::Unimplemented));
    assert_eq!(enc.set_option_call(0, 1), Err(ErrorCode::Unimplemented));
    assert_eq!(enc.set_option_call(u32::MAX, 1), Err(ErrorCode::Unimplemented));
}

#[test]
fn set_option_status_is_success_or_an_error() {
    let mut enc = Encoder::create(2, Application::Audio, 0).unwrap();
    assert_eq!(enc.set_option(0), Ok(()));
    assert_eq!(enc.set_option(-1), Err(ErrorCode::BadArg));
    assert_eq!(enc.set_option(-5), Err(ErrorCode::Unimplemented));
}

#[test]
fn lookahead_and_final_range_can_be_read() {
    let enc = Encoder::create(2, Application::Audio, 0).unwrap();
    assert_eq!(enc.get_option_call(OPUS_GET_LOOKAHEAD_REQUEST), Ok(4027));
    assert_eq!(enc.get_option_call(OPUS_GET_FINAL_RANGE_REQUEST), Ok(4031));
    assert_eq!(enc.get_option_call(OPUS_SET_BITRATE_REQUEST), Err(ErrorCode::Unimplemented));
    assert_eq!(enc.get_option_call(4003), Err(ErrorCode::Unimplemented));
    assert_eq!(enc.get_option_call(0), Err(ErrorCode::Unimplemented));
    assert_eq!(enc.get_option(0, 312), Ok(312));
    assert_eq!(enc.get_option(0, -559038737), Ok(-559038737));
    assert_eq!(enc.get_option(-1, 312), Err(ErrorCode::BadArg));
    assert_eq!(enc.get_option(-5, 0), Err(ErrorCode::Unimplemented));
}

#[test]
fn encoder_reset_is_the_reset_request() {
    let mut enc = Encoder::create(2, Application::Audio, 0).unwrap();
    assert_eq!(enc.reset(), 4028);
    assert_eq!(enc.channels(), 2);
    assert_eq!(enc.application(), Application::Audio);
}

#[test]
fn encoder_descriptor_names_the_codec() {
    let des = descriptor();
    let d = des.describe();
    assert_eq!(d.codec, "opus");
    assert_eq!(d.name, "libopus");
    assert_eq!(d.desc, "libopus encoder");
    assert_eq!(d.mime, "audio/OPUS");
}

#[test]
fn new_encoder_has_no_channels_and_cannot_be_configured() {
    assert_eq!(FRAME_SAMPLES, 960);
    assert_eq!(DEFAULT_BITRATE, 16000);
    let mut enc = descriptor().create();
    assert_eq!(enc.configure_call().err(), Some(Error::ConfigurationInvalid));
    assert_eq!(enc.configure(0, 312), Err(Error::ConfigurationInvalid));
    assert_eq!(enc.receive_packet().err(), Some(Error::MoreDataNeeded));
    let bytes = enc.get_extradata().unwrap();
    assert_eq!(bytes[9], 0);
}

#[test]
fn options_set_the_parameters() {
    let mut enc = descriptor().create();
    assert_eq!(enc.set_option("channels", Value::U64(2)), Ok(()));
    assert_eq!(enc.set_option("streams", Value::U64(1)), Ok(()));
    assert_eq!(enc.set_option("coupled_streams", Value::U64(1)), Ok(()));
    assert_eq!(enc.set_option("application", Value::Str("voip")), Ok(()));
    let setup = enc.configure_call().unwrap();
    assert_eq!(
        setup.create,
        CreateCall {
            sample_rate: 48000,
            channels: 2,
            streams: 1,
            coupled_streams: 1,
            application: 2048,
        }
    );
    assert_eq!(setup.mapping, vec![0, 1]);
}

#[test]
fn unknown_profile_name_is_invalid_data() {
    let mut enc = descriptor().create();
    assert_eq!(enc.set_option("application", Value::Str("music")), Err(Error::InvalidData));
    assert_eq!(enc.set_option("application", Value::Str("")), Err(Error::InvalidData));
    assert_eq!(enc.set_params(&params(Some(1))), Ok(()));
    assert_eq!(enc.configure_call().unwrap().create.application, 2049);
}

#[test]
fn other_options_are_unsupported() {
    let mut enc = descriptor().create();
    let unsupported = Err(Error::Unsupported("Unsupported option"));
    assert_eq!(enc.set_option("bitrate", Value::U64(64000)), unsupported);
    assert_eq!(enc.set_option("Channels", Value::U64(2)), unsupported);
    assert_eq!(enc.set_option("", Value::U64(2)), unsupported);
    assert_eq!(enc.set_option("channels", Value::I64(2)), unsupported);
    assert_eq!(enc.set_option("channels", Value::Str("2")), unsupported);
    assert_eq!(enc.set_option("streams", Value::Bool(true)), unsupported);
    assert_eq!(enc.set_option("coupled_streams", Value::Pair(1, 1)), unsupported);
    assert_eq!(enc.set_option("application", Value::U64(2049)), unsupported);
    assert_eq!(enc.set_option("application", Value::Formaton), unsupported);
    assert_eq!(enc.set_option("channels", Value::Soniton), unsupported);
    assert_eq!(enc.configure_call().err(), Some(Error::ConfigurationInvalid));
}

#[test]
fn parameters_must_account_for_every_channel() {
    let mut enc = descriptor().create();
    assert_eq!(enc.set_option("channels", Value::U64(2)), Ok(()));
    assert_eq!(enc.set_option("streams", Value::U64(2)), Ok(()));
    assert_eq!(enc.set_option("coupled_streams", Value::U64(1)), Ok(()));
    assert_eq!(enc.configure_call().err(), Some(Error::ConfigurationInvalid));
    assert_eq!(enc.set_option("streams", Value::U64(1)), Ok(()));
    assert!(enc.configure_call().is_ok());
    assert_eq!(enc.set_option("channels", Value::U64(3)), Ok(()));
    assert_eq!(enc.set_option("streams", Value::U64(2)), Ok(()));
    assert_eq!(enc.configure_call().err(), Some(Error::ConfigurationInvalid));
    assert_eq!(enc.set_option("streams", Value::U64(u64::MAX)), Ok(()));
    assert_eq!(enc.set_option("coupled_streams", Value::U64(u64::MAX)), Ok(()));
    assert_eq!(enc.configure_call().err(), Some(Error::ConfigurationInvalid));
}

#[test]
fn stream_parameters_set_the_layout() {
    let mut enc = descriptor().create();
    assert_eq!(enc.set_params(&params(Some(2))), Ok(()));
    let setup = enc.configure_call().unwrap();
    assert_eq!(setup.create.channels, 2);
    assert_eq!(setup.create.streams, 1);
    assert_eq!(setup.create.coupled_streams, 1);
    assert_eq!(setup.mapping, vec![0, 1]);
    assert_eq!(enc.set_params(&params(Some(1))), Ok(()));
    let setup = enc.configure_call().unwrap();
    assert_eq!(setup.create.channels, 1);
    assert_eq!(setup.create.streams, 1);
    assert_eq!(setup.create.coupled_streams, 0);
    assert_eq!(setup.mapping, vec![0]);
}

#[test]
fn stream_parameters_without_a_layout_change_nothing() {
    let mut enc = descriptor().create();
    assert_eq!(enc.set_params(&params(Some(2))), Ok(()));
    assert_eq!(enc.set_params(&params(None)), Ok(()));
    let mut video = params(Some(1));
    video.kind = Some(ParamsKind::Video);
    assert_eq!(enc.set_params(&video), Ok(()));
    let mut none = params(Some(1));
    none.kind = None;
    assert_eq!(enc.set_params(&none), Ok(()));
    assert_eq!(enc.configure_call().unwrap().create.channels, 2);
}

#[test]
fn layouts_other_than_mono_and_stereo_are_unsupported() {
    let mut enc = descriptor().create();
    assert_eq!(enc.set_params(&params(Some(2))), Ok(()));
    let unsupported = Err(Error::Unsupported("channel layout"));
    assert_eq!(enc.set_params(&params(Some(3))), unsupported);
    assert_eq!(enc.set_params(&params(Some(0))), unsupported);
    assert_eq!(enc.set_params(&params(Some(usize::MAX))), unsupported);
    assert_eq!(enc.configure_call().unwrap().create.channels, 2);
}

#[test]
fn configure_call_lists_the_native_calls() {
    assert_eq!(ENCODER_SAMPLE_RATE, 48000);
    let mut enc = descriptor().create();
    assert_eq!(enc.set_params(&params(Some(2))), Ok(()));
    let setup = enc.configure_call().unwrap();
    assert_eq!(
        setup.create,
        CreateCall {
            sample_rate: 48000,
            channels: 2,
            streams: 1,
            coupled_streams: 1,
            application: 2049,
        }
    );
    assert_eq!(
        setup.options,
        vec![
            CtlCall { request: 4002, value: 16000 },
            CtlCall { request: 4008, value: 1103 },
            CtlCall { request: 4010, value: 10 },
            CtlCall { request: 4006, value: 0 },
            CtlCall { request: 4020, value: 0 },
            CtlCall { request: 4014, value: 0 },
        ]
    );
    assert_eq!(setup.lookahead, 4027);
}

#[test]
fn encoder_is_configured_once() {
    let mut enc = descriptor().create();
    assert_eq!(enc.set_params(&params(Some(2))), Ok(()));
    assert_eq!(enc.configure(-1, 0), Err(Error::ConfigurationInvalid));
    assert_eq!(enc.configure(-7, 312), Err(Error::ConfigurationInvalid));
    assert!(enc.configure_call().is_ok());
    assert_eq!(enc.configure(0, 312), Ok(()));
    assert_eq!(enc.configure_call().err(), Some(Error::Unsupported("reconfiguration")));
    assert_eq!(enc.configure(0, 100), Err(Error::Unsupported("reconfiguration")));
    assert_eq!(&enc.get_extradata().unwrap()[10..12], &[0x38, 0x01]);
}

#[test]
fn extradata_is_the_stream_header() {
    let enc = configured(2, 312);
    let bytes = enc.get_extradata().unwrap();
    assert_eq!(
        bytes,
        vec![
            b'O', b'p', b'u', b's', b'H', b'e', b'a', b'd', 1, 2, 0x38, 0x01, 0x80, 0xBB, 0, 0, 0,
            0, 0
        ]
    );
    let h = parse_stream_header(&bytes).unwrap();
    assert_eq!(h.channel_count, 2);
    assert_eq!(h.stream_count, 1);
    assert_eq!(h.coupled_stream_count, 1);
    assert_eq!(h.channel_mapping, vec![0, 1]);
    assert_eq!(h.output_gain_db, 0);
    let mono = configured(1, 0);
    let bytes = mono.get_extradata().unwrap();
    assert_eq!(bytes[9], 1);
    assert_eq!(&bytes[10..12], &[0, 0]);
    assert_eq!(parse_stream_header(&bytes).unwrap().channel_count, 1);
}

#[test]
fn pre_skip_is_the_low_sixteen_bits_of_the_delay() {
    assert_eq!(&configured(2, 65535).get_extradata().unwrap()[10..12], &[0xff, 0xff]);
    assert_eq!(&configured(2, 65536 + 2).get_extradata().unwrap()[10..12], &[0x02, 0x00]);
    assert_eq!(&configured(2, 0x8000).get_extradata().unwrap()[10..12], &[0x00, 0x80]);
}

#[test]
fn there_is_no_extradata_for_more_than_two_channels() {
    let mut enc = descriptor().create();
    assert_eq!(enc.set_option("channels", Value::U64(3)), Ok(()));
    assert_eq!(enc.get_extradata(), None);
    assert_eq!(enc.get_params().unwrap().extradata, None);
    assert_eq!(enc.set_option("channels", Value::U64(2)), Ok(()));
    assert!(enc.get_extradata().is_some());
}

#[test]
fn parameters_of_the_output() {
    assert_eq!(CONVERGENCE_WINDOW, 3840);
    let enc = configured(1, 312);
    let p = enc.get_params().unwrap();
    assert_eq!(p.kind, Some(ParamsKind::Audio(AudioParams { rate: 48000, channels: Some(2) })));
    assert_eq!(p.codec_id, Some("opus"));
    assert_eq!(p.extradata, enc.get_extradata());
    assert_eq!(p.bit_rate, 0);
    assert_eq!(p.convergence_window, 3840);
    assert_eq!(p.delay, 312);
}

#[test]
fn frame_and_a_half_is_cut_into_two_chunks() {
    let enc = configured(1, 0);
    let input = ramp(1440);
    let plan = enc.send_frame_call(&frame(1440, 1, input.clone(), Some(0), 1000)).unwrap();
    assert_eq!(plan.chunks.len(), 2);
    assert_eq!(plan.chunks[0], input[..960].to_vec());
    assert_eq!(plan.chunks[1].len(), 960);
    assert_eq!(&plan.chunks[1][..480], &input[960..]);
    assert_eq!(&plan.chunks[1][480..], &[0i16; 480]);
    assert_eq!(MAX_PACKET_SIZE, 3832);
    assert_eq!(plan.data_size, 3832);
    assert_eq!(
        plan.call,
        EncodeCall { format: SampleFormat::I16, frame_size: 960, max_data_bytes: 3832 }
    );
}

#[test]
fn stereo_frame_and_a_half_is_cut_into_two_chunks() {
    let enc = configured(2, 0);
    let input = ramp(2880);
    let plan = enc.send_frame_call(&frame(1440, 2, input.clone(), Some(0), 1000)).unwrap();
    assert_eq!(plan.chunks.len(), 2);
    assert_eq!(plan.chunks[0], input[..1920].to_vec());
    assert_eq!(plan.chunks[1].len(), 1920);
    assert_eq!(&plan.chunks[1][..960], &input[1920..]);
    assert_eq!(&plan.chunks[1][960..], &[0i16; 960]);
    assert_eq!(plan.call.frame_size, 960);
}

#[test]
fn whole_frames_are_not_padded() {
    let enc = configured(1, 0);
    let input = ramp(2880);
    let plan = enc.send_frame_call(&frame(2880, 1, input.clone(), Some(0), 1000)).unwrap();
    assert_eq!(plan.chunks.len(), 3);
    assert_eq!(plan.chunks[0], input[..960].to_vec());
    assert_eq!(plan.chunks[1], input[960..1920].to_vec());
    assert_eq!(plan.chunks[2], input[1920..].to_vec());
}

#[test]
fn short_frame_is_one_padded_chunk() {
    let enc = configured(1, 0);
    let plan = enc.send_frame_call(&frame(1, 1, vec![7], Some(0), 1000)).unwrap();
    assert_eq!(plan.chunks.len(), 1);
    assert_eq!(plan.chunks[0].len(), 960);
    assert_eq!(plan.chunks[0][0], 7);
    assert_eq!(&plan.chunks[0][1..], &[0i16; 959]);
}

#[test]
fn empty_frame_has_no_chunk() {
    let mut enc = configured(2, 0);
    let mut f = frame(0, 2, vec![], Some(0), 1000);
    f.t.timebase = None;
    assert_eq!(enc.send_frame_call(&f).unwrap().chunks.len(), 0);
    assert_eq!(enc.send_frame(&f, &[]), Ok(()));
    assert_eq!(enc.receive_packet().err(), Some(Error::MoreDataNeeded));
    f.t.pts = None;
    assert_eq!(enc.send_frame(&f, &[]), Err(Error::InvalidData));
}

#[test]
fn only_the_declared_samples_are_cut() {
    let enc = configured(1, 0);
    let mut input = ramp(1000);
    input.extend_from_slice(&[-5; 500]);
    let plan = enc.send_frame_call(&frame(1000, 1, input.clone(), Some(0), 1000)).unwrap();
    assert_eq!(plan.chunks.len(), 2);
    assert_eq!(&plan.chunks[1][..40], &input[960..1000]);
    assert_eq!(&plan.chunks[1][40..], &[0i16; 920]);
}

#[test]
fn frames_that_cannot_be_cut() {
    let enc = configured(1, 0);
    assert_eq!(
        enc.send_frame_call(&frame(1441, 1, ramp(1440), Some(0), 1000)).err(),
        Some(Error::InvalidData)
    );
    assert_eq!(
        enc.send_frame_call(&frame(10, 0, ramp(10), Some(0), 1000)).err(),
        Some(Error::InvalidData)
    );
    assert_eq!(
        enc.send_frame_call(&frame(usize::MAX, 2, ramp(10), Some(0), 1000)).err(),
        Some(Error::InvalidData)
    );
    assert_eq!(
        enc.send_frame_call(&frame(0, usize::MAX, vec![], Some(0), 1000)).err(),
        Some(Error::InvalidData)
    );
    let mut video = frame(960, 1, ramp(960), Some(0), 1000);
    video.kind = MediaKind::Video;
    assert_eq!(
        enc.send_frame_call(&video).err(),
        Some(Error::Unsupported("frame kind"))
    );
}

#[test]
fn frames_before_configuring_are_refused() {
    let mut enc = descriptor().create();
    assert_eq!(enc.set_params(&params(Some(1))), Ok(()));
    let f = frame(960, 1, ramp(960), Some(0), 1000);
    assert_eq!(enc.send_frame_call(&f).err(), Some(Error::ConfigurationIncomplete));
    assert_eq!(enc.send_frame(&f, &[coded(10, 5)]), Err(Error::ConfigurationIncomplete));
    assert_eq!(enc.receive_packet().err(), Some(Error::MoreDataNeeded));
}

#[test]
fn packets_follow_one_another_in_time() {
    let mut enc = configured(1, 0);
    let f = frame(1440, 1, ramp(1440), Some(100), 1000);
    assert_eq!(enc.send_frame(&f, &[coded(10, 4), coded(10, 7)]), Ok(()));
    let first = enc.receive_packet().unwrap();
    assert_eq!(first.data, vec![0, 1, 2, 3]);
    assert_eq!(first.t.pts, Some(100));
    assert_eq!(first.t.dts, Some(100));
    assert_eq!(first.t.duration, Some(20));
    assert_eq!(first.t.timebase, None);
    assert_eq!(first.pos, None);
    assert_eq!(first.stream_index, -1);
    assert!(!first.is_key);
    assert!(!first.is_corrupted);
    let second = enc.receive_packet().unwrap();
    assert_eq!(second.data, vec![0, 1, 2, 3, 4, 5, 6]);
    assert_eq!(second.t.pts, Some(120));
    assert_eq!(second.t.dts, Some(120));
    assert_eq!(second.t.duration, Some(20));
    assert_eq!(enc.receive_packet().err(), Some(Error::MoreDataNeeded));
}

#[test]
fn timestamps_are_in_the_time_base_of_the_frame() {
    let mut enc = configured(2, 0);
    let f = frame(2880, 2, ramp(5760), Some(-960), 48000);
    assert_eq!(enc.send_frame(&f, &[coded(3, 1), coded(3, 2), coded(3, 3)]), Ok(()));
    let pts: Vec<Option<i64>> = (0..3).map(|_| enc.receive_packet().unwrap().t.pts).collect();
    assert_eq!(pts, vec![Some(-960), Some(0), Some(960)]);
    let mut f = frame(1920, 2, ramp(3840), Some(5), 1);
    f.t.timebase = Some(TimeBase { num: 1001, den: 30000 });
    assert_eq!(enc.send_frame(&f, &[coded(3, 1), coded(3, 2)]), Ok(()));
    let a = enc.receive_packet().unwrap();
    let b = enc.receive_packet().unwrap();
    assert_eq!((a.t.pts, a.t.duration), (Some(5), Some(0)));
    assert_eq!((b.t.pts, b.t.duration), (Some(5), Some(0)));
}

#[test]
fn packets_of_later_frames_queue_behind() {
    let mut enc = configured(1, 0);
    assert_eq!(enc.send_frame(&frame(960, 1, ramp(960), Some(0), 1000), &[coded(4, 1)]), Ok(()));
    assert_eq!(enc.send_frame(&frame(960, 1, ramp(960), Some(20), 1000), &[coded(4, 2)]), Ok(()));
    assert_eq!(enc.receive_packet().unwrap().data, vec![0]);
    assert_eq!(enc.send_frame(&frame(960, 1, ramp(960), Some(40), 1000), &[coded(4, 3)]), Ok(()));
    let second = enc.receive_packet().unwrap();
    assert_eq!((second.data, second.t.pts), (vec![0, 1], Some(20)));
    let third = enc.receive_packet().unwrap();
    assert_eq!((third.data, third.t.pts), (vec![0, 1, 2], Some(40)));
    assert_eq!(enc.receive_packet().err(), Some(Error::MoreDataNeeded));
}

#[test]
fn packet_keeps_the_whole_buffer_when_the_status_exceeds_it() {
    let mut enc = configured(1, 0);
    let f = frame(960, 1, ramp(960), Some(0), 1000);
    assert_eq!(enc.send_frame(&f, &[coded(3, 3)]), Ok(()));
    assert_eq!(enc.receive_packet().unwrap().data, vec![0, 1, 2]);
    assert_eq!(enc.send_frame(&f, &[coded(3, 9)]), Ok(()));
    assert_eq!(enc.receive_packet().unwrap().data, vec![0, 1, 2]);
    assert_eq!(enc.send_frame(&f, &[coded(3, 0)]), Ok(()));
    assert_eq!(enc.receive_packet().unwrap().data, Vec::<u8>::new());
}

#[test]
fn one_failed_chunk_queues_nothing() {
    let mut enc = configured(1, 0);
    let f = frame(2880, 1, ramp(2880), Some(0), 1000);
    assert_eq!(
        enc.send_frame(&f, &[coded(4, 1), coded(4, -1), coded(4, 3)]),
        Err(Error::InvalidData)
    );
    assert_eq!(
        enc.send_frame(&f, &[coded(4, 1), coded(4, 2), coded(4, -3)]),
        Err(Error::InvalidData)
    );
    assert_eq!(enc.receive_packet().err(), Some(Error::MoreDataNeeded));
}

#[test]
fn results_must_match_the_chunks() {
    let mut enc = configured(1, 0);
    let f = frame(1440, 1, ramp(1440), Some(0), 1000);
    assert_eq!(enc.send_frame(&f, &[coded(4, 1)]), Err(Error::InvalidData));
    assert_eq!(enc.send_frame(&f, &[]), Err(Error::InvalidData));
    assert_eq!(
        enc.send_frame(&f, &[coded(4, 1), coded(4, 1), coded(4, 1)]),
        Err(Error::InvalidData)
    );
    assert_eq!(enc.receive_packet().err(), Some(Error::MoreDataNeeded));
}

#[test]
fn frames_without_usable_time_are_invalid() {
    let mut enc = configured(1, 0);
    let results = [coded(4, 1)];
    assert_eq!(
        enc.send_frame(&frame(960, 1, ramp(960), None, 1000), &results),
        Err(Error::InvalidData)
    );
    let mut f = frame(960, 1, ramp(960), Some(0), 1000);
    f.t.timebase = None;
    assert_eq!(enc.send_frame(&f, &results), Err(Error::InvalidData));
    f.t.timebase = Some(TimeBase { num: 0, den: 1000 });
    assert_eq!(enc.send_frame(&f, &results), Err(Error::InvalidData));
    f.t.timebase = Some(TimeBase { num: 1, den: 0 });
    assert_eq!(enc.send_frame(&f, &results), Err(Error::InvalidData));
    f.t.timebase = Some(TimeBase { num: -1, den: 1000 });
    assert_eq!(enc.send_frame(&f, &results), Err(Error::InvalidData));
    assert_eq!(enc.receive_packet().err(), Some(Error::MoreDataNeeded));
}

#[test]
fn timestamps_must_fit() {
    let mut enc = configured(1, 0);
    let results = [coded(4, 1), coded(4, 1)];
    let f = frame(1920, 1, ramp(1920), Some(i64::MAX - 39), 1000);
    assert_eq!(enc.send_frame(&f, &results), Err(Error::InvalidData));
    assert_eq!(enc.receive_packet().err(), Some(Error::MoreDataNeeded));
    let f = frame(1920, 1, ramp(1920), Some(i64::MAX - 40), 1000);
    assert_eq!(enc.send_frame(&f, &results), Ok(()));
    assert_eq!(enc.receive_packet().unwrap().t.pts, Some(i64::MAX - 40));
    assert_eq!(enc.receive_packet().unwrap().t.pts, Some(i64::MAX - 20));
}

#[test]
fn flush_keeps_the_packets() {
    let mut enc = configured(1, 0);
    assert_eq!(enc.send_frame(&frame(960, 1, ramp(960), Some(0), 1000), &[coded(4, 1)]), Ok(()));
    assert_eq!(enc.flush(), Ok(()));
    assert_eq!(enc.flush(), Ok(()));
    assert_eq!(enc.receive_packet().unwrap().data, vec![0]);
}
