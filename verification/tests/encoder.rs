use shiguredo_nvcodec::driver::{Call, EncodeConfig, EncoderCapability, Output, Reply};
use shiguredo_nvcodec::encoder::initialize_encoder;
use shiguredo_nvcodec::operation::Stage;
use shiguredo_nvcodec::sys;
use shiguredo_nvcodec::{
    query_encoder_caps, Av1EncoderConfig, Av1Profile, BufferFormat, CodecConfig, EncodeOptions,
    Encoder, EncoderCodec, EncoderConfig, Error, H264EncoderConfig, H264Profile, HevcEncoderConfig,
    HevcProfile, PictureType, Preset, RateControlMode, ReconfigureParams, Step, TuningInfo, Turn,
};

/// A driver that keeps account of what it was asked for.
struct Gpu {
    last_handle: u64,
    /// Handles that were given out and not given back.
    live: Vec<u64>,
    /// Handles that were given back without being live.
    strays: Vec<u64>,
    /// Contexts that were entered and not left.
    stack: Vec<u64>,
    log: Vec<Call>,
    /// The function that fails, and how many calls of it succeed before.
    failing: Option<(&'static str, usize)>,
}

impl Gpu {
    fn new() -> Self {
        Gpu {
            last_handle: 0,
            live: Vec::new(),
            strays: Vec::new(),
            stack: Vec::new(),
            log: Vec::new(),
            failing: None,
        }
    }

    fn failing(function: &'static str) -> Self {
        let mut gpu = Gpu::new();
        gpu.failing = Some((function, 0));
        gpu
    }

    fn open(&mut self) -> Output {
        self.last_handle += 1;
        self.live.push(self.last_handle);
        Output::Handle(self.last_handle)
    }

    fn close(&mut self, handle: u64) -> Output {
        match self.live.iter().position(|live| *live == handle) {
            Some(position) => {
                self.live.remove(position);
            }
            None => self.strays.push(handle),
        }
        Output::Nothing
    }

    fn count(&self, function: &str) -> usize {
        self.log.iter().filter(|call| call.function() == function).count()
    }

    fn functions(&self) -> Vec<&'static str> {
        self.log.iter().map(|call| call.function()).collect()
    }

    fn is_clean(&self) -> bool {
        self.live.is_empty() && self.strays.is_empty() && self.stack.is_empty()
    }

    fn reply(&mut self, call: &Call) -> Reply {
        let earlier = self.count(call.function());
        self.log.push(*call);
        if self.failing == Some((call.function(), earlier)) {
            let name = "CUDA_ERROR_INVALID_VALUE".to_owned();
            let message = "invalid argument".to_owned();
            return call.conclude(8, Some(name), Some(message), Output::Nothing);
        }
        let output = self.perform(call);
        call.conclude(0, None, None, output)
    }

    fn perform(&mut self, call: &Call) -> Output {
        match *call {
            Call::CtxCreate { .. }
            | Call::OpenEncodeSession { .. }
            | Call::MemAlloc { .. }
            | Call::RegisterResource { .. }
            | Call::MapInputResource { .. }
            | Call::CreateBitstreamBuffer { .. } => self.open(),
            Call::CtxDestroy { ctx } => self.close(ctx),
            Call::DestroyEncoder { session } => self.close(session),
            Call::MemFree { device_ptr } => self.close(device_ptr),
            Call::UnregisterResource { resource, .. } => self.close(resource),
            Call::UnmapInputResource { mapped, .. } => self.close(mapped),
            Call::DestroyBitstreamBuffer { buffer, .. } => self.close(buffer),
            Call::CtxPushCurrent { ctx } => {
                self.stack.push(ctx);
                Output::Nothing
            }
            Call::CtxPopCurrent => {
                self.stack.pop().expect("no context to leave");
                Output::Nothing
            }
            Call::GetEncodePresetConfig { .. } => Output::Preset(preset_config()),
            Call::GetEncodeCaps { capability, .. } => Output::Integer(capability_value(capability)),
            Call::LockBitstream { buffer, .. } => {
                self.live.push(buffer + 1000);
                Output::Bitstream {
                    null: false,
                    data: vec![0, 0, 0, 1, 0x65],
                    timestamp: self.timestamp(),
                    picture_type: sys::NV_ENC_PIC_TYPE_IDR,
                }
            }
            Call::UnlockBitstream { buffer, .. } => self.close(buffer + 1000),
            Call::GetSequenceParams { .. } => {
                Output::SequenceHeader { buffer: vec![0, 0, 0, 1, 0x67, 0, 0, 0], size: 5 }
            }
            Call::LoadLibraries
            | Call::CreateApiInstance
            | Call::MemcpyHtoD { .. }
            | Call::InitializeEncoder { .. }
            | Call::ReconfigureEncoder { .. }
            | Call::EncodePicture { .. } => Output::Nothing,
            _ => panic!("unexpected call: {call:?}"),
        }
    }

    /// The timestamp of the latest picture.
    fn timestamp(&self) -> u64 {
        let pictures = self.log.iter().filter_map(|call| match call {
            Call::EncodePicture { picture, .. } => Some(picture.input_timestamp),
            _ => None,
        });
        pictures.last().expect("no picture")
    }
}

fn preset_config() -> EncodeConfig {
    EncodeConfig {
        profile_guid: 1,
        gop_length: 2,
        frame_interval_p: 3,
        rate_control_mode: 4,
        average_bitrate: 5,
        max_bitrate: 6,
        idr_period: 7,
    }
}

fn capability_value(capability: EncoderCapability) -> i32 {
    match capability {
        EncoderCapability::SupportedRateControlModes => 63,
        EncoderCapability::SupportYuv444Encode => 1,
        EncoderCapability::SupportYuv422Encode => 0,
        EncoderCapability::SupportMeOnlyMode => 1,
        EncoderCapability::WidthMax => 4096,
        EncoderCapability::HeightMax => 4095,
        EncoderCapability::WidthMin => 145,
        EncoderCapability::HeightMin => 49,
        EncoderCapability::NumMaxBFrames => 4,
        EncoderCapability::Support10BitEncode => 0,
        EncoderCapability::SupportLosslessEncode => 1,
        EncoderCapability::SupportLookahead => 0,
        EncoderCapability::SupportTemporalAq => 1,
    }
}

/// Makes every call that an operation asks for.
fn complete<S: Stage>(
    gpu: &mut Gpu,
    context: &mut S::Context,
    turn: Turn<S>,
) -> Result<S::Output, Error> {
    let mut turn = turn;
    loop {
        match turn.step {
            Step::Done(outcome) => return outcome,
            Step::Call(call) => {
                let reply = gpu.reply(&call);
                turn = turn.operation.resume(context, reply);
            }
        }
    }
}

fn test_encoder_config(codec: CodecConfig) -> EncoderConfig {
    EncoderConfig {
        codec,
        width: 640,
        height: 480,
        max_encode_width: None,
        max_encode_height: None,
        framerate_num: 30,
        framerate_den: 1,
        average_bitrate: Some(5_000_000),
        preset: Preset::P4,
        tuning_info: TuningInfo::LOW_LATENCY,
        rate_control_mode: RateControlMode::Vbr,
        gop_length: None,
        frame_interval_p: 1,
        buffer_format: BufferFormat::Nv12,
        device_id: 0,
    }
}

fn h264() -> CodecConfig {
    CodecConfig::H264(H264EncoderConfig { profile: None, idr_period: None })
}

fn hevc() -> CodecConfig {
    CodecConfig::Hevc(HevcEncoderConfig { profile: None, idr_period: None })
}

fn av1() -> CodecConfig {
    CodecConfig::Av1(Av1EncoderConfig { profile: None, idr_period: None })
}

fn no_options() -> EncodeOptions {
    EncodeOptions { force_intra: false, force_idr: false, output_spspps: false }
}

fn open(gpu: &mut Gpu, config: EncoderConfig) -> Result<Encoder, Error> {
    complete(gpu, &mut (), Encoder::new(config))
}

fn encode(
    gpu: &mut Gpu,
    encoder: &mut Encoder,
    data: &[u8],
    options: &EncodeOptions,
) -> Result<(), Error> {
    let turn = encoder.encode(data, options);
    complete(gpu, encoder, turn)
}

fn reconfigure(
    gpu: &mut Gpu,
    encoder: &mut Encoder,
    params: ReconfigureParams,
) -> Result<(), Error> {
    let turn = encoder.reconfigure(params);
    complete(gpu, encoder, turn)
}

fn assert_encoder_opens(codec: CodecConfig, codec_guid: u128, profile_guid: u128) {
    let mut gpu = Gpu::new();
    let encoder = open(&mut gpu, test_encoder_config(codec)).expect("failed to initialize encoder");
    let Some(Call::InitializeEncoder { params, config, .. }) =
        gpu.log.iter().find(|call| matches!(call, Call::InitializeEncoder { .. }))
    else {
        panic!("not initialized")
    };
    assert_eq!(params.encode_guid, codec_guid);
    assert_eq!(config.profile_guid, profile_guid);
    complete(&mut gpu, &mut (), encoder.close()).unwrap();
    assert!(gpu.is_clean());
}

#[test]
fn init_h264_encoder() {
    assert_encoder_opens(
        h264(),
        sys::NV_ENC_CODEC_H264_GUID,
        sys::NV_ENC_H264_PROFILE_MAIN_GUID,
    );
}

#[test]
fn init_h265_encoder() {
    assert_encoder_opens(
        hevc(),
        sys::NV_ENC_CODEC_HEVC_GUID,
        sys::NV_ENC_HEVC_PROFILE_MAIN_GUID,
    );
}

#[test]
fn init_av1_encoder() {
    assert_encoder_opens(av1(), sys::NV_ENC_CODEC_AV1_GUID, sys::NV_ENC_AV1_PROFILE_MAIN_GUID);
}

fn assert_sequence_params(codec: CodecConfig) {
    let mut gpu = Gpu::new();
    let mut encoder = open(&mut gpu, test_encoder_config(codec)).expect("failed to create encoder");
    let turn = encoder.get_sequence_params();
    let seq_params =
        complete(&mut gpu, &mut encoder, turn).expect("failed to get sequence parameters");
    assert!(!seq_params.is_empty(), "Sequence parameters should not be empty");
    // What the driver has not written is not handed out.
    assert_eq!(seq_params, [0, 0, 0, 1, 0x67]);
    let Some(Call::GetSequenceParams { buffer_size, .. }) =
        gpu.log.iter().find(|call| matches!(call, Call::GetSequenceParams { .. }))
    else {
        panic!("not asked for")
    };
    assert_eq!(*buffer_size, 512);
    complete(&mut gpu, &mut (), encoder.close()).unwrap();
    assert!(gpu.is_clean());
}

#[test]
fn test_get_sequence_params_h264() {
    assert_sequence_params(h264());
}

#[test]
fn test_get_sequence_params_h265() {
    assert_sequence_params(hevc());
}

#[test]
fn test_get_sequence_params_av1() {
    assert_sequence_params(av1());
}

fn assert_black_frame_is_encoded(codec: CodecConfig) {
    let config = test_encoder_config(codec);
    let width = config.width;
    let height = config.height;
    let mut gpu = Gpu::new();
    let mut encoder = open(&mut gpu, config).expect("failed to create encoder");

    let y_size = (width * height) as usize;
    let uv_size = (width * height / 2) as usize;
    let mut frame_data = vec![16u8; y_size + uv_size];
    frame_data[y_size..].fill(128);

    encode(
        &mut gpu,
        &mut encoder,
        &frame_data,
        &EncodeOptions { force_intra: false, force_idr: false, output_spspps: false },
    )
    .expect("failed to encode black frame");
    complete(&mut gpu, &mut (), encoder.finish()).expect("failed to finish encoder");

    let mut frames = Vec::new();
    while let Some(frame) = encoder.next_frame() {
        frames.push(frame);
    }
    assert!(!frames.is_empty(), "No encoded frames received");
    let first_frame = &frames[0];
    assert!(
        matches!(first_frame.picture_type(), PictureType::I | PictureType::Idr),
        "First frame should be a keyframe"
    );
    assert!(!first_frame.data().is_empty(), "Encoded frame should have data");
    complete(&mut gpu, &mut (), encoder.close()).unwrap();
    assert!(gpu.is_clean());
}

#[test]
fn test_encode_h264_black_frame() {
    assert_black_frame_is_encoded(h264());
}

#[test]
fn test_encode_h265_black_frame() {
    assert_black_frame_is_encoded(hevc());
}

#[test]
fn test_encode_av1_black_frame() {
    assert_black_frame_is_encoded(av1());
}

#[test]
fn the_calls_for_an_encoder() {
    let mut gpu = Gpu::new();
    let mut encoder = open(&mut gpu, test_encoder_config(h264())).unwrap();
    assert_eq!(
        gpu.functions(),
        [
            "CudaLibrary::load",
            "cuCtxCreate_v2",
            "cuCtxPushCurrent_v2",
            "NvEncodeAPICreateInstance",
            "nvEncOpenEncodeSessionEx",
            "cuCtxPopCurrent_v2",
            "cuCtxPushCurrent_v2",
            "nvEncGetEncodePresetConfigEx",
            "nvEncInitializeEncoder",
            "cuCtxPopCurrent_v2",
        ]
    );

    gpu.log.clear();
    encode(&mut gpu, &mut encoder, &[0; 460800], &no_options()).unwrap();
    assert_eq!(
        gpu.functions(),
        [
            "cuCtxPushCurrent_v2",
            "cuMemAlloc_v2",
            "cuMemcpyHtoD_v2",
            "nvEncRegisterResource",
            "nvEncMapInputResource",
            "nvEncCreateBitstreamBuffer",
            "nvEncEncodePicture",
            "nvEncLockBitstream",
            "nvEncUnlockBitstream",
            "nvEncDestroyBitstreamBuffer",
            "nvEncUnmapInputResource",
            "nvEncUnregisterResource",
            "cuMemFree_v2",
            "cuCtxPopCurrent_v2",
        ]
    );
    assert_eq!(gpu.log[1], Call::MemAlloc { size: 460800 });

    gpu.log.clear();
    complete(&mut gpu, &mut (), encoder.finish()).unwrap();
    let [Call::EncodePicture { picture, .. }] = gpu.log[..] else { panic!("no end") };
    assert_eq!(picture.encode_pic_flags, sys::NV_ENC_PIC_FLAG_EOS);
    assert_eq!(picture.input_buffer, 0);

    gpu.log.clear();
    complete(&mut gpu, &mut (), encoder.close()).unwrap();
    assert_eq!(
        gpu.functions(),
        [
            "cuCtxPushCurrent_v2",
            "nvEncDestroyEncoder",
            "cuCtxPopCurrent_v2",
            "cuCtxDestroy_v2",
        ]
    );
    assert!(gpu.is_clean());
}

#[test]
fn frames_of_another_size_are_refused() {
    let mut gpu = Gpu::new();
    let mut encoder = open(&mut gpu, test_encoder_config(h264())).unwrap();
    let calls = gpu.log.len();
    for size in [0, 460799, 460801] {
        let error = encode(&mut gpu, &mut encoder, &vec![0; size], &no_options()).unwrap_err();
        assert_eq!(error.to_string(), "encode() failed: invalid frame data size");
    }
    assert_eq!(gpu.log.len(), calls);
}

#[test]
fn timestamps_follow_the_frame_rate() {
    let mut gpu = Gpu::new();
    let mut config = test_encoder_config(h264());
    config.framerate_num = 30000;
    config.framerate_den = 1001;
    let mut encoder = open(&mut gpu, config).unwrap();
    for _ in 0..3 {
        encode(&mut gpu, &mut encoder, &[0; 460800], &no_options()).unwrap();
    }
    reconfigure(
        &mut gpu,
        &mut encoder,
        ReconfigureParams { framerate_den: Some(1000), ..ReconfigureParams::default() },
    )
    .unwrap();
    encode(&mut gpu, &mut encoder, &[0; 460800], &no_options()).unwrap();
    let mut timestamps = Vec::new();
    while let Some(frame) = encoder.next_frame() {
        timestamps.push(frame.timestamp());
    }
    assert_eq!(timestamps, [0, 1001, 2002, 3000]);
}

#[test]
fn encoded_frames_come_out_in_order() {
    let mut gpu = Gpu::new();
    let mut encoder = open(&mut gpu, test_encoder_config(h264())).unwrap();
    assert!(encoder.next_frame().is_none());
    for _ in 0..2 {
        encode(&mut gpu, &mut encoder, &[0; 460800], &no_options()).unwrap();
    }
    let first = encoder.next_frame().unwrap();
    let copy = first.clone();
    assert_eq!(copy.timestamp(), 0);
    assert_eq!(copy.picture_type(), PictureType::Idr);
    assert_eq!(copy.data(), first.data());
    assert_eq!(first.into_data(), [0, 0, 0, 1, 0x65]);
    assert_eq!(encoder.next_frame().unwrap().timestamp(), 1);
    assert!(encoder.next_frame().is_none());
}

#[test]
fn a_frame_that_fails_leaves_nothing_behind() {
    for function in [
        "cuCtxPushCurrent_v2",
        "cuMemAlloc_v2",
        "cuMemcpyHtoD_v2",
        "nvEncRegisterResource",
        "nvEncMapInputResource",
        "nvEncCreateBitstreamBuffer",
        "nvEncEncodePicture",
        "nvEncLockBitstream",
    ] {
        let mut gpu = Gpu::new();
        let mut encoder = open(&mut gpu, test_encoder_config(h264())).unwrap();
        let live = gpu.live.clone();
        gpu.failing = Some((function, gpu.count(function)));
        let error = encode(&mut gpu, &mut encoder, &[0; 460800], &no_options()).unwrap_err();
        assert_eq!(error.function, function);
        assert_eq!(error.status_code, Some(8));
        assert_eq!(gpu.live, live, "{function}");
        assert!(gpu.stack.is_empty() && gpu.strays.is_empty(), "{function}");
        assert!(encoder.next_frame().is_none());
    }
}

#[test]
fn leaving_the_context_may_fail() {
    let mut gpu = Gpu::new();
    let mut encoder = open(&mut gpu, test_encoder_config(h264())).unwrap();
    gpu.failing = Some(("cuCtxPopCurrent_v2", 2));
    let error = encode(&mut gpu, &mut encoder, &[0; 460800], &no_options()).unwrap_err();
    assert_eq!(error.function, "cuCtxPopCurrent_v2");
    // The frame was encoded all the same.
    assert!(encoder.next_frame().is_some());
}

#[test]
fn a_bitstream_without_data_is_an_error() {
    let mut gpu = Gpu::new();
    let mut encoder = open(&mut gpu, test_encoder_config(h264())).unwrap();
    let mut turn = encoder.encode(&[0; 460800], &no_options());
    let error = loop {
        match turn.step {
            Step::Done(outcome) => break outcome.unwrap_err(),
            Step::Call(call) => {
                let mut reply = gpu.reply(&call);
                if let Call::LockBitstream { .. } = call {
                    let output = Output::Bitstream {
                        null: true,
                        data: Vec::new(),
                        timestamp: 0,
                        picture_type: 0,
                    };
                    reply = Ok(output);
                }
                turn = turn.operation.resume(&mut encoder, reply);
            }
        }
    };
    assert_eq!(error.to_string(), "nvEncLockBitstream() failed: bitstreamBufferPtr is null");
    // It is unlocked all the same.
    assert_eq!(gpu.live.len(), 2);
}

#[test]
fn an_encoder_that_fails_to_open_leaves_nothing_behind() {
    for (function, earlier) in [
        ("CudaLibrary::load", 0),
        ("cuCtxCreate_v2", 0),
        ("cuCtxPushCurrent_v2", 0),
        ("NvEncodeAPICreateInstance", 0),
        ("nvEncOpenEncodeSessionEx", 0),
        ("cuCtxPushCurrent_v2", 1),
        ("nvEncGetEncodePresetConfigEx", 0),
        ("nvEncInitializeEncoder", 0),
    ] {
        let mut gpu = Gpu::new();
        gpu.failing = Some((function, earlier));
        let error = open(&mut gpu, test_encoder_config(h264())).unwrap_err();
        assert_eq!(error.function, function);
        assert!(gpu.is_clean(), "{function}");
    }
}

#[test]
fn a_bit_rate_is_needed_unless_the_qp_is_constant() {
    let mut gpu = Gpu::new();
    let mut config = test_encoder_config(h264());
    config.average_bitrate = None;
    let error = open(&mut gpu, config).unwrap_err();
    assert_eq!(
        error.to_string(),
        "initialize_encoder() failed: average_bitrate must be specified when not using ConstQp mode"
    );
    assert!(gpu.is_clean());

    config.rate_control_mode = RateControlMode::Cbr;
    assert!(initialize_encoder(&config, preset_config()).is_err());

    config.rate_control_mode = RateControlMode::ConstQp;
    let (_, encode_config) = initialize_encoder(&config, preset_config()).unwrap();
    assert_eq!(encode_config.rate_control_mode, sys::NV_ENC_PARAMS_RC_CONSTQP);
    assert_eq!((encode_config.average_bitrate, encode_config.max_bitrate), (5, 6));
}

#[test]
fn what_an_encoder_is_initialized_with() {
    let mut config = test_encoder_config(h264());
    config.gop_length = Some(60);
    config.max_encode_width = Some(1920);
    let (params, encode_config) = initialize_encoder(&config, preset_config()).unwrap();
    assert_eq!((params.encode_width, params.encode_height), (640, 480));
    assert_eq!((params.dar_width, params.dar_height), (640, 480));
    assert_eq!((params.max_encode_width, params.max_encode_height), (1920, 480));
    assert_eq!((params.frame_rate_num, params.frame_rate_den), (30, 1));
    assert_eq!(params.preset_guid, sys::NV_ENC_PRESET_P4_GUID);
    assert_eq!(params.tuning_info, sys::NV_ENC_TUNING_INFO_LOW_LATENCY);
    assert_eq!(params.enable_ptd, 1);
    assert_eq!(encode_config.gop_length, 60);
    assert_eq!(encode_config.idr_period, 60);
    assert_eq!(encode_config.frame_interval_p, 1);
    assert_eq!(encode_config.rate_control_mode, sys::NV_ENC_PARAMS_RC_VBR);
    assert_eq!(encode_config.average_bitrate, 5_000_000);
    assert_eq!(encode_config.max_bitrate, 5_000_000);

    config.gop_length = None;
    config.codec = CodecConfig::Hevc(HevcEncoderConfig {
        profile: Some(HevcProfile::Main10),
        idr_period: Some(250),
    });
    let (_, encode_config) = initialize_encoder(&config, preset_config()).unwrap();
    assert_eq!(encode_config.gop_length, 0xffff_ffff);
    assert_eq!(encode_config.idr_period, 250);
    assert_eq!(encode_config.profile_guid, sys::NV_ENC_HEVC_PROFILE_MAIN10_GUID);

    config.codec = CodecConfig::H264(H264EncoderConfig {
        profile: Some(H264Profile::ConstrainedHigh),
        idr_period: None,
    });
    let (_, encode_config) = initialize_encoder(&config, preset_config()).unwrap();
    assert_eq!(encode_config.idr_period, 0xffff_ffff);
    assert_eq!(encode_config.profile_guid, sys::NV_ENC_H264_PROFILE_CONSTRAINED_HIGH_GUID);

    config.codec = CodecConfig::Av1(Av1EncoderConfig {
        profile: Some(Av1Profile::AutoSelect),
        idr_period: Some(1),
    });
    let (_, encode_config) = initialize_encoder(&config, preset_config()).unwrap();
    assert_eq!(encode_config.idr_period, 1);
    assert_eq!(encode_config.profile_guid, sys::NV_ENC_CODEC_PROFILE_AUTOSELECT_GUID);
}

#[test]
fn a_reconfiguration_keeps_to_the_limits() {
    let mut gpu = Gpu::new();
    let mut config = test_encoder_config(h264());
    config.max_encode_width = Some(1920);
    config.max_encode_height = Some(1080);
    let mut encoder = open(&mut gpu, config).unwrap();

    let too_wide = ReconfigureParams { width: Some(1921), ..ReconfigureParams::default() };
    let error = reconfigure(&mut gpu, &mut encoder, too_wide).unwrap_err();
    assert_eq!(error.to_string(), "reconfigure() failed: width exceeds maxEncodeWidth");
    let too_high = ReconfigureParams { height: Some(1081), ..ReconfigureParams::default() };
    let error = reconfigure(&mut gpu, &mut encoder, too_high).unwrap_err();
    assert_eq!(error.to_string(), "reconfigure() failed: height exceeds maxEncodeHeight");
    assert_eq!(gpu.count("nvEncReconfigureEncoder"), 0);
    encode(&mut gpu, &mut encoder, &[0; 460800], &no_options()).unwrap();

    let params = ReconfigureParams {
        width: Some(1920),
        height: Some(1080),
        framerate_num: Some(60),
        average_bitrate: Some(8_000_000),
        max_bitrate: Some(9_000_000),
        ..ReconfigureParams::default()
    };
    reconfigure(&mut gpu, &mut encoder, params).unwrap();
    let Some(Call::ReconfigureEncoder { params, config, .. }) =
        gpu.log.iter().find(|call| matches!(call, Call::ReconfigureEncoder { .. }))
    else {
        panic!("not reconfigured")
    };
    assert_eq!((params.encode_width, params.dar_height), (1920, 1080));
    assert_eq!((params.frame_rate_num, params.frame_rate_den), (60, 1));
    assert_eq!((config.average_bitrate, config.max_bitrate), (8_000_000, 9_000_000));
    assert!(encode(&mut gpu, &mut encoder, &[0; 460800], &no_options()).is_err());
    encode(&mut gpu, &mut encoder, &vec![0; 1920 * 1080 * 3 / 2], &no_options()).unwrap();
}

#[test]
fn a_reconfiguration_that_fails_changes_nothing() {
    let mut gpu = Gpu::new();
    let mut encoder = open(&mut gpu, test_encoder_config(h264())).unwrap();
    gpu.failing = Some(("nvEncReconfigureEncoder", 0));
    let params = ReconfigureParams { width: Some(320), ..ReconfigureParams::default() };
    let error = reconfigure(&mut gpu, &mut encoder, params).unwrap_err();
    assert_eq!(error.function, "nvEncReconfigureEncoder");
    assert!(gpu.stack.is_empty());
    encode(&mut gpu, &mut encoder, &[0; 460800], &no_options()).unwrap();
}

#[test]
fn an_empty_reconfiguration_changes_nothing() {
    let mut gpu = Gpu::new();
    let mut encoder = open(&mut gpu, test_encoder_config(h264())).unwrap();
    reconfigure(&mut gpu, &mut encoder, ReconfigureParams::default()).unwrap();
    let configurations: Vec<_> = gpu
        .log
        .iter()
        .filter_map(|call| match *call {
            Call::InitializeEncoder { params, config, .. }
            | Call::ReconfigureEncoder { params, config, .. } => Some((params, config)),
            _ => None,
        })
        .collect();
    assert_eq!(configurations.len(), 2);
    assert_eq!(configurations[0], configurations[1]);
    encode(&mut gpu, &mut encoder, &[0; 460800], &no_options()).unwrap();
}

#[test]
fn capabilities_of_an_encoder() {
    let mut gpu = Gpu::new();
    let caps = complete(&mut gpu, &mut (), query_encoder_caps(EncoderCodec::Hevc, 1)).unwrap();
    assert_eq!(caps.supported_ratecontrol_modes, 63);
    assert!(caps.support_yuv444_encode);
    assert!(!caps.support_yuv422_encode);
    assert!(caps.support_meonly_mode);
    assert_eq!((caps.width_max, caps.height_max), (4096, 4095));
    assert_eq!((caps.width_min, caps.height_min), (145, 49));
    assert_eq!(caps.num_max_bframes, 4);
    assert!(!caps.support_10bit_encode);
    assert!(caps.support_lossless_encode);
    assert!(!caps.support_lookahead);
    assert!(caps.support_temporal_aq);
    assert!(gpu.is_clean());
    assert_eq!(gpu.count("nvEncGetEncodeCaps"), 13);
    assert_eq!(gpu.log[1], Call::CtxCreate { flags: 0, device: 1 });

    let mut again = Gpu::new();
    complete(&mut again, &mut (), Encoder::query_caps(EncoderCodec::Hevc, 1)).unwrap();
    assert_eq!(again.log, gpu.log);

    for function in [
        "CudaLibrary::load",
        "cuCtxCreate_v2",
        "cuCtxPushCurrent_v2",
        "NvEncodeAPICreateInstance",
        "nvEncOpenEncodeSessionEx",
        "nvEncGetEncodeCaps",
    ] {
        let mut gpu = Gpu::failing(function);
        let turn = query_encoder_caps(EncoderCodec::Hevc, 1);
        let error = complete(&mut gpu, &mut (), turn).unwrap_err();
        assert_eq!(error.function, function);
        assert!(gpu.is_clean(), "{function}");
    }
}

#[test]
fn frame_sizes() {
    let sizes = [
        (BufferFormat::Nv12, 640, 460800),
        (BufferFormat::Yv12, 640, 460800),
        (BufferFormat::Iyuv, 640, 460800),
        (BufferFormat::Yuv444, 640, 921600),
        (BufferFormat::Yuv420_10bit, 1280, 921600),
        (BufferFormat::Yuv444_10bit, 1280, 1843200),
        (BufferFormat::Argb, 2560, 1228800),
        (BufferFormat::Abgr, 2560, 1228800),
        (BufferFormat::Argb10, 2560, 1228800),
        (BufferFormat::Abgr10, 2560, 1228800),
    ];
    for (format, row, frame) in sizes {
        assert_eq!(format.bytes_per_row(640), row, "{format:?}");
        assert_eq!(format.frame_size(640, 480), frame, "{format:?}");
        assert!(row as usize * 480 <= frame);
    }
    // Halves are dropped.
    assert_eq!(BufferFormat::Nv12.frame_size(3, 5), 22);
}

#[test]
fn options_are_flags() {
    for bits in 0..8u32 {
        let options = EncodeOptions {
            force_intra: bits & 1 != 0,
            force_idr: bits & 2 != 0,
            output_spspps: bits & 4 != 0,
        };
        assert_eq!(options.to_pic_flags(), bits);
    }
}

#[test]
fn options_reach_the_driver() {
    let mut gpu = Gpu::new();
    let mut encoder = open(&mut gpu, test_encoder_config(h264())).unwrap();
    let options = EncodeOptions { force_intra: false, force_idr: true, output_spspps: true };
    encode(&mut gpu, &mut encoder, &[0; 460800], &options).unwrap();
    let Some(Call::EncodePicture { picture, .. }) =
        gpu.log.iter().find(|call| matches!(call, Call::EncodePicture { .. }))
    else {
        panic!("no picture")
    };
    assert_eq!(picture.encode_pic_flags, 6);
    assert_eq!((picture.input_width, picture.input_height), (640, 480));
    assert_eq!(picture.input_pitch, 640);
    assert_eq!(picture.buffer_format, sys::NV_ENC_BUFFER_FORMAT_NV12);
}

#[test]
fn picture_types() {
    let types = [
        PictureType::P,
        PictureType::B,
        PictureType::I,
        PictureType::Idr,
        PictureType::Bi,
        PictureType::Skipped,
        PictureType::IntraRefresh,
        PictureType::NonRefP,
        PictureType::Switch,
        PictureType::Unknown,
    ];
    for (code, picture_type) in types.into_iter().enumerate() {
        assert_eq!(PictureType::new(code as u32), picture_type);
    }
    assert_eq!(PictureType::new(0xff), PictureType::Unknown);
}

#[test]
fn the_frame_is_what_is_uploaded() {
    let mut gpu = Gpu::new();
    let mut encoder = open(&mut gpu, test_encoder_config(h264())).unwrap();
    let frame: Vec<u8> = (0..460800).map(|i| (i % 251) as u8).collect();
    let mut turn = encoder.encode(&frame, &no_options());
    let mut uploads = 0;
    loop {
        match turn.step {
            Step::Done(outcome) => {
                outcome.unwrap();
                break;
            }
            Step::Call(call) => {
                match call {
                    Call::MemcpyHtoD { size, .. } => {
                        uploads += 1;
                        assert_eq!(size, frame.len());
                        assert_eq!(turn.operation.payload(), Some(&frame[..]));
                    }
                    _ => assert_eq!(turn.operation.payload(), None, "{call:?}"),
                }
                let reply = gpu.reply(&call);
                turn = turn.operation.resume(&mut encoder, reply);
            }
        }
    }
    assert_eq!(uploads, 1);

    let turn = encoder.encode(&frame[1..], &no_options());
    assert_eq!(turn.operation.payload(), None);
}
