//! The encoder.

use std::collections::VecDeque;
use vstd::prelude::*;

use crate::driver::Call;
use crate::driver::EncodeConfig;
use crate::driver::EncoderCapability;
use crate::driver::InitializeParams;
use crate::driver::InputImage;
use crate::driver::PictureParams;
use crate::driver::Reply;
use crate::encode::Av1Profile;
use crate::encode::BufferFormat;
use crate::encode::CodecConfig;
use crate::encode::EncodeOptions;
use crate::encode::EncodedFrame;
use crate::encode::EncodedFrameView;
use crate::encode::EncoderCaps;
use crate::encode::EncoderCodec;
use crate::encode::EncoderConfig;
use crate::encode::H264Profile;
use crate::encode::HevcProfile;
use crate::encode::RateControlMode;
use crate::encode::ReconfigureParams;
use crate::error::Error;
use crate::operation::Carrier;
use crate::operation::Next;
use crate::operation::Progress;
use crate::operation::Release;
use crate::operation::SingleCall;
use crate::operation::Stage;
use crate::operation::Step;
use crate::operation::Turn;
use crate::operation::TurnView;
use crate::sys;
use crate::sys::Guid;

verus! {

/// An encoder.
///
/// Frames go in with [`Encoder::encode`]; what comes out is queued, and taken from the queue with
/// [`Encoder::next_frame`].
#[derive(Debug)]
pub struct Encoder {
    ctx: u64,
    session: u64,
    width: u32,
    height: u32,
    buffer_format: BufferFormat,
    expected_frame_size: usize,
    encoded_frames: VecDeque<EncodedFrame>,
    framerate_den: u64,
    frame_count: u64,
    init_params: InitializeParams,
    encode_config: EncodeConfig,
}

/// The state of an [`Encoder`].
#[verifier::ext_equal]
pub struct EncoderView {
    /// The CUDA context that the encoder lives in.
    pub ctx: u64,
    /// The encode session.
    pub session: u64,
    pub width: u32,
    pub height: u32,
    pub buffer_format: BufferFormat,
    /// Size that a frame to encode must have.
    pub expected_frame_size: usize,
    /// Frames that are ready.
    pub encoded_frames: Seq<EncodedFrameView>,
    pub framerate_den: u64,
    /// Number of pictures handed to the encode session.
    pub frame_count: u64,
    pub init_params: InitializeParams,
    pub encode_config: EncodeConfig,
}

impl View for Encoder {
    type V = EncoderView;

    closed spec fn view(&self) -> EncoderView {
        EncoderView {
            ctx: self.ctx,
            session: self.session,
            width: self.width,
            height: self.height,
            buffer_format: self.buffer_format,
            expected_frame_size: self.expected_frame_size,
            encoded_frames: self.encoded_frames@.map_values(|frame: EncodedFrame| frame@),
            framerate_den: self.framerate_den,
            frame_count: self.frame_count,
            init_params: self.init_params,
            encode_config: self.encode_config,
        }
    }
}

/// The codec that a configuration asks for, as NVENC identifies it.
pub open spec fn codec_guid(codec: CodecConfig) -> Guid {
    match codec {
        CodecConfig::H264(_) => sys::NV_ENC_CODEC_H264_GUID,
        CodecConfig::Hevc(_) => sys::NV_ENC_CODEC_HEVC_GUID,
        CodecConfig::Av1(_) => sys::NV_ENC_CODEC_AV1_GUID,
    }
}

/// The profile that a configuration asks for: Main unless it names another.
pub open spec fn profile_guid(codec: CodecConfig) -> Guid {
    match codec {
        CodecConfig::H264(h264) => match h264.profile {
            Some(profile) => profile.guid(),
            None => H264Profile::Main.guid(),
        },
        CodecConfig::Hevc(hevc) => match hevc.profile {
            Some(profile) => profile.guid(),
            None => HevcProfile::Main.guid(),
        },
        CodecConfig::Av1(av1) => match av1.profile {
            Some(profile) => profile.guid(),
            None => Av1Profile::Main.guid(),
        },
    }
}

/// `value`, or `default` where there is none.
pub open spec fn value_or(value: Option<u32>, default: u32) -> u32 {
    match value {
        Some(value) => value,
        None => default,
    }
}

/// The GOP length that a configuration asks for: unlimited unless it names one.
pub open spec fn gop_length(config: EncoderConfig) -> u32 {
    value_or(config.gop_length, sys::NVENC_INFINITE_GOPLENGTH)
}

/// The distance between IDR frames that a configuration asks for: the GOP length unless it names
/// another.
pub open spec fn idr_period(config: EncoderConfig) -> u32 {
    match config.codec {
        CodecConfig::H264(h264) => value_or(h264.idr_period, gop_length(config)),
        CodecConfig::Hevc(hevc) => value_or(hevc.idr_period, gop_length(config)),
        CodecConfig::Av1(av1) => value_or(av1.idr_period, gop_length(config)),
    }
}

/// The initialization parameters for a configuration.
pub open spec fn initialize_params(config: EncoderConfig) -> InitializeParams {
    InitializeParams {
        encode_guid: codec_guid(config.codec),
        preset_guid: config.preset.guid(),
        encode_width: config.width,
        encode_height: config.height,
        dar_width: config.width,
        dar_height: config.height,
        frame_rate_num: config.framerate_num,
        frame_rate_den: config.framerate_den,
        enable_ptd: 1,
        max_encode_width: value_or(config.max_encode_width, config.width),
        max_encode_height: value_or(config.max_encode_height, config.height),
        tuning_info: config.tuning_info.code(),
    }
}

/// The encoder configuration that `config` makes of a preset. With a constant QP the bit rates
/// stay as the preset has them.
pub open spec fn configured(config: EncoderConfig, preset: EncodeConfig) -> EncodeConfig {
    let limited = !(config.rate_control_mode is ConstQp);
    EncodeConfig {
        profile_guid: profile_guid(config.codec),
        gop_length: gop_length(config),
        frame_interval_p: config.frame_interval_p as i32,
        rate_control_mode: config.rate_control_mode.code(),
        average_bitrate: if limited {
            value_or(config.average_bitrate, 0)
        } else {
            preset.average_bitrate
        },
        max_bitrate: if limited {
            value_or(config.average_bitrate, 0)
        } else {
            preset.max_bitrate
        },
        idr_period: idr_period(config),
    }
}

/// Whether a configuration lacks the bit rate that its rate control mode needs.
pub open spec fn lacks_bitrate(config: EncoderConfig) -> bool {
    !(config.rate_control_mode is ConstQp) && config.average_bitrate is None
}

/// What an encoder is initialized with, for a configuration and the preset that it names.
pub open spec fn initialization(
    config: EncoderConfig,
    preset: EncodeConfig,
) -> Result<(InitializeParams, EncodeConfig), Error> {
    if lacks_bitrate(config) {
        Err(
            crate::error::custom(
                "initialize_encoder",
                "average_bitrate must be specified when not using ConstQp mode",
            ),
        )
    } else {
        Ok((initialize_params(config), configured(config, preset)))
    }
}

fn codec_settings(config: &EncoderConfig) -> (settings: (Guid, Guid, u32))
    ensures
        settings == (codec_guid(config.codec), profile_guid(config.codec), idr_period(*config)),
{
    let gop_length: u32 = config.gop_length.unwrap_or(sys::NVENC_INFINITE_GOPLENGTH);
    match &config.codec {
        CodecConfig::H264(h264) => {
            let profile = h264.profile.unwrap_or(H264Profile::Main).to_sys();
            let idr: u32 = h264.idr_period.unwrap_or(gop_length);
            (sys::NV_ENC_CODEC_H264_GUID, profile, idr)
        },
        CodecConfig::Hevc(hevc) => {
            let profile = hevc.profile.unwrap_or(HevcProfile::Main).to_sys();
            let idr: u32 = hevc.idr_period.unwrap_or(gop_length);
            (sys::NV_ENC_CODEC_HEVC_GUID, profile, idr)
        },
        CodecConfig::Av1(av1) => {
            let profile = av1.profile.unwrap_or(Av1Profile::Main).to_sys();
            let idr: u32 = av1.idr_period.unwrap_or(gop_length);
            (sys::NV_ENC_CODEC_AV1_GUID, profile, idr)
        },
    }
}

/// Works out what an encoder is initialized with, from its configuration and the preset that the
/// configuration names.
pub fn initialize_encoder(config: &EncoderConfig, preset: EncodeConfig) -> (result: Result<
    (InitializeParams, EncodeConfig),
    Error,
>)
    ensures
        result == initialization(*config, preset),
{
    let (codec_guid, profile_guid, idr_period) = codec_settings(config);
    let init_params = InitializeParams {
        encode_guid: codec_guid,
        preset_guid: config.preset.to_sys(),
        encode_width: config.width,
        encode_height: config.height,
        dar_width: config.width,
        dar_height: config.height,
        frame_rate_num: config.framerate_num,
        frame_rate_den: config.framerate_den,
        enable_ptd: 1,
        max_encode_width: config.max_encode_width.unwrap_or(config.width),
        max_encode_height: config.max_encode_height.unwrap_or(config.height),
        tuning_info: config.tuning_info.to_sys(),
    };
    let mut encode_config = preset;
    encode_config.profile_guid = profile_guid;
    encode_config.gop_length = config.gop_length.unwrap_or(sys::NVENC_INFINITE_GOPLENGTH);
    encode_config.frame_interval_p = config.frame_interval_p as i32;
    encode_config.rate_control_mode = config.rate_control_mode.to_sys();
    if config.rate_control_mode != RateControlMode::ConstQp {
        match config.average_bitrate {
            Some(bitrate) => {
                encode_config.average_bitrate = bitrate;
                encode_config.max_bitrate = bitrate;
            },
            None => {
                return Err(
                    Error::new_custom(
                        "initialize_encoder",
                        "average_bitrate must be specified when not using ConstQp mode",
                    ),
                );
            },
        }
    }
    encode_config.idr_period = idr_period;
    Ok((init_params, encode_config))
}

/// The stages of creating an encoder.
pub enum OpenEncoder {
    Load { config: EncoderConfig },
    CreateContext { config: EncoderConfig },
    Enter { config: EncoderConfig, ctx: u64 },
    CreateApiInstance { config: EncoderConfig, ctx: u64 },
    OpenSession { config: EncoderConfig, ctx: u64 },
    /// Leave the context after the session was opened, or after that has failed.
    Leave { config: EncoderConfig, ctx: u64, opened: Result<u64, Error> },
    EnterAgain { config: EncoderConfig, ctx: u64, session: u64 },
    Preset { config: EncoderConfig, ctx: u64, session: u64 },
    Initialize {
        config: EncoderConfig,
        ctx: u64,
        session: u64,
        init_params: InitializeParams,
        encode_config: EncodeConfig,
    },
}

/// A new encoder.
pub open spec fn new_encoder(
    config: EncoderConfig,
    ctx: u64,
    session: u64,
    init_params: InitializeParams,
    encode_config: EncodeConfig,
) -> EncoderView {
    EncoderView {
        ctx,
        session,
        width: config.width,
        height: config.height,
        buffer_format: config.buffer_format,
        expected_frame_size: config.buffer_format.frame_bytes(
            config.width as nat,
            config.height as nat,
        ) as usize,
        encoded_frames: Seq::empty(),
        framerate_den: config.framerate_den as u64,
        frame_count: 0,
        init_params,
        encode_config,
    }
}

impl Stage for OpenEncoder {
    type Context = ();

    type Output = Encoder;

    open spec fn admits(self, context: (), reply: Reply) -> bool {
        match self {
            OpenEncoder::Initialize { config, .. } => reply is Ok ==> config.buffer_format.measures(
                config.width as nat,
                config.height as nat,
            ),
            _ => true,
        }
    }

    open spec fn moves(self, before: (), reply: Reply, after: (), progress: Progress<
        Self,
        Encoder,
    >) -> bool {
        match (self, reply) {
            (OpenEncoder::Load { config }, Ok(_)) => progress.is(
                Seq::empty(),
                Next::Call {
                    stage: OpenEncoder::CreateContext { config },
                    call: Call::CtxCreate { flags: 0, device: config.device_id },
                },
            ),
            (OpenEncoder::CreateContext { config }, Ok(output)) => {
                let ctx = output.handle_spec();
                progress.is(
                    seq![Release::OnFailure(Call::CtxDestroy { ctx })],
                    Next::Call {
                        stage: OpenEncoder::Enter { config, ctx },
                        call: Call::CtxPushCurrent { ctx },
                    },
                )
            },
            (OpenEncoder::Enter { config, ctx }, Ok(_)) => progress.is(
                Seq::empty(),
                Next::Call {
                    stage: OpenEncoder::CreateApiInstance { config, ctx },
                    call: Call::CreateApiInstance,
                },
            ),
            (OpenEncoder::CreateApiInstance { config, ctx }, Ok(_)) => progress.is(
                Seq::empty(),
                Next::Call {
                    stage: OpenEncoder::OpenSession { config, ctx },
                    call: Call::OpenEncodeSession { ctx },
                },
            ),
            (OpenEncoder::CreateApiInstance { config, ctx }, Err(error)) => progress.is(
                Seq::empty(),
                Next::Call {
                    stage: OpenEncoder::Leave { config, ctx, opened: Err(error) },
                    call: Call::CtxPopCurrent,
                },
            ),
            (OpenEncoder::OpenSession { config, ctx }, Ok(output)) => progress.is(
                Seq::empty(),
                Next::Call {
                    stage: OpenEncoder::Leave { config, ctx, opened: Ok(output.handle_spec()) },
                    call: Call::CtxPopCurrent,
                },
            ),
            (OpenEncoder::OpenSession { config, ctx }, Err(error)) => progress.is(
                Seq::empty(),
                Next::Call {
                    stage: OpenEncoder::Leave { config, ctx, opened: Err(error) },
                    call: Call::CtxPopCurrent,
                },
            ),
            (OpenEncoder::Leave { config, ctx, opened: Ok(session) }, Ok(_)) => progress.is(
                seq![Release::InContextOnFailure { ctx, call: Call::DestroyEncoder { session } }],
                Next::Call {
                    stage: OpenEncoder::EnterAgain { config, ctx, session },
                    call: Call::CtxPushCurrent { ctx },
                },
            ),
            (OpenEncoder::Leave { opened: Err(error), .. }, Ok(_)) => progress.is(
                Seq::empty(),
                Next::Fail(error),
            ),
            (OpenEncoder::EnterAgain { config, ctx, session }, Ok(_)) => progress.is(
                seq![Release::Checked(Call::CtxPopCurrent)],
                Next::Call {
                    stage: OpenEncoder::Preset { config, ctx, session },
                    call: Call::GetEncodePresetConfig {
                        session,
                        codec: codec_guid(config.codec),
                        preset: config.preset.guid(),
                        tuning_info: config.tuning_info.code(),
                    },
                },
            ),
            (OpenEncoder::Preset { config, ctx, session }, Ok(output)) => match initialization(
                config,
                output.preset_spec(),
            ) {
                Ok((init_params, encode_config)) => progress.is(
                    Seq::empty(),
                    Next::Call {
                        stage: OpenEncoder::Initialize {
                            config,
                            ctx,
                            session,
                            init_params,
                            encode_config,
                        },
                        call: Call::InitializeEncoder {
                            session,
                            params: init_params,
                            config: encode_config,
                        },
                    },
                ),
                Err(error) => progress.is(Seq::empty(), Next::Fail(error)),
            },
            (
                OpenEncoder::Initialize { config, ctx, session, init_params, encode_config },
                Ok(_),
            ) => {
                &&& progress.acquired@ == Seq::<Release>::empty()
                &&& progress.next matches Next::Succeed(encoder)
                &&& encoder@ == new_encoder(config, ctx, session, init_params, encode_config)
            },
            (_, Err(error)) => progress.is(Seq::empty(), Next::Fail(error)),
        }
    }

    fn advance(self, context: &mut (), reply: Reply) -> (progress: Progress<Self, Encoder>) {
        match (self, reply) {
            (OpenEncoder::Load { config }, Ok(_)) => Progress::call(
                OpenEncoder::CreateContext { config },
                Call::CtxCreate { flags: 0, device: config.device_id },
            ),
            (OpenEncoder::CreateContext { config }, Ok(output)) => {
                let ctx: u64 = output.handle();
                Progress::acquire(
                    Release::OnFailure(Call::CtxDestroy { ctx }),
                    OpenEncoder::Enter { config, ctx },
                    Call::CtxPushCurrent { ctx },
                )
            },
            (OpenEncoder::Enter { config, ctx }, Ok(_)) => Progress::call(
                OpenEncoder::CreateApiInstance { config, ctx },
                Call::CreateApiInstance,
            ),
            (OpenEncoder::CreateApiInstance { config, ctx }, Ok(_)) => Progress::call(
                OpenEncoder::OpenSession { config, ctx },
                Call::OpenEncodeSession { ctx },
            ),
            (OpenEncoder::CreateApiInstance { config, ctx }, Err(error)) => Progress::call(
                OpenEncoder::Leave { config, ctx, opened: Err(error) },
                Call::CtxPopCurrent,
            ),
            (OpenEncoder::OpenSession { config, ctx }, Ok(output)) => Progress::call(
                OpenEncoder::Leave { config, ctx, opened: Ok(output.handle()) },
                Call::CtxPopCurrent,
            ),
            (OpenEncoder::OpenSession { config, ctx }, Err(error)) => Progress::call(
                OpenEncoder::Leave { config, ctx, opened: Err(error) },
                Call::CtxPopCurrent,
            ),
            (OpenEncoder::Leave { config, ctx, opened: Ok(session) }, Ok(_)) => Progress::acquire(
                Release::InContextOnFailure { ctx, call: Call::DestroyEncoder { session } },
                OpenEncoder::EnterAgain { config, ctx, session },
                Call::CtxPushCurrent { ctx },
            ),
            (OpenEncoder::Leave { opened: Err(error), .. }, Ok(_)) => Progress::fail(error),
            (OpenEncoder::EnterAgain { config, ctx, session }, Ok(_)) => {
                let (codec, _, _) = codec_settings(&config);
                Progress::acquire(
                    Release::Checked(Call::CtxPopCurrent),
                    OpenEncoder::Preset { config, ctx, session },
                    Call::GetEncodePresetConfig {
                        session,
                        codec,
                        preset: config.preset.to_sys(),
                        tuning_info: config.tuning_info.to_sys(),
                    },
                )
            },
            (OpenEncoder::Preset { config, ctx, session }, Ok(output)) => {
                match initialize_encoder(&config, output.preset()) {
                    Ok((init_params, encode_config)) => Progress::call(
                        OpenEncoder::Initialize { config, ctx, session, init_params, encode_config },
                        Call::InitializeEncoder {
                            session,
                            params: init_params,
                            config: encode_config,
                        },
                    ),
                    Err(error) => Progress::fail(error),
                }
            },
            (
                OpenEncoder::Initialize { config, ctx, session, init_params, encode_config },
                Ok(_),
            ) => {
                let encoder = Encoder {
                    ctx,
                    session,
                    width: config.width,
                    height: config.height,
                    buffer_format: config.buffer_format,
                    expected_frame_size: config.buffer_format.frame_size(
                        config.width,
                        config.height,
                    ),
                    encoded_frames: VecDeque::new(),
                    framerate_den: config.framerate_den as u64,
                    frame_count: 0,
                    init_params,
                    encode_config,
                };
                assert(encoder@ =~= new_encoder(config, ctx, session, init_params, encode_config));
                Progress::succeed(encoder)
            },
            (_, Err(error)) => Progress::fail(error),
        }
    }
}

/// The capabilities of an encoder, in the order in which they are asked for.
pub open spec fn capabilities() -> Seq<EncoderCapability> {
    seq![
        EncoderCapability::SupportedRateControlModes,
        EncoderCapability::SupportYuv444Encode,
        EncoderCapability::SupportYuv422Encode,
        EncoderCapability::SupportMeOnlyMode,
        EncoderCapability::WidthMax,
        EncoderCapability::HeightMax,
        EncoderCapability::WidthMin,
        EncoderCapability::HeightMin,
        EncoderCapability::NumMaxBFrames,
        EncoderCapability::Support10BitEncode,
        EncoderCapability::SupportLosslessEncode,
        EncoderCapability::SupportLookahead,
        EncoderCapability::SupportTemporalAq,
    ]
}

/// The capability that is asked for after `capability`.
pub open spec fn capability_after(capability: EncoderCapability) -> Option<EncoderCapability> {
    match capability {
        EncoderCapability::SupportedRateControlModes => Some(EncoderCapability::SupportYuv444Encode),
        EncoderCapability::SupportYuv444Encode => Some(EncoderCapability::SupportYuv422Encode),
        EncoderCapability::SupportYuv422Encode => Some(EncoderCapability::SupportMeOnlyMode),
        EncoderCapability::SupportMeOnlyMode => Some(EncoderCapability::WidthMax),
        EncoderCapability::WidthMax => Some(EncoderCapability::HeightMax),
        EncoderCapability::HeightMax => Some(EncoderCapability::WidthMin),
        EncoderCapability::WidthMin => Some(EncoderCapability::HeightMin),
        EncoderCapability::HeightMin => Some(EncoderCapability::NumMaxBFrames),
        EncoderCapability::NumMaxBFrames => Some(EncoderCapability::Support10BitEncode),
        EncoderCapability::Support10BitEncode => Some(EncoderCapability::SupportLosslessEncode),
        EncoderCapability::SupportLosslessEncode => Some(EncoderCapability::SupportLookahead),
        EncoderCapability::SupportLookahead => Some(EncoderCapability::SupportTemporalAq),
        EncoderCapability::SupportTemporalAq => None,
    }
}

fn next_capability(capability: EncoderCapability) -> (next: Option<EncoderCapability>)
    ensures
        next == capability_after(capability),
{
    match capability {
        EncoderCapability::SupportedRateControlModes => Some(EncoderCapability::SupportYuv444Encode),
        EncoderCapability::SupportYuv444Encode => Some(EncoderCapability::SupportYuv422Encode),
        EncoderCapability::SupportYuv422Encode => Some(EncoderCapability::SupportMeOnlyMode),
        EncoderCapability::SupportMeOnlyMode => Some(EncoderCapability::WidthMax),
        EncoderCapability::WidthMax => Some(EncoderCapability::HeightMax),
        EncoderCapability::HeightMax => Some(EncoderCapability::WidthMin),
        EncoderCapability::WidthMin => Some(EncoderCapability::HeightMin),
        EncoderCapability::HeightMin => Some(EncoderCapability::NumMaxBFrames),
        EncoderCapability::NumMaxBFrames => Some(EncoderCapability::Support10BitEncode),
        EncoderCapability::Support10BitEncode => Some(EncoderCapability::SupportLosslessEncode),
        EncoderCapability::SupportLosslessEncode => Some(EncoderCapability::SupportLookahead),
        EncoderCapability::SupportLookahead => Some(EncoderCapability::SupportTemporalAq),
        EncoderCapability::SupportTemporalAq => None,
    }
}

/// Capabilities of which nothing is known yet.
pub open spec fn no_caps() -> EncoderCaps {
    EncoderCaps {
        supported_ratecontrol_modes: 0,
        support_yuv444_encode: false,
        support_yuv422_encode: false,
        support_meonly_mode: false,
        width_max: 0,
        height_max: 0,
        width_min: 0,
        height_min: 0,
        num_max_bframes: 0,
        support_10bit_encode: false,
        support_lossless_encode: false,
        support_lookahead: false,
        support_temporal_aq: false,
    }
}

/// `caps`, with the value that the driver reports for `capability` put in its place.
pub open spec fn recorded(
    caps: EncoderCaps,
    capability: EncoderCapability,
    value: i32,
) -> EncoderCaps {
    match capability {
        EncoderCapability::SupportedRateControlModes => EncoderCaps {
            supported_ratecontrol_modes: value,
            ..caps
        },
        EncoderCapability::SupportYuv444Encode => EncoderCaps {
            support_yuv444_encode: value != 0,
            ..caps
        },
        EncoderCapability::SupportYuv422Encode => EncoderCaps {
            support_yuv422_encode: value != 0,
            ..caps
        },
        EncoderCapability::SupportMeOnlyMode => EncoderCaps {
            support_meonly_mode: value != 0,
            ..caps
        },
        EncoderCapability::WidthMax => EncoderCaps { width_max: value, ..caps },
        EncoderCapability::HeightMax => EncoderCaps { height_max: value, ..caps },
        EncoderCapability::WidthMin => EncoderCaps { width_min: value, ..caps },
        EncoderCapability::HeightMin => EncoderCaps { height_min: value, ..caps },
        EncoderCapability::NumMaxBFrames => EncoderCaps { num_max_bframes: value, ..caps },
        EncoderCapability::Support10BitEncode => EncoderCaps {
            support_10bit_encode: value != 0,
            ..caps
        },
        EncoderCapability::SupportLosslessEncode => EncoderCaps {
            support_lossless_encode: value != 0,
            ..caps
        },
        EncoderCapability::SupportLookahead => EncoderCaps {
            support_lookahead: value != 0,
            ..caps
        },
        EncoderCapability::SupportTemporalAq => EncoderCaps {
            support_temporal_aq: value != 0,
            ..caps
        },
    }
}

fn record(caps: EncoderCaps, capability: EncoderCapability, value: i32) -> (updated: EncoderCaps)
    ensures
        updated == recorded(caps, capability, value),
{
    let mut caps = caps;
    match capability {
        EncoderCapability::SupportedRateControlModes => {
            caps.supported_ratecontrol_modes = value;
        },
        EncoderCapability::SupportYuv444Encode => {
            caps.support_yuv444_encode = value != 0;
        },
        EncoderCapability::SupportYuv422Encode => {
            caps.support_yuv422_encode = value != 0;
        },
        EncoderCapability::SupportMeOnlyMode => {
            caps.support_meonly_mode = value != 0;
        },
        EncoderCapability::WidthMax => {
            caps.width_max = value;
        },
        EncoderCapability::HeightMax => {
            caps.height_max = value;
        },
        EncoderCapability::WidthMin => {
            caps.width_min = value;
        },
        EncoderCapability::HeightMin => {
            caps.height_min = value;
        },
        EncoderCapability::NumMaxBFrames => {
            caps.num_max_bframes = value;
        },
        EncoderCapability::Support10BitEncode => {
            caps.support_10bit_encode = value != 0;
        },
        EncoderCapability::SupportLosslessEncode => {
            caps.support_lossless_encode = value != 0;
        },
        EncoderCapability::SupportLookahead => {
            caps.support_lookahead = value != 0;
        },
        EncoderCapability::SupportTemporalAq => {
            caps.support_temporal_aq = value != 0;
        },
    }
    caps
}

/// The stages of asking for the capabilities of an encoder.
pub enum QueryEncoderCaps {
    Load { codec: Guid, device_id: i32 },
    CreateContext { codec: Guid },
    Enter { codec: Guid, ctx: u64 },
    CreateApiInstance { codec: Guid, ctx: u64 },
    OpenSession { codec: Guid },
    /// Ask for `capability`; `caps` is what the earlier answers have told.
    Query { codec: Guid, session: u64, capability: EncoderCapability, caps: EncoderCaps },
}

impl Stage for QueryEncoderCaps {
    type Context = ();

    type Output = EncoderCaps;

    open spec fn admits(self, context: (), reply: Reply) -> bool {
        true
    }

    open spec fn moves(self, before: (), reply: Reply, after: (), progress: Progress<
        Self,
        EncoderCaps,
    >) -> bool {
        match (self, reply) {
            (QueryEncoderCaps::Load { codec, device_id }, Ok(_)) => progress.is(
                Seq::empty(),
                Next::Call {
                    stage: QueryEncoderCaps::CreateContext { codec },
                    call: Call::CtxCreate { flags: 0, device: device_id },
                },
            ),
            (QueryEncoderCaps::CreateContext { codec }, Ok(output)) => {
                let ctx = output.handle_spec();
                progress.is(
                    seq![Release::CheckedOnSuccess(Call::CtxDestroy { ctx })],
                    Next::Call {
                        stage: QueryEncoderCaps::Enter { codec, ctx },
                        call: Call::CtxPushCurrent { ctx },
                    },
                )
            },
            (QueryEncoderCaps::Enter { codec, ctx }, Ok(_)) => progress.is(
                seq![Release::Checked(Call::CtxPopCurrent)],
                Next::Call {
                    stage: QueryEncoderCaps::CreateApiInstance { codec, ctx },
                    call: Call::CreateApiInstance,
                },
            ),
            (QueryEncoderCaps::CreateApiInstance { codec, ctx }, Ok(_)) => progress.is(
                Seq::empty(),
                Next::Call {
                    stage: QueryEncoderCaps::OpenSession { codec },
                    call: Call::OpenEncodeSession { ctx },
                },
            ),
            (QueryEncoderCaps::OpenSession { codec }, Ok(output)) => {
                let session = output.handle_spec();
                let capability = EncoderCapability::SupportedRateControlModes;
                progress.is(
                    seq![Release::Always(Call::DestroyEncoder { session })],
                    Next::Call {
                        stage: QueryEncoderCaps::Query {
                            codec,
                            session,
                            capability,
                            caps: no_caps(),
                        },
                        call: Call::GetEncodeCaps { session, codec, capability },
                    },
                )
            },
            (QueryEncoderCaps::Query { codec, session, capability, caps }, Ok(output)) => {
                let caps = recorded(caps, capability, output.integer_spec());
                match capability_after(capability) {
                    Some(capability) => progress.is(
                        Seq::empty(),
                        Next::Call {
                            stage: QueryEncoderCaps::Query { codec, session, capability, caps },
                            call: Call::GetEncodeCaps { session, codec, capability },
                        },
                    ),
                    None => progress.is(Seq::empty(), Next::Succeed(caps)),
                }
            },
            (_, Err(error)) => progress.is(Seq::empty(), Next::Fail(error)),
        }
    }

    fn advance(self, context: &mut (), reply: Reply) -> (progress: Progress<Self, EncoderCaps>) {
        match (self, reply) {
            (QueryEncoderCaps::Load { codec, device_id }, Ok(_)) => Progress::call(
                QueryEncoderCaps::CreateContext { codec },
                Call::CtxCreate { flags: 0, device: device_id },
            ),
            (QueryEncoderCaps::CreateContext { codec }, Ok(output)) => {
                let ctx: u64 = output.handle();
                Progress::acquire(
                    Release::CheckedOnSuccess(Call::CtxDestroy { ctx }),
                    QueryEncoderCaps::Enter { codec, ctx },
                    Call::CtxPushCurrent { ctx },
                )
            },
            (QueryEncoderCaps::Enter { codec, ctx }, Ok(_)) => Progress::acquire(
                Release::Checked(Call::CtxPopCurrent),
                QueryEncoderCaps::CreateApiInstance { codec, ctx },
                Call::CreateApiInstance,
            ),
            (QueryEncoderCaps::CreateApiInstance { codec, ctx }, Ok(_)) => Progress::call(
                QueryEncoderCaps::OpenSession { codec },
                Call::OpenEncodeSession { ctx },
            ),
            (QueryEncoderCaps::OpenSession { codec }, Ok(output)) => {
                let session: u64 = output.handle();
                let capability = EncoderCapability::SupportedRateControlModes;
                let caps = EncoderCaps {
                    supported_ratecontrol_modes: 0,
                    support_yuv444_encode: false,
                    support_yuv422_encode: false,
                    support_meonly_mode: false,
                    width_max: 0,
                    height_max: 0,
                    width_min: 0,
                    height_min: 0,
                    num_max_bframes: 0,
                    support_10bit_encode: false,
                    support_lossless_encode: false,
                    support_lookahead: false,
                    support_temporal_aq: false,
                };
                Progress::acquire(
                    Release::Always(Call::DestroyEncoder { session }),
                    QueryEncoderCaps::Query { codec, session, capability, caps },
                    Call::GetEncodeCaps { session, codec, capability },
                )
            },
            (QueryEncoderCaps::Query { codec, session, capability, caps }, Ok(output)) => {
                let caps = record(caps, capability, output.integer());
                match next_capability(capability) {
                    Some(capability) => Progress::call(
                        QueryEncoderCaps::Query { codec, session, capability, caps },
                        Call::GetEncodeCaps { session, codec, capability },
                    ),
                    None => Progress::succeed(caps),
                }
            },
            (_, Err(error)) => Progress::fail(error),
        }
    }
}

/// Starts to ask what the encoder for a codec is capable of.
pub fn query_encoder_caps(codec: EncoderCodec, device_id: i32) -> (turn: Turn<QueryEncoderCaps>)
    ensures
        turn@ == crate::operation::forward(
            QueryEncoderCaps::Load { codec: codec.guid(), device_id },
            Call::LoadLibraries,
            Seq::empty(),
        ),
{
    Turn::start(QueryEncoderCaps::Load { codec: codec.to_sys(), device_id }, Call::LoadLibraries)
}

/// What an operation needs to know of the frame that it encodes.
#[derive(Debug, Clone, Copy, PartialEq, Eq)]
pub struct EncodeJob {
    /// Size of the frame in bytes.
    pub size: usize,
    /// Bytes in a row of the first plane.
    pub pitch: u32,
    pub timestamp: u64,
    pub pic_flags: u32,
}

/// The stages of encoding a frame.
pub enum EncodeFrame<'a> {
    Enter { job: EncodeJob, frame: &'a [u8] },
    Allocate { job: EncodeJob, frame: &'a [u8] },
    Upload { job: EncodeJob, frame: &'a [u8], device_ptr: u64 },
    Register { job: EncodeJob },
    MapInput { job: EncodeJob, resource: u64 },
    CreateBuffer { job: EncodeJob, mapped: u64 },
    Encode { buffer: u64 },
    Lock { buffer: u64 },
}

/// The picture that an encoder hands to its session.
pub open spec fn picture(
    encoder: EncoderView,
    job: EncodeJob,
    mapped: u64,
    buffer: u64,
) -> PictureParams {
    PictureParams {
        input_width: encoder.width,
        input_height: encoder.height,
        input_pitch: job.pitch,
        input_buffer: mapped,
        output_bitstream: buffer,
        buffer_format: encoder.buffer_format.code(),
        picture_struct: sys::NV_ENC_PIC_STRUCT_FRAME,
        input_timestamp: job.timestamp,
        encode_pic_flags: job.pic_flags,
    }
}

impl<'a> Stage for EncodeFrame<'a> {
    type Context = Encoder;

    type Output = ();

    open spec fn admits(self, context: Encoder, reply: Reply) -> bool {
        self is CreateBuffer && reply is Ok ==> context@.frame_count < u64::MAX
    }

    open spec fn moves(
        self,
        before: Encoder,
        reply: Reply,
        after: Encoder,
        progress: Progress<Self, ()>,
    ) -> bool {
        let session = before@.session;
        match (self, reply) {
            (EncodeFrame::Enter { job, frame }, Ok(_)) => {
                &&& after == before
                &&& progress.is(
                    seq![Release::Checked(Call::CtxPopCurrent)],
                    Next::Call {
                        stage: EncodeFrame::Allocate { job, frame },
                        call: Call::MemAlloc { size: job.size },
                    },
                )
            },
            (EncodeFrame::Allocate { job, frame }, Ok(output)) => {
                let device_ptr = output.handle_spec();
                &&& after == before
                &&& progress.is(
                    seq![Release::Always(Call::MemFree { device_ptr })],
                    Next::Call {
                        stage: EncodeFrame::Upload { job, frame, device_ptr },
                        call: Call::MemcpyHtoD { device_ptr, size: job.size },
                    },
                )
            },
            (EncodeFrame::Upload { job, device_ptr, .. }, Ok(_)) => {
                &&& after == before
                &&& progress.is(
                    Seq::empty(),
                    Next::Call {
                        stage: EncodeFrame::Register { job },
                        call: Call::RegisterResource {
                            session,
                            image: InputImage {
                                device_ptr,
                                width: before@.width,
                                height: before@.height,
                                pitch: job.pitch,
                                buffer_format: before@.buffer_format.code(),
                            },
                        },
                    },
                )
            },
            (EncodeFrame::Register { job }, Ok(output)) => {
                let resource = output.handle_spec();
                &&& after == before
                &&& progress.is(
                    seq![Release::Always(Call::UnregisterResource { session, resource })],
                    Next::Call {
                        stage: EncodeFrame::MapInput { job, resource },
                        call: Call::MapInputResource { session, resource },
                    },
                )
            },
            (EncodeFrame::MapInput { job, resource }, Ok(output)) => {
                let mapped = output.handle_spec();
                &&& after == before
                &&& progress.is(
                    seq![Release::Always(Call::UnmapInputResource { session, mapped })],
                    Next::Call {
                        stage: EncodeFrame::CreateBuffer { job, mapped },
                        call: Call::CreateBitstreamBuffer { session },
                    },
                )
            },
            (EncodeFrame::CreateBuffer { job, mapped }, Ok(output)) => {
                let buffer = output.handle_spec();
                &&& after@ == EncoderView {
                    frame_count: (before@.frame_count + 1) as u64,
                    ..before@
                }
                &&& progress.is(
                    seq![Release::Always(Call::DestroyBitstreamBuffer { session, buffer })],
                    Next::Call {
                        stage: EncodeFrame::Encode { buffer },
                        call: Call::EncodePicture {
                            session,
                            picture: picture(before@, job, mapped, buffer),
                        },
                    },
                )
            },
            (EncodeFrame::Encode { buffer }, Ok(_)) => {
                &&& after == before
                &&& progress.is(
                    Seq::empty(),
                    Next::Call {
                        stage: EncodeFrame::Lock { buffer },
                        call: Call::LockBitstream { session, buffer },
                    },
                )
            },
            (EncodeFrame::Lock { buffer }, Ok(output)) => {
                let unlock = Release::Always(Call::UnlockBitstream { session, buffer });
                match output.bitstream_spec() {
                    Some((data, timestamp, pic_type)) => {
                        &&& after@ == EncoderView {
                            encoded_frames: before@.encoded_frames.push(
                                EncodedFrameView {
                                    data,
                                    timestamp,
                                    picture_type: crate::encode::picture_type_of(pic_type),
                                },
                            ),
                            ..before@
                        }
                        &&& progress.is(seq![unlock], Next::Succeed(()))
                    },
                    None => {
                        &&& after == before
                        &&& progress.is(
                            seq![unlock],
                            Next::Fail(
                                crate::error::custom(
                                    "nvEncLockBitstream",
                                    "bitstreamBufferPtr is null",
                                ),
                            ),
                        )
                    },
                }
            },
            (_, Err(error)) => {
                &&& after == before
                &&& progress.is(Seq::empty(), Next::Fail(error))
            },
        }
    }

    fn advance(self, context: &mut Encoder, reply: Reply) -> (progress: Progress<Self, ()>) {
        let session: u64 = context.session;
        match (self, reply) {
            (EncodeFrame::Enter { job, frame }, Ok(_)) => Progress::acquire(
                Release::Checked(Call::CtxPopCurrent),
                EncodeFrame::Allocate { job, frame },
                Call::MemAlloc { size: job.size },
            ),
            (EncodeFrame::Allocate { job, frame }, Ok(output)) => {
                let device_ptr: u64 = output.handle();
                Progress::acquire(
                    Release::Always(Call::MemFree { device_ptr }),
                    EncodeFrame::Upload { job, frame, device_ptr },
                    Call::MemcpyHtoD { device_ptr, size: job.size },
                )
            },
            (EncodeFrame::Upload { job, device_ptr, .. }, Ok(_)) => {
                let image = InputImage {
                    device_ptr,
                    width: context.width,
                    height: context.height,
                    pitch: job.pitch,
                    buffer_format: context.buffer_format.to_sys(),
                };
                Progress::call(
                    EncodeFrame::Register { job },
                    Call::RegisterResource { session, image },
                )
            },
            (EncodeFrame::Register { job }, Ok(output)) => {
                let resource: u64 = output.handle();
                Progress::acquire(
                    Release::Always(Call::UnregisterResource { session, resource }),
                    EncodeFrame::MapInput { job, resource },
                    Call::MapInputResource { session, resource },
                )
            },
            (EncodeFrame::MapInput { job, resource: _ }, Ok(output)) => {
                let mapped: u64 = output.handle();
                Progress::acquire(
                    Release::Always(Call::UnmapInputResource { session, mapped }),
                    EncodeFrame::CreateBuffer { job, mapped },
                    Call::CreateBitstreamBuffer { session },
                )
            },
            (EncodeFrame::CreateBuffer { job, mapped }, Ok(output)) => {
                let buffer: u64 = output.handle();
                let picture = PictureParams {
                    input_width: context.width,
                    input_height: context.height,
                    input_pitch: job.pitch,
                    input_buffer: mapped,
                    output_bitstream: buffer,
                    buffer_format: context.buffer_format.to_sys(),
                    picture_struct: sys::NV_ENC_PIC_STRUCT_FRAME,
                    input_timestamp: job.timestamp,
                    encode_pic_flags: job.pic_flags,
                };
                context.frame_count = context.frame_count + 1;
                Progress::acquire(
                    Release::Always(Call::DestroyBitstreamBuffer { session, buffer }),
                    EncodeFrame::Encode { buffer },
                    Call::EncodePicture { session, picture },
                )
            },
            (EncodeFrame::Encode { buffer }, Ok(_)) => Progress::call(
                EncodeFrame::Lock { buffer },
                Call::LockBitstream { session, buffer },
            ),
            (EncodeFrame::Lock { buffer }, Ok(output)) => {
                let ghost before = *context;
                let unlock = Release::Always(Call::UnlockBitstream { session, buffer });
                let acquired = vec![unlock];
                assert(acquired@ =~= seq![unlock]);
                match output.into_bitstream() {
                    Some((data, timestamp, pic_type)) => {
                        let frame = EncodedFrame::new(data, timestamp, pic_type);
                        context.encoded_frames.push_back(frame);
                        assert(context@.encoded_frames =~= before@.encoded_frames.push(frame@));
                        Progress { acquired, next: Next::Succeed(()) }
                    },
                    None => Progress {
                        acquired,
                        next: Next::Fail(
                            Error::new_custom("nvEncLockBitstream", "bitstreamBufferPtr is null"),
                        ),
                    },
                }
            },
            (_, Err(error)) => Progress::fail(error),
        }
    }
}

impl<'a> Carrier for EncodeFrame<'a> {
    /// The upload takes the frame. No other call takes data.
    open spec fn payload(self) -> Option<Seq<u8>> {
        match self {
            EncodeFrame::Upload { frame, .. } => Some(frame@),
            _ => None,
        }
    }

    fn data(&self) -> (data: Option<&[u8]>) {
        match self {
            EncodeFrame::Upload { frame, .. } => Some(*frame),
            _ => None,
        }
    }
}

/// What a reconfiguration would set, or why it is refused.
pub open spec fn reconfiguration(
    encoder: EncoderView,
    params: ReconfigureParams,
) -> Result<(InitializeParams, EncodeConfig), Error> {
    let init = encoder.init_params;
    let config = encoder.encode_config;
    if params.width is Some && params.width->0 > init.max_encode_width {
        Err(crate::error::custom("reconfigure", "width exceeds maxEncodeWidth"))
    } else if params.height is Some && params.height->0 > init.max_encode_height {
        Err(crate::error::custom("reconfigure", "height exceeds maxEncodeHeight"))
    } else {
        Ok(
            (
                InitializeParams {
                    encode_width: value_or(params.width, init.encode_width),
                    dar_width: value_or(params.width, init.dar_width),
                    encode_height: value_or(params.height, init.encode_height),
                    dar_height: value_or(params.height, init.dar_height),
                    frame_rate_num: value_or(params.framerate_num, init.frame_rate_num),
                    frame_rate_den: value_or(params.framerate_den, init.frame_rate_den),
                    ..init
                },
                EncodeConfig {
                    average_bitrate: value_or(params.average_bitrate, config.average_bitrate),
                    max_bitrate: value_or(params.max_bitrate, config.max_bitrate),
                    ..config
                },
            ),
        )
    }
}

/// An encoder after a reconfiguration that the driver has accepted.
pub open spec fn reconfigured(
    encoder: EncoderView,
    params: ReconfigureParams,
    init_params: InitializeParams,
    encode_config: EncodeConfig,
) -> EncoderView {
    let width = value_or(params.width, encoder.width);
    let height = value_or(params.height, encoder.height);
    EncoderView {
        width,
        height,
        expected_frame_size: if params.width is Some || params.height is Some {
            encoder.buffer_format.frame_bytes(width as nat, height as nat) as usize
        } else {
            encoder.expected_frame_size
        },
        framerate_den: match params.framerate_den {
            Some(den) => den as u64,
            None => encoder.framerate_den,
        },
        init_params,
        encode_config,
        ..encoder
    }
}

/// The stages of reconfiguring an encoder.
pub enum Reconfigure {
    Enter { params: ReconfigureParams },
    Apply {
        params: ReconfigureParams,
        init_params: InitializeParams,
        encode_config: EncodeConfig,
    },
}

impl Stage for Reconfigure {
    type Context = Encoder;

    type Output = ();

    open spec fn admits(self, context: Encoder, reply: Reply) -> bool {
        match self {
            Reconfigure::Apply { params, .. } => reply is Ok && (params.width is Some
                || params.height is Some) ==> context@.buffer_format.measures(
                value_or(params.width, context@.width) as nat,
                value_or(params.height, context@.height) as nat,
            ),
            _ => true,
        }
    }

    open spec fn moves(
        self,
        before: Encoder,
        reply: Reply,
        after: Encoder,
        progress: Progress<Self, ()>,
    ) -> bool {
        match (self, reply) {
            (Reconfigure::Enter { params }, Ok(_)) => {
                &&& after == before
                &&& match reconfiguration(before@, params) {
                    Ok((init_params, encode_config)) => progress.is(
                        seq![Release::Checked(Call::CtxPopCurrent)],
                        Next::Call {
                            stage: Reconfigure::Apply { params, init_params, encode_config },
                            call: Call::ReconfigureEncoder {
                                session: before@.session,
                                params: init_params,
                                config: encode_config,
                            },
                        },
                    ),
                    Err(error) => progress.is(
                        seq![Release::Checked(Call::CtxPopCurrent)],
                        Next::Fail(error),
                    ),
                }
            },
            (Reconfigure::Apply { params, init_params, encode_config }, Ok(_)) => {
                &&& after@ == reconfigured(before@, params, init_params, encode_config)
                &&& progress.is(Seq::empty(), Next::Succeed(()))
            },
            (_, Err(error)) => {
                &&& after == before
                &&& progress.is(Seq::empty(), Next::Fail(error))
            },
        }
    }

    fn advance(self, context: &mut Encoder, reply: Reply) -> (progress: Progress<Self, ()>) {
        match (self, reply) {
            (Reconfigure::Enter { params }, Ok(_)) => {
                let leave = Release::Checked(Call::CtxPopCurrent);
                match context.reconfigure_inner(&params) {
                    Ok((init_params, encode_config)) => Progress::acquire(
                        leave,
                        Reconfigure::Apply { params, init_params, encode_config },
                        Call::ReconfigureEncoder {
                            session: context.session,
                            params: init_params,
                            config: encode_config,
                        },
                    ),
                    Err(error) => {
                        let acquired = vec![leave];
                        assert(acquired@ =~= seq![leave]);
                        Progress { acquired, next: Next::Fail(error) }
                    },
                }
            },
            (Reconfigure::Apply { params, init_params, encode_config }, Ok(_)) => {
                context.encode_config = encode_config;
                context.init_params = init_params;
                if let Some(width) = params.width {
                    context.width = width;
                }
                if let Some(height) = params.height {
                    context.height = height;
                }
                if params.width.is_some() || params.height.is_some() {
                    context.expected_frame_size = context.buffer_format.frame_size(
                        context.width,
                        context.height,
                    );
                }
                if let Some(framerate_den) = params.framerate_den {
                    context.framerate_den = framerate_den as u64;
                }
                Progress::succeed(())
            },
            (_, Err(error)) => Progress::fail(error),
        }
    }
}

/// The stages of reading the sequence header of an encoder.
pub enum SequenceParams {
    Enter,
    Query,
}

impl Stage for SequenceParams {
    type Context = Encoder;

    type Output = Vec<u8>;

    open spec fn admits(self, context: Encoder, reply: Reply) -> bool {
        true
    }

    open spec fn moves(
        self,
        before: Encoder,
        reply: Reply,
        after: Encoder,
        progress: Progress<Self, Vec<u8>>,
    ) -> bool {
        &&& after == before
        &&& match (self, reply) {
            (SequenceParams::Enter, Ok(_)) => progress.is(
                seq![Release::Checked(Call::CtxPopCurrent)],
                Next::Call {
                    stage: SequenceParams::Query,
                    call: Call::GetSequenceParams {
                        session: before@.session,
                        buffer_size: sys::NV_MAX_SEQ_HDR_LEN,
                    },
                },
            ),
            (SequenceParams::Query, Ok(output)) => {
                &&& progress.acquired@ == Seq::<Release>::empty()
                &&& progress.next matches Next::Succeed(header)
                &&& header@ == output.sequence_header_spec()
            },
            (_, Err(error)) => progress.is(Seq::empty(), Next::Fail(error)),
        }
    }

    fn advance(self, context: &mut Encoder, reply: Reply) -> (progress: Progress<Self, Vec<u8>>) {
        match (self, reply) {
            (SequenceParams::Enter, Ok(_)) => Progress::acquire(
                Release::Checked(Call::CtxPopCurrent),
                SequenceParams::Query,
                Call::GetSequenceParams {
                    session: context.session,
                    buffer_size: sys::NV_MAX_SEQ_HDR_LEN,
                },
            ),
            (SequenceParams::Query, Ok(output)) => Progress::succeed(output.into_sequence_header()),
            (_, Err(error)) => Progress::fail(error),
        }
    }
}

/// The turn in which a reconfiguration starts.
pub open spec fn reconfigure_start(encoder: EncoderView, params: ReconfigureParams) -> TurnView<
    Reconfigure,
> {
    crate::operation::forward(
        Reconfigure::Enter { params },
        Call::CtxPushCurrent { ctx: encoder.ctx },
        Seq::empty(),
    )
}

/// The turn in which reading the sequence parameters starts.
pub open spec fn sequence_params_start(encoder: EncoderView) -> TurnView<SequenceParams> {
    crate::operation::forward(
        SequenceParams::Enter,
        Call::CtxPushCurrent { ctx: encoder.ctx },
        Seq::empty(),
    )
}

/// The turn in which an encoder is told that no more frames will come.
pub open spec fn finish_start(encoder: EncoderView) -> TurnView<SingleCall> {
    crate::operation::forward(
        SingleCall,
        Call::EncodePicture {
            session: encoder.session,
            picture: PictureParams {
                input_width: 0,
                input_height: 0,
                input_pitch: 0,
                input_buffer: 0,
                output_bitstream: 0,
                buffer_format: 0,
                picture_struct: 0,
                input_timestamp: encoder.frame_count,
                encode_pic_flags: sys::NV_ENC_PIC_FLAG_EOS,
            },
        },
        Seq::empty(),
    )
}

/// What is to be released when an encoder is taken down.
pub open spec fn closing_releases(encoder: EncoderView) -> Seq<Release> {
    seq![
        Release::Always(Call::CtxDestroy { ctx: encoder.ctx }),
        Release::InContext {
            ctx: encoder.ctx,
            call: Call::DestroyEncoder { session: encoder.session },
        },
    ]
}

impl Encoder {
    /// Starts to create an encoder.
    pub fn new(config: EncoderConfig) -> (turn: Turn<OpenEncoder>)
        ensures
            turn@ == crate::operation::forward(
                OpenEncoder::Load { config },
                Call::LoadLibraries,
                Seq::empty(),
            ),
    {
        Turn::start(OpenEncoder::Load { config }, Call::LoadLibraries)
    }

    /// Starts to ask what the encoder for a codec is capable of.
    pub fn query_caps(codec: EncoderCodec, device_id: i32) -> (turn: Turn<QueryEncoderCaps>)
        ensures
            turn@ == crate::operation::forward(
                QueryEncoderCaps::Load { codec: codec.guid(), device_id },
                Call::LoadLibraries,
                Seq::empty(),
            ),
    {
        query_encoder_caps(codec, device_id)
    }

    /// Starts to reconfigure the encoder, while it runs.
    ///
    /// What `params` leaves open stays as it is.
    pub fn reconfigure(&self, params: ReconfigureParams) -> (turn: Turn<Reconfigure>)
        ensures
            turn@ == reconfigure_start(self@, params),
            turn@ == crate::operation::forward(
                Reconfigure::Enter { params },
                Call::CtxPushCurrent { ctx: self@.ctx },
                Seq::empty(),
            ),
    {
        Turn::start(Reconfigure::Enter { params }, Call::CtxPushCurrent { ctx: self.ctx })
    }

    fn reconfigure_inner(&self, params: &ReconfigureParams) -> (result: Result<
        (InitializeParams, EncodeConfig),
        Error,
    >)
        ensures
            result == reconfiguration(self@, *params),
    {
        if let Some(width) = params.width {
            if width > self.init_params.max_encode_width {
                return Err(Error::new_custom("reconfigure", "width exceeds maxEncodeWidth"));
            }
        }
        if let Some(height) = params.height {
            if height > self.init_params.max_encode_height {
                return Err(Error::new_custom("reconfigure", "height exceeds maxEncodeHeight"));
            }
        }
        let mut init_params = self.init_params;
        let mut encode_config = self.encode_config;
        if let Some(width) = params.width {
            init_params.encode_width = width;
            init_params.dar_width = width;
        }
        if let Some(height) = params.height {
            init_params.encode_height = height;
            init_params.dar_height = height;
        }
        if let Some(framerate_num) = params.framerate_num {
            init_params.frame_rate_num = framerate_num;
        }
        if let Some(framerate_den) = params.framerate_den {
            init_params.frame_rate_den = framerate_den;
        }
        if let Some(bitrate) = params.average_bitrate {
            encode_config.average_bitrate = bitrate;
        }
        if let Some(bitrate) = params.max_bitrate {
            encode_config.max_bitrate = bitrate;
        }
        Ok((init_params, encode_config))
    }

    /// Starts to read the sequence parameters: SPS and PPS, or the sequence header OBU of AV1.
    pub fn get_sequence_params(&self) -> (turn: Turn<SequenceParams>)
        ensures
            turn@ == sequence_params_start(self@),
            turn@ == crate::operation::forward(
                SequenceParams::Enter,
                Call::CtxPushCurrent { ctx: self@.ctx },
                Seq::empty(),
            ),
    {
        Turn::start(SequenceParams::Enter, Call::CtxPushCurrent { ctx: self.ctx })
    }

    /// The job of encoding a frame.
    pub open spec fn job(self, options: EncodeOptions) -> EncodeJob {
        EncodeJob {
            size: self@.expected_frame_size,
            pitch: self@.buffer_format.row_bytes(self@.width as nat) as u32,
            timestamp: (self@.frame_count * self@.framerate_den) as u64,
            pic_flags: options.pic_flags(),
        }
    }

    /// Starts to encode a frame.
    pub fn encode<'a>(&self, frame_data: &'a [u8], options: &EncodeOptions) -> (turn: Turn<
        EncodeFrame<'a>,
    >)
        requires
            frame_data@.len() == self@.expected_frame_size ==> {
                &&& self@.buffer_format.row_bytes(self@.width as nat) <= u32::MAX
                &&& self@.frame_count * self@.framerate_den <= u64::MAX
            },
        ensures
            frame_data@.len() != self@.expected_frame_size ==> turn@
                == crate::operation::finished::<EncodeFrame>(
                Err(crate::error::custom("encode", "invalid frame data size")),
            ),
            frame_data@.len() == self@.expected_frame_size ==> turn@ == crate::runs::encode_start(
                self@,
                self.job(*options),
                frame_data,
            ),
            frame_data@.len() == self@.expected_frame_size ==> turn@ == crate::operation::forward(
                EncodeFrame::Enter { job: self.job(*options), frame: frame_data },
                Call::CtxPushCurrent { ctx: self@.ctx },
                Seq::empty(),
            ),
    {
        if frame_data.len() != self.expected_frame_size {
            return Turn::refuse(Error::new_custom("encode", "invalid frame data size"));
        }
        let job = EncodeJob {
            size: frame_data.len(),
            pitch: self.buffer_format.bytes_per_row(self.width),
            timestamp: self.frame_count * self.framerate_den,
            pic_flags: options.to_pic_flags(),
        };
        Turn::start(
            EncodeFrame::Enter { job, frame: frame_data },
            Call::CtxPushCurrent { ctx: self.ctx },
        )
    }

    /// Starts to tell the encoder that no more frames will come.
    pub fn finish(&self) -> (turn: Turn<SingleCall>)
        ensures
            turn@ == finish_start(self@),
            turn@ == crate::operation::forward(
                SingleCall,
                Call::EncodePicture {
                    session: self@.session,
                    picture: PictureParams {
                        input_width: 0,
                        input_height: 0,
                        input_pitch: 0,
                        input_buffer: 0,
                        output_bitstream: 0,
                        buffer_format: 0,
                        picture_struct: 0,
                        input_timestamp: self@.frame_count,
                        encode_pic_flags: sys::NV_ENC_PIC_FLAG_EOS,
                    },
                },
                Seq::empty(),
            ),
    {
        let picture = PictureParams {
            input_width: 0,
            input_height: 0,
            input_pitch: 0,
            input_buffer: 0,
            output_bitstream: 0,
            buffer_format: 0,
            picture_struct: 0,
            input_timestamp: self.frame_count,
            encode_pic_flags: sys::NV_ENC_PIC_FLAG_EOS,
        };
        Turn::start(SingleCall, Call::EncodePicture { session: self.session, picture })
    }

    /// Takes the next encoded frame, the oldest first.
    pub fn next_frame(&mut self) -> (frame: Option<EncodedFrame>)
        ensures
            match frame {
                Some(frame) => {
                    &&& old(self)@.encoded_frames.len() > 0
                    &&& frame@ == old(self)@.encoded_frames[0]
                    &&& final(self)@ == EncoderView {
                        encoded_frames: old(self)@.encoded_frames.drop_first(),
                        ..old(self)@
                    }
                },
                None => old(self)@.encoded_frames.len() == 0 && final(self)@ == old(self)@,
            },
    {
        let ghost before = self@;
        let frame = self.encoded_frames.pop_front();
        assert(frame is Some ==> self@.encoded_frames =~= before.encoded_frames.drop_first());
        assert(frame is None ==> self@.encoded_frames =~= before.encoded_frames);
        frame
    }

    /// Starts to take the encoder down.
    pub fn close(self) -> (turn: Turn<SingleCall>)
        ensures
            turn@ == crate::operation::unwound::<SingleCall>(Ok(()), closing_releases(self@)),
            turn@ == crate::operation::unwound::<SingleCall>(
                Ok(()),
                seq![
                    Release::Always(Call::CtxDestroy { ctx: self@.ctx }),
                    Release::InContext {
                        ctx: self@.ctx,
                        call: Call::DestroyEncoder { session: self@.session },
                    },
                ],
            ),
    {
        let releases = vec![
            Release::Always(Call::CtxDestroy { ctx: self.ctx }),
            Release::InContext {
                ctx: self.ctx,
                call: Call::DestroyEncoder { session: self.session },
            },
        ];
        assert(releases@ =~= seq![
            Release::Always(Call::CtxDestroy { ctx: self@.ctx }),
            Release::InContext {
                ctx: self@.ctx,
                call: Call::DestroyEncoder { session: self@.session },
            },
        ]);
        Turn::release((), releases)
    }
}

/// Whether the size that is expected of a frame is that of the frames of the encoder.
pub open spec fn expects_its_frames(encoder: EncoderView) -> bool {
    encoder.expected_frame_size == encoder.buffer_format.frame_bytes(
        encoder.width as nat,
        encoder.height as nat,
    )
}

/// Whether the encoder is within the limits that it was created with.
pub open spec fn within_limits(encoder: EncoderView) -> bool {
    &&& encoder.width == encoder.init_params.encode_width
    &&& encoder.height == encoder.init_params.encode_height
    &&& encoder.init_params.encode_width <= encoder.init_params.max_encode_width
    &&& encoder.init_params.encode_height <= encoder.init_params.max_encode_height
}

/// A new encoder expects frames of its own size. If the configuration does not ask for more than
/// its own maximum, the encoder is within its limits.
pub proof fn new_encoders_expect_their_frames(
    config: EncoderConfig,
    ctx: u64,
    session: u64,
    preset: EncodeConfig,
)
    requires
        config.buffer_format.measures(config.width as nat, config.height as nat),
        config.width <= value_or(config.max_encode_width, config.width),
        config.height <= value_or(config.max_encode_height, config.height),
    ensures
        initialization(config, preset) matches Ok((init_params, encode_config)) ==> {
            let encoder = new_encoder(config, ctx, session, init_params, encode_config);
            expects_its_frames(encoder) && within_limits(encoder)
        },
{
    frame_size_fits(config.buffer_format, config.width, config.height);
}

proof fn frame_size_fits(format: BufferFormat, width: u32, height: u32)
    requires
        format.measures(width as nat, height as nat),
    ensures
        format.frame_bytes(width as nat, height as nat) <= usize::MAX,
{
}

/// A reconfiguration keeps to the limits that the encoder was created with, which it does not
/// change, and the encoder goes on to expect frames of its own size.
pub proof fn reconfiguration_keeps_to_the_limits(encoder: EncoderView, params: ReconfigureParams)
    requires
        expects_its_frames(encoder),
        within_limits(encoder),
        encoder.buffer_format.measures(
            value_or(params.width, encoder.width) as nat,
            value_or(params.height, encoder.height) as nat,
        ),
    ensures
        reconfiguration(encoder, params) is Ok <==> {
            &&& value_or(params.width, 0) <= encoder.init_params.max_encode_width
            &&& value_or(params.height, 0) <= encoder.init_params.max_encode_height
        },
        reconfiguration(encoder, params) matches Ok((init_params, encode_config)) ==> {
            let after = reconfigured(encoder, params, init_params, encode_config);
            &&& expects_its_frames(after)
            &&& within_limits(after)
            &&& after.init_params.max_encode_width == encoder.init_params.max_encode_width
            &&& after.init_params.max_encode_height == encoder.init_params.max_encode_height
            &&& after.encoded_frames == encoder.encoded_frames
            &&& after.frame_count == encoder.frame_count
        },
{
    frame_size_fits(
        encoder.buffer_format,
        value_or(params.width, encoder.width),
        value_or(params.height, encoder.height),
    );
}

/// A reconfiguration that asks for nothing changes nothing.
pub proof fn empty_reconfiguration_changes_nothing(encoder: EncoderView)
    ensures
        ({
            let params = ReconfigureParams {
                width: None,
                height: None,
                framerate_num: None,
                framerate_den: None,
                average_bitrate: None,
                max_bitrate: None,
            };
            &&& reconfiguration(encoder, params) == Ok::<(InitializeParams, EncodeConfig), Error>(
                (encoder.init_params, encoder.encode_config),
            )
            &&& reconfigured(encoder, params, encoder.init_params, encoder.encode_config)
                == encoder
        }),
{
}

/// Capabilities after the answers to the first `n` questions.
pub open spec fn answered(values: Seq<i32>, n: nat) -> EncoderCaps
    decreases n,
{
    if n == 0 {
        no_caps()
    } else {
        recorded(
            answered(values, (n - 1) as nat),
            capabilities()[n - 1],
            values[n - 1],
        )
    }
}

/// Each capability is asked for once, in order, and each answer lands in its own place.
pub proof fn every_capability_is_asked_for_once(values: Seq<i32>)
    requires
        values.len() == capabilities().len(),
    ensures
        forall|i: int|
            0 <= i < capabilities().len() ==> capability_after(#[trigger] capabilities()[i])
                == if i + 1 < capabilities().len() {
                Some(capabilities()[i + 1])
            } else {
                None::<EncoderCapability>
            },
        answered(values, capabilities().len()) == (EncoderCaps {
            supported_ratecontrol_modes: values[0],
            support_yuv444_encode: values[1] != 0,
            support_yuv422_encode: values[2] != 0,
            support_meonly_mode: values[3] != 0,
            width_max: values[4],
            height_max: values[5],
            width_min: values[6],
            height_min: values[7],
            num_max_bframes: values[8],
            support_10bit_encode: values[9] != 0,
            support_lossless_encode: values[10] != 0,
            support_lookahead: values[11] != 0,
            support_temporal_aq: values[12] != 0,
        }),
{
    reveal_with_fuel(answered, 14);
}

/// An encoder is initialized as it was configured: with the codec and the profile, the size, the
/// frame rate, the preset and the tuning, the rate control mode and the bit rate, and the distances
/// between key frames and P frames. What the configuration leaves open is the Main profile, an
/// unlimited GOP, IDR frames as far apart as the GOP is long, and limits that are the size itself.
/// A bit rate has to be there unless the QP is constant; and then the preset's stay.
pub proof fn encoders_are_initialized_as_configured(config: EncoderConfig, preset: EncodeConfig)
    ensures
        match initialization(config, preset) {
            Err(error) => {
                &&& config.average_bitrate is None
                &&& config.rate_control_mode is Vbr || config.rate_control_mode is Cbr
                &&& error.function == "initialize_encoder"
                &&& error@.status_message == Some(
                    "average_bitrate must be specified when not using ConstQp mode"@,
                )
            },
            Ok((params, settings)) => {
                &&& config.rate_control_mode is ConstQp || config.average_bitrate is Some
                &&& params.preset_guid == config.preset.guid()
                &&& params.tuning_info == config.tuning_info.code()
                &&& params.encode_width == config.width
                &&& params.encode_height == config.height
                &&& params.dar_width == config.width
                &&& params.dar_height == config.height
                &&& params.frame_rate_num == config.framerate_num
                &&& params.frame_rate_den == config.framerate_den
                &&& params.enable_ptd == 1
                &&& config.max_encode_width matches Some(width) ==> params.max_encode_width
                    == width
                &&& config.max_encode_width is None ==> params.max_encode_width == config.width
                &&& config.max_encode_height matches Some(height) ==> params.max_encode_height
                    == height
                &&& config.max_encode_height is None ==> params.max_encode_height == config.height
                &&& config.rate_control_mode is ConstQp <==> settings.rate_control_mode == 0
                &&& config.rate_control_mode is Vbr <==> settings.rate_control_mode == 1
                &&& config.rate_control_mode is Cbr <==> settings.rate_control_mode == 2
                &&& config.rate_control_mode is ConstQp ==> settings.average_bitrate
                    == preset.average_bitrate && settings.max_bitrate == preset.max_bitrate
                &&& !(config.rate_control_mode is ConstQp) ==> settings.average_bitrate
                    == config.average_bitrate->0 && settings.max_bitrate
                    == config.average_bitrate->0
                &&& config.gop_length matches Some(length) ==> settings.gop_length == length
                &&& config.gop_length is None ==> settings.gop_length == u32::MAX
                &&& config.frame_interval_p <= i32::MAX ==> settings.frame_interval_p
                    == config.frame_interval_p
            },
        },
{
}

/// An encoder is initialized for the codec that its configuration names, with the profile and the
/// distance between IDR frames that the configuration has for that codec.
pub proof fn encoders_are_initialized_for_their_codec(config: EncoderConfig, preset: EncodeConfig)
    ensures
        initialization(config, preset) matches Ok((params, settings)) ==> match config.codec {
            CodecConfig::H264(h264) => {
                &&& params.encode_guid == EncoderCodec::H264.guid()
                &&& h264.profile matches Some(profile) ==> settings.profile_guid == profile.guid()
                &&& h264.profile is None ==> settings.profile_guid == H264Profile::Main.guid()
                &&& h264.idr_period matches Some(period) ==> settings.idr_period == period
                &&& h264.idr_period is None ==> settings.idr_period == settings.gop_length
            },
            CodecConfig::Hevc(hevc) => {
                &&& params.encode_guid == EncoderCodec::Hevc.guid()
                &&& hevc.profile matches Some(profile) ==> settings.profile_guid == profile.guid()
                &&& hevc.profile is None ==> settings.profile_guid == HevcProfile::Main.guid()
                &&& hevc.idr_period matches Some(period) ==> settings.idr_period == period
                &&& hevc.idr_period is None ==> settings.idr_period == settings.gop_length
            },
            CodecConfig::Av1(av1) => {
                &&& params.encode_guid == EncoderCodec::Av1.guid()
                &&& av1.profile matches Some(profile) ==> settings.profile_guid == profile.guid()
                &&& av1.profile is None ==> settings.profile_guid == Av1Profile::Main.guid()
                &&& av1.idr_period matches Some(period) ==> settings.idr_period == period
                &&& av1.idr_period is None ==> settings.idr_period == settings.gop_length
            },
        },
{
}

/// A reconfiguration that is accepted gives the driver each parameter that it names, in the place
/// of that parameter; each one that it does not name is as before; and so is all that cannot be
/// reconfigured.
pub proof fn reconfigurations_set_what_they_name(encoder: EncoderView, params: ReconfigureParams)
    ensures
        match reconfiguration(encoder, params) {
            Err(error) => {
                let too_wide = params.width is Some && params.width->0
                    > encoder.init_params.max_encode_width;
                let too_high = params.height is Some && params.height->0
                    > encoder.init_params.max_encode_height;
                &&& too_wide || too_high
                &&& error.function == "reconfigure"
                &&& too_wide ==> error@.status_message == Some("width exceeds maxEncodeWidth"@)
                &&& !too_wide ==> error@.status_message == Some("height exceeds maxEncodeHeight"@)
            },
            Ok((init, config)) => {
                let old_init = encoder.init_params;
                let old_config = encoder.encode_config;
                &&& params.width matches Some(width) ==> width <= old_init.max_encode_width
                    && init.encode_width == width && init.dar_width == width
                &&& params.width is None ==> init.encode_width == old_init.encode_width
                    && init.dar_width == old_init.dar_width
                &&& params.height matches Some(height) ==> height <= old_init.max_encode_height
                    && init.encode_height == height && init.dar_height == height
                &&& params.height is None ==> init.encode_height == old_init.encode_height
                    && init.dar_height == old_init.dar_height
                &&& params.framerate_num matches Some(num) ==> init.frame_rate_num == num
                &&& params.framerate_num is None ==> init.frame_rate_num
                    == old_init.frame_rate_num
                &&& params.framerate_den matches Some(den) ==> init.frame_rate_den == den
                &&& params.framerate_den is None ==> init.frame_rate_den
                    == old_init.frame_rate_den
                &&& params.average_bitrate matches Some(rate) ==> config.average_bitrate == rate
                &&& params.average_bitrate is None ==> config.average_bitrate
                    == old_config.average_bitrate
                &&& params.max_bitrate matches Some(rate) ==> config.max_bitrate == rate
                &&& params.max_bitrate is None ==> config.max_bitrate == old_config.max_bitrate
                &&& init.encode_guid == old_init.encode_guid
                &&& init.preset_guid == old_init.preset_guid
                &&& init.enable_ptd == old_init.enable_ptd
                &&& init.max_encode_width == old_init.max_encode_width
                &&& init.max_encode_height == old_init.max_encode_height
                &&& init.tuning_info == old_init.tuning_info
                &&& config.profile_guid == old_config.profile_guid
                &&& config.gop_length == old_config.gop_length
                &&& config.frame_interval_p == old_config.frame_interval_p
                &&& config.rate_control_mode == old_config.rate_control_mode
                &&& config.idr_period == old_config.idr_period
            },
        },
{
}

/// An encoder that was reconfigured goes by what the reconfiguration names: it takes frames of the
/// new size, and its timestamps advance by the new denominator. It keeps what the driver was given,
/// so that the next reconfiguration starts from there; and its handles, its frames and its count.
pub proof fn reconfigured_encoders_go_by_what_was_named(
    encoder: EncoderView,
    params: ReconfigureParams,
    init_params: InitializeParams,
    encode_config: EncodeConfig,
)
    requires
        encoder.buffer_format.measures(
            value_or(params.width, encoder.width) as nat,
            value_or(params.height, encoder.height) as nat,
        ),
    ensures
        ({
            let after = reconfigured(encoder, params, init_params, encode_config);
            &&& params.width matches Some(width) ==> after.width == width
            &&& params.width is None ==> after.width == encoder.width
            &&& params.height matches Some(height) ==> after.height == height
            &&& params.height is None ==> after.height == encoder.height
            &&& params.framerate_den matches Some(den) ==> after.framerate_den == den
            &&& params.framerate_den is None ==> after.framerate_den == encoder.framerate_den
            &&& params.width is Some || params.height is Some ==> after.expected_frame_size
                == after.buffer_format.frame_bytes(after.width as nat, after.height as nat)
            &&& params.width is None && params.height is None ==> after.expected_frame_size
                == encoder.expected_frame_size
            &&& after.init_params == init_params
            &&& after.encode_config == encode_config
            &&& after.ctx == encoder.ctx
            &&& after.session == encoder.session
            &&& after.buffer_format == encoder.buffer_format
            &&& after.encoded_frames == encoder.encoded_frames
            &&& after.frame_count == encoder.frame_count
        }),
{
    frame_size_fits(
        encoder.buffer_format,
        value_or(params.width, encoder.width),
        value_or(params.height, encoder.height),
    );
}

/// Two reconfigurations, one after the other, set what the later one names; and what only the
/// earlier one names stays as that has set it.
pub proof fn later_reconfigurations_keep_the_earlier(
    encoder: EncoderView,
    first: ReconfigureParams,
    second: ReconfigureParams,
)
    requires
        reconfiguration(encoder, first) is Ok,
    ensures
        ({
            let (init, config) = reconfiguration(encoder, first)->Ok_0;
            let between = reconfigured(encoder, first, init, config);
            reconfiguration(between, second) matches Ok((last_init, last_config)) ==> {
                &&& second.framerate_den is None && first.framerate_den is Some
                    ==> last_init.frame_rate_den == first.framerate_den->0
                &&& second.framerate_num is None && first.framerate_num is Some
                    ==> last_init.frame_rate_num == first.framerate_num->0
                &&& second.width is None && first.width is Some ==> last_init.encode_width
                    == first.width->0
                &&& second.height is None && first.height is Some ==> last_init.encode_height
                    == first.height->0
                &&& second.average_bitrate is None && first.average_bitrate is Some
                    ==> last_config.average_bitrate == first.average_bitrate->0
                &&& second.max_bitrate is None && first.max_bitrate is Some
                    ==> last_config.max_bitrate == first.max_bitrate->0
            }
        }),
{
}

/// Whether capabilities say what the driver has answered about one of them. Where the question is
/// whether something is supported, 0 is no, and all else is yes.
pub open spec fn says(caps: EncoderCaps, capability: EncoderCapability, answer: i32) -> bool {
    match capability {
        EncoderCapability::SupportedRateControlModes => caps.supported_ratecontrol_modes == answer,
        EncoderCapability::SupportYuv444Encode => caps.support_yuv444_encode <==> answer != 0,
        EncoderCapability::SupportYuv422Encode => caps.support_yuv422_encode <==> answer != 0,
        EncoderCapability::SupportMeOnlyMode => caps.support_meonly_mode <==> answer != 0,
        EncoderCapability::WidthMax => caps.width_max == answer,
        EncoderCapability::HeightMax => caps.height_max == answer,
        EncoderCapability::WidthMin => caps.width_min == answer,
        EncoderCapability::HeightMin => caps.height_min == answer,
        EncoderCapability::NumMaxBFrames => caps.num_max_bframes == answer,
        EncoderCapability::Support10BitEncode => caps.support_10bit_encode <==> answer != 0,
        EncoderCapability::SupportLosslessEncode => caps.support_lossless_encode <==> answer != 0,
        EncoderCapability::SupportLookahead => caps.support_lookahead <==> answer != 0,
        EncoderCapability::SupportTemporalAq => caps.support_temporal_aq <==> answer != 0,
    }
}

/// An answer is recorded for the capability that was asked about, and leaves what is known of the
/// others as it was.
pub proof fn answers_are_recorded_where_they_belong(
    caps: EncoderCaps,
    capability: EncoderCapability,
    answer: i32,
    other: EncoderCapability,
    earlier: i32,
)
    ensures
        says(recorded(caps, capability, answer), capability, answer),
        other != capability && says(caps, other, earlier) ==> says(
            recorded(caps, capability, answer),
            other,
            earlier,
        ),
{
}

/// Every capability is asked about, and none twice.
pub proof fn every_capability_is_asked_about(capability: EncoderCapability) -> (position: int)
    ensures
        0 <= position < capabilities().len(),
        capabilities()[position] == capability,
        capabilities().no_duplicates(),
{
    match capability {
        EncoderCapability::SupportedRateControlModes => 0,
        EncoderCapability::SupportYuv444Encode => 1,
        EncoderCapability::SupportYuv422Encode => 2,
        EncoderCapability::SupportMeOnlyMode => 3,
        EncoderCapability::WidthMax => 4,
        EncoderCapability::HeightMax => 5,
        EncoderCapability::WidthMin => 6,
        EncoderCapability::HeightMin => 7,
        EncoderCapability::NumMaxBFrames => 8,
        EncoderCapability::Support10BitEncode => 9,
        EncoderCapability::SupportLosslessEncode => 10,
        EncoderCapability::SupportLookahead => 11,
        EncoderCapability::SupportTemporalAq => 12,
    }
}

/// After all questions the capabilities say what was answered about each of them.
pub proof fn capabilities_say_what_was_answered(values: Seq<i32>, i: int)
    requires
        0 <= i < capabilities().len(),
    ensures
        says(answered(values, capabilities().len()), capabilities()[i], values[i]),
{
    answers_stay(values, i, capabilities().len());
}

proof fn answers_stay(values: Seq<i32>, i: int, n: nat)
    requires
        0 <= i < n <= capabilities().len(),
    ensures
        says(answered(values, n), capabilities()[i], values[i]),
    decreases n,
{
    let last = n - 1;
    every_capability_is_asked_about(capabilities()[i]);
    if i < last {
        answers_stay(values, i, last as nat);
    }
    answers_are_recorded_where_they_belong(
        answered(values, last as nat),
        capabilities()[last],
        values[last],
        capabilities()[i],
        values[i],
    );
}

/// A frame is encoded as the encoder stands and as its options say: all of it, in rows of the
/// length that the layout has for its width, as the picture that comes after those counted so far.
pub proof fn jobs_are_what_the_encoder_stands_for(encoder: Encoder, options: EncodeOptions)
    requires
        encoder@.buffer_format.row_bytes(encoder@.width as nat) <= u32::MAX,
        encoder@.frame_count * encoder@.framerate_den <= u64::MAX,
    ensures
        ({
            let job = encoder.job(options);
            &&& job.size == encoder@.expected_frame_size
            &&& job.pitch == encoder@.buffer_format.row_bytes(encoder@.width as nat)
            &&& job.timestamp == encoder@.frame_count * encoder@.framerate_den
            &&& job.pic_flags & 1 == 1 <==> options.force_intra
            &&& job.pic_flags & 2 == 2 <==> options.force_idr
            &&& job.pic_flags & 4 == 4 <==> options.output_spspps
            &&& job.pic_flags < 8
        }),
{
    crate::encode::options_are_bits(options);
}

/// The end of the stream goes to the session of the encoder. It is a picture without any input,
/// marked as the end.
pub proof fn the_end_goes_to_the_session(encoder: EncoderView)
    ensures
        finish_start(encoder).step matches Step::Call(Call::EncodePicture { session, picture }) && {
            &&& session == encoder.session
            &&& picture.encode_pic_flags == 8
            &&& picture.input_buffer == 0
            &&& picture.output_bitstream == 0
            &&& picture.input_timestamp == encoder.frame_count
        },
{
}

/// An encoder is taken down in order: its session, with the context current, and then the context.
pub proof fn an_encoder_is_taken_down_in_order(encoder: EncoderView)
    ensures
        closing_releases(encoder).len() == 2,
        closing_releases(encoder).last() matches Release::InContext { ctx, call } && ctx
            == encoder.ctx && call == (Call::DestroyEncoder { session: encoder.session }),
        closing_releases(encoder)[0] == Release::Always(Call::CtxDestroy { ctx: encoder.ctx }),
{
}

} // verus!
