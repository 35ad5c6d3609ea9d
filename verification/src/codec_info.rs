//! Which codecs a GPU supports.

use vstd::prelude::*;

use crate::decode::DecoderCaps;
use crate::decode::DecoderCodec;
use crate::decode::QueryDecoderCaps;
use crate::driver::Call;
use crate::driver::Reply;
use crate::encode::EncoderCaps;
use crate::encode::EncoderCodec;
use crate::encoder::QueryEncoderCaps;
use crate::error::Error;
use crate::operation::Next;
use crate::operation::Operation;
use crate::operation::Progress;
use crate::operation::Release;
use crate::operation::Stage;
use crate::operation::Step;
use crate::operation::Turn;
use crate::operation::TurnView;

verus! {

/// A video codec.
#[derive(Debug, Clone, Copy, PartialEq, Eq, Structural)]
pub enum VideoCodecType {
    /// H.264 / AVC
    H264,
    /// H.265 / HEVC
    Hevc,
    Av1,
    Vp8,
    Vp9,
    Jpeg,
}

/// Number of codecs.
pub const NUM_CODECS: usize = 6;

/// All codecs, in the order in which they are reported.
pub open spec fn all_codecs() -> Seq<VideoCodecType> {
    seq![
        VideoCodecType::H264,
        VideoCodecType::Hevc,
        VideoCodecType::Av1,
        VideoCodecType::Vp8,
        VideoCodecType::Vp9,
        VideoCodecType::Jpeg,
    ]
}

impl VideoCodecType {
    /// All codecs, in the order in which they are reported.
    pub fn all() -> (codecs: Vec<VideoCodecType>)
        ensures
            codecs@ == all_codecs(),
    {
        let codecs = vec![
            VideoCodecType::H264,
            VideoCodecType::Hevc,
            VideoCodecType::Av1,
            VideoCodecType::Vp8,
            VideoCodecType::Vp9,
            VideoCodecType::Jpeg,
        ];
        assert(codecs@ =~= all_codecs());
        codecs
    }

    pub open spec fn decoder_codec(self) -> DecoderCodec {
        match self {
            VideoCodecType::H264 => DecoderCodec::H264,
            VideoCodecType::Hevc => DecoderCodec::Hevc,
            VideoCodecType::Av1 => DecoderCodec::Av1,
            VideoCodecType::Vp8 => DecoderCodec::Vp8,
            VideoCodecType::Vp9 => DecoderCodec::Vp9,
            VideoCodecType::Jpeg => DecoderCodec::Jpeg,
        }
    }

    /// The codec, for decoding.
    pub fn to_decoder_codec(self) -> (codec: DecoderCodec)
        ensures
            codec == self.decoder_codec(),
    {
        match self {
            VideoCodecType::H264 => DecoderCodec::H264,
            VideoCodecType::Hevc => DecoderCodec::Hevc,
            VideoCodecType::Av1 => DecoderCodec::Av1,
            VideoCodecType::Vp8 => DecoderCodec::Vp8,
            VideoCodecType::Vp9 => DecoderCodec::Vp9,
            VideoCodecType::Jpeg => DecoderCodec::Jpeg,
        }
    }

    pub open spec fn encoder_codec(self) -> Option<EncoderCodec> {
        match self {
            VideoCodecType::H264 => Some(EncoderCodec::H264),
            VideoCodecType::Hevc => Some(EncoderCodec::Hevc),
            VideoCodecType::Av1 => Some(EncoderCodec::Av1),
            VideoCodecType::Vp8 | VideoCodecType::Vp9 | VideoCodecType::Jpeg => None,
        }
    }

    /// The codec, for encoding; `None` if NVENC cannot encode it.
    pub fn to_encoder_codec(self) -> (codec: Option<EncoderCodec>)
        ensures
            codec == self.encoder_codec(),
    {
        match self {
            VideoCodecType::H264 => Some(EncoderCodec::H264),
            VideoCodecType::Hevc => Some(EncoderCodec::Hevc),
            VideoCodecType::Av1 => Some(EncoderCodec::Av1),
            VideoCodecType::Vp8 | VideoCodecType::Vp9 | VideoCodecType::Jpeg => None,
        }
    }
}

/// What is known of a codec.
#[derive(Debug)]
pub struct CodecInfo {
    pub codec: VideoCodecType,
    pub decoding: DecodingInfo,
    pub encoding: EncodingInfo,
}

/// What is known of decoding a codec.
#[derive(Debug, Clone, Copy)]
pub struct DecodingInfo {
    pub supported: bool,
    /// The same as `supported`: NVDEC is hardware.
    pub hardware_accelerated: bool,
    pub max_width: u32,
    pub max_height: u32,
    pub min_width: u32,
    pub min_height: u32,
    /// Largest number of macroblocks.
    pub max_mb_count: u32,
}

/// What is known of encoding a codec.
#[derive(Debug)]
pub struct EncodingInfo {
    pub supported: bool,
    /// The same as `supported`: NVENC is hardware.
    pub hardware_accelerated: bool,
    /// The profiles of the codec.
    pub profiles: EncodingProfiles,
    pub max_width: i32,
    pub max_height: i32,
    pub min_width: i32,
    pub min_height: i32,
    pub num_max_bframes: i32,
    pub supports_yuv444: bool,
    pub supports_yuv422: bool,
    pub supports_10bit: bool,
    pub supports_lossless: bool,
    pub supports_lookahead: bool,
    pub supports_temporal_aq: bool,
    /// Bit mask of the supported rate control modes.
    pub supported_ratecontrol_modes: i32,
}

/// The profiles of a codec that NVENC knows.
#[derive(Debug, PartialEq)]
pub enum EncodingProfiles {
    H264(Vec<H264EncodingProfile>),
    Hevc(Vec<HevcEncodingProfile>),
    Av1(Vec<Av1EncodingProfile>),
    /// The codec cannot be encoded.
    Unsupported,
}

/// A profile of H.264.
#[derive(Debug, Clone, Copy, PartialEq, Eq, Structural)]
pub enum H264EncodingProfile {
    Baseline,
    Main,
    High,
    High10,
    High422,
    High444,
    Stereo,
    ProgressiveHigh,
    ConstrainedHigh,
}

/// A profile of HEVC.
#[derive(Debug, Clone, Copy, PartialEq, Eq, Structural)]
pub enum HevcEncodingProfile {
    Main,
    Main10,
    /// Format range extensions.
    Frext,
}

/// A profile of AV1.
#[derive(Debug, Clone, Copy, PartialEq, Eq, Structural)]
pub enum Av1EncodingProfile {
    Main,
}

/// What [`EncodingProfiles`] list.
#[verifier::ext_equal]
pub enum ProfilesView {
    H264(Seq<H264EncodingProfile>),
    Hevc(Seq<HevcEncodingProfile>),
    Av1(Seq<Av1EncodingProfile>),
    Unsupported,
}

impl View for EncodingProfiles {
    type V = ProfilesView;

    open spec fn view(&self) -> ProfilesView {
        match *self {
            EncodingProfiles::H264(profiles) => ProfilesView::H264(profiles@),
            EncodingProfiles::Hevc(profiles) => ProfilesView::Hevc(profiles@),
            EncodingProfiles::Av1(profiles) => ProfilesView::Av1(profiles@),
            EncodingProfiles::Unsupported => ProfilesView::Unsupported,
        }
    }
}

impl Clone for EncodingProfiles {
    fn clone(&self) -> (copy: Self)
        ensures
            copy@ == self@,
    {
        match self {
            EncodingProfiles::H264(profiles) => EncodingProfiles::H264(profiles.clone()),
            EncodingProfiles::Hevc(profiles) => EncodingProfiles::Hevc(profiles.clone()),
            EncodingProfiles::Av1(profiles) => EncodingProfiles::Av1(profiles.clone()),
            EncodingProfiles::Unsupported => EncodingProfiles::Unsupported,
        }
    }
}

/// What [`EncodingInfo`] says.
#[verifier::ext_equal]
pub struct EncodingInfoView {
    pub supported: bool,
    pub hardware_accelerated: bool,
    pub profiles: ProfilesView,
    pub max_width: i32,
    pub max_height: i32,
    pub min_width: i32,
    pub min_height: i32,
    pub num_max_bframes: i32,
    pub supports_yuv444: bool,
    pub supports_yuv422: bool,
    pub supports_10bit: bool,
    pub supports_lossless: bool,
    pub supports_lookahead: bool,
    pub supports_temporal_aq: bool,
    pub supported_ratecontrol_modes: i32,
}

impl View for EncodingInfo {
    type V = EncodingInfoView;

    open spec fn view(&self) -> EncodingInfoView {
        EncodingInfoView {
            supported: self.supported,
            hardware_accelerated: self.hardware_accelerated,
            profiles: self.profiles@,
            max_width: self.max_width,
            max_height: self.max_height,
            min_width: self.min_width,
            min_height: self.min_height,
            num_max_bframes: self.num_max_bframes,
            supports_yuv444: self.supports_yuv444,
            supports_yuv422: self.supports_yuv422,
            supports_10bit: self.supports_10bit,
            supports_lossless: self.supports_lossless,
            supports_lookahead: self.supports_lookahead,
            supports_temporal_aq: self.supports_temporal_aq,
            supported_ratecontrol_modes: self.supported_ratecontrol_modes,
        }
    }
}

impl Clone for EncodingInfo {
    fn clone(&self) -> (copy: Self)
        ensures
            copy@ == self@,
    {
        EncodingInfo {
            supported: self.supported,
            hardware_accelerated: self.hardware_accelerated,
            profiles: self.profiles.clone(),
            max_width: self.max_width,
            max_height: self.max_height,
            min_width: self.min_width,
            min_height: self.min_height,
            num_max_bframes: self.num_max_bframes,
            supports_yuv444: self.supports_yuv444,
            supports_yuv422: self.supports_yuv422,
            supports_10bit: self.supports_10bit,
            supports_lossless: self.supports_lossless,
            supports_lookahead: self.supports_lookahead,
            supports_temporal_aq: self.supports_temporal_aq,
            supported_ratecontrol_modes: self.supported_ratecontrol_modes,
        }
    }
}

/// What [`CodecInfo`] says.
#[verifier::ext_equal]
pub struct CodecInfoView {
    pub codec: VideoCodecType,
    pub decoding: DecodingInfo,
    pub encoding: EncodingInfoView,
}

impl View for CodecInfo {
    type V = CodecInfoView;

    open spec fn view(&self) -> CodecInfoView {
        CodecInfoView {
            codec: self.codec,
            decoding: self.decoding,
            encoding: self.encoding@,
        }
    }
}

impl Clone for CodecInfo {
    fn clone(&self) -> (copy: Self)
        ensures
            copy@ == self@,
    {
        CodecInfo {
            codec: self.codec,
            decoding: self.decoding,
            encoding: self.encoding.clone(),
        }
    }
}

/// What is said of a codec that cannot be encoded.
pub open spec fn unsupported_encoding() -> EncodingInfoView {
    EncodingInfoView {
        supported: false,
        hardware_accelerated: false,
        profiles: ProfilesView::Unsupported,
        max_width: 0,
        max_height: 0,
        min_width: 0,
        min_height: 0,
        num_max_bframes: 0,
        supports_yuv444: false,
        supports_yuv422: false,
        supports_10bit: false,
        supports_lossless: false,
        supports_lookahead: false,
        supports_temporal_aq: false,
        supported_ratecontrol_modes: 0,
    }
}

impl EncodingInfo {
    /// What is said of a codec that cannot be encoded.
    pub fn unsupported() -> (info: Self)
        ensures
            info@ == unsupported_encoding(),
    {
        EncodingInfo {
            supported: false,
            hardware_accelerated: false,
            profiles: EncodingProfiles::Unsupported,
            max_width: 0,
            max_height: 0,
            min_width: 0,
            min_height: 0,
            num_max_bframes: 0,
            supports_yuv444: false,
            supports_yuv422: false,
            supports_10bit: false,
            supports_lossless: false,
            supports_lookahead: false,
            supports_temporal_aq: false,
            supported_ratecontrol_modes: 0,
        }
    }
}

/// The profiles of a codec.
pub open spec fn profiles_of(codec: VideoCodecType) -> ProfilesView {
    match codec {
        VideoCodecType::H264 => ProfilesView::H264(
            seq![
                H264EncodingProfile::Baseline,
                H264EncodingProfile::Main,
                H264EncodingProfile::High,
                H264EncodingProfile::High10,
                H264EncodingProfile::High422,
                H264EncodingProfile::High444,
                H264EncodingProfile::Stereo,
                H264EncodingProfile::ProgressiveHigh,
                H264EncodingProfile::ConstrainedHigh,
            ],
        ),
        VideoCodecType::Hevc => ProfilesView::Hevc(
            seq![
                HevcEncodingProfile::Main,
                HevcEncodingProfile::Main10,
                HevcEncodingProfile::Frext,
            ],
        ),
        VideoCodecType::Av1 => ProfilesView::Av1(seq![Av1EncodingProfile::Main]),
        _ => ProfilesView::Unsupported,
    }
}

/// The profiles of a codec that NVENC knows.
pub fn profiles_for_codec(codec: VideoCodecType) -> (profiles: EncodingProfiles)
    ensures
        profiles@ == profiles_of(codec),
{
    let profiles = match codec {
        VideoCodecType::H264 => EncodingProfiles::H264(
            vec![
                H264EncodingProfile::Baseline,
                H264EncodingProfile::Main,
                H264EncodingProfile::High,
                H264EncodingProfile::High10,
                H264EncodingProfile::High422,
                H264EncodingProfile::High444,
                H264EncodingProfile::Stereo,
                H264EncodingProfile::ProgressiveHigh,
                H264EncodingProfile::ConstrainedHigh,
            ],
        ),
        VideoCodecType::Hevc => EncodingProfiles::Hevc(
            vec![
                HevcEncodingProfile::Main,
                HevcEncodingProfile::Main10,
                HevcEncodingProfile::Frext,
            ],
        ),
        VideoCodecType::Av1 => EncodingProfiles::Av1(vec![Av1EncodingProfile::Main]),
        _ => EncodingProfiles::Unsupported,
    };
    assert(profiles@ =~= profiles_of(codec));
    profiles
}

/// What is said of decoding a codec, given what the driver says of its capabilities. A codec of
/// which that cannot be learned counts as one that is not supported.
pub open spec fn decoding_info(caps: Result<DecoderCaps, Error>) -> DecodingInfo {
    match caps {
        Ok(caps) => DecodingInfo {
            supported: caps.is_supported,
            hardware_accelerated: caps.is_supported,
            max_width: caps.max_width,
            max_height: caps.max_height,
            min_width: caps.min_width,
            min_height: caps.min_height,
            max_mb_count: caps.max_mb_count,
        },
        Err(_) => DecodingInfo {
            supported: false,
            hardware_accelerated: false,
            max_width: 0,
            max_height: 0,
            min_width: 0,
            min_height: 0,
            max_mb_count: 0,
        },
    }
}

/// Works out what is said of decoding a codec, given its capabilities.
pub fn probe_decoding(caps: Result<DecoderCaps, Error>) -> (info: DecodingInfo)
    ensures
        info == decoding_info(caps),
{
    match caps {
        Ok(caps) => DecodingInfo {
            supported: caps.is_supported,
            hardware_accelerated: caps.is_supported,
            max_width: caps.max_width,
            max_height: caps.max_height,
            min_width: caps.min_width,
            min_height: caps.min_height,
            max_mb_count: caps.max_mb_count,
        },
        Err(_) => DecodingInfo {
            supported: false,
            hardware_accelerated: false,
            max_width: 0,
            max_height: 0,
            min_width: 0,
            min_height: 0,
            max_mb_count: 0,
        },
    }
}

/// What is said of encoding a codec, given what the driver says of its capabilities. A codec of
/// which that cannot be learned, or of which it is not asked, counts as one that is not supported.
pub open spec fn encoding_info(
    codec: VideoCodecType,
    caps: Option<Result<EncoderCaps, Error>>,
) -> EncodingInfoView {
    if codec.encoder_codec() is None {
        unsupported_encoding()
    } else {
        match caps {
            Some(Ok(caps)) => EncodingInfoView {
                supported: caps.width_max > 0,
                hardware_accelerated: caps.width_max > 0,
                profiles: if caps.width_max > 0 {
                    profiles_of(codec)
                } else {
                    ProfilesView::Unsupported
                },
                max_width: caps.width_max,
                max_height: caps.height_max,
                min_width: caps.width_min,
                min_height: caps.height_min,
                num_max_bframes: caps.num_max_bframes,
                supports_yuv444: caps.support_yuv444_encode,
                supports_yuv422: caps.support_yuv422_encode,
                supports_10bit: caps.support_10bit_encode,
                supports_lossless: caps.support_lossless_encode,
                supports_lookahead: caps.support_lookahead,
                supports_temporal_aq: caps.support_temporal_aq,
                supported_ratecontrol_modes: caps.supported_ratecontrol_modes,
            },
            _ => unsupported_encoding(),
        }
    }
}

/// Works out what is said of encoding a codec, given its capabilities, if these were asked for.
pub fn probe_encoding(
    codec: VideoCodecType,
    caps: Option<Result<EncoderCaps, Error>>,
) -> (info: EncodingInfo)
    ensures
        info@ == encoding_info(codec, caps),
{
    if codec.to_encoder_codec().is_none() {
        return EncodingInfo::unsupported();
    }
    match caps {
        Some(Ok(caps)) => {
            let supported = caps.width_max > 0;
            EncodingInfo {
                supported,
                hardware_accelerated: supported,
                profiles: if supported {
                    profiles_for_codec(codec)
                } else {
                    EncodingProfiles::Unsupported
                },
                max_width: caps.width_max,
                max_height: caps.height_max,
                min_width: caps.width_min,
                min_height: caps.height_min,
                num_max_bframes: caps.num_max_bframes,
                supports_yuv444: caps.support_yuv444_encode,
                supports_yuv422: caps.support_yuv422_encode,
                supports_10bit: caps.support_10bit_encode,
                supports_lossless: caps.support_lossless_encode,
                supports_lookahead: caps.support_lookahead,
                supports_temporal_aq: caps.support_temporal_aq,
                supported_ratecontrol_modes: caps.supported_ratecontrol_modes,
            }
        },
        _ => EncodingInfo::unsupported(),
    }
}

/// The stages of finding out which codecs a GPU supports: codec by codec, first what can be
/// decoded, then what can be encoded.
#[allow(inconsistent_fields)]
pub enum SurveyCodecs {
    Load { device_id: i32 },
    Decoding { device_id: i32, found: Vec<CodecInfo>, query: Operation<QueryDecoderCaps> },
    Encoding {
        device_id: i32,
        found: Vec<CodecInfo>,
        decoding: DecodingInfo,
        codec: VideoCodecType,
        query: Operation<QueryEncoderCaps>,
    },
}

/// What is known of a list of codecs.
pub open spec fn infos(found: Seq<CodecInfo>) -> Seq<CodecInfoView> {
    found.map_values(|info: CodecInfo| info@)
}

/// The start of asking for the capabilities of a decoder.
pub open spec fn decoder_query(codec: VideoCodecType, device_id: i32) -> TurnView<QueryDecoderCaps> {
    crate::operation::forward(
        QueryDecoderCaps::Load { codec_type: codec.decoder_codec().code(), device_id },
        Call::LoadLibraries,
        Seq::empty(),
    )
}

/// The start of asking for the capabilities of an encoder.
pub open spec fn encoder_query(codec: EncoderCodec, device_id: i32) -> TurnView<QueryEncoderCaps> {
    crate::operation::forward(
        QueryEncoderCaps::Load { codec: codec.guid(), device_id },
        Call::LoadLibraries,
        Seq::empty(),
    )
}

/// Whether a survey goes on with the next codec, or ends with `found` if there is none.
pub open spec fn continues(
    progress: Progress<SurveyCodecs, Vec<CodecInfo>>,
    device_id: i32,
    found: Seq<CodecInfoView>,
) -> bool {
    &&& progress.acquired@ == Seq::<Release>::empty()
    &&& if found.len() < NUM_CODECS {
        let query = decoder_query(all_codecs()[found.len() as int], device_id);
        &&& progress.next matches Next::Call {
            stage: SurveyCodecs::Decoding { device_id: d, found: f, query: q },
            call,
        }
        &&& d == device_id
        &&& infos(f@) == found
        &&& q@ == query.operation
        &&& call == Call::LoadLibraries
    } else {
        &&& progress.next matches Next::Succeed(list)
        &&& infos(list@) == found
    }
}

/// Whether a survey goes on after a step of asking what can be decoded.
pub open spec fn decoding_moves(
    progress: Progress<SurveyCodecs, Vec<CodecInfo>>,
    device_id: i32,
    found: Seq<CodecInfoView>,
    turn: TurnView<QueryDecoderCaps>,
) -> bool {
    let codec = all_codecs()[found.len() as int];
    match turn.step {
        Step::Call(call) => {
            &&& progress.acquired@ == Seq::<Release>::empty()
            &&& progress.next matches Next::Call {
                stage: SurveyCodecs::Decoding { device_id: d, found: f, query: q },
                call: c,
            }
            &&& d == device_id
            &&& infos(f@) == found
            &&& q@ == turn.operation
            &&& c == call
        },
        Step::Done(caps) => match codec.encoder_codec() {
            Some(encoder_codec) => {
                &&& progress.acquired@ == Seq::<Release>::empty()
                &&& progress.next matches Next::Call {
                    stage: SurveyCodecs::Encoding {
                        device_id: d,
                        found: f,
                        decoding,
                        codec: e,
                        query: q,
                    },
                    call,
                }
                &&& d == device_id
                &&& infos(f@) == found
                &&& decoding == decoding_info(caps)
                &&& e == codec
                &&& q@ == encoder_query(encoder_codec, device_id).operation
                &&& call == Call::LoadLibraries
            },
            None => continues(
                progress,
                device_id,
                found.push(
                    CodecInfoView {
                        codec,
                        decoding: decoding_info(caps),
                        encoding: encoding_info(codec, None),
                    },
                ),
            ),
        },
    }
}

/// Whether a survey goes on after a step of asking what can be encoded.
pub open spec fn encoding_moves(
    progress: Progress<SurveyCodecs, Vec<CodecInfo>>,
    device_id: i32,
    found: Seq<CodecInfoView>,
    decoding: DecodingInfo,
    codec: VideoCodecType,
    turn: TurnView<QueryEncoderCaps>,
) -> bool {
    match turn.step {
        Step::Call(call) => {
            &&& progress.acquired@ == Seq::<Release>::empty()
            &&& progress.next matches Next::Call {
                stage: SurveyCodecs::Encoding {
                    device_id: d,
                    found: f,
                    decoding: g,
                    codec: e,
                    query: q,
                },
                call: c,
            }
            &&& d == device_id
            &&& infos(f@) == found
            &&& g == decoding
            &&& e == codec
            &&& q@ == turn.operation
            &&& c == call
        },
        Step::Done(caps) => continues(
            progress,
            device_id,
            found.push(
                CodecInfoView { codec, decoding, encoding: encoding_info(codec, Some(caps)) },
            ),
        ),
    }
}

fn go_on(device_id: i32, found: Vec<CodecInfo>) -> (progress: Progress<
    SurveyCodecs,
    Vec<CodecInfo>,
>)
    ensures
        continues(progress, device_id, infos(found@)),
{
    let codecs = VideoCodecType::all();
    let position: usize = found.len();
    if position < codecs.len() {
        let codec = codecs[position].to_decoder_codec();
        let turn = crate::decode::query_decoder_caps(codec, device_id);
        Progress::call(
            SurveyCodecs::Decoding { device_id, found, query: turn.operation },
            Call::LoadLibraries,
        )
    } else {
        Progress::succeed(found)
    }
}

impl Stage for SurveyCodecs {
    type Context = ();

    type Output = Vec<CodecInfo>;

    open spec fn admits(self, context: (), reply: Reply) -> bool {
        match self {
            SurveyCodecs::Load { .. } => true,
            SurveyCodecs::Decoding { found, query, .. } => found@.len() < NUM_CODECS
                && !(query.phase is Finished),
            SurveyCodecs::Encoding { query, .. } => !(query.phase is Finished),
        }
    }

    open spec fn moves(self, before: (), reply: Reply, after: (), progress: Progress<
        Self,
        Vec<CodecInfo>,
    >) -> bool {
        match (self, reply) {
            (SurveyCodecs::Load { device_id }, Ok(_)) => continues(
                progress,
                device_id,
                Seq::empty(),
            ),
            (SurveyCodecs::Load { .. }, Err(error)) => progress.is(Seq::empty(), Next::Fail(error)),
            (SurveyCodecs::Decoding { device_id, found, query }, _) => exists|
                turn: TurnView<QueryDecoderCaps>,
            | #[trigger]
                crate::operation::resumes(query@, (), reply, (), turn) && decoding_moves(
                    progress,
                    device_id,
                    infos(found@),
                    turn,
                ),
            (SurveyCodecs::Encoding { device_id, found, decoding, codec, query }, _) => exists|
                turn: TurnView<QueryEncoderCaps>,
            | #[trigger]
                crate::operation::resumes(query@, (), reply, (), turn) && encoding_moves(
                    progress,
                    device_id,
                    infos(found@),
                    decoding,
                    codec,
                    turn,
                ),
        }
    }

    fn advance(self, context: &mut (), reply: Reply) -> (progress: Progress<Self, Vec<CodecInfo>>) {
        match self {
            SurveyCodecs::Load { device_id } => match reply {
                Ok(_) => {
                    let found: Vec<CodecInfo> = Vec::new();
                    assert(infos(found@) =~= Seq::empty());
                    go_on(device_id, found)
                },
                Err(error) => Progress::fail(error),
            },
            SurveyCodecs::Decoding { device_id, found, query } => {
                let ghost earlier = infos(found@);
                let mut found = found;
                let Turn { operation, step } = query.resume(&mut (), reply);
                let ghost turn = TurnView { operation: operation@, step };
                assert(crate::operation::resumes(query@, (), reply, (), turn));
                match step {
                    Step::Call(call) => Progress::call(
                        SurveyCodecs::Decoding { device_id, found, query: operation },
                        call,
                    ),
                    Step::Done(caps) => {
                        let codecs = VideoCodecType::all();
                        let codec = codecs[found.len()];
                        let decoding = probe_decoding(caps);
                        match codec.to_encoder_codec() {
                            Some(encoder_codec) => {
                                let turn = crate::encoder::query_encoder_caps(
                                    encoder_codec,
                                    device_id,
                                );
                                Progress::call(
                                    SurveyCodecs::Encoding {
                                        device_id,
                                        found,
                                        decoding,
                                        codec,
                                        query: turn.operation,
                                    },
                                    Call::LoadLibraries,
                                )
                            },
                            None => {
                                let info = CodecInfo {
                                    codec,
                                    decoding,
                                    encoding: probe_encoding(codec, None),
                                };
                                found.push(info);
                                assert(infos(found@) =~= earlier.push(info@));
                                go_on(device_id, found)
                            },
                        }
                    },
                }
            },
            SurveyCodecs::Encoding { device_id, found, decoding, codec, query } => {
                let ghost earlier = infos(found@);
                let mut found = found;
                let Turn { operation, step } = query.resume(&mut (), reply);
                let ghost turn = TurnView { operation: operation@, step };
                assert(crate::operation::resumes(query@, (), reply, (), turn));
                match step {
                    Step::Call(call) => Progress::call(
                        SurveyCodecs::Encoding { device_id, found, decoding, codec, query: operation },
                        call,
                    ),
                    Step::Done(caps) => {
                        let info = CodecInfo {
                            codec,
                            decoding,
                            encoding: probe_encoding(codec, Some(caps)),
                        };
                        found.push(info);
                        assert(infos(found@) =~= earlier.push(info@));
                        go_on(device_id, found)
                    },
                }
            },
        }
    }
}

/// Starts to find out which codecs a GPU supports.
///
/// This fails only if the driver libraries cannot be loaded. A codec of which nothing can be
/// learned is reported as one that is not supported.
pub fn supported_codecs(device_id: i32) -> (turn: Turn<SurveyCodecs>)
    ensures
        turn@ == crate::operation::forward(
            SurveyCodecs::Load { device_id },
            Call::LoadLibraries,
            Seq::empty(),
        ),
{
    Turn::start(SurveyCodecs::Load { device_id }, Call::LoadLibraries)
}

/// A codec is reported as accelerated by hardware just where it is supported, and profiles are
/// listed just where it can be encoded.
pub proof fn support_is_hardware_support(
    codec: VideoCodecType,
    decoder_caps: Result<DecoderCaps, Error>,
    encoder_caps: Option<Result<EncoderCaps, Error>>,
)
    ensures
        ({
            let decoding = decoding_info(decoder_caps);
            let encoding = encoding_info(codec, encoder_caps);
            &&& decoding.hardware_accelerated == decoding.supported
            &&& encoding.hardware_accelerated == encoding.supported
            &&& encoding.supported <==> !(encoding.profiles is Unsupported)
            &&& encoding.supported ==> codec.encoder_codec() is Some
            &&& encoding.supported ==> encoding.profiles == profiles_of(codec)
        }),
{
}

/// Every codec is reported on, and none twice.
pub proof fn every_codec_is_listed_once(codec: VideoCodecType)
    ensures
        all_codecs().contains(codec),
        all_codecs().no_duplicates(),
        all_codecs().len() == NUM_CODECS == 6,
{
    let position: int = match codec {
        VideoCodecType::H264 => 0,
        VideoCodecType::Hevc => 1,
        VideoCodecType::Av1 => 2,
        VideoCodecType::Vp8 => 3,
        VideoCodecType::Vp9 => 4,
        VideoCodecType::Jpeg => 5,
    };
    assert(all_codecs()[position] == codec);
}

/// A codec is asked about under its own number for decoding and its own identifier for encoding.
/// H.264, HEVC and AV1 are all that can be encoded.
pub proof fn codecs_keep_their_identity(codec: VideoCodecType)
    ensures
        codec is H264 <==> codec.decoder_codec() is H264,
        codec is Hevc <==> codec.decoder_codec() is Hevc,
        codec is Av1 <==> codec.decoder_codec() is Av1,
        codec is Vp8 <==> codec.decoder_codec() is Vp8,
        codec is Vp9 <==> codec.decoder_codec() is Vp9,
        codec is Jpeg <==> codec.decoder_codec() is Jpeg,
        codec is H264 <==> codec.encoder_codec() == Some(EncoderCodec::H264),
        codec is Hevc <==> codec.encoder_codec() == Some(EncoderCodec::Hevc),
        codec is Av1 <==> codec.encoder_codec() == Some(EncoderCodec::Av1),
        codec is Vp8 || codec is Vp9 || codec is Jpeg <==> codec.encoder_codec() is None,
{
}

/// The profiles of a codec are all that there are of that codec, each once.
pub proof fn every_profile_is_listed_once(
    h264: H264EncodingProfile,
    hevc: HevcEncodingProfile,
    av1: Av1EncodingProfile,
)
    ensures
        profiles_of(VideoCodecType::H264) matches ProfilesView::H264(profiles)
            && profiles.contains(h264) && profiles.no_duplicates(),
        profiles_of(VideoCodecType::Hevc) matches ProfilesView::Hevc(profiles)
            && profiles.contains(hevc) && profiles.no_duplicates(),
        profiles_of(VideoCodecType::Av1) matches ProfilesView::Av1(profiles)
            && profiles.contains(av1) && profiles.no_duplicates(),
        profiles_of(VideoCodecType::Vp8) is Unsupported,
        profiles_of(VideoCodecType::Vp9) is Unsupported,
        profiles_of(VideoCodecType::Jpeg) is Unsupported,
{
    let profiles = profiles_of(VideoCodecType::H264)->H264_0;
    let position: int = match h264 {
        H264EncodingProfile::Baseline => 0,
        H264EncodingProfile::Main => 1,
        H264EncodingProfile::High => 2,
        H264EncodingProfile::High10 => 3,
        H264EncodingProfile::High422 => 4,
        H264EncodingProfile::High444 => 5,
        H264EncodingProfile::Stereo => 6,
        H264EncodingProfile::ProgressiveHigh => 7,
        H264EncodingProfile::ConstrainedHigh => 8,
    };
    assert(profiles[position] == h264);
    let profiles = profiles_of(VideoCodecType::Hevc)->Hevc_0;
    let position: int = match hevc {
        HevcEncodingProfile::Main => 0,
        HevcEncodingProfile::Main10 => 1,
        HevcEncodingProfile::Frext => 2,
    };
    assert(profiles[position] == hevc);
    assert(profiles_of(VideoCodecType::Av1)->Av1_0[0] == av1);
}

/// The report on decoding a codec whose capabilities were learned: each entry is that very
/// capability.
pub proof fn reports_on_decoding_show_the_capabilities(caps: DecoderCaps)
    ensures
        ({
            let info = decoding_info(Ok(caps));
            &&& info.supported <==> caps.is_supported
            &&& info.hardware_accelerated <==> caps.is_supported
            &&& info.max_width == caps.max_width
            &&& info.max_height == caps.max_height
            &&& info.min_width == caps.min_width
            &&& info.min_height == caps.min_height
            &&& info.max_mb_count == caps.max_mb_count
        }),
{
}

/// The report on encoding a codec that can be encoded and whose capabilities were learned: each
/// entry is that very capability. A codec is supported where frames may have a width.
pub proof fn reports_on_encoding_show_the_capabilities(codec: VideoCodecType, caps: EncoderCaps)
    requires
        codec is H264 || codec is Hevc || codec is Av1,
    ensures
        ({
            let info = encoding_info(codec, Some(Ok(caps)));
            &&& info.supported <==> caps.width_max > 0
            &&& info.hardware_accelerated <==> caps.width_max > 0
            &&& info.max_width == caps.width_max
            &&& info.max_height == caps.height_max
            &&& info.min_width == caps.width_min
            &&& info.min_height == caps.height_min
            &&& info.num_max_bframes == caps.num_max_bframes
            &&& info.supports_yuv444 <==> caps.support_yuv444_encode
            &&& info.supports_yuv422 <==> caps.support_yuv422_encode
            &&& info.supports_10bit <==> caps.support_10bit_encode
            &&& info.supports_lossless <==> caps.support_lossless_encode
            &&& info.supports_lookahead <==> caps.support_lookahead
            &&& info.supports_temporal_aq <==> caps.support_temporal_aq
            &&& info.supported_ratecontrol_modes == caps.supported_ratecontrol_modes
            &&& !info.supported ==> info.profiles is Unsupported
            &&& info.supported && codec is H264 ==> info.profiles is H264
            &&& info.supported && codec is Hevc ==> info.profiles is Hevc
            &&& info.supported && codec is Av1 ==> info.profiles is Av1
        }),
{
}

/// What is not known is not claimed: a codec whose capabilities could not be learned, or that
/// cannot be encoded, is reported as one that can do nothing.
pub proof fn reports_claim_nothing_unknown(
    codec: VideoCodecType,
    caps: Option<Result<EncoderCaps, Error>>,
    error: Error,
)
    ensures
        ({
            let info = decoding_info(Err(error));
            &&& !info.supported && !info.hardware_accelerated
            &&& info.max_width == 0 && info.max_height == 0
            &&& info.min_width == 0 && info.min_height == 0
            &&& info.max_mb_count == 0
        }),
        codec is Vp8 || codec is Vp9 || codec is Jpeg || !(caps matches Some(Ok(_))) ==> {
            let info = encoding_info(codec, caps);
            &&& !info.supported && !info.hardware_accelerated
            &&& info.profiles is Unsupported
            &&& info.max_width == 0 && info.max_height == 0
            &&& info.min_width == 0 && info.min_height == 0
            &&& info.num_max_bframes == 0 && info.supported_ratecontrol_modes == 0
            &&& !info.supports_yuv444 && !info.supports_yuv422 && !info.supports_10bit
            &&& !info.supports_lossless && !info.supports_lookahead && !info.supports_temporal_aq
        },
{
}

} // verus!
