//! Configuration of an encoder, and the frames that it produces.

use vstd::prelude::*;

use crate::sys;
use crate::sys::Guid;

verus! {

/// A preset: the trade-off between speed and quality.
#[derive(Debug, Clone, Copy, PartialEq, Eq, Structural)]
pub enum Preset {
    /// Fastest.
    P1,
    P2,
    P3,
    /// Balanced.
    P4,
    P5,
    P6,
    /// Best quality.
    P7,
}

impl Preset {
    pub open spec fn guid(self) -> Guid {
        match self {
            Preset::P1 => sys::NV_ENC_PRESET_P1_GUID,
            Preset::P2 => sys::NV_ENC_PRESET_P2_GUID,
            Preset::P3 => sys::NV_ENC_PRESET_P3_GUID,
            Preset::P4 => sys::NV_ENC_PRESET_P4_GUID,
            Preset::P5 => sys::NV_ENC_PRESET_P5_GUID,
            Preset::P6 => sys::NV_ENC_PRESET_P6_GUID,
            Preset::P7 => sys::NV_ENC_PRESET_P7_GUID,
        }
    }

    /// The preset as NVENC identifies it.
    pub fn to_sys(self) -> (guid: Guid)
        ensures
            guid == self.guid(),
    {
        match self {
            Preset::P1 => sys::NV_ENC_PRESET_P1_GUID,
            Preset::P2 => sys::NV_ENC_PRESET_P2_GUID,
            Preset::P3 => sys::NV_ENC_PRESET_P3_GUID,
            Preset::P4 => sys::NV_ENC_PRESET_P4_GUID,
            Preset::P5 => sys::NV_ENC_PRESET_P5_GUID,
            Preset::P6 => sys::NV_ENC_PRESET_P6_GUID,
            Preset::P7 => sys::NV_ENC_PRESET_P7_GUID,
        }
    }
}

/// What an encoder is tuned for.
#[allow(non_camel_case_types)]
#[derive(Debug, Clone, Copy, PartialEq, Eq, Structural)]
pub enum TuningInfo {
    HIGH_QUALITY,
    LOW_LATENCY,
    ULTRA_LOW_LATENCY,
    LOSSLESS,
}

impl TuningInfo {
    pub open spec fn code(self) -> u32 {
        match self {
            TuningInfo::HIGH_QUALITY => sys::NV_ENC_TUNING_INFO_HIGH_QUALITY,
            TuningInfo::LOW_LATENCY => sys::NV_ENC_TUNING_INFO_LOW_LATENCY,
            TuningInfo::ULTRA_LOW_LATENCY => sys::NV_ENC_TUNING_INFO_ULTRA_LOW_LATENCY,
            TuningInfo::LOSSLESS => sys::NV_ENC_TUNING_INFO_LOSSLESS,
        }
    }

    /// The tuning as NVENC numbers it.
    pub fn to_sys(self) -> (code: u32)
        ensures
            code == self.code(),
    {
        match self {
            TuningInfo::HIGH_QUALITY => sys::NV_ENC_TUNING_INFO_HIGH_QUALITY,
            TuningInfo::LOW_LATENCY => sys::NV_ENC_TUNING_INFO_LOW_LATENCY,
            TuningInfo::ULTRA_LOW_LATENCY => sys::NV_ENC_TUNING_INFO_ULTRA_LOW_LATENCY,
            TuningInfo::LOSSLESS => sys::NV_ENC_TUNING_INFO_LOSSLESS,
        }
    }
}

/// H.264 profile.
#[derive(Debug, Clone, Copy, PartialEq, Eq, Structural)]
pub enum H264Profile {
    AutoSelect,
    Baseline,
    Main,
    High,
    High10,
    High422,
    High444,
    Stereo,
    ProgressiveHigh,
    ConstrainedHigh,
}

impl H264Profile {
    pub open spec fn guid(self) -> Guid {
        match self {
            H264Profile::AutoSelect => sys::NV_ENC_CODEC_PROFILE_AUTOSELECT_GUID,
            H264Profile::Baseline => sys::NV_ENC_H264_PROFILE_BASELINE_GUID,
            H264Profile::Main => sys::NV_ENC_H264_PROFILE_MAIN_GUID,
            H264Profile::High => sys::NV_ENC_H264_PROFILE_HIGH_GUID,
            H264Profile::High10 => sys::NV_ENC_H264_PROFILE_HIGH_10_GUID,
            H264Profile::High422 => sys::NV_ENC_H264_PROFILE_HIGH_422_GUID,
            H264Profile::High444 => sys::NV_ENC_H264_PROFILE_HIGH_444_GUID,
            H264Profile::Stereo => sys::NV_ENC_H264_PROFILE_STEREO_GUID,
            H264Profile::ProgressiveHigh => sys::NV_ENC_H264_PROFILE_PROGRESSIVE_HIGH_GUID,
            H264Profile::ConstrainedHigh => sys::NV_ENC_H264_PROFILE_CONSTRAINED_HIGH_GUID,
        }
    }

    /// The profile as NVENC identifies it.
    pub fn to_sys(self) -> (guid: Guid)
        ensures
            guid == self.guid(),
    {
        match self {
            H264Profile::AutoSelect => sys::NV_ENC_CODEC_PROFILE_AUTOSELECT_GUID,
            H264Profile::Baseline => sys::NV_ENC_H264_PROFILE_BASELINE_GUID,
            H264Profile::Main => sys::NV_ENC_H264_PROFILE_MAIN_GUID,
            H264Profile::High => sys::NV_ENC_H264_PROFILE_HIGH_GUID,
            H264Profile::High10 => sys::NV_ENC_H264_PROFILE_HIGH_10_GUID,
            H264Profile::High422 => sys::NV_ENC_H264_PROFILE_HIGH_422_GUID,
            H264Profile::High444 => sys::NV_ENC_H264_PROFILE_HIGH_444_GUID,
            H264Profile::Stereo => sys::NV_ENC_H264_PROFILE_STEREO_GUID,
            H264Profile::ProgressiveHigh => sys::NV_ENC_H264_PROFILE_PROGRESSIVE_HIGH_GUID,
            H264Profile::ConstrainedHigh => sys::NV_ENC_H264_PROFILE_CONSTRAINED_HIGH_GUID,
        }
    }
}

/// HEVC profile.
#[derive(Debug, Clone, Copy, PartialEq, Eq, Structural)]
pub enum HevcProfile {
    AutoSelect,
    Main,
    Main10,
    /// 4:2:2 and 4:4:4 at 8 or 10 bits.
    Frext,
}

impl HevcProfile {
    pub open spec fn guid(self) -> Guid {
        match self {
            HevcProfile::AutoSelect => sys::NV_ENC_CODEC_PROFILE_AUTOSELECT_GUID,
            HevcProfile::Main => sys::NV_ENC_HEVC_PROFILE_MAIN_GUID,
            HevcProfile::Main10 => sys::NV_ENC_HEVC_PROFILE_MAIN10_GUID,
            HevcProfile::Frext => sys::NV_ENC_HEVC_PROFILE_FREXT_GUID,
        }
    }

    /// The profile as NVENC identifies it.
    pub fn to_sys(self) -> (guid: Guid)
        ensures
            guid == self.guid(),
    {
        match self {
            HevcProfile::AutoSelect => sys::NV_ENC_CODEC_PROFILE_AUTOSELECT_GUID,
            HevcProfile::Main => sys::NV_ENC_HEVC_PROFILE_MAIN_GUID,
            HevcProfile::Main10 => sys::NV_ENC_HEVC_PROFILE_MAIN10_GUID,
            HevcProfile::Frext => sys::NV_ENC_HEVC_PROFILE_FREXT_GUID,
        }
    }
}

/// AV1 profile.
#[derive(Debug, Clone, Copy, PartialEq, Eq, Structural)]
pub enum Av1Profile {
    AutoSelect,
    Main,
}

impl Av1Profile {
    pub open spec fn guid(self) -> Guid {
        match self {
            Av1Profile::AutoSelect => sys::NV_ENC_CODEC_PROFILE_AUTOSELECT_GUID,
            Av1Profile::Main => sys::NV_ENC_AV1_PROFILE_MAIN_GUID,
        }
    }

    /// The profile as NVENC identifies it.
    pub fn to_sys(self) -> (guid: Guid)
        ensures
            guid == self.guid(),
    {
        match self {
            Av1Profile::AutoSelect => sys::NV_ENC_CODEC_PROFILE_AUTOSELECT_GUID,
            Av1Profile::Main => sys::NV_ENC_AV1_PROFILE_MAIN_GUID,
        }
    }
}

/// Settings that only an H.264 encoder has.
#[derive(Debug, Clone, Copy)]
pub struct H264EncoderConfig {
    /// Profile; Main if `None`.
    pub profile: Option<H264Profile>,
    /// Distance between IDR frames; the GOP length if `None`.
    pub idr_period: Option<u32>,
}

/// Settings that only an HEVC encoder has.
#[derive(Debug, Clone, Copy)]
pub struct HevcEncoderConfig {
    /// Profile; Main if `None`.
    pub profile: Option<HevcProfile>,
    /// Distance between IDR frames; the GOP length if `None`.
    pub idr_period: Option<u32>,
}

/// Settings that only an AV1 encoder has.
#[derive(Debug, Clone, Copy)]
pub struct Av1EncoderConfig {
    /// Profile; Main if `None`.
    pub profile: Option<Av1Profile>,
    /// Distance between key frames; the GOP length if `None`.
    pub idr_period: Option<u32>,
}

/// A codec and its own settings.
#[derive(Debug, Clone, Copy)]
pub enum CodecConfig {
    H264(H264EncoderConfig),
    Hevc(HevcEncoderConfig),
    Av1(Av1EncoderConfig),
}

/// A codec that NVENC can encode.
#[derive(Debug, Clone, Copy, PartialEq, Eq, Structural)]
pub enum EncoderCodec {
    H264,
    Hevc,
    Av1,
}

impl EncoderCodec {
    pub open spec fn guid(self) -> Guid {
        match self {
            EncoderCodec::H264 => sys::NV_ENC_CODEC_H264_GUID,
            EncoderCodec::Hevc => sys::NV_ENC_CODEC_HEVC_GUID,
            EncoderCodec::Av1 => sys::NV_ENC_CODEC_AV1_GUID,
        }
    }

    /// The codec as NVENC identifies it.
    pub fn to_sys(self) -> (guid: Guid)
        ensures
            guid == self.guid(),
    {
        match self {
            EncoderCodec::H264 => sys::NV_ENC_CODEC_H264_GUID,
            EncoderCodec::Hevc => sys::NV_ENC_CODEC_HEVC_GUID,
            EncoderCodec::Av1 => sys::NV_ENC_CODEC_AV1_GUID,
        }
    }
}

/// Settings of an encoder.
#[derive(Debug, Clone, Copy)]
pub struct EncoderConfig {
    /// Codec and its own settings.
    pub codec: CodecConfig,
    /// Width of a frame.
    pub width: u32,
    /// Height of a frame.
    pub height: u32,
    /// Largest width that a reconfiguration may ask for; `width` if `None`.
    pub max_encode_width: Option<u32>,
    /// Largest height that a reconfiguration may ask for; `height` if `None`.
    pub max_encode_height: Option<u32>,
    /// Numerator of the frame rate.
    pub framerate_num: u32,
    /// Denominator of the frame rate.
    pub framerate_den: u32,
    /// Average bit rate in bits per second. It may be missing only with a constant QP.
    pub average_bitrate: Option<u32>,
    pub preset: Preset,
    pub tuning_info: TuningInfo,
    pub rate_control_mode: RateControlMode,
    /// GOP length; unlimited if `None`.
    pub gop_length: Option<u32>,
    /// Distance between P frames.
    pub frame_interval_p: u32,
    /// Layout of the frames that are encoded.
    pub buffer_format: BufferFormat,
    /// The GPU to use.
    pub device_id: i32,
}

/// Rate control mode.
#[derive(Debug, Clone, Copy, PartialEq, Eq, Structural)]
pub enum RateControlMode {
    /// Constant QP.
    ConstQp,
    /// Variable bit rate.
    Vbr,
    /// Constant bit rate.
    Cbr,
}

impl RateControlMode {
    pub open spec fn code(self) -> u32 {
        match self {
            RateControlMode::ConstQp => sys::NV_ENC_PARAMS_RC_CONSTQP,
            RateControlMode::Vbr => sys::NV_ENC_PARAMS_RC_VBR,
            RateControlMode::Cbr => sys::NV_ENC_PARAMS_RC_CBR,
        }
    }

    /// The mode as NVENC numbers it.
    pub fn to_sys(self) -> (code: u32)
        ensures
            code == self.code(),
    {
        match self {
            RateControlMode::ConstQp => sys::NV_ENC_PARAMS_RC_CONSTQP,
            RateControlMode::Vbr => sys::NV_ENC_PARAMS_RC_VBR,
            RateControlMode::Cbr => sys::NV_ENC_PARAMS_RC_CBR,
        }
    }
}

/// Layout of an input frame.
#[allow(non_camel_case_types)]
#[derive(Debug, Clone, Copy, PartialEq, Eq, Structural)]
pub enum BufferFormat {
    /// Semi-planar YUV 4:2:0: a Y plane, then interleaved UV.
    Nv12,
    /// Planar YUV 4:2:0: Y, V, U.
    Yv12,
    /// Planar YUV 4:2:0: Y, U, V (I420).
    Iyuv,
    /// Planar YUV 4:4:4: Y, U, V.
    Yuv444,
    /// Semi-planar YUV 4:2:0 at 10 bits.
    Yuv420_10bit,
    /// Planar YUV 4:4:4 at 10 bits.
    Yuv444_10bit,
    /// Packed A8R8G8B8.
    Argb,
    /// Packed A8B8G8R8.
    Abgr,
    /// Packed A2R10G10B10.
    Argb10,
    /// Packed A2B10G10R10.
    Abgr10,
}

impl BufferFormat {
    pub open spec fn code(self) -> u32 {
        match self {
            BufferFormat::Nv12 => sys::NV_ENC_BUFFER_FORMAT_NV12,
            BufferFormat::Yv12 => sys::NV_ENC_BUFFER_FORMAT_YV12,
            BufferFormat::Iyuv => sys::NV_ENC_BUFFER_FORMAT_IYUV,
            BufferFormat::Yuv444 => sys::NV_ENC_BUFFER_FORMAT_YUV444,
            BufferFormat::Yuv420_10bit => sys::NV_ENC_BUFFER_FORMAT_YUV420_10BIT,
            BufferFormat::Yuv444_10bit => sys::NV_ENC_BUFFER_FORMAT_YUV444_10BIT,
            BufferFormat::Argb => sys::NV_ENC_BUFFER_FORMAT_ARGB,
            BufferFormat::Abgr => sys::NV_ENC_BUFFER_FORMAT_ABGR,
            BufferFormat::Argb10 => sys::NV_ENC_BUFFER_FORMAT_ARGB10,
            BufferFormat::Abgr10 => sys::NV_ENC_BUFFER_FORMAT_ABGR10,
        }
    }

    /// The format as NVENC numbers it.
    pub fn to_sys(self) -> (code: u32)
        ensures
            code == self.code(),
    {
        match self {
            BufferFormat::Nv12 => sys::NV_ENC_BUFFER_FORMAT_NV12,
            BufferFormat::Yv12 => sys::NV_ENC_BUFFER_FORMAT_YV12,
            BufferFormat::Iyuv => sys::NV_ENC_BUFFER_FORMAT_IYUV,
            BufferFormat::Yuv444 => sys::NV_ENC_BUFFER_FORMAT_YUV444,
            BufferFormat::Yuv420_10bit => sys::NV_ENC_BUFFER_FORMAT_YUV420_10BIT,
            BufferFormat::Yuv444_10bit => sys::NV_ENC_BUFFER_FORMAT_YUV444_10BIT,
            BufferFormat::Argb => sys::NV_ENC_BUFFER_FORMAT_ARGB,
            BufferFormat::Abgr => sys::NV_ENC_BUFFER_FORMAT_ABGR,
            BufferFormat::Argb10 => sys::NV_ENC_BUFFER_FORMAT_ARGB10,
            BufferFormat::Abgr10 => sys::NV_ENC_BUFFER_FORMAT_ABGR10,
        }
    }

    /// Bytes that one pixel takes in the first plane, or in the only one of a packed format.
    pub open spec fn bytes_per_pixel(self) -> nat {
        match self {
            BufferFormat::Nv12 | BufferFormat::Yv12 | BufferFormat::Iyuv | BufferFormat::Yuv444 => 1,
            BufferFormat::Yuv420_10bit | BufferFormat::Yuv444_10bit => 2,
            BufferFormat::Argb | BufferFormat::Abgr | BufferFormat::Argb10 | BufferFormat::Abgr10 => 4,
        }
    }

    /// Whether chroma is subsampled to a quarter at one byte per sample.
    pub open spec fn is_420_8bit(self) -> bool {
        self is Nv12 || self is Yv12 || self is Iyuv
    }

    /// Bytes per pixel over all planes together; for 8-bit 4:2:0, bytes per two pixels.
    pub open spec fn factor(self) -> nat {
        match self {
            BufferFormat::Nv12 | BufferFormat::Yv12 | BufferFormat::Iyuv => 3,
            BufferFormat::Yuv444 | BufferFormat::Yuv420_10bit => 3,
            BufferFormat::Yuv444_10bit => 6,
            BufferFormat::Argb | BufferFormat::Abgr | BufferFormat::Argb10 | BufferFormat::Abgr10 => 4,
        }
    }

    /// Bytes in a row of the first plane.
    pub open spec fn row_bytes(self, width: nat) -> nat {
        self.bytes_per_pixel() * width
    }

    /// Bytes in a frame of `width` by `height` pixels.
    pub open spec fn frame_bytes(self, width: nat, height: nat) -> nat {
        if self.is_420_8bit() {
            width * height * self.factor() / 2
        } else {
            width * height * self.factor()
        }
    }

    /// Whether the size of a frame can be computed in machine integers.
    pub open spec fn measures(self, width: nat, height: nat) -> bool {
        width * height <= u32::MAX && width * height * self.factor() <= usize::MAX
    }

    /// Number of bytes in a row of the first plane, or of the only one of a packed format.
    pub fn bytes_per_row(self, width: u32) -> (bytes: u32)
        requires
            self.row_bytes(width as nat) <= u32::MAX,
        ensures
            bytes == self.row_bytes(width as nat),
    {
        match self {
            BufferFormat::Nv12 | BufferFormat::Yv12 | BufferFormat::Iyuv | BufferFormat::Yuv444 => width,
            BufferFormat::Yuv420_10bit | BufferFormat::Yuv444_10bit => width * 2,
            BufferFormat::Argb | BufferFormat::Abgr => width * 4,
            BufferFormat::Argb10 | BufferFormat::Abgr10 => width * 4,
        }
    }

    /// Number of bytes in a frame.
    pub fn frame_size(self, width: u32, height: u32) -> (bytes: usize)
        requires
            self.measures(width as nat, height as nat),
        ensures
            bytes == self.frame_bytes(width as nat, height as nat),
    {
        let pixels: usize = (width * height) as usize;
        match self {
            BufferFormat::Nv12 | BufferFormat::Yv12 | BufferFormat::Iyuv => pixels * 3 / 2,
            BufferFormat::Yuv444 => pixels * 3,
            BufferFormat::Yuv420_10bit => pixels * 3,
            BufferFormat::Yuv444_10bit => pixels * 6,
            BufferFormat::Argb | BufferFormat::Abgr => pixels * 4,
            BufferFormat::Argb10 | BufferFormat::Abgr10 => pixels * 4,
        }
    }
}

/// What an encoder is capable of.
#[derive(Debug, Clone, Copy)]
pub struct EncoderCaps {
    /// Bit mask of the supported rate control modes.
    pub supported_ratecontrol_modes: i32,
    pub support_yuv444_encode: bool,
    pub support_yuv422_encode: bool,
    pub support_meonly_mode: bool,
    pub width_max: i32,
    pub height_max: i32,
    pub width_min: i32,
    pub height_min: i32,
    pub num_max_bframes: i32,
    pub support_10bit_encode: bool,
    pub support_lossless_encode: bool,
    pub support_lookahead: bool,
    pub support_temporal_aq: bool,
}

/// What a reconfiguration changes. Whatever is `None` stays as it is.
#[derive(Debug, Clone, Copy)]
pub struct ReconfigureParams {
    /// Width of a frame, at most the maximum that the encoder was created with.
    pub width: Option<u32>,
    /// Height of a frame, at most the maximum that the encoder was created with.
    pub height: Option<u32>,
    pub framerate_num: Option<u32>,
    pub framerate_den: Option<u32>,
    /// Average bit rate in bits per second.
    pub average_bitrate: Option<u32>,
    /// Maximum bit rate in bits per second.
    pub max_bitrate: Option<u32>,
}

impl Default for ReconfigureParams {
    /// Changes nothing.
    fn default() -> (params: Self)
        ensures
            params == (ReconfigureParams {
                width: None,
                height: None,
                framerate_num: None,
                framerate_den: None,
                average_bitrate: None,
                max_bitrate: None,
            }),
    {
        ReconfigureParams {
            width: None,
            height: None,
            framerate_num: None,
            framerate_den: None,
            average_bitrate: None,
            max_bitrate: None,
        }
    }
}

/// Options of a single frame.
#[derive(Debug, Clone, Copy)]
pub struct EncodeOptions {
    /// Encode it as an I frame.
    pub force_intra: bool,
    /// Encode it as an IDR frame (AV1: as a key frame).
    pub force_idr: bool,
    /// Write SPS, PPS and VPS into the bitstream (AV1: the sequence header OBU).
    pub output_spspps: bool,
}

impl EncodeOptions {
    /// The flags of the options that are set, each a bit of its own.
    pub open spec fn pic_flags(self) -> u32 {
        ((if self.force_intra { sys::NV_ENC_PIC_FLAG_FORCEINTRA } else { 0 })
            + (if self.force_idr { sys::NV_ENC_PIC_FLAG_FORCEIDR } else { 0 })
            + (if self.output_spspps { sys::NV_ENC_PIC_FLAG_OUTPUT_SPSPPS } else { 0 })) as u32
    }

    /// The options as picture flags of NVENC.
    pub fn to_pic_flags(&self) -> (flags: u32)
        ensures
            flags == self.pic_flags(),
    {
        let mut flags: u32 = 0;
        if self.force_intra {
            flags = flags | sys::NV_ENC_PIC_FLAG_FORCEINTRA;
        }
        if self.force_idr {
            flags = flags | sys::NV_ENC_PIC_FLAG_FORCEIDR;
        }
        if self.output_spspps {
            flags = flags | sys::NV_ENC_PIC_FLAG_OUTPUT_SPSPPS;
        }
        assert(0u32 | 1 == 1u32) by (bit_vector);
        assert(0u32 | 2 == 2u32) by (bit_vector);
        assert(1u32 | 2 == 3u32) by (bit_vector);
        assert(0u32 | 4 == 4u32) by (bit_vector);
        assert(1u32 | 4 == 5u32) by (bit_vector);
        assert(2u32 | 4 == 6u32) by (bit_vector);
        assert(3u32 | 4 == 7u32) by (bit_vector);
        flags
    }
}

/// Type of an encoded picture.
#[derive(Debug, Clone, Copy, PartialEq, Eq, Hash, Structural)]
pub enum PictureType {
    P,
    B,
    I,
    Idr,
    Bi,
    Skipped,
    IntraRefresh,
    /// A P frame that no other frame refers to.
    NonRefP,
    Switch,
    Unknown,
}

/// The picture type that NVENC numbers `pic_type`.
pub open spec fn picture_type_of(pic_type: u32) -> PictureType {
    if pic_type == sys::NV_ENC_PIC_TYPE_P {
        PictureType::P
    } else if pic_type == sys::NV_ENC_PIC_TYPE_B {
        PictureType::B
    } else if pic_type == sys::NV_ENC_PIC_TYPE_I {
        PictureType::I
    } else if pic_type == sys::NV_ENC_PIC_TYPE_IDR {
        PictureType::Idr
    } else if pic_type == sys::NV_ENC_PIC_TYPE_BI {
        PictureType::Bi
    } else if pic_type == sys::NV_ENC_PIC_TYPE_SKIPPED {
        PictureType::Skipped
    } else if pic_type == sys::NV_ENC_PIC_TYPE_INTRA_REFRESH {
        PictureType::IntraRefresh
    } else if pic_type == sys::NV_ENC_PIC_TYPE_NONREF_P {
        PictureType::NonRefP
    } else if pic_type == sys::NV_ENC_PIC_TYPE_SWITCH {
        PictureType::Switch
    } else {
        PictureType::Unknown
    }
}

impl PictureType {
    /// The picture type that NVENC numbers `pic_type`.
    pub fn new(pic_type: u32) -> (picture_type: Self)
        ensures
            picture_type == picture_type_of(pic_type),
    {
        match pic_type {
            sys::NV_ENC_PIC_TYPE_P => PictureType::P,
            sys::NV_ENC_PIC_TYPE_B => PictureType::B,
            sys::NV_ENC_PIC_TYPE_I => PictureType::I,
            sys::NV_ENC_PIC_TYPE_IDR => PictureType::Idr,
            sys::NV_ENC_PIC_TYPE_BI => PictureType::Bi,
            sys::NV_ENC_PIC_TYPE_SKIPPED => PictureType::Skipped,
            sys::NV_ENC_PIC_TYPE_INTRA_REFRESH => PictureType::IntraRefresh,
            sys::NV_ENC_PIC_TYPE_NONREF_P => PictureType::NonRefP,
            sys::NV_ENC_PIC_TYPE_SWITCH => PictureType::Switch,
            _ => PictureType::Unknown,
        }
    }
}

/// An encoded frame.
#[derive(Debug)]
pub struct EncodedFrame {
    data: Vec<u8>,
    timestamp: u64,
    picture_type: PictureType,
}

/// What an [`EncodedFrame`] holds.
#[verifier::ext_equal]
pub struct EncodedFrameView {
    pub data: Seq<u8>,
    pub timestamp: u64,
    pub picture_type: PictureType,
}

impl View for EncodedFrame {
    type V = EncodedFrameView;

    closed spec fn view(&self) -> EncodedFrameView {
        EncodedFrameView {
            data: self.data@,
            timestamp: self.timestamp,
            picture_type: self.picture_type,
        }
    }
}

impl Clone for EncodedFrame {
    fn clone(&self) -> (copy: Self)
        ensures
            copy@ == self@,
    {
        EncodedFrame {
            data: self.data.clone(),
            timestamp: self.timestamp,
            picture_type: self.picture_type,
        }
    }
}

impl EncodedFrame {
    pub(crate) fn new(data: Vec<u8>, timestamp: u64, pic_type: u32) -> (frame: Self)
        ensures
            frame@ == (EncodedFrameView {
                data: data@,
                timestamp,
                picture_type: picture_type_of(pic_type),
            }),
    {
        EncodedFrame { data, timestamp, picture_type: PictureType::new(pic_type) }
    }

    /// The encoded data.
    pub fn data(&self) -> (data: &[u8])
        ensures
            data@ == self@.data,
    {
        self.data.as_slice()
    }

    /// The encoded data, moved out of the frame.
    pub fn into_data(self) -> (data: Vec<u8>)
        ensures
            data@ == self@.data,
    {
        self.data
    }

    /// The timestamp.
    pub fn timestamp(&self) -> (timestamp: u64)
        ensures
            timestamp == self@.timestamp,
    {
        self.timestamp
    }

    /// The picture type.
    pub fn picture_type(&self) -> (picture_type: PictureType)
        ensures
            picture_type == self@.picture_type,
    {
        self.picture_type
    }
}

/// A frame is large enough for its first plane.
pub proof fn frame_holds_its_first_plane(format: BufferFormat, width: nat, height: nat)
    ensures
        format.row_bytes(width) * height <= format.frame_bytes(width, height),
{
    let pixels = width * height;
    let bytes = format.bytes_per_pixel();
    assert(bytes * width * height == bytes * pixels) by (nonlinear_arith)
        requires
            pixels == width * height,
    ;
    match format {
        BufferFormat::Nv12 | BufferFormat::Yv12 | BufferFormat::Iyuv | BufferFormat::Yuv444 => {
            assert(bytes * pixels == pixels) by (nonlinear_arith)
                requires
                    bytes == 1,
            ;
        },
        BufferFormat::Yuv420_10bit | BufferFormat::Yuv444_10bit => {
            assert(bytes * pixels == 2 * pixels) by (nonlinear_arith)
                requires
                    bytes == 2,
            ;
        },
        _ => {
            assert(bytes * pixels == 4 * pixels) by (nonlinear_arith)
                requires
                    bytes == 4,
            ;
        },
    }
}

/// Each rate control mode has the number that NVENC gives to it, and no two have the same.
pub proof fn rate_control_modes_are_told_apart(mode: RateControlMode, other: RateControlMode)
    ensures
        mode is ConstQp ==> mode.code() == 0,
        mode is Vbr ==> mode.code() == 1,
        mode is Cbr ==> mode.code() == 2,
        mode.code() == other.code() ==> mode == other,
{
}

/// Each preset has the identifier that NVENC gives to it, and no two have the same.
pub proof fn presets_are_told_apart(preset: Preset, other: Preset)
    ensures
        preset is P1 ==> preset.guid() == 0xfc0a8d3e_45f8_4cf8_80c7_298871590ebfu128,
        preset is P2 ==> preset.guid() == 0xf581cfb8_88d6_4381_93f0_df13f9c27dabu128,
        preset is P3 ==> preset.guid() == 0x36850110_3a07_441f_94d5_3670631f91f6u128,
        preset is P4 ==> preset.guid() == 0x90a7b826_df06_4862_b9d2_cd6d73a08681u128,
        preset is P5 ==> preset.guid() == 0x21c6e6b4_297a_4cba_998f_b6cbde72ade3u128,
        preset is P6 ==> preset.guid() == 0x8e75c279_6299_4ab6_8302_0b215a335cf5u128,
        preset is P7 ==> preset.guid() == 0x84848c12_6f71_4c13_931b_53e283f57974u128,
        preset.guid() == other.guid() ==> preset == other,
{
}

/// Each tuning has the number that NVENC gives to it, and no two have the same.
pub proof fn tunings_are_told_apart(tuning: TuningInfo, other: TuningInfo)
    ensures
        tuning is HIGH_QUALITY ==> tuning.code() == 1,
        tuning is LOW_LATENCY ==> tuning.code() == 2,
        tuning is ULTRA_LOW_LATENCY ==> tuning.code() == 3,
        tuning is LOSSLESS ==> tuning.code() == 4,
        tuning.code() == other.code() ==> tuning == other,
{
}

/// Each profile of H.264 has the identifier that NVENC gives to it, and no two have the same.
pub proof fn h264_profiles_are_told_apart(profile: H264Profile, other: H264Profile)
    ensures
        profile is AutoSelect ==> profile.guid() == 0xbfd6f8e7_233c_4341_8b3e_4818523803f4u128,
        profile is Baseline ==> profile.guid() == 0x0727bcaa_78c4_4c83_8c2f_ef3dff267c6au128,
        profile is Main ==> profile.guid() == 0x60b5c1d4_67fe_4790_94d5_c4726d7b6e6du128,
        profile is High ==> profile.guid() == 0xe7cbc309_4f7a_4b89_af2a_d537c92be310u128,
        profile is High10 ==> profile.guid() == 0x8f0c337e_186c_48e9_a69d_7a8334089758u128,
        profile is High422 ==> profile.guid() == 0xff3242e9_613c_4295_a1e8_2a7fe94d8133u128,
        profile is High444 ==> profile.guid() == 0x7ac663cb_a598_4960_b844_339b261a7d52u128,
        profile is Stereo ==> profile.guid() == 0x40847bf5_33f7_4601_9084_e8fe3c1db8b7u128,
        profile is ProgressiveHigh ==> profile.guid() == 0xb405afac_f32b_417b_89c4_9abeed3e5978u128,
        profile is ConstrainedHigh ==> profile.guid() == 0xaec1bd87_e85b_48f2_84c3_98bca6285072u128,
        profile.guid() == other.guid() ==> profile == other,
{
}

/// Each profile of HEVC has the identifier that NVENC gives to it, and no two have the same.
pub proof fn hevc_profiles_are_told_apart(profile: HevcProfile, other: HevcProfile)
    ensures
        profile is AutoSelect ==> profile.guid() == 0xbfd6f8e7_233c_4341_8b3e_4818523803f4u128,
        profile is Main ==> profile.guid() == 0xb514c39a_b55b_40fa_878f_f1253b4dfdecu128,
        profile is Main10 ==> profile.guid() == 0xfa4d2b6c_3a5b_411a_8018_0a3f5e3c9be5u128,
        profile is Frext ==> profile.guid() == 0x51ec32b5_1b4c_453c_9cbd_b616bd621341u128,
        profile.guid() == other.guid() ==> profile == other,
{
}

/// Each profile of AV1 has the identifier that NVENC gives to it, and no two have the same.
pub proof fn av1_profiles_are_told_apart(profile: Av1Profile, other: Av1Profile)
    ensures
        profile is AutoSelect ==> profile.guid() == 0xbfd6f8e7_233c_4341_8b3e_4818523803f4u128,
        profile is Main ==> profile.guid() == 0x5f2a39f5_f14e_4f95_9a9e_b76d568fcf97u128,
        profile.guid() == other.guid() ==> profile == other,
{
}

/// Each codec has the identifier that NVENC gives to it, and no two have the same.
pub proof fn encoder_codecs_are_told_apart(codec: EncoderCodec, other: EncoderCodec)
    ensures
        codec is H264 ==> codec.guid() == 0x6bc82762_4e63_4ca4_aa85_1e50f321f6bfu128,
        codec is Hevc ==> codec.guid() == 0x790cdc88_4522_4d7b_9425_bda9975f7603u128,
        codec is Av1 ==> codec.guid() == 0x0a352289_0aa7_4759_862d_5d15cd16d254u128,
        codec.guid() == other.guid() ==> codec == other,
{
}

/// Each frame layout has the number that NVENC gives to it, and no two have the same.
pub proof fn buffer_formats_are_told_apart(format: BufferFormat, other: BufferFormat)
    ensures
        format is Nv12 ==> format.code() == 0x0000_0001,
        format is Yv12 ==> format.code() == 0x0000_0010,
        format is Iyuv ==> format.code() == 0x0000_0100,
        format is Yuv444 ==> format.code() == 0x0000_1000,
        format is Yuv420_10bit ==> format.code() == 0x0001_0000,
        format is Yuv444_10bit ==> format.code() == 0x0010_0000,
        format is Argb ==> format.code() == 0x0100_0000,
        format is Abgr ==> format.code() == 0x1000_0000,
        format is Argb10 ==> format.code() == 0x0200_0000,
        format is Abgr10 ==> format.code() == 0x2000_0000,
        format.code() == other.code() ==> format == other,
{
}

/// Each picture type is known by the number that NVENC gives to it, and a number that NVENC gives
/// to none is an unknown type.
pub proof fn picture_types_are_told_apart(pic_type: u32)
    ensures
        picture_type_of(pic_type) is P <==> pic_type == 0,
        picture_type_of(pic_type) is B <==> pic_type == 1,
        picture_type_of(pic_type) is I <==> pic_type == 2,
        picture_type_of(pic_type) is Idr <==> pic_type == 3,
        picture_type_of(pic_type) is Bi <==> pic_type == 4,
        picture_type_of(pic_type) is Skipped <==> pic_type == 5,
        picture_type_of(pic_type) is IntraRefresh <==> pic_type == 6,
        picture_type_of(pic_type) is NonRefP <==> pic_type == 7,
        picture_type_of(pic_type) is Switch <==> pic_type == 8,
        picture_type_of(pic_type) is Unknown <==> pic_type > 8,
{
}

/// Each option of a frame is a bit of its own in the flags, and there are no other bits.
pub proof fn options_are_bits(options: EncodeOptions)
    ensures
        options.pic_flags() & 1 == 1 <==> options.force_intra,
        options.pic_flags() & 2 == 2 <==> options.force_idr,
        options.pic_flags() & 4 == 4 <==> options.output_spspps,
        options.pic_flags() < 8,
{
    let flags = options.pic_flags();
    assert(flags < 8 ==> (flags & 1 == 1 <==> flags % 2 == 1) && (flags & 2 == 2 <==> flags / 2 % 2
        == 1) && (flags & 4 == 4 <==> flags / 4 == 1)) by (bit_vector);
}

/// What a frame is made of. A sample takes one byte, two at 10 bits; a pixel of a packed format
/// takes four. With 4:4:4 there are three planes of one size; with 4:2:0 the chroma planes take
/// half of what the luma plane takes; and a packed format has one plane.
pub proof fn frames_are_made_of_planes(format: BufferFormat, width: nat, height: nat)
    ensures
        ({
            let plane = format.row_bytes(width) * height;
            let frame = format.frame_bytes(width, height);
            let ten_bits = format is Yuv420_10bit || format is Yuv444_10bit;
            let packed = format is Argb || format is Abgr || format is Argb10 || format is Abgr10;
            &&& packed ==> format.row_bytes(width) == 4 * width && frame == plane
            &&& ten_bits ==> format.row_bytes(width) == 2 * width
            &&& !ten_bits && !packed ==> format.row_bytes(width) == width
            &&& format is Yuv444 || format is Yuv444_10bit ==> frame == 3 * plane
            &&& format is Nv12 || format is Yv12 || format is Iyuv || format is Yuv420_10bit
                ==> frame == plane + plane / 2
        }),
{
    let pixels = width * height;
    assert(4 * width * height == 4 * pixels && 2 * width * height == 2 * pixels && 1 * width
        * height == pixels) by (nonlinear_arith)
        requires
            pixels == width * height,
    ;
}

} // verus!
