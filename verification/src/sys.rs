//! Numeric constants of the CUDA driver API, NVCUVID and NVENC.

use vstd::prelude::*;

verus! {

/// A globally unique identifier, its sixteen bytes read in textual order as one number.
pub type Guid = u128;

/// Status of a CUDA or NVCUVID call that succeeded.
pub const CUDA_SUCCESS: u32 = 0;

/// Status of an NVENC call that succeeded.
pub const NV_ENC_SUCCESS: u32 = 0;

/// Status reported for an entry point that the NVENC function table does not hold.
pub const NV_ENC_ERR_INVALID_PTR: u32 = 6;

/// A null driver handle.
pub const NULL: u64 = 0;

pub const CU_MEMORYTYPE_HOST: u32 = 1;
pub const CU_MEMORYTYPE_DEVICE: u32 = 2;

pub const CUDA_VIDEO_CODEC_H264: u32 = 4;
pub const CUDA_VIDEO_CODEC_JPEG: u32 = 5;
pub const CUDA_VIDEO_CODEC_HEVC: u32 = 8;
pub const CUDA_VIDEO_CODEC_VP8: u32 = 9;
pub const CUDA_VIDEO_CODEC_VP9: u32 = 10;
pub const CUDA_VIDEO_CODEC_AV1: u32 = 11;

pub const CUDA_VIDEO_CHROMA_FORMAT_420: u32 = 1;
pub const CUDA_VIDEO_SURFACE_FORMAT_NV12: u32 = 0;
pub const CUDA_VIDEO_DEINTERLACE_MODE_WEAVE: u32 = 0;
pub const CUDA_VIDEO_DEINTERLACE_MODE_ADAPTIVE: u32 = 2;
pub const CUDA_VIDEO_CREATE_PREFER_CUVID: u64 = 4;

pub const CUVID_PKT_ENDOFSTREAM: u64 = 0x01;
pub const CUVID_PKT_ENDOFPICTURE: u64 = 0x08;

/// Number of decode surfaces a parser starts with, before any sequence header is seen.
pub const PARSER_INITIAL_DECODE_SURFACES: u32 = 1;

/// Number of output surfaces of a decoder (double buffering).
pub const NUM_OUTPUT_SURFACES: u64 = 2;

pub const NV_MAX_SEQ_HDR_LEN: u32 = 512;
pub const NVENC_INFINITE_GOPLENGTH: u32 = 0xffff_ffff;

pub const NV_ENC_PIC_FLAG_FORCEINTRA: u32 = 0x1;
pub const NV_ENC_PIC_FLAG_FORCEIDR: u32 = 0x2;
pub const NV_ENC_PIC_FLAG_OUTPUT_SPSPPS: u32 = 0x4;
pub const NV_ENC_PIC_FLAG_EOS: u32 = 0x8;

pub const NV_ENC_BUFFER_FORMAT_NV12: u32 = 0x0000_0001;
pub const NV_ENC_BUFFER_FORMAT_YV12: u32 = 0x0000_0010;
pub const NV_ENC_BUFFER_FORMAT_IYUV: u32 = 0x0000_0100;
pub const NV_ENC_BUFFER_FORMAT_YUV444: u32 = 0x0000_1000;
pub const NV_ENC_BUFFER_FORMAT_YUV420_10BIT: u32 = 0x0001_0000;
pub const NV_ENC_BUFFER_FORMAT_YUV444_10BIT: u32 = 0x0010_0000;
pub const NV_ENC_BUFFER_FORMAT_ARGB: u32 = 0x0100_0000;
pub const NV_ENC_BUFFER_FORMAT_ARGB10: u32 = 0x0200_0000;
pub const NV_ENC_BUFFER_FORMAT_ABGR: u32 = 0x1000_0000;
pub const NV_ENC_BUFFER_FORMAT_ABGR10: u32 = 0x2000_0000;

pub const NV_ENC_PIC_STRUCT_FRAME: u32 = 1;

pub const NV_ENC_PARAMS_RC_CONSTQP: u32 = 0;
pub const NV_ENC_PARAMS_RC_VBR: u32 = 1;
pub const NV_ENC_PARAMS_RC_CBR: u32 = 2;

pub const NV_ENC_PIC_TYPE_P: u32 = 0;
pub const NV_ENC_PIC_TYPE_B: u32 = 1;
pub const NV_ENC_PIC_TYPE_I: u32 = 2;
pub const NV_ENC_PIC_TYPE_IDR: u32 = 3;
pub const NV_ENC_PIC_TYPE_BI: u32 = 4;
pub const NV_ENC_PIC_TYPE_SKIPPED: u32 = 5;
pub const NV_ENC_PIC_TYPE_INTRA_REFRESH: u32 = 6;
pub const NV_ENC_PIC_TYPE_NONREF_P: u32 = 7;
pub const NV_ENC_PIC_TYPE_SWITCH: u32 = 8;

pub const NV_ENC_TUNING_INFO_HIGH_QUALITY: u32 = 1;
pub const NV_ENC_TUNING_INFO_LOW_LATENCY: u32 = 2;
pub const NV_ENC_TUNING_INFO_ULTRA_LOW_LATENCY: u32 = 3;
pub const NV_ENC_TUNING_INFO_LOSSLESS: u32 = 4;

pub const NV_ENC_CODEC_H264_GUID: u128 = 0x6bc82762_4e63_4ca4_aa85_1e50f321f6bf;
pub const NV_ENC_CODEC_HEVC_GUID: u128 = 0x790cdc88_4522_4d7b_9425_bda9975f7603;
pub const NV_ENC_CODEC_AV1_GUID: u128 = 0x0a352289_0aa7_4759_862d_5d15cd16d254;

pub const NV_ENC_CODEC_PROFILE_AUTOSELECT_GUID: u128 = 0xbfd6f8e7_233c_4341_8b3e_4818523803f4;
pub const NV_ENC_H264_PROFILE_BASELINE_GUID: u128 = 0x0727bcaa_78c4_4c83_8c2f_ef3dff267c6a;
pub const NV_ENC_H264_PROFILE_MAIN_GUID: u128 = 0x60b5c1d4_67fe_4790_94d5_c4726d7b6e6d;
pub const NV_ENC_H264_PROFILE_HIGH_GUID: u128 = 0xe7cbc309_4f7a_4b89_af2a_d537c92be310;
pub const NV_ENC_H264_PROFILE_HIGH_10_GUID: u128 = 0x8f0c337e_186c_48e9_a69d_7a8334089758;
pub const NV_ENC_H264_PROFILE_HIGH_422_GUID: u128 = 0xff3242e9_613c_4295_a1e8_2a7fe94d8133;
pub const NV_ENC_H264_PROFILE_HIGH_444_GUID: u128 = 0x7ac663cb_a598_4960_b844_339b261a7d52;
pub const NV_ENC_H264_PROFILE_STEREO_GUID: u128 = 0x40847bf5_33f7_4601_9084_e8fe3c1db8b7;
pub const NV_ENC_H264_PROFILE_PROGRESSIVE_HIGH_GUID: u128 =
    0xb405afac_f32b_417b_89c4_9abeed3e5978;
pub const NV_ENC_H264_PROFILE_CONSTRAINED_HIGH_GUID: u128 =
    0xaec1bd87_e85b_48f2_84c3_98bca6285072;
pub const NV_ENC_HEVC_PROFILE_MAIN_GUID: u128 = 0xb514c39a_b55b_40fa_878f_f1253b4dfdec;
pub const NV_ENC_HEVC_PROFILE_MAIN10_GUID: u128 = 0xfa4d2b6c_3a5b_411a_8018_0a3f5e3c9be5;
pub const NV_ENC_HEVC_PROFILE_FREXT_GUID: u128 = 0x51ec32b5_1b4c_453c_9cbd_b616bd621341;
pub const NV_ENC_AV1_PROFILE_MAIN_GUID: u128 = 0x5f2a39f5_f14e_4f95_9a9e_b76d568fcf97;

pub const NV_ENC_PRESET_P1_GUID: u128 = 0xfc0a8d3e_45f8_4cf8_80c7_298871590ebf;
pub const NV_ENC_PRESET_P2_GUID: u128 = 0xf581cfb8_88d6_4381_93f0_df13f9c27dab;
pub const NV_ENC_PRESET_P3_GUID: u128 = 0x36850110_3a07_441f_94d5_3670631f91f6;
pub const NV_ENC_PRESET_P4_GUID: u128 = 0x90a7b826_df06_4862_b9d2_cd6d73a08681;
pub const NV_ENC_PRESET_P5_GUID: u128 = 0x21c6e6b4_297a_4cba_998f_b6cbde72ade3;
pub const NV_ENC_PRESET_P6_GUID: u128 = 0x8e75c279_6299_4ab6_8302_0b215a335cf5;
pub const NV_ENC_PRESET_P7_GUID: u128 = 0x84848c12_6f71_4c13_931b_53e283f57974;

} // verus!
