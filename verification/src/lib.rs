//! Decision logic of a video encoder and decoder for NVIDIA GPUs (NVENC and NVDEC).
//!
//! Nothing in here calls a driver. An operation such as [`Encoder::encode`] is a [`Turn`]: it asks
//! for one driver call at a time ([`Step::Call`]), is resumed with the reply to it
//! ([`Operation::resume`]), and ends with a result ([`Step::Done`]).

pub mod codec_info;
pub mod decode;
pub mod decoder;
pub mod device;
pub mod driver;
pub mod encode;
pub mod encoder;
pub mod error;
pub mod frame;
pub mod geometry;
pub mod ledger;
pub mod library;
pub mod operation;
pub mod runs;
pub mod stats;
pub mod survey;
pub mod sys;
pub mod trace;
pub mod worker;

pub use codec_info::supported_codecs;
pub use codec_info::Av1EncodingProfile;
pub use codec_info::CodecInfo;
pub use codec_info::DecodingInfo;
pub use codec_info::EncodingInfo;
pub use codec_info::EncodingProfiles;
pub use codec_info::H264EncodingProfile;
pub use codec_info::HevcEncodingProfile;
pub use codec_info::VideoCodecType;
pub use decode::query_decoder_caps;
pub use decode::DecoderCaps;
pub use decode::DecoderCodec;
pub use decode::DecoderConfig;
pub use decode::DecoderStats;
pub use decode::SurfaceFormat;
pub use decoder::DecoderState;
pub use device::device_count;
pub use device::device_name;
pub use device::mem_alloc_pitch;
pub use device::memcpy_2d;
pub use device::CudaStream;
pub use device::Memcpy2DParams;
pub use device::MemoryType;
pub use encode::Av1EncoderConfig;
pub use encode::Av1Profile;
pub use encode::BufferFormat;
pub use encode::CodecConfig;
pub use encode::EncodeOptions;
pub use encode::EncodedFrame;
pub use encode::EncoderCaps;
pub use encode::EncoderCodec;
pub use encode::EncoderConfig;
pub use encode::H264EncoderConfig;
pub use encode::H264Profile;
pub use encode::HevcEncoderConfig;
pub use encode::HevcProfile;
pub use encode::PictureType;
pub use encode::Preset;
pub use encode::RateControlMode;
pub use encode::ReconfigureParams;
pub use encode::TuningInfo;
pub use encoder::query_encoder_caps;
pub use encoder::Encoder;
pub use error::Error;
pub use frame::DecodedFrame;
pub use library::is_cuda_library_available;
pub use library::CudaLibrary;
pub use operation::Operation;
pub use operation::Step;
pub use operation::Turn;
pub use stats::Counter;
pub use stats::Gauge;
pub use worker::DecodeWorker;
pub use worker::Decoder;
