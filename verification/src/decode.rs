//! Configuration, capabilities and statistics of a decoder.

use vstd::prelude::*;

use crate::driver::Call;
use crate::driver::RawDecoderCaps;
use crate::driver::Reply;
use crate::operation::Next;
use crate::operation::Progress;
use crate::operation::Release;
use crate::operation::Stage;
use crate::operation::Turn;
use crate::stats::Counter;
use crate::sys;

verus! {

/// What a decoder is capable of.
#[derive(Debug, Clone, Copy)]
pub struct DecoderCaps {
    /// Whether the codec is supported at all.
    pub is_supported: bool,
    pub max_width: u32,
    pub max_height: u32,
    /// Largest number of macroblocks.
    pub max_mb_count: u32,
    pub min_width: u32,
    pub min_height: u32,
}

/// Statistics of a decoder.
#[derive(Debug)]
pub struct DecoderStats {
    /// Decoders created, the first one included.
    pub total_create_decoder_count: Counter,
    /// Decoders reconfigured. Decoders are recreated instead, so this stays 0.
    pub total_reconfigure_decoder_count: Counter,
    /// Reconfigurations that failed. Decoders are recreated instead, so this stays 0.
    pub total_reconfigure_failure_count: Counter,
    /// Packets that were accepted for decoding.
    pub total_decode_count: Counter,
    /// Sequence callbacks, the first one included.
    pub total_sequence_callback_count: Counter,
    /// Decode callbacks.
    pub total_decode_callback_count: Counter,
    /// Frames put out.
    pub total_output_frame_count: Counter,
}

/// What [`DecoderStats`] say.
pub struct StatsView {
    pub create_decoder: u64,
    pub reconfigure_decoder: u64,
    pub reconfigure_failure: u64,
    pub decode: u64,
    pub sequence_callback: u64,
    pub decode_callback: u64,
    pub output_frame: u64,
}

impl View for DecoderStats {
    type V = StatsView;

    open spec fn view(&self) -> StatsView {
        StatsView {
            create_decoder: self.total_create_decoder_count@,
            reconfigure_decoder: self.total_reconfigure_decoder_count@,
            reconfigure_failure: self.total_reconfigure_failure_count@,
            decode: self.total_decode_count@,
            sequence_callback: self.total_sequence_callback_count@,
            decode_callback: self.total_decode_callback_count@,
            output_frame: self.total_output_frame_count@,
        }
    }
}

/// Statistics of a decoder that has done nothing.
pub open spec fn no_stats() -> StatsView {
    StatsView {
        create_decoder: 0,
        reconfigure_decoder: 0,
        reconfigure_failure: 0,
        decode: 0,
        sequence_callback: 0,
        decode_callback: 0,
        output_frame: 0,
    }
}

impl Default for DecoderStats {
    fn default() -> (stats: Self)
        ensures
            stats@ == no_stats(),
    {
        DecoderStats {
            total_create_decoder_count: Counter::new(),
            total_reconfigure_decoder_count: Counter::new(),
            total_reconfigure_failure_count: Counter::new(),
            total_decode_count: Counter::new(),
            total_sequence_callback_count: Counter::new(),
            total_decode_callback_count: Counter::new(),
            total_output_frame_count: Counter::new(),
        }
    }
}

impl Clone for DecoderStats {
    /// Takes a snapshot.
    fn clone(&self) -> (snapshot: Self)
        ensures
            snapshot == *self,
    {
        DecoderStats {
            total_create_decoder_count: self.total_create_decoder_count.clone(),
            total_reconfigure_decoder_count: self.total_reconfigure_decoder_count.clone(),
            total_reconfigure_failure_count: self.total_reconfigure_failure_count.clone(),
            total_decode_count: self.total_decode_count.clone(),
            total_sequence_callback_count: self.total_sequence_callback_count.clone(),
            total_decode_callback_count: self.total_decode_callback_count.clone(),
            total_output_frame_count: self.total_output_frame_count.clone(),
        }
    }
}

/// Packets that went in but have not come out as frames.
pub open spec fn in_flight(stats: StatsView) -> u64 {
    if stats.decode >= stats.output_frame {
        (stats.decode - stats.output_frame) as u64
    } else {
        0
    }
}

impl DecoderStats {
    /// Number of packets that went in but have not come out as frames.
    ///
    /// A packet may hold several frames, and a packet that fails never comes out.
    pub fn in_flight_frames(&self) -> (frames: u64)
        ensures
            frames == in_flight(self@),
    {
        self.total_decode_count.get().saturating_sub(self.total_output_frame_count.get())
    }
}

/// A codec that NVDEC can decode.
#[derive(Debug, Clone, Copy, PartialEq, Eq, Structural)]
pub enum DecoderCodec {
    H264,
    Hevc,
    Av1,
    Vp8,
    Vp9,
    Jpeg,
}

impl DecoderCodec {
    pub open spec fn code(self) -> u32 {
        match self {
            DecoderCodec::H264 => sys::CUDA_VIDEO_CODEC_H264,
            DecoderCodec::Hevc => sys::CUDA_VIDEO_CODEC_HEVC,
            DecoderCodec::Av1 => sys::CUDA_VIDEO_CODEC_AV1,
            DecoderCodec::Vp8 => sys::CUDA_VIDEO_CODEC_VP8,
            DecoderCodec::Vp9 => sys::CUDA_VIDEO_CODEC_VP9,
            DecoderCodec::Jpeg => sys::CUDA_VIDEO_CODEC_JPEG,
        }
    }

    /// The codec as NVDEC numbers it.
    pub fn to_sys(self) -> (code: u32)
        ensures
            code == self.code(),
    {
        match self {
            DecoderCodec::H264 => sys::CUDA_VIDEO_CODEC_H264,
            DecoderCodec::Hevc => sys::CUDA_VIDEO_CODEC_HEVC,
            DecoderCodec::Av1 => sys::CUDA_VIDEO_CODEC_AV1,
            DecoderCodec::Vp8 => sys::CUDA_VIDEO_CODEC_VP8,
            DecoderCodec::Vp9 => sys::CUDA_VIDEO_CODEC_VP9,
            DecoderCodec::Jpeg => sys::CUDA_VIDEO_CODEC_JPEG,
        }
    }
}

/// Layout of the frames that a decoder puts out.
#[derive(Debug, Clone, Copy, PartialEq, Eq, Structural)]
pub enum SurfaceFormat {
    /// Semi-planar YUV 4:2:0 at 8 bits.
    Nv12,
}

impl SurfaceFormat {
    pub open spec fn code(self) -> u32 {
        match self {
            SurfaceFormat::Nv12 => sys::CUDA_VIDEO_SURFACE_FORMAT_NV12,
        }
    }

    /// The format as NVDEC numbers it.
    pub fn to_sys(self) -> (code: u32)
        ensures
            code == self.code(),
    {
        match self {
            SurfaceFormat::Nv12 => sys::CUDA_VIDEO_SURFACE_FORMAT_NV12,
        }
    }
}

/// Settings of a decoder.
#[derive(Debug, Clone, Copy)]
pub struct DecoderConfig {
    pub codec: DecoderCodec,
    /// The GPU to use.
    pub device_id: i32,
    /// Upper limit of the number of decode surfaces; 0 is refused.
    ///
    /// A stream that needs more surfaces than this is refused before an existing decoder is
    /// destroyed. The number of surfaces allocated never exceeds the limit.
    pub max_num_decode_surfaces: u32,
    /// Display delay (0 for low latency).
    pub max_display_delay: u32,
    pub surface_format: SurfaceFormat,
}

/// What the driver reports of a decoder, as capabilities.
pub open spec fn decoder_caps(raw: RawDecoderCaps) -> DecoderCaps {
    DecoderCaps {
        is_supported: raw.is_supported != 0,
        max_width: raw.max_width,
        max_height: raw.max_height,
        max_mb_count: raw.max_mb_count,
        min_width: raw.min_width as u32,
        min_height: raw.min_height as u32,
    }
}

/// The stages of asking for the capabilities of a decoder.
pub enum QueryDecoderCaps {
    Load { codec_type: u32, device_id: i32 },
    CreateContext { codec_type: u32 },
    Enter { codec_type: u32 },
    Query,
}

impl Stage for QueryDecoderCaps {
    type Context = ();

    type Output = DecoderCaps;

    open spec fn admits(self, context: (), reply: Reply) -> bool {
        true
    }

    open spec fn moves(self, before: (), reply: Reply, after: (), progress: Progress<
        Self,
        DecoderCaps,
    >) -> bool {
        match (self, reply) {
            (QueryDecoderCaps::Load { codec_type, device_id }, Ok(_)) => progress.is(
                Seq::empty(),
                Next::Call {
                    stage: QueryDecoderCaps::CreateContext { codec_type },
                    call: Call::CtxCreate { flags: 0, device: device_id },
                },
            ),
            (QueryDecoderCaps::CreateContext { codec_type }, Ok(output)) => {
                let ctx = output.handle_spec();
                progress.is(
                    seq![Release::CheckedOnSuccess(Call::CtxDestroy { ctx })],
                    Next::Call {
                        stage: QueryDecoderCaps::Enter { codec_type },
                        call: Call::CtxPushCurrent { ctx },
                    },
                )
            },
            (QueryDecoderCaps::Enter { codec_type }, Ok(_)) => progress.is(
                seq![Release::Checked(Call::CtxPopCurrent)],
                Next::Call {
                    stage: QueryDecoderCaps::Query,
                    call: Call::GetDecoderCaps {
                        codec_type,
                        chroma_format: sys::CUDA_VIDEO_CHROMA_FORMAT_420,
                        bit_depth_minus8: 0,
                    },
                },
            ),
            (QueryDecoderCaps::Query, Ok(output)) => progress.is(
                Seq::empty(),
                Next::Succeed(decoder_caps(output.decoder_caps_spec())),
            ),
            (_, Err(error)) => progress.is(Seq::empty(), Next::Fail(error)),
        }
    }

    fn advance(self, context: &mut (), reply: Reply) -> (progress: Progress<Self, DecoderCaps>) {
        match (self, reply) {
            (QueryDecoderCaps::Load { codec_type, device_id }, Ok(_)) => Progress::call(
                QueryDecoderCaps::CreateContext { codec_type },
                Call::CtxCreate { flags: 0, device: device_id },
            ),
            (QueryDecoderCaps::CreateContext { codec_type }, Ok(output)) => {
                let ctx: u64 = output.handle();
                Progress::acquire(
                    Release::CheckedOnSuccess(Call::CtxDestroy { ctx }),
                    QueryDecoderCaps::Enter { codec_type },
                    Call::CtxPushCurrent { ctx },
                )
            },
            (QueryDecoderCaps::Enter { codec_type }, Ok(_)) => Progress::acquire(
                Release::Checked(Call::CtxPopCurrent),
                QueryDecoderCaps::Query,
                Call::GetDecoderCaps {
                    codec_type,
                    chroma_format: sys::CUDA_VIDEO_CHROMA_FORMAT_420,
                    bit_depth_minus8: 0,
                },
            ),
            (QueryDecoderCaps::Query, Ok(output)) => {
                let raw = output.decoder_caps();
                Progress::succeed(
                    DecoderCaps {
                        is_supported: raw.is_supported != 0,
                        max_width: raw.max_width,
                        max_height: raw.max_height,
                        max_mb_count: raw.max_mb_count,
                        min_width: raw.min_width as u32,
                        min_height: raw.min_height as u32,
                    },
                )
            },
            (_, Err(error)) => Progress::fail(error),
        }
    }
}

/// Starts to ask what the decoder for a codec is capable of.
pub fn query_decoder_caps(codec: DecoderCodec, device_id: i32) -> (turn: Turn<QueryDecoderCaps>)
    ensures
        turn@ == crate::operation::forward(
            QueryDecoderCaps::Load { codec_type: codec.code(), device_id },
            Call::LoadLibraries,
            Seq::empty(),
        ),
{
    Turn::start(
        QueryDecoderCaps::Load { codec_type: codec.to_sys(), device_id },
        Call::LoadLibraries,
    )
}

/// Each codec has the number that NVDEC gives to it, and no two have the same.
pub proof fn decoder_codecs_are_told_apart(codec: DecoderCodec, other: DecoderCodec)
    ensures
        codec is H264 ==> codec.code() == 4,
        codec is Hevc ==> codec.code() == 8,
        codec is Av1 ==> codec.code() == 11,
        codec is Vp8 ==> codec.code() == 9,
        codec is Vp9 ==> codec.code() == 10,
        codec is Jpeg ==> codec.code() == 5,
        codec.code() == other.code() ==> codec == other,
{
}

/// Frames are put out in NV12, which NVDEC numbers 0.
pub proof fn frames_are_put_out_in_nv12(format: SurfaceFormat)
    ensures
        format is Nv12,
        format.code() == 0,
{
}

/// Each capability is what the driver says of that very capability. A codec is supported where
/// the driver does not say 0.
pub proof fn decoder_caps_are_what_the_driver_says(raw: RawDecoderCaps)
    ensures
        ({
            let caps = decoder_caps(raw);
            &&& caps.is_supported <==> raw.is_supported > 0
            &&& caps.max_width == raw.max_width
            &&& caps.max_height == raw.max_height
            &&& caps.max_mb_count == raw.max_mb_count
            &&& caps.min_width == raw.min_width
            &&& caps.min_height == raw.min_height
        }),
{
}

/// The packets that are under way and the frames that came out are together the packets that went
/// in, unless more frames came out than packets went in. Then nothing is under way.
pub proof fn packets_are_under_way_or_out(stats: StatsView)
    ensures
        stats.output_frame <= stats.decode ==> in_flight(stats) + stats.output_frame
            == stats.decode,
        stats.output_frame > stats.decode ==> in_flight(stats) == 0,
{
}

} // verus!
