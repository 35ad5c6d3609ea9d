//! The decoder: what the parser's callbacks do, and what packets lead to.

use std::collections::VecDeque;
use vstd::prelude::*;

use crate::decode::DecoderConfig;
use crate::decode::DecoderStats;
use crate::decode::StatsView;
use crate::driver::result_of;
use crate::driver::Call;
use crate::driver::DecoderCreateInfo;
use crate::driver::Packet;
use crate::driver::ProcParams;
use crate::driver::Reply;
use crate::error::Error;
use crate::error::Text;
use crate::frame::FrameView;
use crate::frame::RawFrame;
use crate::geometry::Geometry;
use crate::geometry::PictureLayout;
use crate::operation::Carrier;
use crate::operation::Next;
use crate::operation::Progress;
use crate::operation::Release;
use crate::operation::SingleCall;
use crate::operation::Stage;
use crate::operation::Step;
use crate::operation::Turn;
use crate::operation::TurnView;
use crate::stats::counted;
use crate::sys;

verus! {

/// The area of a picture that is to be displayed.
#[derive(Debug, Clone, Copy, PartialEq, Eq)]
pub struct DisplayArea {
    pub left: i32,
    pub top: i32,
    pub right: i32,
    pub bottom: i32,
}

/// The format of a video sequence, as the parser announces it.
#[derive(Debug, Clone, Copy, PartialEq, Eq)]
pub struct VideoFormat {
    pub codec: u32,
    pub chroma_format: u32,
    pub progressive_sequence: u8,
    pub bit_depth_luma_minus8: u8,
    /// Number of decode surfaces that are needed at least to decode correctly.
    pub min_num_decode_surfaces: u8,
    pub coded_width: u32,
    pub coded_height: u32,
    pub display_area: DisplayArea,
}

/// A picture that is to be displayed, as the parser announces it.
#[derive(Debug, Clone, Copy, PartialEq, Eq)]
pub struct DisplayInfo {
    pub picture_index: i32,
    pub progressive_frame: i32,
    pub top_field_first: i32,
    pub repeat_first_field: i32,
}

/// A decoder, seen from the thread that feeds it.
#[derive(Debug)]
pub struct DecoderState {
    ctx: u64,
    ctx_lock: u64,
    parser: u64,
    decoder: u64,
    max_num_decode_surfaces: u32,
    geometry: Geometry,
    surface_format: u32,
    frames: VecDeque<RawFrame>,
    callback_error: Option<Error>,
    stats: DecoderStats,
}

/// The state of a [`DecoderState`].
#[verifier::ext_equal]
pub struct DecoderStateView {
    /// The CUDA context that the decoder lives in.
    pub ctx: u64,
    pub ctx_lock: u64,
    pub parser: u64,
    /// The hardware decoder; null until the first sequence.
    pub decoder: u64,
    pub max_num_decode_surfaces: u32,
    pub geometry: Geometry,
    pub surface_format: u32,
    /// Frames that are ready, the oldest first.
    pub frames: Seq<FrameView>,
    /// The first failure of a callback since a packet was parsed.
    pub callback_error: Option<Error>,
    pub stats: StatsView,
}

impl View for DecoderState {
    type V = DecoderStateView;

    closed spec fn view(&self) -> DecoderStateView {
        DecoderStateView {
            ctx: self.ctx,
            ctx_lock: self.ctx_lock,
            parser: self.parser,
            decoder: self.decoder,
            max_num_decode_surfaces: self.max_num_decode_surfaces,
            geometry: self.geometry,
            surface_format: self.surface_format,
            frames: self.frames@.map_values(|frame: RawFrame| frame@),
            callback_error: self.callback_error,
            stats: self.stats@,
        }
    }
}

/// A geometry of which nothing is known.
pub open spec fn no_geometry() -> Geometry {
    Geometry { width: 0, height: 0, left: 0, top: 0, surface_width: 0, surface_height: 0 }
}

/// A new decoder.
pub open spec fn new_decoder(
    config: DecoderConfig,
    ctx: u64,
    ctx_lock: u64,
    parser: u64,
) -> DecoderStateView {
    DecoderStateView {
        ctx,
        ctx_lock,
        parser,
        decoder: sys::NULL,
        max_num_decode_surfaces: config.max_num_decode_surfaces,
        geometry: no_geometry(),
        surface_format: config.surface_format.code(),
        frames: Seq::empty(),
        callback_error: None,
        stats: crate::decode::no_stats(),
    }
}

/// The stages of creating a decoder.
pub enum OpenDecoder {
    Load { config: DecoderConfig },
    CreateContext { config: DecoderConfig },
    CreateLock { config: DecoderConfig, ctx: u64 },
    CreateParser { config: DecoderConfig, ctx: u64, ctx_lock: u64 },
}

/// What takes a decoder down that has no parser yet: its lock and its context, as far as it has
/// them.
pub open spec fn unparsed_releases(ctx: u64, ctx_lock: u64) -> Seq<Release> {
    (if ctx != sys::NULL {
        seq![Release::OnFailure(Call::CtxDestroy { ctx })]
    } else {
        Seq::empty()
    }) + (if ctx_lock != sys::NULL {
        seq![Release::OnFailure(Call::CtxLockDestroy { lock: ctx_lock })]
    } else {
        Seq::empty()
    })
}

impl Stage for OpenDecoder {
    type Context = ();

    type Output = DecoderState;

    open spec fn admits(self, context: (), reply: Reply) -> bool {
        true
    }

    open spec fn moves(self, before: (), reply: Reply, after: (), progress: Progress<
        Self,
        DecoderState,
    >) -> bool {
        match (self, reply) {
            (OpenDecoder::Load { config }, Ok(_)) => progress.is(
                Seq::empty(),
                Next::Call {
                    stage: OpenDecoder::CreateContext { config },
                    call: Call::CtxCreate { flags: 0, device: config.device_id },
                },
            ),
            (OpenDecoder::CreateContext { config }, Ok(output)) => {
                let ctx = output.handle_spec();
                progress.is(
                    seq![Release::OnFailure(Call::CtxDestroy { ctx })],
                    Next::Call {
                        stage: OpenDecoder::CreateLock { config, ctx },
                        call: Call::CtxLockCreate { ctx },
                    },
                )
            },
            (OpenDecoder::CreateLock { config, ctx }, Ok(output)) => {
                let ctx_lock = output.handle_spec();
                progress.is(
                    seq![Release::OnFailure(Call::CtxLockDestroy { lock: ctx_lock })]
                        + unparsed_releases(ctx, ctx_lock),
                    Next::Call {
                        stage: OpenDecoder::CreateParser { config, ctx, ctx_lock },
                        call: Call::CreateVideoParser {
                            codec_type: config.codec.code(),
                            max_num_decode_surfaces: sys::PARSER_INITIAL_DECODE_SURFACES,
                            max_display_delay: config.max_display_delay,
                        },
                    },
                )
            },
            (OpenDecoder::CreateParser { config, ctx, ctx_lock }, Ok(output)) => {
                &&& progress.acquired@ == Seq::<Release>::empty()
                &&& progress.next matches Next::Succeed(state)
                &&& state@ == new_decoder(config, ctx, ctx_lock, output.handle_spec())
            },
            (_, Err(error)) => progress.is(Seq::empty(), Next::Fail(error)),
        }
    }

    fn advance(self, context: &mut (), reply: Reply) -> (progress: Progress<Self, DecoderState>) {
        match (self, reply) {
            (OpenDecoder::Load { config }, Ok(_)) => Progress::call(
                OpenDecoder::CreateContext { config },
                Call::CtxCreate { flags: 0, device: config.device_id },
            ),
            (OpenDecoder::CreateContext { config }, Ok(output)) => {
                let ctx: u64 = output.handle();
                Progress::acquire(
                    Release::OnFailure(Call::CtxDestroy { ctx }),
                    OpenDecoder::CreateLock { config, ctx },
                    Call::CtxLockCreate { ctx },
                )
            },
            (OpenDecoder::CreateLock { config, ctx }, Ok(output)) => {
                let ctx_lock: u64 = output.handle();
                let mut acquired = vec![Release::OnFailure(Call::CtxLockDestroy { lock: ctx_lock })];
                if ctx != sys::NULL {
                    acquired.push(Release::OnFailure(Call::CtxDestroy { ctx }));
                }
                if ctx_lock != sys::NULL {
                    acquired.push(Release::OnFailure(Call::CtxLockDestroy { lock: ctx_lock }));
                }
                assert(acquired@ =~= seq![
                    Release::OnFailure(Call::CtxLockDestroy { lock: ctx_lock }),
                ] + unparsed_releases(ctx, ctx_lock));
                Progress {
                    acquired,
                    next: Next::Call {
                        stage: OpenDecoder::CreateParser { config, ctx, ctx_lock },
                        call: Call::CreateVideoParser {
                            codec_type: config.codec.to_sys(),
                            max_num_decode_surfaces: sys::PARSER_INITIAL_DECODE_SURFACES,
                            max_display_delay: config.max_display_delay,
                        },
                    },
                }
            },
            (OpenDecoder::CreateParser { config, ctx, ctx_lock }, Ok(output)) => {
                let state = DecoderState {
                    ctx,
                    ctx_lock,
                    parser: output.handle(),
                    decoder: sys::NULL,
                    max_num_decode_surfaces: config.max_num_decode_surfaces,
                    geometry: Geometry {
                        width: 0,
                        height: 0,
                        left: 0,
                        top: 0,
                        surface_width: 0,
                        surface_height: 0,
                    },
                    surface_format: config.surface_format.to_sys(),
                    frames: VecDeque::new(),
                    callback_error: None,
                    stats: DecoderStats::default(),
                };
                assert(state@ =~= new_decoder(config, ctx, ctx_lock, output.handle_spec()));
                Progress::succeed(state)
            },
            (_, Err(error)) => Progress::fail(error),
        }
    }
}

/// The number of decode surfaces for both the parser and the decoder, where the stream needs
/// `min` and the configuration allows `max`.
///
/// A sequence callback that returns 1 leaves the number of surfaces of the parser as it is. So
/// that parser and decoder agree, 2 is used wherever it is allowed.
pub open spec fn num_decode_surfaces(min: u32, max: u32) -> Result<u32, Error> {
    if min == 0 {
        Err(
            crate::error::custom(
                "determine_num_decode_surfaces",
                "min_num_decode_surfaces must be greater than 0",
            ),
        )
    } else if min > max {
        Err(
            Error {
                function: "determine_num_decode_surfaces",
                status_code: None,
                status_name: None,
                status_message: Some(Text::SurfaceLimit { min, max }),
            },
        )
    } else if min >= 2 {
        Ok(min)
    } else if max >= 2 {
        Ok(2u32)
    } else {
        Ok(1u32)
    }
}

/// Whether a display area is not empty and lies within the coded picture.
pub open spec fn display_area_is_valid(format: VideoFormat) -> bool {
    let area = format.display_area;
    &&& 0 <= area.left < area.right <= format.coded_width
    &&& 0 <= area.top < area.bottom <= format.coded_height
}

/// Why a sequence with this format cannot be decoded, if it cannot.
pub open spec fn format_error(format: VideoFormat) -> Option<Error> {
    if !display_area_is_valid(format) {
        Some(
            crate::error::custom("handle_video_sequence", "invalid display_area in video format"),
        )
    } else if format.display_area.left % 2 != 0 || format.display_area.top % 2 != 0 {
        Some(
            crate::error::custom(
                "handle_video_sequence",
                "display_area must start at even coordinates",
            ),
        )
    } else if format.bit_depth_luma_minus8 != 0 {
        Some(crate::error::custom("handle_video_sequence", "only 8-bit video is supported"))
    } else {
        None
    }
}

/// The geometry that a format leads to.
pub open spec fn geometry_of(format: VideoFormat) -> Geometry {
    Geometry {
        width: (format.display_area.right - format.display_area.left) as u32,
        height: (format.display_area.bottom - format.display_area.top) as u32,
        left: format.display_area.left as u32,
        top: format.display_area.top as u32,
        surface_width: format.coded_width,
        surface_height: format.coded_height,
    }
}

/// The decoder that is created for a format.
pub open spec fn create_info(
    state: DecoderStateView,
    format: VideoFormat,
    surfaces: u32,
) -> DecoderCreateInfo {
    DecoderCreateInfo {
        codec_type: format.codec,
        chroma_format: format.chroma_format,
        output_format: state.surface_format,
        bit_depth_minus8: format.bit_depth_luma_minus8 as u64,
        deinterlace_mode: if format.progressive_sequence != 0 {
            sys::CUDA_VIDEO_DEINTERLACE_MODE_WEAVE
        } else {
            sys::CUDA_VIDEO_DEINTERLACE_MODE_ADAPTIVE
        },
        num_output_surfaces: sys::NUM_OUTPUT_SURFACES,
        creation_flags: sys::CUDA_VIDEO_CREATE_PREFER_CUVID,
        num_decode_surfaces: surfaces as u64,
        width: format.coded_width as u64,
        height: format.coded_height as u64,
        max_width: format.coded_width as u64,
        max_height: format.coded_height as u64,
        target_width: format.coded_width as u64,
        target_height: format.coded_height as u64,
        vid_lock: state.ctx_lock,
    }
}

/// What a new sequence is going to change.
#[derive(Debug, Clone, Copy, PartialEq, Eq)]
pub struct SequencePlan {
    pub info: DecoderCreateInfo,
    pub geometry: Geometry,
    /// Number of decode surfaces.
    pub surfaces: u32,
}

/// What a new sequence is going to change, or why it is refused.
pub open spec fn sequence_plan(
    state: DecoderStateView,
    format: VideoFormat,
) -> Result<SequencePlan, Error> {
    match num_decode_surfaces(
        format.min_num_decode_surfaces as u32,
        state.max_num_decode_surfaces,
    ) {
        Err(error) => Err(error),
        Ok(surfaces) => match format_error(format) {
            Some(error) => Err(error),
            None => Ok(
                SequencePlan {
                    info: create_info(state, format, surfaces),
                    geometry: geometry_of(format),
                    surfaces,
                },
            ),
        },
    }
}

/// The stages of starting a sequence: an existing decoder is destroyed, and a new one created.
pub enum StartSequence {
    EnterToDestroy { plan: SequencePlan },
    Destroy { plan: SequencePlan },
    /// Leave the context after the old decoder was destroyed, or after that has failed.
    LeaveOld { plan: SequencePlan, destroyed: Result<(), Error> },
    EnterToCreate { plan: SequencePlan },
    Create { plan: SequencePlan },
    /// Leave the context after the new decoder was created, or after that has failed.
    LeaveNew { plan: SequencePlan, created: Result<(), Error> },
}

impl Stage for StartSequence {
    type Context = DecoderState;

    /// The number of decode surfaces.
    type Output = i32;

    open spec fn admits(self, context: DecoderState, reply: Reply) -> bool {
        true
    }

    open spec fn moves(
        self,
        before: DecoderState,
        reply: Reply,
        after: DecoderState,
        progress: Progress<Self, i32>,
    ) -> bool {
        match (self, reply) {
            (StartSequence::EnterToDestroy { plan }, Ok(_)) => {
                &&& after == before
                &&& progress.is(
                    Seq::empty(),
                    Next::Call {
                        stage: StartSequence::Destroy { plan },
                        call: Call::DestroyDecoder { decoder: before@.decoder },
                    },
                )
            },
            (StartSequence::Destroy { plan }, _) => {
                &&& after == before
                &&& progress.is(
                    Seq::empty(),
                    Next::Call {
                        stage: StartSequence::LeaveOld {
                            plan,
                            destroyed: match reply {
                                Ok(_) => Ok(()),
                                Err(error) => Err(error),
                            },
                        },
                        call: Call::CtxPopCurrent,
                    },
                )
            },
            (StartSequence::LeaveOld { plan, destroyed: Ok(()) }, Ok(_)) => {
                &&& after@ == DecoderStateView { decoder: sys::NULL, ..before@ }
                &&& progress.is(
                    Seq::empty(),
                    Next::Call {
                        stage: StartSequence::EnterToCreate { plan },
                        call: Call::CtxPushCurrent { ctx: before@.ctx },
                    },
                )
            },
            (StartSequence::LeaveOld { destroyed: Err(error), .. }, Ok(_)) => {
                &&& after == before
                &&& progress.is(Seq::empty(), Next::Fail(error))
            },
            (StartSequence::EnterToCreate { plan }, Ok(_)) => {
                &&& after == before
                &&& progress.is(
                    Seq::empty(),
                    Next::Call {
                        stage: StartSequence::Create { plan },
                        call: Call::CreateDecoder { info: plan.info },
                    },
                )
            },
            (StartSequence::Create { plan }, Ok(output)) => {
                &&& after@ == DecoderStateView { decoder: output.handle_spec(), ..before@ }
                &&& progress.is(
                    Seq::empty(),
                    Next::Call {
                        stage: StartSequence::LeaveNew { plan, created: Ok(()) },
                        call: Call::CtxPopCurrent,
                    },
                )
            },
            (StartSequence::Create { plan }, Err(error)) => {
                &&& after == before
                &&& progress.is(
                    Seq::empty(),
                    Next::Call {
                        stage: StartSequence::LeaveNew { plan, created: Err(error) },
                        call: Call::CtxPopCurrent,
                    },
                )
            },
            (StartSequence::LeaveNew { plan, created: Ok(()) }, Ok(_)) => {
                &&& after@ == DecoderStateView {
                    geometry: plan.geometry,
                    stats: StatsView {
                        create_decoder: counted(before@.stats.create_decoder, 1),
                        ..before@.stats
                    },
                    ..before@
                }
                &&& progress.is(Seq::empty(), Next::Succeed(plan.surfaces as i32))
            },
            (StartSequence::LeaveNew { created: Err(error), .. }, Ok(_)) => {
                &&& after == before
                &&& progress.is(Seq::empty(), Next::Fail(error))
            },
            (_, Err(error)) => {
                &&& after == before
                &&& progress.is(Seq::empty(), Next::Fail(error))
            },
        }
    }

    fn advance(self, context: &mut DecoderState, reply: Reply) -> (progress: Progress<Self, i32>) {
        match (self, reply) {
            (StartSequence::EnterToDestroy { plan }, Ok(_)) => Progress::call(
                StartSequence::Destroy { plan },
                Call::DestroyDecoder { decoder: context.decoder },
            ),
            (StartSequence::Destroy { plan }, reply) => {
                let destroyed = match reply {
                    Ok(_) => Ok(()),
                    Err(error) => Err(error),
                };
                Progress::call(
                    StartSequence::LeaveOld { plan, destroyed },
                    Call::CtxPopCurrent,
                )
            },
            (StartSequence::LeaveOld { plan, destroyed: Ok(()) }, Ok(_)) => {
                context.decoder = sys::NULL;
                Progress::call(
                    StartSequence::EnterToCreate { plan },
                    Call::CtxPushCurrent { ctx: context.ctx },
                )
            },
            (StartSequence::LeaveOld { destroyed: Err(error), .. }, Ok(_)) => Progress::fail(error),
            (StartSequence::EnterToCreate { plan }, Ok(_)) => Progress::call(
                StartSequence::Create { plan },
                Call::CreateDecoder { info: plan.info },
            ),
            (StartSequence::Create { plan }, Ok(output)) => {
                context.decoder = output.handle();
                Progress::call(
                    StartSequence::LeaveNew { plan, created: Ok(()) },
                    Call::CtxPopCurrent,
                )
            },
            (StartSequence::Create { plan }, Err(error)) => Progress::call(
                StartSequence::LeaveNew { plan, created: Err(error) },
                Call::CtxPopCurrent,
            ),
            (StartSequence::LeaveNew { plan, created: Ok(()) }, Ok(_)) => {
                context.stats.total_create_decoder_count.inc();
                context.geometry = plan.geometry;
                Progress::succeed(plan.surfaces as i32)
            },
            (StartSequence::LeaveNew { created: Err(error), .. }, Ok(_)) => Progress::fail(error),
            (_, Err(error)) => Progress::fail(error),
        }
    }
}

/// The stages of decoding a picture.
pub enum DecodePicture {
    Enter { decoder: u64 },
    Decode,
}

impl Stage for DecodePicture {
    type Context = ();

    type Output = ();

    open spec fn admits(self, context: (), reply: Reply) -> bool {
        true
    }

    open spec fn moves(self, before: (), reply: Reply, after: (), progress: Progress<
        Self,
        (),
    >) -> bool {
        match (self, reply) {
            (DecodePicture::Enter { decoder }, Ok(_)) => progress.is(
                seq![Release::Checked(Call::CtxPopCurrent)],
                Next::Call {
                    stage: DecodePicture::Decode,
                    call: Call::DecodePicture { decoder },
                },
            ),
            (DecodePicture::Decode, Ok(_)) => progress.is(Seq::empty(), Next::Succeed(())),
            (_, Err(error)) => progress.is(Seq::empty(), Next::Fail(error)),
        }
    }

    fn advance(self, context: &mut (), reply: Reply) -> (progress: Progress<Self, ()>) {
        match (self, reply) {
            (DecodePicture::Enter { decoder }, Ok(_)) => Progress::acquire(
                Release::Checked(Call::CtxPopCurrent),
                DecodePicture::Decode,
                Call::DecodePicture { decoder },
            ),
            (DecodePicture::Decode, Ok(_)) => Progress::succeed(()),
            (_, Err(error)) => Progress::fail(error),
        }
    }
}

/// The stages of putting a picture out: it is mapped, copied to the host, and queued.
pub enum DisplayPicture {
    Enter { picture_index: i32, proc_params: ProcParams },
    MapPicture,
    CopyLuma { device_ptr: u64, layout: PictureLayout },
    CopyChroma { device_ptr: u64, layout: PictureLayout, luma: Vec<u8> },
    /// Unmap the picture after it was copied, or after that has failed.
    UnmapPicture { copied: Result<RawFrame, Error> },
    /// Leave the context.
    Leave { copied: Result<RawFrame, Error> },
}

/// Whether a stage does nothing but wait to leave the context, and then to return `error`.
pub open spec fn leaves_with(
    progress: Progress<DisplayPicture, ()>,
    error: Error,
) -> bool {
    progress.is(
        Seq::empty(),
        Next::Call {
            stage: DisplayPicture::Leave { copied: Err(error) },
            call: Call::CtxPopCurrent,
        },
    )
}

/// Whether a stage waits to unmap the picture, and then to return `error`.
pub open spec fn unmaps_with(
    progress: Progress<DisplayPicture, ()>,
    decoder: u64,
    device_ptr: u64,
    error: Error,
) -> bool {
    progress.is(
        Seq::empty(),
        Next::Call {
            stage: DisplayPicture::UnmapPicture { copied: Err(error) },
            call: Call::UnmapVideoFrame { decoder, device_ptr },
        },
    )
}

impl Stage for DisplayPicture {
    type Context = DecoderState;

    type Output = ();

    open spec fn admits(self, context: DecoderState, reply: Reply) -> bool {
        match (self, reply) {
            (DisplayPicture::MapPicture, Ok(output)) => context@.geometry.measures(
                output.mapped_spec().1 as nat,
            ),
            _ => true,
        }
    }

    open spec fn moves(
        self,
        before: DecoderState,
        reply: Reply,
        after: DecoderState,
        progress: Progress<Self, ()>,
    ) -> bool {
        let decoder = before@.decoder;
        match (self, reply) {
            (DisplayPicture::Enter { picture_index, proc_params }, Ok(_)) => {
                &&& after == before
                &&& progress.is(
                    Seq::empty(),
                    Next::Call {
                        stage: DisplayPicture::MapPicture,
                        call: Call::MapVideoFrame { decoder, picture_index, proc_params },
                    },
                )
            },
            (DisplayPicture::MapPicture, Ok(output)) => {
                let (device_ptr, pitch) = output.mapped_spec();
                &&& after == before
                &&& progress.acquired@ == Seq::<Release>::empty()
                &&& progress.next matches Next::Call {
                    stage: DisplayPicture::CopyLuma { device_ptr: ptr, layout },
                    call,
                }
                &&& ptr == device_ptr
                &&& layout@.geometry == before@.geometry
                &&& layout@.pitch == pitch
                &&& call == Call::CopyPlane {
                    plane: crate::geometry::luma_copy(layout@, device_ptr),
                }
            },
            (DisplayPicture::MapPicture, Err(error)) => {
                &&& after == before
                &&& leaves_with(progress, error)
            },
            (DisplayPicture::CopyLuma { device_ptr, layout }, Ok(output)) => {
                &&& after == before
                &&& progress.acquired@ == Seq::<Release>::empty()
                &&& progress.next matches Next::Call {
                    stage: DisplayPicture::CopyChroma {
                        device_ptr: next_ptr,
                        layout: next_layout,
                        luma,
                    },
                    call,
                }
                &&& next_ptr == device_ptr
                &&& next_layout == layout
                &&& luma@ == output.plane_spec()
                &&& call == Call::CopyPlane {
                    plane: crate::geometry::chroma_copy(layout@, device_ptr),
                }
            },
            (DisplayPicture::CopyLuma { device_ptr, .. }, Err(error)) => {
                &&& after == before
                &&& unmaps_with(progress, decoder, device_ptr, error)
            },
            (DisplayPicture::CopyChroma { device_ptr, layout, luma }, Ok(output)) => {
                &&& after == before
                &&& progress.acquired@ == Seq::<Release>::empty()
                &&& progress.next matches Next::Call {
                    stage: DisplayPicture::UnmapPicture { copied: Ok(frame) },
                    call,
                }
                &&& frame@ == crate::geometry::frame_of(layout@, luma@, output.plane_spec())
                &&& call == Call::UnmapVideoFrame { decoder, device_ptr }
            },
            (DisplayPicture::CopyChroma { device_ptr, .. }, Err(error)) => {
                &&& after == before
                &&& unmaps_with(progress, decoder, device_ptr, error)
            },
            (DisplayPicture::UnmapPicture { copied }, _) => {
                &&& after == before
                &&& progress.is(
                    Seq::empty(),
                    Next::Call {
                        stage: DisplayPicture::Leave { copied },
                        call: Call::CtxPopCurrent,
                    },
                )
            },
            (DisplayPicture::Leave { copied: Ok(frame) }, Ok(_)) => {
                &&& after@ == DecoderStateView {
                    frames: before@.frames.push(frame@),
                    stats: StatsView {
                        output_frame: counted(before@.stats.output_frame, 1),
                        ..before@.stats
                    },
                    ..before@
                }
                &&& progress.is(Seq::empty(), Next::Succeed(()))
            },
            (DisplayPicture::Leave { copied: Err(error) }, Ok(_)) => {
                &&& after == before
                &&& progress.is(Seq::empty(), Next::Fail(error))
            },
            (_, Err(error)) => {
                &&& after == before
                &&& progress.is(Seq::empty(), Next::Fail(error))
            },
        }
    }

    fn advance(self, context: &mut DecoderState, reply: Reply) -> (progress: Progress<Self, ()>) {
        let decoder: u64 = context.decoder;
        match (self, reply) {
            (DisplayPicture::Enter { picture_index, proc_params }, Ok(_)) => Progress::call(
                DisplayPicture::MapPicture,
                Call::MapVideoFrame { decoder, picture_index, proc_params },
            ),
            (DisplayPicture::MapPicture, Ok(output)) => {
                let (device_ptr, pitch) = output.mapped();
                let layout = PictureLayout::new(context.geometry, pitch);
                let plane = layout.luma_copy(device_ptr);
                Progress::call(
                    DisplayPicture::CopyLuma { device_ptr, layout },
                    Call::CopyPlane { plane },
                )
            },
            (DisplayPicture::MapPicture, Err(error)) => Progress::call(
                DisplayPicture::Leave { copied: Err(error) },
                Call::CtxPopCurrent,
            ),
            (DisplayPicture::CopyLuma { device_ptr, layout }, Ok(output)) => {
                let plane = layout.chroma_copy(device_ptr);
                Progress::call(
                    DisplayPicture::CopyChroma { device_ptr, layout, luma: output.into_plane() },
                    Call::CopyPlane { plane },
                )
            },
            (DisplayPicture::CopyLuma { device_ptr, layout: _ }, Err(error)) => Progress::call(
                DisplayPicture::UnmapPicture { copied: Err(error) },
                Call::UnmapVideoFrame { decoder, device_ptr },
            ),
            (DisplayPicture::CopyChroma { device_ptr, layout, luma }, Ok(output)) => {
                let frame = layout.frame(luma, output.into_plane());
                Progress::call(
                    DisplayPicture::UnmapPicture { copied: Ok(frame) },
                    Call::UnmapVideoFrame { decoder, device_ptr },
                )
            },
            (DisplayPicture::CopyChroma { device_ptr, .. }, Err(error)) => Progress::call(
                DisplayPicture::UnmapPicture { copied: Err(error) },
                Call::UnmapVideoFrame { decoder, device_ptr },
            ),
            (DisplayPicture::UnmapPicture { copied }, _) => Progress::call(
                DisplayPicture::Leave { copied },
                Call::CtxPopCurrent,
            ),
            (DisplayPicture::Leave { copied: Ok(frame) }, Ok(_)) => {
                let ghost before = context@;
                context.stats.total_output_frame_count.inc();
                context.frames.push_back(frame);
                assert(context@.frames =~= before.frames.push(frame@));
                Progress::succeed(())
            },
            (DisplayPicture::Leave { copied: Err(error) }, Ok(_)) => Progress::fail(error),
            (_, Err(error)) => Progress::fail(error),
        }
    }
}

/// The outcome of parsing: a failure of a callback, if there was one, counts for more than what
/// the driver says.
pub open spec fn preferred<T>(callback_error: Option<Error>, result: Result<T, Error>) -> Result<
    T,
    Error,
> {
    match callback_error {
        Some(error) => Err(error),
        None => result,
    }
}

/// The failure that is kept when a callback fails: the first one.
pub open spec fn first_error(kept: Option<Error>, error: Error) -> Option<Error> {
    match kept {
        Some(first) => Some(first),
        None => Some(error),
    }
}

/// The only stage of parsing a packet.
pub struct ParsePacket<'a> {
    pub data: &'a [u8],
}

impl<'a> Carrier for ParsePacket<'a> {
    /// The parser takes the packet.
    open spec fn payload(self) -> Option<Seq<u8>> {
        Some(self.data@)
    }

    fn data(&self) -> (data: Option<&[u8]>) {
        Some(self.data)
    }
}

impl<'a> Stage for ParsePacket<'a> {
    type Context = DecoderState;

    type Output = ();

    open spec fn admits(self, context: DecoderState, reply: Reply) -> bool {
        true
    }

    open spec fn moves(
        self,
        before: DecoderState,
        reply: Reply,
        after: DecoderState,
        progress: Progress<Self, ()>,
    ) -> bool {
        &&& after@ == DecoderStateView { callback_error: None, ..before@ }
        &&& match preferred(before@.callback_error, result_of(reply)) {
            Ok(()) => progress.is(Seq::empty(), Next::Succeed(())),
            Err(error) => progress.is(Seq::empty(), Next::Fail(error)),
        }
    }

    fn advance(self, context: &mut DecoderState, reply: Reply) -> (progress: Progress<Self, ()>) {
        let result = match reply {
            Ok(_) => Ok(()),
            Err(error) => Err(error),
        };
        match context.prefer_callback_error(result) {
            Ok(()) => Progress::succeed(()),
            Err(error) => Progress::fail(error),
        }
    }
}

/// The stages of ending the stream: the parser is told, and all decoding is waited for.
pub enum EndStream {
    Parse,
    Enter,
    Synchronize,
}

impl Stage for EndStream {
    type Context = DecoderState;

    type Output = ();

    open spec fn admits(self, context: DecoderState, reply: Reply) -> bool {
        true
    }

    open spec fn moves(
        self,
        before: DecoderState,
        reply: Reply,
        after: DecoderState,
        progress: Progress<Self, ()>,
    ) -> bool {
        match (self, reply) {
            (EndStream::Parse, _) => {
                &&& after@ == DecoderStateView { callback_error: None, ..before@ }
                &&& match preferred(before@.callback_error, result_of(reply)) {
                    Ok(()) => progress.is(
                        Seq::empty(),
                        Next::Call {
                            stage: EndStream::Enter,
                            call: Call::CtxPushCurrent { ctx: before@.ctx },
                        },
                    ),
                    Err(error) => progress.is(Seq::empty(), Next::Fail(error)),
                }
            },
            (EndStream::Enter, Ok(_)) => {
                &&& after == before
                &&& progress.is(
                    seq![Release::Checked(Call::CtxPopCurrent)],
                    Next::Call { stage: EndStream::Synchronize, call: Call::CtxSynchronize },
                )
            },
            (EndStream::Synchronize, Ok(_)) => {
                &&& after == before
                &&& progress.is(Seq::empty(), Next::Succeed(()))
            },
            (_, Err(error)) => {
                &&& after == before
                &&& progress.is(Seq::empty(), Next::Fail(error))
            },
        }
    }

    fn advance(self, context: &mut DecoderState, reply: Reply) -> (progress: Progress<Self, ()>) {
        match (self, reply) {
            (EndStream::Parse, reply) => {
                let result = match reply {
                    Ok(_) => Ok(()),
                    Err(error) => Err(error),
                };
                match context.prefer_callback_error(result) {
                    Ok(()) => Progress::call(
                        EndStream::Enter,
                        Call::CtxPushCurrent { ctx: context.ctx },
                    ),
                    Err(error) => Progress::fail(error),
                }
            },
            (EndStream::Enter, Ok(_)) => Progress::acquire(
                Release::Checked(Call::CtxPopCurrent),
                EndStream::Synchronize,
                Call::CtxSynchronize,
            ),
            (EndStream::Synchronize, Ok(_)) => Progress::succeed(()),
            (_, Err(error)) => Progress::fail(error),
        }
    }
}

/// What is to be released when a decoder is taken down: the parser, the hardware decoder, the
/// lock and the context, in this order and as far as it has them. The latest entry comes first.
pub open spec fn closing_releases(state: DecoderStateView) -> Seq<Release> {
    (if state.ctx != sys::NULL {
        seq![Release::Always(Call::CtxDestroy { ctx: state.ctx })]
    } else {
        Seq::empty()
    }) + (if state.ctx_lock != sys::NULL {
        seq![Release::Always(Call::CtxLockDestroy { lock: state.ctx_lock })]
    } else {
        Seq::empty()
    }) + (if state.decoder != sys::NULL {
        seq![
            Release::InContext {
                ctx: state.ctx,
                call: Call::DestroyDecoder { decoder: state.decoder },
            },
        ]
    } else {
        Seq::empty()
    }) + (if state.parser != sys::NULL {
        seq![Release::Always(Call::DestroyVideoParser { parser: state.parser })]
    } else {
        Seq::empty()
    })
}

/// A decoder whose parser has announced a sequence.
pub open spec fn sequence_announced(state: DecoderStateView) -> DecoderStateView {
    DecoderStateView {
        stats: StatsView {
            sequence_callback: counted(state.stats.sequence_callback, 1),
            ..state.stats
        },
        ..state
    }
}

/// A decoder whose parser has announced a picture to decode.
pub open spec fn picture_announced(state: DecoderStateView) -> DecoderStateView {
    DecoderStateView {
        stats: StatsView {
            decode_callback: counted(state.stats.decode_callback, 1),
            ..state.stats
        },
        ..state
    }
}

/// The turn in which decoding a picture starts.
pub open spec fn picture_start(state: DecoderStateView) -> TurnView<DecodePicture> {
    crate::operation::forward(
        DecodePicture::Enter { decoder: state.decoder },
        Call::CtxPushCurrent { ctx: state.ctx },
        Seq::empty(),
    )
}

/// The turn in which putting a picture out starts.
pub open spec fn display_start(state: DecoderStateView, info: DisplayInfo) -> TurnView<
    DisplayPicture,
> {
    crate::operation::forward(
        DisplayPicture::Enter {
            picture_index: info.picture_index,
            proc_params: ProcParams {
                progressive_frame: info.progressive_frame,
                second_field: (info.repeat_first_field + 1) as i32,
                top_field_first: info.top_field_first,
                output_stream: sys::NULL,
            },
        },
        Call::CtxPushCurrent { ctx: state.ctx },
        Seq::empty(),
    )
}

/// The turn in which a packet is parsed.
pub open spec fn packet_start<'a>(state: DecoderStateView, data: &'a [u8]) -> TurnView<
    ParsePacket<'a>,
> {
    crate::operation::forward(
        ParsePacket { data },
        Call::ParseVideoData {
            parser: state.parser,
            packet: Packet {
                flags: sys::CUVID_PKT_ENDOFPICTURE,
                payload_size: data@.len() as u64,
                timestamp: 0,
            },
        },
        Seq::empty(),
    )
}

/// The turn in which ending the stream starts.
pub open spec fn end_start(state: DecoderStateView) -> TurnView<EndStream> {
    crate::operation::forward(
        EndStream::Parse,
        Call::ParseVideoData {
            parser: state.parser,
            packet: Packet { flags: sys::CUVID_PKT_ENDOFSTREAM, payload_size: 0, timestamp: 0 },
        },
        Seq::empty(),
    )
}

impl DecoderState {
    /// Starts to create a decoder.
    pub fn new(config: DecoderConfig) -> (turn: Turn<OpenDecoder>)
        ensures
            config.max_num_decode_surfaces == 0 ==> turn@ == crate::operation::finished::<
                OpenDecoder,
            >(
                Err(
                    crate::error::custom(
                        "Decoder::new",
                        "max_num_decode_surfaces must be greater than 0",
                    ),
                ),
            ),
            config.max_num_decode_surfaces != 0 ==> turn@ == crate::operation::forward(
                OpenDecoder::Load { config },
                Call::LoadLibraries,
                Seq::empty(),
            ),
    {
        if config.max_num_decode_surfaces == 0 {
            return Turn::refuse(
                Error::new_custom("Decoder::new", "max_num_decode_surfaces must be greater than 0"),
            );
        }
        Turn::start(OpenDecoder::Load { config }, Call::LoadLibraries)
    }

    /// Determines the number of decode surfaces for both the parser and the decoder.
    ///
    /// `min` is what the stream needs, `max` is what the configuration allows.
    pub fn determine_num_decode_surfaces(min: u32, max: u32) -> (surfaces: Result<u32, Error>)
        ensures
            surfaces == num_decode_surfaces(min, max),
    {
        if min == 0 {
            return Err(
                Error::new_custom(
                    "determine_num_decode_surfaces",
                    "min_num_decode_surfaces must be greater than 0",
                ),
            );
        }
        if min > max {
            return Err(
                Error {
                    function: "determine_num_decode_surfaces",
                    status_code: None,
                    status_name: None,
                    status_message: Some(Text::SurfaceLimit { min, max }),
                },
            );
        }
        if min >= 2 {
            Ok(min)
        } else if max >= 2 {
            Ok(2)
        } else {
            Ok(1)
        }
    }

    fn plan_sequence(&self, format: &VideoFormat) -> (plan: Result<SequencePlan, Error>)
        ensures
            plan == sequence_plan(self@, *format),
    {
        let surfaces: u32 = match Self::determine_num_decode_surfaces(
            format.min_num_decode_surfaces as u32,
            self.max_num_decode_surfaces,
        ) {
            Ok(surfaces) => surfaces,
            Err(error) => {
                return Err(error);
            },
        };
        let left: i32 = format.display_area.left;
        let top: i32 = format.display_area.top;
        let right: i32 = format.display_area.right;
        let bottom: i32 = format.display_area.bottom;
        if left < 0 || top < 0 || right <= left || bottom <= top || right as u32
            > format.coded_width || bottom as u32 > format.coded_height {
            return Err(
                Error::new_custom("handle_video_sequence", "invalid display_area in video format"),
            );
        }
        if left % 2 != 0 || top % 2 != 0 {
            return Err(
                Error::new_custom(
                    "handle_video_sequence",
                    "display_area must start at even coordinates",
                ),
            );
        }
        if format.bit_depth_luma_minus8 != 0 {
            return Err(
                Error::new_custom("handle_video_sequence", "only 8-bit video is supported"),
            );
        }
        let deinterlace_mode: u32 = if format.progressive_sequence != 0 {
            sys::CUDA_VIDEO_DEINTERLACE_MODE_WEAVE
        } else {
            sys::CUDA_VIDEO_DEINTERLACE_MODE_ADAPTIVE
        };
        let info = DecoderCreateInfo {
            codec_type: format.codec,
            chroma_format: format.chroma_format,
            output_format: self.surface_format,
            bit_depth_minus8: format.bit_depth_luma_minus8 as u64,
            deinterlace_mode,
            num_output_surfaces: sys::NUM_OUTPUT_SURFACES,
            creation_flags: sys::CUDA_VIDEO_CREATE_PREFER_CUVID,
            num_decode_surfaces: surfaces as u64,
            width: format.coded_width as u64,
            height: format.coded_height as u64,
            max_width: format.coded_width as u64,
            max_height: format.coded_height as u64,
            target_width: format.coded_width as u64,
            target_height: format.coded_height as u64,
            vid_lock: self.ctx_lock,
        };
        let geometry = Geometry {
            width: (right - left) as u32,
            height: (bottom - top) as u32,
            left: left as u32,
            top: top as u32,
            surface_width: format.coded_width,
            surface_height: format.coded_height,
        };
        Ok(SequencePlan { info, geometry, surfaces })
    }

    /// Starts a sequence: the parser has announced a new format.
    ///
    /// An existing decoder is destroyed and a new one created, so that the resolution may change
    /// within a stream. The result is the number of decode surfaces, which the parser is told. A
    /// format that cannot be decoded is refused before anything is destroyed.
    pub fn handle_video_sequence(&mut self, format: &VideoFormat) -> (turn: Turn<StartSequence>)
        ensures
            final(self)@ == sequence_announced(old(self)@),
            final(self)@ == (DecoderStateView {
                stats: StatsView {
                    sequence_callback: counted(old(self)@.stats.sequence_callback, 1),
                    ..old(self)@.stats
                },
                ..old(self)@
            }),
            sequence_plan(old(self)@, *format) matches Ok(plan) ==> turn@
                == crate::runs::sequence_start(old(self)@, plan),
            match sequence_plan(old(self)@, *format) {
                Err(error) => turn@ == crate::operation::finished::<StartSequence>(Err(error)),
                Ok(plan) => turn@ == crate::operation::forward(
                    if old(self)@.decoder != sys::NULL {
                        StartSequence::EnterToDestroy { plan }
                    } else {
                        StartSequence::EnterToCreate { plan }
                    },
                    Call::CtxPushCurrent { ctx: old(self)@.ctx },
                    Seq::empty(),
                ),
            },
    {
        self.stats.total_sequence_callback_count.inc();
        match self.plan_sequence(format) {
            Err(error) => Turn::refuse(error),
            Ok(plan) => {
                let stage = if self.decoder != sys::NULL {
                    StartSequence::EnterToDestroy { plan }
                } else {
                    StartSequence::EnterToCreate { plan }
                };
                Turn::start(stage, Call::CtxPushCurrent { ctx: self.ctx })
            },
        }
    }

    /// Starts to decode the picture that the parser has announced.
    pub fn handle_picture_decode(&mut self) -> (turn: Turn<DecodePicture>)
        ensures
            final(self)@ == picture_announced(old(self)@),
            final(self)@ == (DecoderStateView {
                stats: StatsView {
                    decode_callback: counted(old(self)@.stats.decode_callback, 1),
                    ..old(self)@.stats
                },
                ..old(self)@
            }),
            old(self)@.decoder == sys::NULL ==> turn@ == crate::operation::finished::<
                DecodePicture,
            >(Err(crate::error::custom("handle_picture_decode", "decoder not initialized"))),
            old(self)@.decoder != sys::NULL ==> turn@ == picture_start(old(self)@),
            old(self)@.decoder != sys::NULL ==> turn@ == crate::operation::forward(
                DecodePicture::Enter { decoder: old(self)@.decoder },
                Call::CtxPushCurrent { ctx: old(self)@.ctx },
                Seq::empty(),
            ),
    {
        self.stats.total_decode_callback_count.inc();
        if self.decoder == sys::NULL {
            return Turn::refuse(
                Error::new_custom("handle_picture_decode", "decoder not initialized"),
            );
        }
        Turn::start(
            DecodePicture::Enter { decoder: self.decoder },
            Call::CtxPushCurrent { ctx: self.ctx },
        )
    }

    /// Starts to put out the picture that the parser has announced for display.
    pub fn handle_picture_display(&self, info: &DisplayInfo) -> (turn: Turn<DisplayPicture>)
        requires
            self@.decoder != sys::NULL ==> info.repeat_first_field < i32::MAX,
        ensures
            self@.decoder == sys::NULL ==> turn@ == crate::operation::finished::<DisplayPicture>(
                Err(crate::error::custom("handle_picture_display", "decoder not initialized")),
            ),
            self@.decoder != sys::NULL ==> turn@ == display_start(self@, *info),
            self@.decoder != sys::NULL ==> turn@ == crate::operation::forward(
                DisplayPicture::Enter {
                    picture_index: info.picture_index,
                    proc_params: ProcParams {
                        progressive_frame: info.progressive_frame,
                        second_field: (info.repeat_first_field + 1) as i32,
                        top_field_first: info.top_field_first,
                        output_stream: sys::NULL,
                    },
                },
                Call::CtxPushCurrent { ctx: self@.ctx },
                Seq::empty(),
            ),
    {
        if self.decoder == sys::NULL {
            return Turn::refuse(
                Error::new_custom("handle_picture_display", "decoder not initialized"),
            );
        }
        let proc_params = ProcParams {
            progressive_frame: info.progressive_frame,
            second_field: info.repeat_first_field + 1,
            top_field_first: info.top_field_first,
            output_stream: sys::NULL,
        };
        Turn::start(
            DisplayPicture::Enter { picture_index: info.picture_index, proc_params },
            Call::CtxPushCurrent { ctx: self.ctx },
        )
    }

    /// Starts to decode a packet: one picture.
    pub fn decode<'a>(&self, data: &'a [u8]) -> (turn: Turn<ParsePacket<'a>>)
        ensures
            turn@.operation.payload() == Some(data@),
            turn@ == packet_start(self@, data),
            turn@ == crate::operation::forward(
                ParsePacket { data },
                Call::ParseVideoData {
                    parser: self@.parser,
                    packet: Packet {
                        flags: sys::CUVID_PKT_ENDOFPICTURE,
                        payload_size: data@.len() as u64,
                        timestamp: 0,
                    },
                },
                Seq::empty(),
            ),
    {
        let packet = Packet {
            flags: sys::CUVID_PKT_ENDOFPICTURE,
            payload_size: data.len() as u64,
            timestamp: 0,
        };
        Turn::start(ParsePacket { data }, Call::ParseVideoData { parser: self.parser, packet })
    }

    /// Starts to end the stream, and to wait until all decoding is done.
    pub fn send_eos(&self) -> (turn: Turn<EndStream>)
        ensures
            turn@ == end_start(self@),
            turn@ == crate::operation::forward(
                EndStream::Parse,
                Call::ParseVideoData {
                    parser: self@.parser,
                    packet: Packet {
                        flags: sys::CUVID_PKT_ENDOFSTREAM,
                        payload_size: 0,
                        timestamp: 0,
                    },
                },
                Seq::empty(),
            ),
    {
        let packet = Packet { flags: sys::CUVID_PKT_ENDOFSTREAM, payload_size: 0, timestamp: 0 };
        Turn::start(EndStream::Parse, Call::ParseVideoData { parser: self.parser, packet })
    }

    /// Takes the failure of a callback, if there was one, in place of `result`.
    pub fn prefer_callback_error<T>(&mut self, result: Result<T, Error>) -> (preferred_result:
        Result<T, Error>)
        ensures
            preferred_result == preferred(old(self)@.callback_error, result),
            final(self)@ == (DecoderStateView { callback_error: None, ..old(self)@ }),
    {
        match self.callback_error.take() {
            Some(error) => Err(error),
            None => result,
        }
    }

    /// Takes the next decoded frame, the oldest first.
    pub fn next_frame(&mut self) -> (frame: Option<RawFrame>)
        ensures
            match frame {
                Some(frame) => {
                    &&& old(self)@.frames.len() > 0
                    &&& frame@ == old(self)@.frames[0]
                    &&& final(self)@ == (DecoderStateView {
                        frames: old(self)@.frames.drop_first(),
                        ..old(self)@
                    })
                },
                None => old(self)@.frames.len() == 0 && final(self)@ == old(self)@,
            },
    {
        let ghost before = self@;
        let frame = self.frames.pop_front();
        assert(frame is Some ==> self@.frames =~= before.frames.drop_first());
        assert(frame is None ==> self@.frames =~= before.frames);
        frame
    }

    /// Keeps the failure of a callback, unless an earlier one is kept already.
    pub fn store_callback_error(&mut self, error: Error)
        ensures
            final(self)@ == (DecoderStateView {
                callback_error: first_error(old(self)@.callback_error, error),
                ..old(self)@
            }),
    {
        if self.callback_error.is_none() {
            self.callback_error = Some(error);
        }
    }

    /// What the sequence callback returns to the parser: the number of decode surfaces, or 0 for
    /// a failure, which is kept.
    pub fn sequence_callback_result(&mut self, outcome: Result<i32, Error>) -> (value: i32)
        ensures
            match outcome {
                Ok(surfaces) => value == surfaces && final(self)@ == old(self)@,
                Err(error) => {
                    &&& value == 0
                    &&& final(self)@ == (DecoderStateView {
                        callback_error: first_error(old(self)@.callback_error, error),
                        ..old(self)@
                    })
                },
            },
    {
        match outcome {
            Ok(surfaces) => surfaces,
            Err(error) => {
                self.store_callback_error(error);
                0
            },
        }
    }

    /// What the decode and the display callback return to the parser: 1, or 0 for a failure,
    /// which is kept.
    pub fn picture_callback_result(&mut self, outcome: Result<(), Error>) -> (value: i32)
        ensures
            match outcome {
                Ok(()) => value == 1 && final(self)@ == old(self)@,
                Err(error) => {
                    &&& value == 0
                    &&& final(self)@ == (DecoderStateView {
                        callback_error: first_error(old(self)@.callback_error, error),
                        ..old(self)@
                    })
                },
            },
    {
        match outcome {
            Ok(()) => 1,
            Err(error) => {
                self.store_callback_error(error);
                0
            },
        }
    }

    /// The statistics.
    pub fn stats(&self) -> (stats: &DecoderStats)
        ensures
            stats@ == self@.stats,
    {
        &self.stats
    }

    /// Starts to take the decoder down.
    pub fn close(self) -> (turn: Turn<SingleCall>)
        ensures
            turn@ == crate::operation::unwound::<SingleCall>(Ok(()), closing_releases(self@)),
    {
        let mut releases: Vec<Release> = Vec::new();
        if self.ctx != sys::NULL {
            releases.push(Release::Always(Call::CtxDestroy { ctx: self.ctx }));
        }
        if self.ctx_lock != sys::NULL {
            releases.push(Release::Always(Call::CtxLockDestroy { lock: self.ctx_lock }));
        }
        if self.decoder != sys::NULL {
            releases.push(
                Release::InContext {
                    ctx: self.ctx,
                    call: Call::DestroyDecoder { decoder: self.decoder },
                },
            );
        }
        if self.parser != sys::NULL {
            releases.push(Release::Always(Call::DestroyVideoParser { parser: self.parser }));
        }
        assert(releases@ =~= closing_releases(self@));
        Turn::release((), releases)
    }
}

/// The number of decode surfaces lies between what the stream needs and what the configuration
/// allows; and there is one just where the stream needs any and no more than allowed.
pub proof fn surfaces_stay_within_limits(min: u32, max: u32)
    ensures
        num_decode_surfaces(min, max) is Ok <==> 0 < min <= max,
        num_decode_surfaces(min, max) matches Ok(surfaces) ==> min <= surfaces <= max,
        num_decode_surfaces(min, max) matches Ok(surfaces) ==> surfaces == min || (min == 1
            && surfaces == 2),
{
}

/// Parser and decoder work with the same number of surfaces: what the sequence callback returns
/// is what the decoder is created with. A return value of 1 leaves the parser as it is; it comes
/// only where 1 is all that is allowed, and that is what the parser has started with.
pub proof fn parser_and_decoder_agree(state: DecoderStateView, format: VideoFormat)
    ensures
        sequence_plan(state, format) matches Ok(plan) ==> {
            &&& plan.surfaces as i32 == plan.info.num_decode_surfaces
            &&& 1 <= plan.surfaces <= state.max_num_decode_surfaces
            &&& plan.surfaces <= u8::MAX
            &&& plan.surfaces == 1 <==> state.max_num_decode_surfaces == 1
            &&& plan.surfaces == 1 ==> plan.surfaces == sys::PARSER_INITIAL_DECODE_SURFACES
        },
{
}

/// A sequence is accepted just where there are surfaces enough, the display area is not empty,
/// lies within the coded picture and starts at even coordinates, and the video has 8 bits. Its
/// geometry is then valid, and is that of the display area.
pub proof fn accepted_sequences_have_a_valid_geometry(state: DecoderStateView, format: VideoFormat)
    ensures
        sequence_plan(state, format) is Ok <==> {
            &&& 0 < format.min_num_decode_surfaces <= state.max_num_decode_surfaces
            &&& display_area_is_valid(format)
            &&& format.display_area.left % 2 == 0
            &&& format.display_area.top % 2 == 0
            &&& format.bit_depth_luma_minus8 == 0
        },
        sequence_plan(state, format) matches Ok(plan) ==> {
            &&& plan.geometry.valid()
            &&& plan.geometry.left == format.display_area.left
            &&& plan.geometry.top == format.display_area.top
            &&& plan.geometry.left + plan.geometry.width == format.display_area.right
            &&& plan.geometry.top + plan.geometry.height == format.display_area.bottom
            &&& plan.geometry.surface_width == plan.info.width
            &&& plan.geometry.surface_height == plan.info.height
        },
{
}

/// However many callbacks fail while a packet is parsed: the first failure is what decoding the
/// packet returns, whatever the driver says, and it is returned once.
pub proof fn the_first_callback_failure_is_returned(
    first: Error,
    later: Error,
    result: Result<(), Error>,
    next: Result<(), Error>,
)
    ensures
        first_error(first_error(None, first), later) == Some(first),
        preferred(first_error(first_error(None, first), later), result) == Err::<(), Error>(first),
        preferred(None, next) == next,
{
}

/// The decoder that is created for a sequence suits it. It decodes that codec and that chroma
/// format, at 8 bits, into the configured surface format, pictures of the coded size, and puts
/// them out at that size: the size of the surface from which the display area is copied. It has
/// the surfaces that the parser is told of, and it is guarded by the lock of the decoder. What is
/// not progressive is deinterlaced.
pub proof fn a_new_decoder_suits_its_sequence(state: DecoderStateView, format: VideoFormat)
    ensures
        sequence_plan(state, format) matches Ok(plan) ==> {
            let info = plan.info;
            &&& info.codec_type == format.codec
            &&& info.chroma_format == format.chroma_format
            &&& info.output_format == state.surface_format
            &&& info.bit_depth_minus8 == 0
            &&& info.width == format.coded_width
            &&& info.height == format.coded_height
            &&& info.max_width == info.width
            &&& info.max_height == info.height
            &&& info.target_width == plan.geometry.surface_width == format.coded_width
            &&& info.target_height == plan.geometry.surface_height == format.coded_height
            &&& plan.geometry.left + plan.geometry.width <= info.target_width
            &&& plan.geometry.top + plan.geometry.height <= info.target_height
            &&& info.num_decode_surfaces == plan.surfaces
            &&& info.num_output_surfaces == 2
            &&& info.creation_flags == 4
            &&& info.vid_lock == state.ctx_lock
            &&& info.deinterlace_mode == 0 <==> format.progressive_sequence > 0
            &&& info.deinterlace_mode == 2 <==> format.progressive_sequence == 0
        },
{
}

/// Two sequences that differ in what the decoder is created for lead to different decoders, unless
/// they are refused; and formats that differ in their display area lead to different geometries.
pub proof fn different_sequences_have_different_decoders(
    state: DecoderStateView,
    first: VideoFormat,
    second: VideoFormat,
)
    requires
        sequence_plan(state, first) is Ok,
        sequence_plan(state, second) is Ok,
    ensures
        ({
            let one = sequence_plan(state, first)->Ok_0;
            let other = sequence_plan(state, second)->Ok_0;
            &&& one.info == other.info ==> {
                &&& first.codec == second.codec
                &&& first.chroma_format == second.chroma_format
                &&& first.coded_width == second.coded_width
                &&& first.coded_height == second.coded_height
                &&& (first.progressive_sequence == 0 <==> second.progressive_sequence == 0)
            }
            &&& one.geometry == other.geometry ==> first.display_area == second.display_area
                && first.coded_width == second.coded_width && first.coded_height
                == second.coded_height
        }),
{
    let one = sequence_plan(state, first)->Ok_0.geometry;
    let other = sequence_plan(state, second)->Ok_0.geometry;
    assert(one.left + one.width == first.display_area.right);
    assert(other.left + other.width == second.display_area.right);
    assert(one.top + one.height == first.display_area.bottom);
    assert(other.top + other.height == second.display_area.bottom);
}

/// Why a sequence is refused: there are no surfaces to decode with or more than are allowed, the
/// display area is empty or out of the picture, it starts at an odd place, or the video does not
/// have 8 bits. The first of these is what the error says.
pub proof fn a_refused_sequence_is_told_why(state: DecoderStateView, format: VideoFormat)
    ensures
        ({
            let area = format.display_area;
            let min = format.min_num_decode_surfaces as u32;
            let max = state.max_num_decode_surfaces;
            let outside = area.left < 0 || area.top < 0 || area.right <= area.left || area.bottom
                <= area.top || area.right > format.coded_width || area.bottom
                > format.coded_height;
            let odd = area.left % 2 == 1 || area.top % 2 == 1;
            match sequence_plan(state, format) {
                Ok(_) => 0 < min <= max && !outside && !odd && format.bit_depth_luma_minus8 == 0,
                Err(error) => {
                    &&& error.status_code is None && error.status_name is None
                    &&& min == 0 || min > max <==> error.function
                        == "determine_num_decode_surfaces"
                    &&& min == 0 ==> error@.status_message == Some(
                        "min_num_decode_surfaces must be greater than 0"@,
                    )
                    &&& 0 < min && max < min ==> error.status_message == Some(
                        Text::SurfaceLimit { min, max },
                    )
                    &&& 0 < min <= max ==> error.function == "handle_video_sequence"
                    &&& 0 < min <= max && outside ==> error@.status_message == Some(
                        "invalid display_area in video format"@,
                    )
                    &&& 0 < min <= max && !outside && odd ==> error@.status_message == Some(
                        "display_area must start at even coordinates"@,
                    )
                    &&& 0 < min <= max && !outside && !odd ==> error@.status_message == Some(
                        "only 8-bit video is supported"@,
                    ) && format.bit_depth_luma_minus8 > 0
                },
            }
        }),
{
    reveal_strlit("determine_num_decode_surfaces");
    reveal_strlit("handle_video_sequence");
    assert("determine_num_decode_surfaces"@[0] != "handle_video_sequence"@[0]);
}

/// What the parser announces is counted, each kind on its own counter, and nothing else changes.
pub proof fn announcements_are_counted(state: DecoderStateView)
    requires
        state.stats.sequence_callback < u64::MAX,
        state.stats.decode_callback < u64::MAX,
    ensures
        ({
            let sequence = sequence_announced(state);
            let picture = picture_announced(state);
            &&& sequence.stats.sequence_callback == state.stats.sequence_callback + 1
            &&& sequence.stats.decode_callback == state.stats.decode_callback
            &&& picture.stats.decode_callback == state.stats.decode_callback + 1
            &&& picture.stats.sequence_callback == state.stats.sequence_callback
            &&& sequence.stats.create_decoder == picture.stats.create_decoder
                == state.stats.create_decoder
            &&& sequence.stats.output_frame == picture.stats.output_frame
                == state.stats.output_frame
            &&& sequence.stats.decode == picture.stats.decode == state.stats.decode
            &&& sequence == DecoderStateView { stats: sequence.stats, ..state }
            &&& picture == DecoderStateView { stats: picture.stats, ..state }
        }),
{
}

/// A packet goes to the parser of the decoder as one whole picture, with all of its bytes and no
/// others; and the end of the stream goes to the same parser, without any.
pub proof fn packets_go_to_the_parser<'a>(state: DecoderStateView, data: &'a [u8])
    ensures
        packet_start(state, data).operation.payload() == Some(data@),
        packet_start(state, data).step matches Step::Call(
            Call::ParseVideoData { parser, packet },
        ) && {
            &&& parser == state.parser
            &&& packet.payload_size == data@.len() as u64
            &&& packet.flags == 8
            &&& packet.timestamp == 0
        },
        end_start(state).step matches Step::Call(Call::ParseVideoData { parser, packet }) && {
            &&& parser == state.parser
            &&& packet.payload_size == 0
            &&& packet.flags == 1
            &&& packet.timestamp == 0
        },
{
}

/// What a decoder has is given back when it is taken down, each once and in this order: the parser,
/// the hardware decoder with the context current, the lock, and the context itself. What it does
/// not have is left out.
pub proof fn a_decoder_is_taken_down_in_order(state: DecoderStateView)
    ensures
        ({
            let releases = closing_releases(state);
            let contexts: int = if state.ctx != 0 { 1 } else { 0 };
            let locks: int = if state.ctx_lock != 0 { 1 } else { 0 };
            let decoders: int = if state.decoder != 0 { 1 } else { 0 };
            let parsers: int = if state.parser != 0 { 1 } else { 0 };
            &&& releases.len() == contexts + locks + decoders + parsers
            &&& contexts == 1 ==> releases[0] == Release::Always(
                Call::CtxDestroy { ctx: state.ctx },
            )
            &&& locks == 1 ==> releases[contexts] == Release::Always(
                Call::CtxLockDestroy { lock: state.ctx_lock },
            )
            &&& decoders == 1 ==> releases[contexts + locks] == Release::InContext {
                ctx: state.ctx,
                call: Call::DestroyDecoder { decoder: state.decoder },
            }
            &&& parsers == 1 ==> releases.last() == Release::Always(
                Call::DestroyVideoParser { parser: state.parser },
            )
        }),
{
}

} // verus!
