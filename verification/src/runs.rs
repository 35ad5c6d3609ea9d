//! What whole operations come to, from their first call to their last.

use vstd::prelude::*;

use crate::decode::decoder_codecs_are_told_apart;
use crate::decode::DecoderCaps;
use crate::decode::DecoderConfig;
use crate::decode::QueryDecoderCaps;
use crate::decode::StatsView;
use crate::decoder::a_new_decoder_suits_its_sequence;
use crate::decoder::accepted_sequences_have_a_valid_geometry;
use crate::decoder::display_start;
use crate::decoder::end_start;
use crate::decoder::no_geometry;
use crate::decoder::packet_start;
use crate::decoder::picture_start;
use crate::decoder::sequence_plan;
use crate::decoder::DecodePicture;
use crate::decoder::DecoderState;
use crate::decoder::DecoderStateView;
use crate::decoder::DisplayInfo;
use crate::decoder::DisplayPicture;
use crate::decoder::EndStream;
use crate::decoder::OpenDecoder;
use crate::decoder::ParsePacket;
use crate::decoder::SequencePlan;
use crate::decoder::StartSequence;
use crate::decoder::VideoFormat;
use crate::device::AllocatePitched;
use crate::device::CopyMemory;
use crate::device::CountDevices;
use crate::device::CreateStream;
use crate::device::NameDevice;
use crate::driver::result_of;
use crate::driver::Call;
use crate::driver::EncoderCapability;
use crate::driver::InputImage;
use crate::driver::ProcParams;
use crate::encode::CodecConfig;
use crate::encode::EncodedFrameView;
use crate::encode::EncoderCaps;
use crate::encode::EncoderConfig;
use crate::encode::ReconfigureParams;
use crate::encoder::answered;
use crate::encoder::capabilities;
use crate::encoder::capabilities_say_what_was_answered;
use crate::encoder::capability_after;
use crate::encoder::encoders_are_initialized_as_configured;
use crate::encoder::encoders_are_initialized_for_their_codec;
use crate::encoder::every_capability_is_asked_about;
use crate::encoder::every_capability_is_asked_for_once;
use crate::encoder::no_caps;
use crate::encoder::reconfiguration;
use crate::encoder::reconfigurations_set_what_they_name;
use crate::encoder::reconfigure_start;
use crate::encoder::reconfigured_encoders_go_by_what_was_named;
use crate::encoder::recorded;
use crate::encoder::says;
use crate::encoder::sequence_params_start;
use crate::encoder::value_or;
use crate::encoder::EncodeFrame;
use crate::encoder::EncodeJob;
use crate::encoder::Encoder;
use crate::encoder::EncoderView;
use crate::encoder::OpenEncoder;
use crate::encoder::QueryEncoderCaps;
use crate::encoder::Reconfigure;
use crate::encoder::SequenceParams;
use crate::error::Error;
use crate::geometry::round_up_even;
use crate::geometry::PictureLayoutView;
use crate::ledger::all_return;
use crate::ledger::given_back;
use crate::ledger::returning_call;
use crate::operation::forward;
use crate::operation::outcome_after;
use crate::operation::proceeded;
use crate::operation::releases_after;
use crate::operation::resumes;
use crate::operation::unwound;
use crate::operation::Next;
use crate::operation::Phase;
use crate::operation::Progress;
use crate::operation::Release;
use crate::operation::SingleCall;
use crate::operation::Stage;
use crate::operation::Step;
use crate::operation::TurnView;
use crate::stats::counted;
use crate::sys;
use crate::sys::Guid;
use crate::trace::a_run_begins_with_runs;
use crate::trace::a_run_goes_on_as_a_run;
use crate::trace::event_of_a_run;
use crate::trace::failures_stay_failures;
use crate::trace::is_run;
use crate::trace::last_turn;
use crate::trace::nothing_follows_the_end;
use crate::trace::outcome_of;
use crate::trace::releases_come_in_reverse_order;
use crate::trace::replies;
use crate::trace::Event;

verus! {

/// A picture is decoded with the context of the decoder current. If the context cannot be entered,
/// nothing is decoded, and that is the error. Otherwise the context is left again, whether decoding
/// succeeds or fails; and if that fails, this is the error, whatever came of decoding.
pub proof fn a_picture_is_decoded_in_its_context(
    decoder: u64,
    ctx: u64,
    events: Seq<Event<DecodePicture>>,
    outcome: Result<(), Error>,
)
    requires
        events.len() > 0,
        is_run(
            forward(
                DecodePicture::Enter { decoder },
                Call::CtxPushCurrent { ctx },
                Seq::empty(),
            ),
            events,
        ),
        events.last().turn.step == Step::<()>::Done(outcome),
    ensures
        events[0].call == (Call::CtxPushCurrent { ctx }),
        events[0].reply matches Err(error) ==> events.len() == 1 && outcome == Err::<(), Error>(
            error,
        ),
        events[0].reply is Ok ==> {
            &&& events.len() == 3
            &&& events[1].call == (Call::DecodePicture { decoder })
            &&& events[2].call == Call::CtxPopCurrent
            &&& outcome == match events[2].reply {
                Err(error) => Err::<(), Error>(error),
                Ok(_) => result_of(events[1].reply),
            }
        },
{
    let start = forward(
        DecodePicture::Enter { decoder },
        Call::CtxPushCurrent { ctx },
        Seq::empty(),
    );
    event_of_a_run(start, events, 0);
    if events[0].reply is Err {
        assert(events[0].turn.step is Done);
        nothing_follows_the_end(start, events, 0);
    } else {
        let leave = seq![Release::Checked(Call::CtxPopCurrent)];
        assert(Seq::<Release>::empty() + leave =~= leave);
        assert(events[0].turn == forward(
            DecodePicture::Decode,
            Call::DecodePicture { decoder },
            leave,
        ));
        assert(events.len() > 1);
        event_of_a_run(start, events, 1);
        assert(leave + Seq::<Release>::empty() =~= leave);
        assert(leave.drop_last() =~= Seq::empty());
        assert(events.len() > 2);
        event_of_a_run(start, events, 2);
        assert(events[2].turn.step is Done);
        nothing_follows_the_end(start, events, 2);
    }
}

/// While a picture is being put out, nothing changes in the decoder until all has gone well. So
/// if it fails, no frame is queued and none is counted.
pub proof fn a_picture_that_fails_puts_nothing_out(
    picture_index: i32,
    proc_params: ProcParams,
    ctx: u64,
    events: Seq<Event<DisplayPicture>>,
)
    requires
        events.len() > 0,
        is_run(
            forward(
                DisplayPicture::Enter { picture_index, proc_params },
                Call::CtxPushCurrent { ctx },
                Seq::empty(),
            ),
            events,
        ),
    ensures
        last_turn(
            forward(
                DisplayPicture::Enter { picture_index, proc_params },
                Call::CtxPushCurrent { ctx },
                Seq::empty(),
            ),
            events,
        ).operation.releases.len() == 0,
        !(events.last().turn.operation.phase is Releasing),
        !(events.last().turn.step matches Step::Done(Ok(_))) ==> events.last().after
            == events[0].before,
        events.last().turn.step is Done <==> events.last().turn.operation.phase is Finished,
    decreases events.len(),
{
    let start = forward(
        DisplayPicture::Enter { picture_index, proc_params },
        Call::CtxPushCurrent { ctx },
        Seq::empty(),
    );
    let earlier = events.drop_last();
    if earlier.len() > 0 {
        a_picture_that_fails_puts_nothing_out(picture_index, proc_params, ctx, earlier);
        assert(earlier[0] == events[0]);
    }
    let turn = last_turn(start, earlier);
    let event = events.last();
    let stage = turn.operation.phase->Forward_stage;
    let progress = choose|progress: Progress<DisplayPicture, ()>|
        #![trigger stage.moves(event.before, event.reply, event.after, progress)]
        stage.moves(event.before, event.reply, event.after, progress) && event.turn == proceeded(
            turn.operation.releases,
            progress,
        );
    assert(turn.operation.releases + progress.acquired@ =~= Seq::empty());
}

/// A picture that is mapped and copied without a failure, and whose context can be entered and
/// left: the frame that its two planes make is queued and counted, whatever comes of unmapping it.
pub proof fn a_picture_is_put_out(
    picture_index: i32,
    proc_params: ProcParams,
    ctx: u64,
    events: Seq<Event<DisplayPicture>>,
)
    requires
        events.len() == 6,
        is_run(
            forward(
                DisplayPicture::Enter { picture_index, proc_params },
                Call::CtxPushCurrent { ctx },
                Seq::empty(),
            ),
            events,
        ),
        forall|i: int| 0 <= i < events.len() && i != 4 ==> (#[trigger] events[i]).reply is Ok,
    ensures
        ({
            let before = events[0].before@;
            let (device_ptr, pitch) = events[1].reply->Ok_0.mapped_spec();
            let layout = PictureLayoutView { geometry: before.geometry, pitch };
            let luma = events[2].reply->Ok_0.plane_spec();
            let chroma = events[3].reply->Ok_0.plane_spec();
            &&& events[0].call == Call::CtxPushCurrent { ctx }
            &&& events[1].call == Call::MapVideoFrame {
                decoder: before.decoder,
                picture_index,
                proc_params,
            }
            &&& events[2].call == Call::CopyPlane {
                plane: crate::geometry::luma_copy(layout, device_ptr),
            }
            &&& events[3].call == Call::CopyPlane {
                plane: crate::geometry::chroma_copy(layout, device_ptr),
            }
            &&& events[4].call == Call::UnmapVideoFrame { decoder: before.decoder, device_ptr }
            &&& events[5].call == Call::CtxPopCurrent
            &&& events[5].turn.step == Step::<()>::Done(Ok(()))
            &&& events[5].after@ == DecoderStateView {
                frames: before.frames.push(crate::geometry::frame_of(layout, luma, chroma)),
                stats: StatsView {
                    output_frame: counted(before.stats.output_frame, 1),
                    ..before.stats
                },
                ..before
            }
        }),
{
    let start = forward(
        DisplayPicture::Enter { picture_index, proc_params },
        Call::CtxPushCurrent { ctx },
        Seq::empty(),
    );
    let none = Seq::<Release>::empty();
    assert(none + none =~= none);
    let before = events[0].before;
    event_of_a_run(start, events, 0);
    assert(events[0].reply is Ok);
    assert(events[0].turn.operation.phase->Forward_stage is MapPicture);
    event_of_a_run(start, events, 1);
    assert(events[1].reply is Ok);
    assert(events[1].turn.operation.phase->Forward_stage is CopyLuma);
    assert(events[1].turn.operation.releases =~= none);
    event_of_a_run(start, events, 2);
    assert(events[2].reply is Ok);
    assert(events[2].turn.operation.phase->Forward_stage is CopyChroma);
    assert(events[2].turn.operation.releases =~= none);
    event_of_a_run(start, events, 3);
    assert(events[3].reply is Ok);
    assert(events[3].turn.operation.phase->Forward_stage is UnmapPicture);
    assert(events[3].turn.operation.releases =~= none);
    event_of_a_run(start, events, 4);
    assert(events[4].turn.operation.phase->Forward_stage is Leave);
    assert(events[4].turn.operation.releases =~= none);
    event_of_a_run(start, events, 5);
    assert(events[5].reply is Ok);
    assert(events[5].before@ == before@);
}

/// A picture that is put out makes a frame whose stride is not less than its width, if the rows of
/// the mapped surface are long enough for its width rounded up to an even number.
pub proof fn a_picture_fits_its_stride(
    picture_index: i32,
    proc_params: ProcParams,
    ctx: u64,
    events: Seq<Event<DisplayPicture>>,
)
    requires
        events.len() == 6,
        is_run(
            forward(
                DisplayPicture::Enter { picture_index, proc_params },
                Call::CtxPushCurrent { ctx },
                Seq::empty(),
            ),
            events,
        ),
        forall|i: int| 0 <= i < events.len() && i != 4 ==> (#[trigger] events[i]).reply is Ok,
        events[0].before@.geometry.on_surface(),
        round_up_even(events[0].before@.geometry.surface_width as nat)
            <= events[1].reply->Ok_0.mapped_spec().1,
    ensures
        ({
            let frame = events[5].after@.frames.last();
            &&& events[5].after@.frames.len() == events[0].before@.frames.len() + 1
            &&& frame.well_formed()
            &&& frame.width == events[0].before@.geometry.width
            &&& frame.height == events[0].before@.geometry.height
            &&& frame.width <= round_up_even(frame.width as nat) <= frame.pitch
            &&& frame.luma().len() == frame.pitch * frame.height
            &&& frame.chroma().len() == frame.pitch * crate::frame::chroma_rows(
                frame.height as nat,
            )
        }),
{
    a_picture_is_put_out(picture_index, proc_params, ctx, events);
    let layout = PictureLayoutView {
        geometry: events[0].before@.geometry,
        pitch: events[1].reply->Ok_0.mapped_spec().1,
    };
    let luma = events[2].reply->Ok_0.plane_spec();
    let chroma = events[3].reply->Ok_0.plane_spec();
    crate::geometry::frame_has_the_display_area(layout, luma, chroma);
    crate::geometry::rows_lie_within_the_stride(layout, luma, chroma);
}

/// The turn in which a sequence starts.
pub open spec fn sequence_start(
    state: DecoderStateView,
    plan: SequencePlan,
) -> TurnView<StartSequence> {
    forward(
        if state.decoder != sys::NULL {
            StartSequence::EnterToDestroy { plan }
        } else {
            StartSequence::EnterToCreate { plan }
        },
        Call::CtxPushCurrent { ctx: state.ctx },
        Seq::empty(),
    )
}

/// A sequence that starts without a failure while a decoder exists: that one is destroyed, a new
/// one is created for the new format, and the geometry is that of the new format.
pub proof fn a_sequence_replaces_the_decoder(
    plan: SequencePlan,
    events: Seq<Event<StartSequence>>,
)
    requires
        events.len() == 6,
        events[0].before@.decoder != sys::NULL,
        is_run(sequence_start(events[0].before@, plan), events),
        forall|i: int| 0 <= i < events.len() ==> (#[trigger] events[i]).reply is Ok,
    ensures
        ({
            let before = events[0].before@;
            &&& events[0].call == Call::CtxPushCurrent { ctx: before.ctx }
            &&& events[1].call == Call::DestroyDecoder { decoder: before.decoder }
            &&& events[2].call == Call::CtxPopCurrent
            &&& events[3].call == Call::CtxPushCurrent { ctx: before.ctx }
            &&& events[4].call == Call::CreateDecoder { info: plan.info }
            &&& events[5].call == Call::CtxPopCurrent
            &&& events[5].turn.step == Step::Done(Ok(plan.surfaces as i32))
            &&& events[5].after@ == DecoderStateView {
                decoder: events[4].reply->Ok_0.handle_spec(),
                geometry: plan.geometry,
                stats: StatsView {
                    create_decoder: counted(before.stats.create_decoder, 1),
                    ..before.stats
                },
                ..before
            }
        }),
{
    let start = sequence_start(events[0].before@, plan);
    let none = Seq::<Release>::empty();
    assert(none + none =~= none);
    event_of_a_run(start, events, 0);
    assert(events[0].reply is Ok);
    assert(events[0].turn.operation.phase->Forward_stage is Destroy);
    event_of_a_run(start, events, 1);
    assert(events[1].reply is Ok);
    assert(events[1].turn.operation.phase->Forward_stage is LeaveOld);
    event_of_a_run(start, events, 2);
    assert(events[2].reply is Ok);
    assert(events[2].turn.operation.phase->Forward_stage is EnterToCreate);
    event_of_a_run(start, events, 3);
    assert(events[3].reply is Ok);
    assert(events[3].turn.operation.phase->Forward_stage is Create);
    event_of_a_run(start, events, 4);
    assert(events[4].reply is Ok);
    assert(events[4].turn.operation.phase->Forward_stage is LeaveNew);
    event_of_a_run(start, events, 5);
    assert(events[5].reply is Ok);
}

/// The first sequence that starts without a failure: a decoder is created for its format.
pub proof fn the_first_sequence_creates_a_decoder(
    plan: SequencePlan,
    events: Seq<Event<StartSequence>>,
)
    requires
        events.len() == 3,
        events[0].before@.decoder == sys::NULL,
        is_run(sequence_start(events[0].before@, plan), events),
        forall|i: int| 0 <= i < events.len() ==> (#[trigger] events[i]).reply is Ok,
    ensures
        ({
            let before = events[0].before@;
            &&& events[0].call == Call::CtxPushCurrent { ctx: before.ctx }
            &&& events[1].call == Call::CreateDecoder { info: plan.info }
            &&& events[2].call == Call::CtxPopCurrent
            &&& events[2].turn.step == Step::Done(Ok(plan.surfaces as i32))
            &&& events[2].after@ == DecoderStateView {
                decoder: events[1].reply->Ok_0.handle_spec(),
                geometry: plan.geometry,
                stats: StatsView {
                    create_decoder: counted(before.stats.create_decoder, 1),
                    ..before.stats
                },
                ..before
            }
        }),
{
    let start = sequence_start(events[0].before@, plan);
    let none = Seq::<Release>::empty();
    assert(none + none =~= none);
    event_of_a_run(start, events, 0);
    assert(events[0].reply is Ok);
    assert(events[0].turn.operation.phase->Forward_stage is Create);
    event_of_a_run(start, events, 1);
    assert(events[1].reply is Ok);
    assert(events[1].turn.operation.phase->Forward_stage is LeaveNew);
    event_of_a_run(start, events, 2);
    assert(events[2].reply is Ok);
}

/// A sequence that does not start successfully leaves the geometry and the statistics as they
/// were, and queues no frame.
pub proof fn a_sequence_that_fails_keeps_the_geometry(
    plan: SequencePlan,
    events: Seq<Event<StartSequence>>,
)
    requires
        events.len() > 0,
        is_run(sequence_start(events[0].before@, plan), events),
        !(events.last().turn.step matches Step::Done(Ok(_))),
    ensures
        events.last().after@ == (DecoderStateView {
            decoder: events.last().after@.decoder,
            ..events[0].before@
        }),
        events.last().turn.operation.releases.len() == 0,
        !(events.last().turn.operation.phase is Releasing),
    decreases events.len(),
{
    let start = sequence_start(events[0].before@, plan);
    let earlier = events.drop_last();
    if earlier.len() > 0 {
        assert(earlier[0] == events[0]);
        if earlier.last().turn.step is Done {
            assert(earlier.last() == events[events.len() - 2]);
            nothing_follows_the_end(start, events, events.len() - 2);
        }
        a_sequence_that_fails_keeps_the_geometry(plan, earlier);
    }
    let turn = last_turn(start, earlier);
    let event = events.last();
    let stage = turn.operation.phase->Forward_stage;
    let progress = choose|progress: Progress<StartSequence, i32>|
        #![trigger stage.moves(event.before, event.reply, event.after, progress)]
        stage.moves(event.before, event.reply, event.after, progress) && event.turn == proceeded(
            turn.operation.releases,
            progress,
        );
    assert(turn.operation.releases + progress.acquired@ =~= Seq::empty());
}

/// Whatever comes of starting a sequence that was accepted: the display area lies on the surface
/// afterwards, if it did before. It does in a new decoder, and nothing else changes it.
pub proof fn the_display_area_stays_on_the_surface(
    format: VideoFormat,
    plan: SequencePlan,
    events: Seq<Event<StartSequence>>,
)
    requires
        events.len() > 0,
        sequence_plan(events[0].before@, format) == Ok::<SequencePlan, Error>(plan),
        is_run(sequence_start(events[0].before@, plan), events),
        events[0].before@.geometry.on_surface(),
    ensures
        no_geometry().on_surface(),
        events.last().after@.geometry.on_surface(),
        events.last().after@.geometry == events[0].before@.geometry
            || events.last().after@.geometry == plan.geometry,
{
    accepted_sequences_have_a_valid_geometry(events[0].before@, format);
    a_sequence_changes_the_geometry_as_planned(plan, events);
}

spec fn plan_of(stage: StartSequence) -> SequencePlan {
    match stage {
        StartSequence::EnterToDestroy { plan }
        | StartSequence::Destroy { plan }
        | StartSequence::LeaveOld { plan, .. }
        | StartSequence::EnterToCreate { plan }
        | StartSequence::Create { plan }
        | StartSequence::LeaveNew { plan, .. } => plan,
    }
}

proof fn a_sequence_changes_the_geometry_as_planned(
    plan: SequencePlan,
    events: Seq<Event<StartSequence>>,
)
    requires
        events.len() > 0,
        is_run(sequence_start(events[0].before@, plan), events),
    ensures
        events.last().after@.geometry == events[0].before@.geometry
            || events.last().after@.geometry == plan.geometry,
        events.last().turn.operation.releases.len() == 0,
        match events.last().turn.operation.phase {
            Phase::Forward { stage, .. } => plan_of(stage) == plan,
            Phase::Releasing { .. } => false,
            Phase::Finished => true,
        },
    decreases events.len(),
{
    let start = sequence_start(events[0].before@, plan);
    let earlier = events.drop_last();
    if earlier.len() > 0 {
        assert(earlier[0] == events[0]);
        a_sequence_changes_the_geometry_as_planned(plan, earlier);
    }
    let turn = last_turn(start, earlier);
    let event = events.last();
    let stage = turn.operation.phase->Forward_stage;
    let progress = choose|progress: Progress<StartSequence, i32>|
        #![trigger stage.moves(event.before, event.reply, event.after, progress)]
        stage.moves(event.before, event.reply, event.after, progress) && event.turn == proceeded(
            turn.operation.releases,
            progress,
        );
    assert(turn.operation.releases + progress.acquired@ =~= Seq::empty());
}

/// The turn in which the encoding of a frame starts.
pub open spec fn encode_start<'a>(
    encoder: EncoderView,
    job: EncodeJob,
    frame: &'a [u8],
) -> TurnView<EncodeFrame<'a>> {
    forward(
        EncodeFrame::Enter { job, frame },
        Call::CtxPushCurrent { ctx: encoder.ctx },
        Seq::empty(),
    )
}

/// The releases of encoding a frame, once all has been acquired.
pub open spec fn encode_releases(
    session: u64,
    device_ptr: u64,
    resource: u64,
    mapped: u64,
    buffer: u64,
) -> Seq<Release> {
    seq![
        Release::Checked(Call::CtxPopCurrent),
        Release::Always(Call::MemFree { device_ptr }),
        Release::Always(Call::UnregisterResource { session, resource }),
        Release::Always(Call::UnmapInputResource { session, mapped }),
        Release::Always(Call::DestroyBitstreamBuffer { session, buffer }),
        Release::Always(Call::UnlockBitstream { session, buffer }),
    ]
}

/// The way of a frame through an encoder, where the calls up to locking the bitstream succeed: the
/// frame is copied to the device, registered, mapped and encoded, and what the bitstream holds is
/// queued, whatever comes of the releases. One more picture is counted.
pub proof fn a_frame_is_encoded<'a>(
    job: EncodeJob,
    frame: &'a [u8],
    events: Seq<Event<EncodeFrame<'a>>>,
)
    requires
        events.len() == 8,
        events[0].before@.frame_count < u64::MAX,
        is_run(encode_start(events[0].before@, job, frame), events),
        forall|i: int| 0 <= i < events.len() ==> (#[trigger] events[i]).reply is Ok,
        events[7].reply->Ok_0.bitstream_spec() is Some,
    ensures
        ({
            let before = events[0].before@;
            let session = before.session;
            let device_ptr = events[1].reply->Ok_0.handle_spec();
            let resource = events[3].reply->Ok_0.handle_spec();
            let mapped = events[4].reply->Ok_0.handle_spec();
            let buffer = events[5].reply->Ok_0.handle_spec();
            let (data, timestamp, pic_type) = events[7].reply->Ok_0.bitstream_spec()->0;
            &&& events[1].call == Call::MemAlloc { size: job.size }
            &&& events[2].call == Call::MemcpyHtoD { device_ptr, size: job.size }
            &&& events[1].turn.operation.payload() == Some(frame@)
            &&& events[3].call == Call::RegisterResource {
                session,
                image: InputImage {
                    device_ptr,
                    width: before.width,
                    height: before.height,
                    pitch: job.pitch,
                    buffer_format: before.buffer_format.code(),
                },
            }
            &&& events[4].call == Call::MapInputResource { session, resource }
            &&& events[5].call == Call::CreateBitstreamBuffer { session }
            &&& events[6].call == Call::EncodePicture {
                session,
                picture: crate::encoder::picture(before, job, mapped, buffer),
            }
            &&& events[7].call == Call::LockBitstream { session, buffer }
            &&& events[7].after@ == EncoderView {
                frame_count: (before.frame_count + 1) as u64,
                encoded_frames: before.encoded_frames.push(
                    EncodedFrameView {
                        data,
                        timestamp,
                        picture_type: crate::encode::picture_type_of(pic_type),
                    },
                ),
                ..before
            }
            &&& events[7].turn == unwound::<EncodeFrame>(
                Ok(()),
                encode_releases(session, device_ptr, resource, mapped, buffer),
            )
        }),
{
    let start = encode_start(events[0].before@, job, frame);
    let before = events[0].before@;
    let session = before.session;
    let device_ptr = events[1].reply->Ok_0.handle_spec();
    let resource = events[3].reply->Ok_0.handle_spec();
    let mapped = events[4].reply->Ok_0.handle_spec();
    let buffer = events[5].reply->Ok_0.handle_spec();
    let all = encode_releases(session, device_ptr, resource, mapped, buffer);
    let none = Seq::<Release>::empty();
    event_of_a_run(start, events, 0);
    assert(events[0].reply is Ok);
    assert(events[0].turn.operation.phase->Forward_stage is Allocate);
    assert(events[0].turn.operation.releases =~= all.take(1));
    event_of_a_run(start, events, 1);
    assert(events[1].reply is Ok);
    assert(events[1].turn.operation.phase->Forward_stage is Upload);
    assert(events[1].turn.operation.releases =~= all.take(2));
    event_of_a_run(start, events, 2);
    assert(events[2].reply is Ok);
    assert(events[2].turn.operation.phase->Forward_stage is Register);
    assert(events[2].turn.operation.releases =~= all.take(2));
    event_of_a_run(start, events, 3);
    assert(events[3].reply is Ok);
    assert(events[3].turn.operation.phase->Forward_stage is MapInput);
    assert(events[3].turn.operation.releases =~= all.take(3));
    event_of_a_run(start, events, 4);
    assert(events[4].reply is Ok);
    assert(events[4].turn.operation.phase->Forward_stage is CreateBuffer);
    assert(events[4].turn.operation.releases =~= all.take(4));
    event_of_a_run(start, events, 5);
    assert(events[5].reply is Ok);
    assert(events[5].turn.operation.phase->Forward_stage is Encode);
    assert(events[5].turn.operation.releases =~= all.take(5));
    event_of_a_run(start, events, 6);
    assert(events[6].reply is Ok);
    assert(events[6].turn.operation.phase->Forward_stage is Lock);
    assert(events[6].turn.operation.releases =~= all.take(5));
    event_of_a_run(start, events, 7);
    assert(events[7].reply is Ok);
    let unlock = Release::Always(Call::UnlockBitstream { session, buffer });
    assert(all.take(5) + seq![unlock] =~= all);
}

/// Only the upload takes data, and it takes the whole frame: no other bytes go to the device.
pub proof fn only_the_frame_is_uploaded<'a>(
    encoder: EncoderView,
    job: EncodeJob,
    frame: &'a [u8],
    events: Seq<Event<EncodeFrame<'a>>>,
)
    requires
        is_run(encode_start(encoder, job, frame), events),
    ensures
        ({
            let turn = last_turn(encode_start(encoder, job, frame), events);
            match turn.operation.payload() {
                Some(data) => {
                    &&& data == frame@
                    &&& turn.step matches Step::Call(Call::MemcpyHtoD { size, .. })
                    &&& size == job.size
                },
                None => turn.operation.phase matches Phase::Forward { call, .. } ==> !(
                call is MemcpyHtoD),
            }
        }),
{
    uploading_progress(encoder, job, frame, events);
}

/// Whether a turn of encoding a frame has the frame as long as it is needed.
spec fn has_the_frame<'a>(turn: TurnView<EncodeFrame<'a>>, job: EncodeJob, frame: &'a [u8]) -> bool {
    match turn.operation.phase {
        Phase::Forward { stage, call } => {
            &&& turn.step == Step::<()>::Call(call)
            &&& match stage {
                EncodeFrame::Enter { job: j, frame: f } => j == job && f == frame
                    && call is CtxPushCurrent,
                EncodeFrame::Allocate { job: j, frame: f } => j == job && f == frame
                    && call is MemAlloc,
                EncodeFrame::Upload { job: j, frame: f, device_ptr } => j == job && f == frame
                    && call == Call::MemcpyHtoD { device_ptr, size: job.size },
                _ => !(call is MemcpyHtoD),
            }
        },
        _ => true,
    }
}

proof fn uploading_progress<'a>(
    encoder: EncoderView,
    job: EncodeJob,
    frame: &'a [u8],
    events: Seq<Event<EncodeFrame<'a>>>,
)
    requires
        is_run(encode_start(encoder, job, frame), events),
    ensures
        has_the_frame(last_turn(encode_start(encoder, job, frame), events), job, frame),
    decreases events.len(),
{
    if events.len() > 0 {
        let earlier = events.drop_last();
        uploading_progress(encoder, job, frame, earlier);
        let turn = last_turn(encode_start(encoder, job, frame), earlier);
        let event = events.last();
        match turn.operation.phase {
            Phase::Forward { stage, .. } => {
                let progress = choose|progress: Progress<EncodeFrame, ()>|
                    #![trigger stage.moves(event.before, event.reply, event.after, progress)]
                    stage.moves(event.before, event.reply, event.after, progress) && event.turn
                        == proceeded(turn.operation.releases, progress);
                let releases = turn.operation.releases + progress.acquired@;
                match progress.next {
                    Next::Call { .. } => {},
                    Next::Succeed(()) => {
                        unwinding_is_not_forward(Ok(()), releases);
                    },
                    Next::Fail(error) => {
                        unwinding_is_not_forward(Err(error), releases);
                    },
                }
            },
            Phase::Releasing { release, outcome } => {
                unwinding_is_not_forward(
                    outcome_after(release, outcome, event.reply),
                    releases_after(release, turn.operation.releases, event.reply),
                );
            },
            Phase::Finished => {},
        }
    }
}

/// Whatever comes of encoding a frame, it changes nothing in the encoder but its queue, to which
/// it adds one frame or none, and its count of pictures, which it raises by one or not at all.
pub proof fn encoding_only_queues_and_counts<'a>(
    job: EncodeJob,
    frame: &'a [u8],
    events: Seq<Event<EncodeFrame<'a>>>,
)
    requires
        events.len() > 0,
        events[0].before@.frame_count < u64::MAX,
        is_run(encode_start(events[0].before@, job, frame), events),
    ensures
        ({
            let before = events[0].before@;
            let after = events.last().after@;
            &&& after == EncoderView {
                frame_count: after.frame_count,
                encoded_frames: after.encoded_frames,
                ..before
            }
            &&& after.frame_count == before.frame_count || after.frame_count == before.frame_count
                + 1
            &&& after.encoded_frames == before.encoded_frames || exists|frame: EncodedFrameView|
                after.encoded_frames == before.encoded_frames.push(frame)
        }),
{
    encoding_progress(job, frame, events);
}

/// How far the encoding of a frame has come: `0` before the picture was handed over, `1` before
/// what came of it was queued, and `2` after that or after a failure.
spec fn encode_position<'a>(turn: TurnView<EncodeFrame<'a>>) -> int {
    match turn.operation.phase {
        Phase::Forward { stage, .. } => match stage {
            EncodeFrame::Encode { .. } | EncodeFrame::Lock { .. } => 1,
            _ => 0,
        },
        _ => 2,
    }
}

proof fn encoding_progress<'a>(
    job: EncodeJob,
    frame: &'a [u8],
    events: Seq<Event<EncodeFrame<'a>>>,
)
    requires
        events.len() > 0,
        events[0].before@.frame_count < u64::MAX,
        is_run(encode_start(events[0].before@, job, frame), events),
    ensures
        ({
            let before = events[0].before@;
            let after = events.last().after@;
            let position = encode_position(events.last().turn);
            &&& after == EncoderView {
                frame_count: after.frame_count,
                encoded_frames: after.encoded_frames,
                ..before
            }
            &&& after.frame_count == before.frame_count || after.frame_count == before.frame_count
                + 1
            &&& position == 0 ==> after.frame_count == before.frame_count
            &&& position < 2 ==> after.encoded_frames == before.encoded_frames
            &&& after.encoded_frames == before.encoded_frames || exists|frame: EncodedFrameView|
                after.encoded_frames == before.encoded_frames.push(frame)
        }),
    decreases events.len(),
{
    let start = encode_start(events[0].before@, job, frame);
    let earlier = events.drop_last();
    if earlier.len() > 0 {
        assert(earlier[0] == events[0]);
        encoding_progress(job, frame, earlier);
    }
    let turn = last_turn(start, earlier);
    let event = events.last();
    match turn.operation.phase {
        Phase::Forward { stage, .. } => {
            let progress = choose|progress: Progress<EncodeFrame, ()>|
                #![trigger stage.moves(event.before, event.reply, event.after, progress)]
                stage.moves(event.before, event.reply, event.after, progress) && event.turn
                    == proceeded(turn.operation.releases, progress);
            let releases = turn.operation.releases + progress.acquired@;
            match progress.next {
                Next::Call { .. } => {},
                Next::Succeed(()) => {
                    unwinding_is_not_forward(Ok(()), releases);
                },
                Next::Fail(error) => {
                    unwinding_is_not_forward(Err(error), releases);
                },
            }
        },
        Phase::Releasing { release, outcome } => {
            unwinding_is_not_forward(
                outcome_after(release, outcome, event.reply),
                releases_after(release, turn.operation.releases, event.reply),
            );
        },
        Phase::Finished => {},
    }
}

proof fn unwinding_is_not_forward(outcome: Result<(), Error>, releases: Seq<Release>)
    ensures
        !(unwound::<EncodeFrame>(outcome, releases).operation.phase is Forward),
    decreases releases.len(),
{
    if releases.len() > 0 {
        unwinding_is_not_forward(outcome, releases.drop_last());
    }
}

/// The timestamps of an encoder count pictures: the next one is later by the denominator of the
/// frame rate.
pub proof fn timestamps_advance_by_the_denominator(
    encoder: crate::encoder::Encoder,
    next: crate::encoder::Encoder,
    options: crate::encode::EncodeOptions,
)
    requires
        next@.frame_count == encoder@.frame_count + 1,
        next@.framerate_den == encoder@.framerate_den,
        next@.frame_count * next@.framerate_den <= u64::MAX,
    ensures
        next.job(options).timestamp == encoder.job(options).timestamp + encoder@.framerate_den,
{
    let count = encoder@.frame_count;
    let den = encoder@.framerate_den;
    assert((count + 1) * den == count * den + den) by (nonlinear_arith);
}

/// The turn in which the capabilities of an encoder are first asked for.
pub open spec fn query_start(codec: Guid, device_id: i32) -> TurnView<QueryEncoderCaps> {
    forward(QueryEncoderCaps::Load { codec, device_id }, Call::LoadLibraries, Seq::empty())
}

/// The capabilities of an encoder are asked for one after the other, and what comes of it is what
/// the answers say. The libraries are loaded, a context is created and entered, NVENC and a session
/// are opened, each capability is asked for once, and then session and context are given back. If
/// these calls succeed, the result is made of the answers, whatever comes of destroying the
/// session.
pub proof fn capabilities_are_what_the_driver_answers(
    codec: Guid,
    device_id: i32,
    events: Seq<Event<QueryEncoderCaps>>,
)
    requires
        events.len() == 8 + capabilities().len(),
        is_run(query_start(codec, device_id), events),
        forall|i: int|
            0 <= i < events.len() && i != 5 + capabilities().len() ==> (
            #[trigger] events[i]).reply is Ok,
    ensures
        ({
            let n = capabilities().len() as int;
            let ctx = events[1].reply->Ok_0.handle_spec();
            let session = events[4].reply->Ok_0.handle_spec();
            &&& events[0].call == Call::LoadLibraries
            &&& events[1].call == Call::CtxCreate { flags: 0, device: device_id }
            &&& events[2].call == Call::CtxPushCurrent { ctx }
            &&& events[3].call == Call::CreateApiInstance
            &&& events[4].call == Call::OpenEncodeSession { ctx }
            &&& forall|i: int|
                0 <= i < n ==> (#[trigger] events[5 + i]).call == Call::GetEncodeCaps {
                    session,
                    codec,
                    capability: capabilities()[i],
                }
            &&& events[5 + n].call == Call::DestroyEncoder { session }
            &&& events[6 + n].call == Call::CtxPopCurrent
            &&& events[7 + n].call == Call::CtxDestroy { ctx }
            &&& events.last().turn.step == Step::Done(
                Ok(answered(capability_answers(events), capabilities().len())),
            )
        }),
{
    let start = query_start(codec, device_id);
    let n = capabilities().len() as int;
    let ctx = events[1].reply->Ok_0.handle_spec();
    let session = events[4].reply->Ok_0.handle_spec();
    let all = query_releases(ctx, session);
    event_of_a_run(start, events, 0);
    asking_for_capabilities(codec, device_id, events, capabilities().len());
    event_of_a_run(start, events, 5 + n);
    assert(all.drop_last() =~= all.take(2));
    event_of_a_run(start, events, 6 + n);
    assert(events[6 + n].reply is Ok);
    assert(all.take(2).drop_last() =~= all.take(1));
    event_of_a_run(start, events, 7 + n);
    assert(events[7 + n].reply is Ok);
    assert(all.take(1).drop_last() =~= Seq::empty());
}

/// The answers to the questions for capabilities.
pub open spec fn capability_answers(events: Seq<Event<QueryEncoderCaps>>) -> Seq<i32> {
    Seq::new(
        capabilities().len(),
        |i: int| events[5 + i].reply->Ok_0.integer_spec(),
    )
}

/// The releases of asking for the capabilities of an encoder: the session, the current context and
/// the context, the latest entry first.
pub open spec fn query_releases(ctx: u64, session: u64) -> Seq<Release> {
    seq![
        Release::CheckedOnSuccess(Call::CtxDestroy { ctx }),
        Release::Checked(Call::CtxPopCurrent),
        Release::Always(Call::DestroyEncoder { session }),
    ]
}

proof fn asking_for_capabilities(
    codec: Guid,
    device_id: i32,
    events: Seq<Event<QueryEncoderCaps>>,
    n: nat,
)
    requires
        n <= capabilities().len(),
        events.len() >= 5 + capabilities().len(),
        is_run(query_start(codec, device_id), events),
        forall|i: int|
            0 <= i < 5 + capabilities().len() ==> (#[trigger] events[i]).reply is Ok,
    ensures
        ({
            let ctx = events[1].reply->Ok_0.handle_spec();
            let session = events[4].reply->Ok_0.handle_spec();
            let caps = answered(capability_answers(events), n);
            &&& events[1].call == Call::CtxCreate { flags: 0, device: device_id }
            &&& events[2].call == Call::CtxPushCurrent { ctx }
            &&& events[3].call == Call::CreateApiInstance
            &&& events[4].call == Call::OpenEncodeSession { ctx }
            &&& forall|i: int|
                0 <= i < n ==> (#[trigger] events[5 + i]).call == Call::GetEncodeCaps {
                    session,
                    codec,
                    capability: capabilities()[i],
                }
            &&& events[4 + n as int].turn == if n < capabilities().len() {
                let capability = capabilities()[n as int];
                forward(
                    QueryEncoderCaps::Query { codec, session, capability, caps },
                    Call::GetEncodeCaps { session, codec, capability },
                    query_releases(ctx, session),
                )
            } else {
                unwound::<QueryEncoderCaps>(Ok(caps), query_releases(ctx, session))
            }
        }),
    decreases n,
{
    let start = query_start(codec, device_id);
    let ctx = events[1].reply->Ok_0.handle_spec();
    let session = events[4].reply->Ok_0.handle_spec();
    if n == 0 {
        opening_a_session(codec, device_id, events);
    } else {
        let earlier = (n - 1) as nat;
        asking_for_capabilities(codec, device_id, events, earlier);
        let i = 4 + n as int;
        event_of_a_run(start, events, i);
        assert(events[i].reply is Ok);
        assert(capability_answers(events)[n - 1] == events[i].reply->Ok_0.integer_spec());
        asking_for_a_capability(
            codec,
            session,
            n,
            answered(capability_answers(events), earlier),
            query_releases(ctx, session),
            events[i],
        );
        assert forall|k: int| 0 <= k < n implies (#[trigger] events[5 + k]).call
            == (Call::GetEncodeCaps { session, codec, capability: capabilities()[k] }) by {}
    }
}

proof fn opening_a_session(codec: Guid, device_id: i32, events: Seq<Event<QueryEncoderCaps>>)
    requires
        events.len() >= 5,
        is_run(query_start(codec, device_id), events),
        forall|i: int| 0 <= i < 5 ==> (#[trigger] events[i]).reply is Ok,
    ensures
        ({
            let ctx = events[1].reply->Ok_0.handle_spec();
            let session = events[4].reply->Ok_0.handle_spec();
            let capability = EncoderCapability::SupportedRateControlModes;
            &&& events[1].call == Call::CtxCreate { flags: 0, device: device_id }
            &&& events[2].call == Call::CtxPushCurrent { ctx }
            &&& events[3].call == Call::CreateApiInstance
            &&& events[4].call == Call::OpenEncodeSession { ctx }
            &&& events[4].turn == forward(
                QueryEncoderCaps::Query { codec, session, capability, caps: no_caps() },
                Call::GetEncodeCaps { session, codec, capability },
                query_releases(ctx, session),
            )
        }),
{
    let start = query_start(codec, device_id);
    let ctx = events[1].reply->Ok_0.handle_spec();
    let session = events[4].reply->Ok_0.handle_spec();
    let all = query_releases(ctx, session);
    event_of_a_run(start, events, 0);
    assert(events[0].reply is Ok);
    assert(events[0].turn.operation.releases =~= all.take(0));
    event_of_a_run(start, events, 1);
    assert(events[1].reply is Ok);
    assert(events[1].turn.operation.releases =~= all.take(1));
    event_of_a_run(start, events, 2);
    assert(events[2].reply is Ok);
    assert(events[2].turn.operation.releases =~= all.take(2));
    event_of_a_run(start, events, 3);
    assert(events[3].reply is Ok);
    assert(events[3].turn.operation.releases =~= all.take(2));
    event_of_a_run(start, events, 4);
    assert(events[4].reply is Ok);
    assert(events[4].turn.operation.releases =~= all);
}

proof fn asking_for_a_capability(
    codec: Guid,
    session: u64,
    n: nat,
    caps: EncoderCaps,
    releases: Seq<Release>,
    event: Event<QueryEncoderCaps>,
)
    requires
        0 < n <= capabilities().len(),
        event.reply is Ok,
        resumes(
            forward(
                QueryEncoderCaps::Query { codec, session, capability: capabilities()[n - 1], caps },
                event.call,
                releases,
            ).operation,
            event.before,
            event.reply,
            event.after,
            event.turn,
        ),
    ensures
        ({
            let caps = recorded(
                caps,
                capabilities()[n - 1],
                event.reply->Ok_0.integer_spec(),
            );
            event.turn == if n < capabilities().len() {
                let capability = capabilities()[n as int];
                forward(
                    QueryEncoderCaps::Query { codec, session, capability, caps },
                    Call::GetEncodeCaps { session, codec, capability },
                    releases,
                )
            } else {
                unwound::<QueryEncoderCaps>(Ok(caps), releases)
            }
        }),
{
    every_capability_is_asked_for_once(Seq::new(capabilities().len(), |i: int| 0i32));
    assert(capability_after(capabilities()[n - 1]) == if n < capabilities().len() {
        Some(capabilities()[n as int])
    } else {
        None::<EncoderCapability>
    });
    assert(releases + Seq::<Release>::empty() =~= releases);
}

/// The way of opening a decoder, where all calls succeed. The context is on the device that the
/// configuration names; lock and parser are made for it; and the parser is one for the codec that
/// the configuration names, with its display delay. The new decoder has these three, keeps to the
/// configured number of surfaces, puts out NV12, and has neither decoded anything nor failed.
pub proof fn a_decoder_is_opened(config: DecoderConfig, events: Seq<Event<OpenDecoder>>)
    requires
        events.len() == 4,
        is_run(
            forward(OpenDecoder::Load { config }, Call::LoadLibraries, Seq::empty()),
            events,
        ),
        forall|i: int| 0 <= i < events.len() ==> (#[trigger] events[i]).reply is Ok,
    ensures
        ({
            let ctx = events[1].reply->Ok_0.handle_spec();
            let lock = events[2].reply->Ok_0.handle_spec();
            let parser = events[3].reply->Ok_0.handle_spec();
            &&& events[0].call == Call::LoadLibraries
            &&& events[1].call == Call::CtxCreate { flags: 0, device: config.device_id }
            &&& events[2].call == Call::CtxLockCreate { ctx }
            &&& events[3].call matches Call::CreateVideoParser {
                codec_type,
                max_num_decode_surfaces,
                max_display_delay,
            }
            &&& config.codec is H264 <==> codec_type == 4
            &&& config.codec is Jpeg <==> codec_type == 5
            &&& config.codec is Hevc <==> codec_type == 8
            &&& config.codec is Vp8 <==> codec_type == 9
            &&& config.codec is Vp9 <==> codec_type == 10
            &&& config.codec is Av1 <==> codec_type == 11
            &&& max_num_decode_surfaces == 1
            &&& max_display_delay == config.max_display_delay
            &&& events[3].turn.step matches Step::Done(Ok(state))
            &&& state@.ctx == ctx
            &&& state@.ctx_lock == lock
            &&& state@.parser == parser
            &&& state@.decoder == 0
            &&& state@.max_num_decode_surfaces == config.max_num_decode_surfaces
            &&& state@.surface_format == 0
            &&& state@.frames.len() == 0
            &&& state@.callback_error is None
            &&& state@.stats.create_decoder == 0 && state@.stats.output_frame == 0
            &&& state@.stats.sequence_callback == 0 && state@.stats.decode_callback == 0
        }),
{
    let start = forward(OpenDecoder::Load { config }, Call::LoadLibraries, Seq::empty());
    decoder_codecs_are_told_apart(config.codec, config.codec);
    event_of_a_run(start, events, 0);
    assert(events[0].reply is Ok);
    assert(events[0].turn.operation.phase->Forward_stage is CreateContext);
    event_of_a_run(start, events, 1);
    assert(events[1].reply is Ok);
    assert(events[1].turn.operation.phase->Forward_stage is CreateLock);
    event_of_a_run(start, events, 2);
    assert(events[2].reply is Ok);
    assert(events[2].turn.operation.phase->Forward_stage is CreateParser);
    event_of_a_run(start, events, 3);
    assert(events[3].reply is Ok);
    let releases = events[2].turn.operation.releases;
    let progress = choose|progress: Progress<OpenDecoder, DecoderState>|
        #![trigger events[2].turn.operation.phase->Forward_stage.moves(
            events[3].before,
            events[3].reply,
            events[3].after,
            progress,
        )]
        events[2].turn.operation.phase->Forward_stage.moves(
            events[3].before,
            events[3].reply,
            events[3].after,
            progress,
        ) && events[3].turn == proceeded(releases, progress);
    let state = progress.next->Succeed_0;
    assert(releases + progress.acquired@ =~= releases);
    assert forall|i: int| 0 <= i < releases.len() implies (
    #[trigger] releases[i]).only_on_failure() by {}
    unwinding_drops_what_is_for_failures::<OpenDecoder>(state, releases);
}

proof fn unwinding_drops_what_is_for_failures<S: Stage>(output: S::Output, releases: Seq<Release>)
    requires
        forall|i: int| 0 <= i < releases.len() ==> (#[trigger] releases[i]).only_on_failure(),
    ensures
        unwound::<S>(Ok(output), releases).step == Step::Done(Ok::<S::Output, Error>(output)),
    decreases releases.len(),
{
    if releases.len() > 0 {
        let rest = releases.drop_last();
        assert(releases[releases.len() - 1].only_on_failure());
        assert forall|i: int| 0 <= i < rest.len() implies (
        #[trigger] rest[i]).only_on_failure() by {
            assert(releases[i].only_on_failure());
        }
        unwinding_drops_what_is_for_failures::<S>(output, rest);
    }
}

/// The way of asking what a decoder is capable of, once its context was entered: the driver is
/// asked about that codec, in 4:2:0 at 8 bits; the context is left and destroyed; and what comes of
/// it is what the driver has answered. The first of these that fails is the error, and leaving the
/// context counts for more than the question.
pub proof fn decoder_capabilities_are_what_the_driver_answers(
    codec_type: u32,
    device_id: i32,
    events: Seq<Event<QueryDecoderCaps>>,
    outcome: Result<DecoderCaps, Error>,
)
    requires
        events.len() == 6,
        is_run(
            forward(
                QueryDecoderCaps::Load { codec_type, device_id },
                Call::LoadLibraries,
                Seq::empty(),
            ),
            events,
        ),
        forall|i: int| 0 <= i < 3 ==> (#[trigger] events[i]).reply is Ok,
        events.last().turn.step == Step::Done(outcome),
    ensures
        ({
            let ctx = events[1].reply->Ok_0.handle_spec();
            &&& events[0].call == Call::LoadLibraries
            &&& events[1].call == Call::CtxCreate { flags: 0, device: device_id }
            &&& events[2].call == Call::CtxPushCurrent { ctx }
            &&& events[3].call == Call::GetDecoderCaps {
                codec_type,
                chroma_format: 1,
                bit_depth_minus8: 0,
            }
            &&& events[4].call == Call::CtxPopCurrent
            &&& events[5].call == Call::CtxDestroy { ctx }
            &&& match outcome {
                Ok(caps) => {
                    let raw = events[3].reply->Ok_0.decoder_caps_spec();
                    &&& events[3].reply is Ok && events[4].reply is Ok && events[5].reply is Ok
                    &&& caps.is_supported <==> raw.is_supported > 0
                    &&& caps.max_width == raw.max_width
                    &&& caps.max_height == raw.max_height
                    &&& caps.max_mb_count == raw.max_mb_count
                    &&& caps.min_width == raw.min_width
                    &&& caps.min_height == raw.min_height
                },
                Err(error) => match events[4].reply {
                    Err(leaving) => error == leaving,
                    Ok(_) => match events[3].reply {
                        Err(asking) => error == asking,
                        Ok(_) => events[5].reply == Err::<crate::driver::Output, Error>(error),
                    },
                },
            }
        }),
{
    let start = forward(
        QueryDecoderCaps::Load { codec_type, device_id },
        Call::LoadLibraries,
        Seq::empty(),
    );
    let ctx = events[1].reply->Ok_0.handle_spec();
    let all = seq![
        Release::CheckedOnSuccess(Call::CtxDestroy { ctx }),
        Release::Checked(Call::CtxPopCurrent),
    ];
    let none = Seq::<Release>::empty();
    event_of_a_run(start, events, 0);
    assert(events[0].reply is Ok);
    assert(events[0].turn.operation.releases =~= all.take(0));
    event_of_a_run(start, events, 1);
    assert(events[1].reply is Ok);
    assert(events[1].turn.operation.releases =~= all.take(1));
    event_of_a_run(start, events, 2);
    assert(events[2].reply is Ok);
    assert(events[2].turn.operation.releases =~= all);
    event_of_a_run(start, events, 3);
    assert(all + none =~= all);
    assert(all.drop_last() =~= all.take(1));
    event_of_a_run(start, events, 4);
    assert(all.take(1).drop_last() =~= none);
    event_of_a_run(start, events, 5);
}

/// A picture is put out as it was announced: that picture of that decoder is mapped, with its
/// fields, and what is copied is the display area of that mapping, first of the luma plane and then
/// of the chroma plane below it. Each row of the display area goes to a row of its plane, and the
/// chroma plane of the frame follows its luma plane.
pub proof fn a_picture_is_copied_as_announced(
    info: DisplayInfo,
    events: Seq<Event<DisplayPicture>>,
)
    requires
        events.len() >= 4,
        info.repeat_first_field < i32::MAX,
        is_run(display_start(events[0].before@, info), events),
        forall|i: int| 0 <= i < 3 ==> (#[trigger] events[i]).reply is Ok,
        events[0].before@.geometry.measures(events[1].reply->Ok_0.mapped_spec().1 as nat),
    ensures
        ({
            let state = events[0].before@;
            let area = state.geometry;
            let (device_ptr, pitch) = events[1].reply->Ok_0.mapped_spec();
            &&& events[0].call == Call::CtxPushCurrent { ctx: state.ctx }
            &&& events[1].call matches Call::MapVideoFrame { decoder, picture_index, proc_params }
            &&& decoder == state.decoder
            &&& picture_index == info.picture_index
            &&& proc_params.progressive_frame == info.progressive_frame
            &&& proc_params.top_field_first == info.top_field_first
            &&& proc_params.second_field == info.repeat_first_field + 1
            &&& proc_params.output_stream == 0
            &&& events[2].call matches Call::CopyPlane { plane: luma }
            &&& luma.src_device == device_ptr
            &&& luma.src_pitch == pitch
            &&& luma.src_x_in_bytes == area.left
            &&& luma.src_y == area.top
            &&& luma.width_in_bytes == area.width
            &&& luma.height == area.height
            &&& luma.dst_offset == 0
            &&& luma.dst_pitch == pitch
            &&& luma.dst_len == pitch * area.height
            &&& events[3].call matches Call::CopyPlane { plane: chroma }
            &&& chroma.src_device == device_ptr
            &&& chroma.src_pitch == pitch
            &&& chroma.src_x_in_bytes == area.left
            &&& chroma.src_y == area.surface_height + area.surface_height % 2 + area.top / 2
            &&& chroma.width_in_bytes == area.width + area.width % 2
            &&& chroma.height == area.height / 2 + area.height % 2
            &&& chroma.dst_offset == luma.dst_len
            &&& chroma.dst_pitch == pitch
            &&& chroma.dst_len == pitch * (area.height / 2 + area.height % 2)
        }),
{
    let start = display_start(events[0].before@, info);
    let none = Seq::<Release>::empty();
    assert(none + none =~= none);
    event_of_a_run(start, events, 0);
    assert(events[0].reply is Ok);
    assert(events[0].turn.operation.phase->Forward_stage is MapPicture);
    event_of_a_run(start, events, 1);
    assert(events[1].reply is Ok);
    assert(events[1].turn.operation.phase->Forward_stage is CopyLuma);
    assert(events[1].turn.operation.releases =~= none);
    event_of_a_run(start, events, 2);
    assert(events[2].reply is Ok);
    assert(events[2].turn.operation.phase->Forward_stage is CopyChroma);
    event_of_a_run(start, events, 3);
    let area = events[0].before@.geometry;
    let rows = crate::frame::chroma_rows(area.height as nat);
    assert(rows == area.height / 2 + area.height % 2);
}

/// Whatever comes of starting a sequence that was accepted: if a decoder is created, it is created
/// for the format of the sequence, with the coded size as the size at which it puts pictures out.
/// That is the size of the surface from which pictures are copied once the sequence has started.
pub proof fn a_sequence_gets_a_decoder_of_its_own(
    format: VideoFormat,
    plan: SequencePlan,
    events: Seq<Event<StartSequence>>,
    i: int,
)
    requires
        events.len() > 0,
        sequence_plan(events[0].before@, format) == Ok::<SequencePlan, Error>(plan),
        is_run(sequence_start(events[0].before@, plan), events),
        0 <= i < events.len(),
        events[i].call is CreateDecoder,
    ensures
        ({
            let info = events[i].call->CreateDecoder_info;
            &&& info.codec_type == format.codec
            &&& info.chroma_format == format.chroma_format
            &&& info.width == info.max_width == info.target_width == format.coded_width
            &&& info.height == info.max_height == info.target_height == format.coded_height
            &&& info.output_format == events[0].before@.surface_format
            &&& info.vid_lock == events[0].before@.ctx_lock
            &&& info.num_decode_surfaces >= format.min_num_decode_surfaces
            &&& info.num_decode_surfaces <= events[0].before@.max_num_decode_surfaces
            &&& events.last().turn.step matches Step::Done(Ok(surfaces)) ==> {
                &&& surfaces == info.num_decode_surfaces
                &&& events.last().after@.geometry.surface_width == info.target_width
                &&& events.last().after@.geometry.surface_height == info.target_height
                &&& events.last().after@.geometry.left == format.display_area.left
                &&& events.last().after@.geometry.top == format.display_area.top
            }
        }),
{
    let start = sequence_start(events[0].before@, plan);
    a_new_decoder_suits_its_sequence(events[0].before@, format);
    accepted_sequences_have_a_valid_geometry(events[0].before@, format);
    crate::decoder::parser_and_decoder_agree(events[0].before@, format);
    event_of_a_run(start, events, i);
    if i > 0 {
        a_run_begins_with_runs(start, events, i);
        assert(events.take(i)[0] == events[0]);
        a_sequence_calls_as_planned(plan, events.take(i));
    }
    a_sequence_calls_as_planned(plan, events);
}

proof fn a_sequence_calls_as_planned(plan: SequencePlan, events: Seq<Event<StartSequence>>)
    requires
        events.len() > 0,
        is_run(sequence_start(events[0].before@, plan), events),
    ensures
        events.last().turn.operation.releases.len() == 0,
        match events.last().turn.operation.phase {
            Phase::Forward { stage, call } => {
                &&& plan_of(stage) == plan
                &&& events.last().turn.step == Step::<i32>::Call(call)
                &&& call is CreateDecoder ==> call->CreateDecoder_info == plan.info
            },
            Phase::Releasing { .. } => false,
            Phase::Finished => events.last().turn.step matches Step::Done(outcome) && (
            outcome matches Ok(surfaces) ==> {
                &&& surfaces == plan.surfaces as i32
                &&& events.last().after@.geometry == plan.geometry
            }),
        },
    decreases events.len(),
{
    let start = sequence_start(events[0].before@, plan);
    let earlier = events.drop_last();
    if earlier.len() > 0 {
        assert(earlier[0] == events[0]);
        a_sequence_calls_as_planned(plan, earlier);
    }
    let turn = last_turn(start, earlier);
    let event = events.last();
    let stage = turn.operation.phase->Forward_stage;
    let progress = choose|progress: Progress<StartSequence, i32>|
        #![trigger stage.moves(event.before, event.reply, event.after, progress)]
        stage.moves(event.before, event.reply, event.after, progress) && event.turn == proceeded(
            turn.operation.releases,
            progress,
        );
    assert(turn.operation.releases + progress.acquired@ =~= Seq::empty());
}

/// Whether what an operation waits to release only gives things back.
spec fn only_gives_back<S: Stage>(turn: TurnView<S>) -> bool {
    &&& all_return(turn.operation.releases)
    &&& turn.operation.phase matches Phase::Releasing { release, .. } ==> {
        &&& given_back(returning_call(release)) is Some
        &&& turn.step == Step::<S::Output>::Call(release.first_call())
    }
}

proof fn unwinding_only_gives_back<S: Stage>(
    outcome: Result<S::Output, Error>,
    releases: Seq<Release>,
)
    requires
        all_return(releases),
    ensures
        only_gives_back(unwound::<S>(outcome, releases)),
        !(unwound::<S>(outcome, releases).operation.phase is Forward),
    decreases releases.len(),
{
    if releases.len() > 0 {
        let rest = releases.drop_last();
        assert(given_back(returning_call(releases[releases.len() - 1])) is Some);
        assert forall|i: int| 0 <= i < rest.len() implies given_back(
            returning_call(#[trigger] rest[i]),
        ) is Some by {
            assert(given_back(returning_call(releases[i])) is Some);
        }
        unwinding_only_gives_back::<S>(outcome, rest);
    }
}

proof fn releasing_only_gives_back<S: Stage>(
    release: Release,
    outcome: Result<S::Output, Error>,
    releases: Seq<Release>,
    reply: crate::driver::Reply,
)
    requires
        all_return(releases),
        given_back(returning_call(release)) is Some,
    ensures
        ({
            let turn = unwound::<S>(
                outcome_after(release, outcome, reply),
                releases_after(release, releases, reply),
            );
            only_gives_back(turn) && !(turn.operation.phase is Forward)
        }),
{
    let left = releases_after(release, releases, reply);
    assert forall|i: int| 0 <= i < left.len() implies given_back(
        returning_call(#[trigger] left[i]),
    ) is Some by {
        if i < releases.len() {
            assert(given_back(returning_call(releases[i])) is Some);
        }
    }
    unwinding_only_gives_back::<S>(outcome_after(release, outcome, reply), left);
}

/// Whether a turn of encoding a frame is where the events have led: while it goes forward, every
/// call has succeeded, and the handles that it goes on with are those that the calls returned.
spec fn encoding_stands<'a>(
    turn: TurnView<EncodeFrame<'a>>,
    job: EncodeJob,
    events: Seq<Event<EncodeFrame<'a>>>,
) -> bool {
    let n = events.len();
    let encoder = events[0].before@;
    let session = encoder.session;
    let device_ptr = events[1].reply->Ok_0.handle_spec();
    let resource = events[3].reply->Ok_0.handle_spec();
    let mapped = events[4].reply->Ok_0.handle_spec();
    let buffer = events[5].reply->Ok_0.handle_spec();
    &&& only_gives_back(turn)
    &&& turn.operation.phase matches Phase::Forward { stage, call } ==> {
        &&& turn.step == Step::<()>::Call(call)
        &&& forall|i: int| 0 <= i < n ==> (#[trigger] events[i]).reply is Ok
        &&& match stage {
            EncodeFrame::Enter { .. } => false,
            EncodeFrame::Allocate { job: j, .. } => n == 1 && j == job && call is MemAlloc,
            EncodeFrame::Upload { job: j, device_ptr: d, .. } => {
                &&& n == 2 && j == job && d == device_ptr
                &&& call matches Call::MemcpyHtoD { device_ptr: to, .. }
                &&& to == device_ptr
            },
            EncodeFrame::Register { job: j } => {
                &&& n == 3 && j == job
                &&& call matches Call::RegisterResource { session: s, image }
                &&& s == session
                &&& image.device_ptr == device_ptr
                &&& image.width == encoder.width
                &&& image.height == encoder.height
                &&& image.pitch == job.pitch
                &&& image.buffer_format == encoder.buffer_format.code()
            },
            EncodeFrame::MapInput { job: j, resource: r } => {
                &&& n == 4 && j == job && r == resource
                &&& call matches Call::MapInputResource { session: s, resource: q }
                &&& s == session && q == resource
            },
            EncodeFrame::CreateBuffer { job: j, mapped: m } => {
                &&& n == 5 && j == job && m == mapped
                &&& call matches Call::CreateBitstreamBuffer { session: s }
                &&& s == session
            },
            EncodeFrame::Encode { buffer: b } => {
                &&& n == 6 && b == buffer
                &&& call matches Call::EncodePicture { session: s, picture }
                &&& s == session
                &&& picture.input_buffer == mapped
                &&& picture.output_bitstream == buffer
                &&& picture.input_width == encoder.width
                &&& picture.input_height == encoder.height
                &&& picture.input_pitch == job.pitch
                &&& picture.buffer_format == encoder.buffer_format.code()
                &&& picture.picture_struct == 1
                &&& picture.input_timestamp == job.timestamp
                &&& picture.encode_pic_flags == job.pic_flags
            },
            EncodeFrame::Lock { buffer: b } => {
                &&& n == 7 && b == buffer
                &&& call matches Call::LockBitstream { session: s, buffer: locked }
                &&& s == session && locked == buffer
            },
        }
    }
}

proof fn encoding_stands_where_it_was_led<'a>(
    job: EncodeJob,
    frame: &'a [u8],
    events: Seq<Event<EncodeFrame<'a>>>,
)
    requires
        events.len() > 0,
        events[0].before@.frame_count < u64::MAX,
        is_run(encode_start(events[0].before@, job, frame), events),
    ensures
        encoding_stands(events.last().turn, job, events),
    decreases events.len(),
{
    let start = encode_start(events[0].before@, job, frame);
    let earlier = events.drop_last();
    let event = events.last();
    let turn = last_turn(start, earlier);
    if earlier.len() > 0 {
        assert(earlier[0] == events[0]);
        encoding_stands_where_it_was_led(job, frame, earlier);
        encoding_progress(job, frame, earlier);
        assert(event.before == earlier.last().after);
    }
    match turn.operation.phase {
        Phase::Forward { stage, .. } => {
            let progress = choose|progress: Progress<EncodeFrame, ()>|
                #![trigger stage.moves(event.before, event.reply, event.after, progress)]
                stage.moves(event.before, event.reply, event.after, progress) && event.turn
                    == proceeded(turn.operation.releases, progress);
            let releases = turn.operation.releases + progress.acquired@;
            assert forall|i: int| 0 <= i < releases.len() implies given_back(
                returning_call(#[trigger] releases[i]),
            ) is Some by {
                if i < turn.operation.releases.len() {
                    assert(given_back(returning_call(turn.operation.releases[i])) is Some);
                }
            }
            assert forall|i: int| progress.next is Call && 0 <= i < events.len() implies (
            #[trigger] events[i]).reply is Ok by {
                if i < earlier.len() {
                    assert(earlier[i].reply is Ok);
                }
            }
            match progress.next {
                Next::Call { .. } => {},
                Next::Succeed(()) => {
                    unwinding_only_gives_back::<EncodeFrame>(Ok(()), releases);
                },
                Next::Fail(error) => {
                    unwinding_only_gives_back::<EncodeFrame>(Err(error), releases);
                },
            }
        },
        Phase::Releasing { release, outcome } => {
            releasing_only_gives_back::<EncodeFrame>(
                release,
                outcome,
                turn.operation.releases,
                event.reply,
            );
        },
        Phase::Finished => {},
    }
}

/// Whatever comes of encoding a frame: if a picture is handed to the session, it is the frame. Its
/// input is what mapping has returned, what was mapped is what registering has returned, and what
/// was registered is the memory to which the frame was uploaded; and it is described as the encoder
/// stands and as the job says. Its output goes to the bitstream buffer that was created for it, and
/// that is the buffer that is locked next, to be read. All calls before have succeeded.
pub proof fn what_is_encoded_is_the_frame<'a>(
    job: EncodeJob,
    frame: &'a [u8],
    events: Seq<Event<EncodeFrame<'a>>>,
    i: int,
)
    requires
        0 <= i < events.len(),
        events[0].before@.frame_count < u64::MAX,
        is_run(encode_start(events[0].before@, job, frame), events),
        events[i].call is EncodePicture,
    ensures
        ({
            let encoder = events[0].before@;
            let picture = events[i].call->EncodePicture_picture;
            &&& i == 6
            &&& events[i].call->EncodePicture_session == encoder.session
            &&& forall|k: int| 0 <= k < i ==> (#[trigger] events[k]).reply is Ok
            &&& events[0].call == Call::CtxPushCurrent { ctx: encoder.ctx }
            &&& events[1].call is MemAlloc
            &&& events[2].call matches Call::MemcpyHtoD { device_ptr, .. }
            &&& device_ptr == events[1].reply->Ok_0.handle_spec()
            &&& events[3].call matches Call::RegisterResource { session: registering, image }
            &&& registering == encoder.session
            &&& image.device_ptr == events[1].reply->Ok_0.handle_spec()
            &&& image.width == encoder.width
            &&& image.height == encoder.height
            &&& image.pitch == job.pitch
            &&& image.buffer_format == encoder.buffer_format.code()
            &&& events[4].call matches Call::MapInputResource { session: mapping, resource }
            &&& mapping == encoder.session
            &&& resource == events[3].reply->Ok_0.handle_spec()
            &&& events[5].call == Call::CreateBitstreamBuffer { session: encoder.session }
            &&& picture.input_buffer == events[4].reply->Ok_0.handle_spec()
            &&& picture.output_bitstream == events[5].reply->Ok_0.handle_spec()
            &&& picture.input_width == encoder.width
            &&& picture.input_height == encoder.height
            &&& picture.input_pitch == job.pitch
            &&& picture.buffer_format == encoder.buffer_format.code()
            &&& picture.picture_struct == 1
            &&& picture.input_timestamp == job.timestamp
            &&& picture.encode_pic_flags == job.pic_flags
            &&& events.len() > 7 && events[6].reply is Ok ==> {
                &&& events[7].call matches Call::LockBitstream { session: locking, buffer }
                &&& locking == encoder.session
                &&& buffer == picture.output_bitstream
            }
        }),
{
    let start = encode_start(events[0].before@, job, frame);
    event_of_a_run(start, events, i);
    encoding_until(job, frame, events, i);
    assert(given_back(events[i].call) is None);
    assert(events[i - 1].turn.operation.phase is Forward);
    assert(i == 6);
    event_of_a_run(start, events, 0);
    assert(events[0].reply is Ok);
    assert(events[0].turn.operation.phase is Forward);
    encoding_until(job, frame, events, 1);
    event_of_a_run(start, events, 1);
    assert(events[1].reply is Ok);
    assert(events[1].turn.operation.phase is Forward);
    encoding_until(job, frame, events, 2);
    event_of_a_run(start, events, 2);
    assert(events[2].reply is Ok);
    assert(events[2].turn.operation.phase is Forward);
    encoding_until(job, frame, events, 3);
    event_of_a_run(start, events, 3);
    assert(events[3].reply is Ok);
    assert(events[3].turn.operation.phase is Forward);
    encoding_until(job, frame, events, 4);
    event_of_a_run(start, events, 4);
    assert(events[4].reply is Ok);
    assert(events[4].turn.operation.phase is Forward);
    encoding_until(job, frame, events, 5);
    if events.len() > 7 && events[6].reply is Ok {
        event_of_a_run(start, events, 6);
        assert(events[6].turn.operation.phase is Forward);
        encoding_until(job, frame, events, 7);
    }
}

/// What holds before event `i` of encoding a frame.
proof fn encoding_until<'a>(
    job: EncodeJob,
    frame: &'a [u8],
    events: Seq<Event<EncodeFrame<'a>>>,
    i: int,
)
    requires
        0 < i < events.len() || (i == 0 && events.len() > 0 && events[0].call is EncodePicture),
        events[0].before@.frame_count < u64::MAX,
        is_run(encode_start(events[0].before@, job, frame), events),
    ensures
        i > 0,
        encoding_stands(events[i - 1].turn, job, events.take(i)),
        events[i - 1].turn.step == Step::<()>::Call(events[i].call),
        events.take(i)[0] == events[0],
        i > 1 ==> events.take(i)[1] == events[1],
        i > 3 ==> events.take(i)[3] == events[3],
        i > 4 ==> events.take(i)[4] == events[4],
        i > 5 ==> events.take(i)[5] == events[5],
        events[i - 1].turn.operation.phase is Forward ==> forall|k: int|
            0 <= k < i ==> (#[trigger] events[k]).reply is Ok,
{
    let start = encode_start(events[0].before@, job, frame);
    event_of_a_run(start, events, i);
    if i > 0 {
        let part = events.take(i);
        a_run_begins_with_runs(start, events, i);
        assert(part[0] == events[0]);
        encoding_stands_where_it_was_led(job, frame, part);
        assert(part.last() == events[i - 1]);
        if events[i - 1].turn.operation.phase is Forward {
            assert forall|k: int| 0 <= k < i implies (#[trigger] events[k]).reply is Ok by {
                assert(part[k].reply is Ok);
            }
        }
    }
}

/// The way of opening an encoder, where all calls succeed and the configuration has the bit rate
/// that it needs. The session is opened in a context on the device that the configuration names.
/// It is asked for the preset, for that codec and that tuning, and initialized with it as the
/// configuration says. The new encoder has this context and this session, and takes frames of the
/// configured size and layout.
pub proof fn an_encoder_is_opened(config: EncoderConfig, events: Seq<Event<OpenEncoder>>)
    requires
        events.len() == 10,
        is_run(
            forward(OpenEncoder::Load { config }, Call::LoadLibraries, Seq::empty()),
            events,
        ),
        forall|i: int| 0 <= i < events.len() ==> (#[trigger] events[i]).reply is Ok,
        config.rate_control_mode is ConstQp || config.average_bitrate is Some,
        config.buffer_format.measures(config.width as nat, config.height as nat),
    ensures
        ({
            let ctx = events[1].reply->Ok_0.handle_spec();
            let session = events[4].reply->Ok_0.handle_spec();
            &&& events[0].call == Call::LoadLibraries
            &&& events[1].call == Call::CtxCreate { flags: 0, device: config.device_id }
            &&& events[2].call == Call::CtxPushCurrent { ctx }
            &&& events[3].call == Call::CreateApiInstance
            &&& events[4].call == Call::OpenEncodeSession { ctx }
            &&& events[5].call == Call::CtxPopCurrent
            &&& events[6].call == Call::CtxPushCurrent { ctx }
            &&& events[7].call matches Call::GetEncodePresetConfig {
                session: asked,
                codec,
                preset,
                tuning_info,
            }
            &&& asked == session
            &&& preset == config.preset.guid()
            &&& tuning_info == config.tuning_info.code()
            &&& events[8].call matches Call::InitializeEncoder {
                session: initialized,
                params,
                config: settings,
            }
            &&& initialized == session
            &&& params.encode_guid == codec
            &&& params.encode_guid == match config.codec {
                CodecConfig::H264(_) => crate::encode::EncoderCodec::H264.guid(),
                CodecConfig::Hevc(_) => crate::encode::EncoderCodec::Hevc.guid(),
                CodecConfig::Av1(_) => crate::encode::EncoderCodec::Av1.guid(),
            }
            &&& params.preset_guid == preset
            &&& params.tuning_info == tuning_info
            &&& params.encode_width == config.width
            &&& params.encode_height == config.height
            &&& params.frame_rate_num == config.framerate_num
            &&& params.frame_rate_den == config.framerate_den
            &&& config.rate_control_mode is ConstQp <==> settings.rate_control_mode == 0
            &&& config.rate_control_mode is Vbr <==> settings.rate_control_mode == 1
            &&& config.rate_control_mode is Cbr <==> settings.rate_control_mode == 2
            &&& !(config.rate_control_mode is ConstQp) ==> settings.average_bitrate
                == config.average_bitrate->0 && settings.max_bitrate == config.average_bitrate->0
            &&& config.rate_control_mode is ConstQp ==> {
                let preset = events[7].reply->Ok_0.preset_spec();
                settings.average_bitrate == preset.average_bitrate && settings.max_bitrate
                    == preset.max_bitrate
            }
            &&& events[9].call == Call::CtxPopCurrent
            &&& events[9].turn.step matches Step::Done(Ok(encoder))
            &&& encoder@.ctx == ctx
            &&& encoder@.session == session
            &&& encoder@.width == config.width
            &&& encoder@.height == config.height
            &&& encoder@.buffer_format == config.buffer_format
            &&& encoder@.expected_frame_size == config.buffer_format.frame_bytes(
                config.width as nat,
                config.height as nat,
            )
            &&& encoder@.framerate_den == config.framerate_den
            &&& encoder@.frame_count == 0
            &&& encoder@.encoded_frames.len() == 0
            &&& encoder@.init_params == params
            &&& encoder@.encode_config == settings
        }),
{
    let start = forward(OpenEncoder::Load { config }, Call::LoadLibraries, Seq::empty());
    let ctx = events[1].reply->Ok_0.handle_spec();
    let session = events[4].reply->Ok_0.handle_spec();
    let all = seq![
        Release::OnFailure(Call::CtxDestroy { ctx }),
        Release::InContextOnFailure { ctx, call: Call::DestroyEncoder { session } },
        Release::Checked(Call::CtxPopCurrent),
    ];
    let preset = events[7].reply->Ok_0.preset_spec();
    encoders_are_initialized_as_configured(config, preset);
    encoders_are_initialized_for_their_codec(config, preset);
    event_of_a_run(start, events, 0);
    assert(events[0].reply is Ok);
    assert(events[0].turn.operation.releases =~= all.take(0));
    event_of_a_run(start, events, 1);
    assert(events[1].reply is Ok);
    assert(events[1].turn.operation.releases =~= all.take(1));
    event_of_a_run(start, events, 2);
    assert(events[2].reply is Ok);
    assert(events[2].turn.operation.releases =~= all.take(1));
    event_of_a_run(start, events, 3);
    assert(events[3].reply is Ok);
    assert(events[3].turn.operation.releases =~= all.take(1));
    event_of_a_run(start, events, 4);
    assert(events[4].reply is Ok);
    assert(events[4].turn.operation.releases =~= all.take(1));
    event_of_a_run(start, events, 5);
    assert(events[5].reply is Ok);
    assert(events[5].turn.operation.releases =~= all.take(2));
    event_of_a_run(start, events, 6);
    assert(events[6].reply is Ok);
    assert(events[6].turn.operation.releases =~= all);
    event_of_a_run(start, events, 7);
    assert(events[7].reply is Ok);
    assert(events[7].turn.operation.releases =~= all);
    event_of_a_run(start, events, 8);
    assert(events[8].reply is Ok);
    let stage = events[7].turn.operation.phase->Forward_stage;
    let progress = choose|progress: Progress<OpenEncoder, Encoder>|
        #![trigger stage.moves(events[8].before, events[8].reply, events[8].after, progress)]
        stage.moves(events[8].before, events[8].reply, events[8].after, progress)
            && events[8].turn == proceeded(all, progress);
    assert(all + progress.acquired@ =~= all);
    assert(all.drop_last() =~= all.take(2));
    event_of_a_run(start, events, 9);
    assert(events[9].reply is Ok);
    let encoder = progress.next->Succeed_0;
    assert forall|i: int| 0 <= i < all.take(2).len() implies (
    #[trigger] all.take(2)[i]).only_on_failure() by {}
    unwinding_drops_what_is_for_failures::<OpenEncoder>(encoder, all.take(2));
}

/// The way of a reconfiguration that the driver accepts, and whose context can be left: the session
/// gets each parameter that is named in its place, and all else as it was; and the encoder goes by
/// what was named.
pub proof fn an_encoder_is_reconfigured(
    params: ReconfigureParams,
    events: Seq<Event<Reconfigure>>,
)
    requires
        events.len() == 3,
        is_run(reconfigure_start(events[0].before@, params), events),
        forall|i: int| 0 <= i < events.len() ==> (#[trigger] events[i]).reply is Ok,
        events[0].before@.buffer_format.measures(
            value_or(params.width, events[0].before@.width) as nat,
            value_or(params.height, events[0].before@.height) as nat,
        ),
    ensures
        ({
            let before = events[0].before@;
            let after = events[2].after@;
            &&& events[0].call == Call::CtxPushCurrent { ctx: before.ctx }
            &&& events[1].call matches Call::ReconfigureEncoder { session, params: init, config }
            &&& session == before.session
            &&& params.framerate_num matches Some(num) ==> init.frame_rate_num == num
            &&& params.framerate_den matches Some(den) ==> init.frame_rate_den == den
            &&& params.width matches Some(width) ==> init.encode_width == width
            &&& params.height matches Some(height) ==> init.encode_height == height
            &&& params.average_bitrate matches Some(rate) ==> config.average_bitrate == rate
            &&& params.max_bitrate matches Some(rate) ==> config.max_bitrate == rate
            &&& params.framerate_num is None ==> init.frame_rate_num
                == before.init_params.frame_rate_num
            &&& params.framerate_den is None ==> init.frame_rate_den
                == before.init_params.frame_rate_den
            &&& params.width is None ==> init.encode_width == before.init_params.encode_width
            &&& params.height is None ==> init.encode_height == before.init_params.encode_height
            &&& params.average_bitrate is None ==> config.average_bitrate
                == before.encode_config.average_bitrate
            &&& params.max_bitrate is None ==> config.max_bitrate
                == before.encode_config.max_bitrate
            &&& events[2].call == Call::CtxPopCurrent
            &&& events[2].turn.step == Step::<()>::Done(Ok(()))
            &&& after.init_params == init
            &&& after.encode_config == config
            &&& params.width matches Some(width) ==> after.width == width
            &&& params.height matches Some(height) ==> after.height == height
            &&& params.framerate_den matches Some(den) ==> after.framerate_den == den
        }),
        params.width is Some ==> params.width->0
            <= events[0].before@.init_params.max_encode_width,
        params.height is Some ==> params.height->0
            <= events[0].before@.init_params.max_encode_height,
{
    let start = reconfigure_start(events[0].before@, params);
    let before = events[0].before@;
    let leave = seq![Release::Checked(Call::CtxPopCurrent)];
    let none = Seq::<Release>::empty();
    reconfigurations_set_what_they_name(before, params);
    event_of_a_run(start, events, 0);
    assert(events[0].reply is Ok);
    assert(none + leave =~= leave);
    assert(leave.drop_last() =~= none);
    if reconfiguration(before, params) is Err {
        event_of_a_run(start, events, 1);
        assert(events[1].reply is Ok);
        assert(events[1].turn.step is Done);
        nothing_follows_the_end(start, events, 1);
    }
    let (init, config) = reconfiguration(before, params)->Ok_0;
    reconfigured_encoders_go_by_what_was_named(before, params, init, config);
    assert(events[0].turn.operation.releases =~= leave);
    event_of_a_run(start, events, 1);
    assert(events[1].reply is Ok);
    assert(leave + none =~= leave);
    event_of_a_run(start, events, 2);
    assert(events[2].reply is Ok);
}

/// A reconfiguration beyond the limits is refused without the driver's being asked, and one that
/// the driver refuses fails with what it says. Either way nothing changes in the encoder.
pub proof fn a_reconfiguration_that_fails_changes_nothing(
    params: ReconfigureParams,
    events: Seq<Event<Reconfigure>>,
    error: Error,
)
    requires
        events.len() > 0,
        is_run(reconfigure_start(events[0].before@, params), events),
        events.last().turn.step == Step::<()>::Done(Err(error)),
        events.len() == 3 ==> events[1].reply is Err,
    ensures
        ({
            let limits = events[0].before@.init_params;
            let beyond = value_or(params.width, 0) > limits.max_encode_width || value_or(
                params.height,
                0,
            ) > limits.max_encode_height;
            &&& events.last().after@ == events[0].before@
            &&& events.len() <= 3
            &&& beyond ==> forall|i: int|
                0 <= i < events.len() ==> !((#[trigger] events[i]).call is ReconfigureEncoder)
            &&& events.last().reply matches Err(last) ==> error == last
            &&& events.len() == 3 && events[2].reply is Ok ==> events[1].reply == Err::<
                crate::driver::Output,
                Error,
            >(error)
        }),
{
    let start = reconfigure_start(events[0].before@, params);
    let before = events[0].before@;
    let leave = seq![Release::Checked(Call::CtxPopCurrent)];
    let none = Seq::<Release>::empty();
    reconfigurations_set_what_they_name(before, params);
    event_of_a_run(start, events, 0);
    if events[0].reply is Err {
        nothing_follows_the_end(start, events, 0);
    } else {
        assert(none + leave =~= leave);
        assert(leave + none =~= leave);
        assert(leave.drop_last() =~= none);
        assert(events.len() > 1);
        event_of_a_run(start, events, 1);
        if reconfiguration(before, params) is Err {
            assert(events[1].turn.step is Done);
            nothing_follows_the_end(start, events, 1);
        } else {
            assert(events.len() > 2);
            event_of_a_run(start, events, 2);
            assert(events[2].turn.step is Done);
            nothing_follows_the_end(start, events, 2);
        }
    }
}

/// The way of reading the sequence parameters, where the context can be entered and left: they are
/// read from the session of the encoder, and are what the driver has written, no more and no less,
/// as far as the buffer holds it. The encoder stays as it is.
pub proof fn sequence_parameters_are_what_the_driver_has_written(
    events: Seq<Event<SequenceParams>>,
)
    requires
        events.len() == 3,
        is_run(sequence_params_start(events[0].before@), events),
        forall|i: int| 0 <= i < events.len() ==> (#[trigger] events[i]).reply is Ok,
    ensures
        events[0].call == (Call::CtxPushCurrent { ctx: events[0].before@.ctx }),
        events[1].call matches Call::GetSequenceParams { session, buffer_size } && session
            == events[0].before@.session && buffer_size == 512,
        events[2].call == Call::CtxPopCurrent,
        events[2].after == events[0].before,
        match events[1].reply->Ok_0 {
            crate::driver::Output::SequenceHeader { buffer, size } => size <= buffer@.len() ==> {
                &&& events[2].turn.step matches Step::Done(Ok(header))
                &&& header@.len() == size
                &&& forall|i: int| 0 <= i < size ==> #[trigger] header@[i] == buffer@[i]
            },
            _ => true,
        },
{
    let start = sequence_params_start(events[0].before@);
    let leave = seq![Release::Checked(Call::CtxPopCurrent)];
    let none = Seq::<Release>::empty();
    assert(none + leave =~= leave);
    assert(leave + none =~= leave);
    assert(leave.drop_last() =~= none);
    event_of_a_run(start, events, 0);
    assert(events[0].reply is Ok);
    assert(events[0].turn.operation.releases =~= leave);
    event_of_a_run(start, events, 1);
    assert(events[1].reply is Ok);
    let stage = events[0].turn.operation.phase->Forward_stage;
    let progress = choose|progress: Progress<SequenceParams, Vec<u8>>|
        #![trigger stage.moves(events[1].before, events[1].reply, events[1].after, progress)]
        stage.moves(events[1].before, events[1].reply, events[1].after, progress)
            && events[1].turn == proceeded(leave, progress);
    assert(leave + progress.acquired@ =~= leave);
    event_of_a_run(start, events, 2);
    assert(events[2].reply is Ok);
}

/// The capabilities that come of asking for them say of each capability what the driver has
/// answered when it was asked about that very one. It is asked about each, for the codec in
/// question, once.
pub proof fn capabilities_say_what_the_driver_answers(
    codec: Guid,
    device_id: i32,
    events: Seq<Event<QueryEncoderCaps>>,
    capability: EncoderCapability,
) -> (i: int)
    requires
        events.len() == 8 + capabilities().len(),
        is_run(query_start(codec, device_id), events),
        forall|i: int|
            0 <= i < events.len() && i != 5 + capabilities().len() ==> (
            #[trigger] events[i]).reply is Ok,
    ensures
        0 <= i < events.len(),
        events[i].call matches Call::GetEncodeCaps { codec: asked, capability: about, .. }
            && asked == codec && about == capability,
        forall|k: int|
            0 <= k < events.len() && k != i ==> !((
            #[trigger] events[k]).call is GetEncodeCaps
                && events[k].call->GetEncodeCaps_capability == capability),
        events.last().turn.step matches Step::Done(Ok(caps)) && says(
            caps,
            capability,
            events[i].reply->Ok_0.integer_spec(),
        ),
{
    capabilities_are_what_the_driver_answers(codec, device_id, events);
    let position = every_capability_is_asked_about(capability);
    let i = 5 + position;
    assert(events[5 + position].call is GetEncodeCaps);
    assert(events[i].reply is Ok);
    assert(capability_answers(events)[position] == events[i].reply->Ok_0.integer_spec());
    capabilities_say_what_was_answered(capability_answers(events), position);
    assert forall|k: int| 0 <= k < events.len() && k != i implies !((
    #[trigger] events[k]).call is GetEncodeCaps && events[k].call->GetEncodeCaps_capability
        == capability) by {
        if 5 <= k < 5 + capabilities().len() {
            assert(events[5 + (k - 5)].call is GetEncodeCaps);
            assert(capabilities()[k - 5] != capabilities()[position]);
        }
    }
    i
}

/// The number of devices is what the driver says, once the libraries are loaded.
pub proof fn devices_are_counted_by_the_driver(events: Seq<Event<CountDevices>>)
    requires
        events.len() == 2,
        is_run(forward(CountDevices::Load, Call::LoadLibraries, Seq::empty()), events),
        events[0].reply is Ok,
    ensures
        events[0].call == Call::LoadLibraries,
        events[1].call == Call::DeviceGetCount,
        events[1].turn.step == Step::Done(
            match events[1].reply {
                Ok(output) => Ok::<i32, Error>(output.integer_spec()),
                Err(error) => Err(error),
            },
        ),
{
    let start = forward(CountDevices::Load, Call::LoadLibraries, Seq::empty());
    let none = Seq::<Release>::empty();
    assert(none + none =~= none);
    event_of_a_run(start, events, 0);
    event_of_a_run(start, events, 1);
}

/// The name of a device is what the driver says of the device that it has for that number.
pub proof fn devices_are_named_by_the_driver(device_id: i32, events: Seq<Event<NameDevice>>)
    requires
        events.len() == 3,
        is_run(forward(NameDevice::Load { device_id }, Call::LoadLibraries, Seq::empty()), events),
        forall|i: int| 0 <= i < events.len() ==> (#[trigger] events[i]).reply is Ok,
    ensures
        events[0].call == Call::LoadLibraries,
        events[1].call == (Call::DeviceGet { ordinal: device_id }),
        events[2].call == (Call::DeviceGetName { device: events[1].reply->Ok_0.integer_spec() }),
        events[2].turn.step matches Step::Done(Ok(name)) && name@
            == events[2].reply->Ok_0.name_spec(),
{
    let start = forward(NameDevice::Load { device_id }, Call::LoadLibraries, Seq::empty());
    let none = Seq::<Release>::empty();
    assert(none + none =~= none);
    event_of_a_run(start, events, 0);
    assert(events[0].reply is Ok);
    event_of_a_run(start, events, 1);
    assert(events[1].reply is Ok);
    assert(events[1].turn.operation.phase->Forward_stage is Name);
    assert(events[1].turn.operation.releases =~= none);
    event_of_a_run(start, events, 2);
    assert(events[2].reply is Ok);
    let stage = NameDevice::Name;
    let progress = choose|progress: Progress<NameDevice, String>|
        #![trigger stage.moves(events[2].before, events[2].reply, events[2].after, progress)]
        stage.moves(events[2].before, events[2].reply, events[2].after, progress)
            && events[2].turn == proceeded(none, progress);
    assert(none + progress.acquired@ =~= none);
}

/// A copy, an allocation and a new stream are each one call, made once the libraries are loaded,
/// and what comes of them is what the driver says.
pub proof fn memory_and_streams_come_from_the_driver(
    copy: crate::driver::Copy2D,
    copying: Seq<Event<CopyMemory>>,
    width_in_bytes: usize,
    height: usize,
    element_size_bytes: u32,
    allocating: Seq<Event<AllocatePitched>>,
    creating: Seq<Event<CreateStream>>,
)
    requires
        copying.len() == allocating.len() == creating.len() == 2,
        is_run(forward(CopyMemory::Load { copy }, Call::LoadLibraries, Seq::empty()), copying),
        is_run(
            forward(
                AllocatePitched::Load { width_in_bytes, height, element_size_bytes },
                Call::LoadLibraries,
                Seq::empty(),
            ),
            allocating,
        ),
        is_run(forward(CreateStream::Load, Call::LoadLibraries, Seq::empty()), creating),
        copying[0].reply is Ok,
        allocating[0].reply is Ok,
        creating[0].reply is Ok,
    ensures
        copying[1].call == (Call::Memcpy2D { copy }),
        copying[1].turn.step == Step::<()>::Done(result_of(copying[1].reply)),
        allocating[1].call == (Call::MemAllocPitch { width_in_bytes, height, element_size_bytes }),
        allocating[1].turn.step == Step::Done(
            match allocating[1].reply {
                Ok(output) => Ok::<(u64, usize), Error>(output.pitched_spec()),
                Err(error) => Err(error),
            },
        ),
        creating[1].call == (Call::StreamCreate { flags: 0 }),
        match creating[1].reply {
            Ok(output) => creating[1].turn.step matches Step::Done(Ok(stream)) && stream@
                == output.handle_spec(),
            Err(error) => creating[1].turn.step == Step::Done(
                Err::<crate::device::CudaStream, Error>(error),
            ),
        },
{
    let none = Seq::<Release>::empty();
    assert(none + none =~= none);
    let start = forward(CopyMemory::Load { copy }, Call::LoadLibraries, Seq::empty());
    event_of_a_run(start, copying, 0);
    event_of_a_run(start, copying, 1);
    let start = forward(
        AllocatePitched::Load { width_in_bytes, height, element_size_bytes },
        Call::LoadLibraries,
        Seq::empty(),
    );
    event_of_a_run(start, allocating, 0);
    event_of_a_run(start, allocating, 1);
    let start = forward(CreateStream::Load, Call::LoadLibraries, Seq::empty());
    event_of_a_run(start, creating, 0);
    event_of_a_run(start, creating, 1);
    let stage = CreateStream::Create;
    let event = creating[1];
    assert(creating[0].turn.operation.releases =~= none);
    let progress = choose|progress: Progress<CreateStream, crate::device::CudaStream>|
        #![trigger stage.moves(event.before, event.reply, event.after, progress)]
        stage.moves(event.before, event.reply, event.after, progress) && event.turn == proceeded(
            none,
            progress,
        );
    assert(none + progress.acquired@ =~= none);
}

/// A packet that was parsed: the failure of a callback, if there was one, is what comes of it, and
/// otherwise what the driver says. The failure is then forgotten, and nothing else changes.
pub proof fn a_packet_is_parsed<'a>(data: &'a [u8], events: Seq<Event<ParsePacket<'a>>>)
    requires
        events.len() == 1,
        is_run(packet_start(events[0].before@, data), events),
    ensures
        events[0].call matches Call::ParseVideoData { parser, .. } && parser
            == events[0].before@.parser,
        events[0].turn.step matches Step::Done(outcome) && {
            match (events[0].before@.callback_error, events[0].reply) {
                (Some(failure), _) => outcome == Err::<(), Error>(failure),
                (None, Err(error)) => outcome == Err::<(), Error>(error),
                (None, Ok(_)) => outcome is Ok,
            }
        },
        events[0].after@.callback_error is None,
        events[0].after@ == (DecoderStateView { callback_error: None, ..events[0].before@ }),
{
    let none = Seq::<Release>::empty();
    assert(none + none =~= none);
    event_of_a_run(packet_start(events[0].before@, data), events, 0);
}

/// The end of a stream, where parsing has gone well: the context of the decoder is entered, all
/// that is under way is waited for, and the context is left. What fails on the way is the error;
/// and leaving the context counts for more than waiting.
pub proof fn a_stream_is_ended_and_waited_for(
    events: Seq<Event<EndStream>>,
    outcome: Result<(), Error>,
)
    requires
        events.len() == 4,
        is_run(end_start(events[0].before@), events),
        events[0].before@.callback_error is None,
        events[0].reply is Ok,
        events[1].reply is Ok,
        events[3].turn.step == Step::<()>::Done(outcome),
    ensures
        events[1].call == (Call::CtxPushCurrent { ctx: events[0].before@.ctx }),
        events[2].call == Call::CtxSynchronize,
        events[3].call == Call::CtxPopCurrent,
        outcome == match events[3].reply {
            Err(error) => Err::<(), Error>(error),
            Ok(_) => result_of(events[2].reply),
        },
{
    let start = end_start(events[0].before@);
    let leave = seq![Release::Checked(Call::CtxPopCurrent)];
    let none = Seq::<Release>::empty();
    assert(none + none =~= none);
    assert(none + leave =~= leave);
    assert(leave + none =~= leave);
    assert(leave.drop_last() =~= none);
    event_of_a_run(start, events, 0);
    assert(events[0].turn.operation.phase->Forward_stage is Enter);
    event_of_a_run(start, events, 1);
    assert(events[1].turn.operation.phase->Forward_stage is Synchronize);
    event_of_a_run(start, events, 2);
    event_of_a_run(start, events, 3);
}

/// Whether a call that fails makes an operation fail with that very error, and changes nothing.
pub open spec fn passes_on<S: Stage>(stage: S, error: Error) -> bool {
    forall|before: S::Context, after: S::Context, progress: Progress<S, S::Output>|
        #[trigger] stage.moves(before, Err(error), after, progress) ==> {
            &&& after == before
            &&& progress.acquired@.len() == 0
            &&& progress.next == Next::<S, S::Output>::Fail(error)
        }
}

/// A call that fails makes the operation fail with that very error, and changes nothing. This
/// holds of every stage of these operations; those of others have to leave a context or to give a
/// picture back first.
pub proof fn failures_are_passed_on<'a>(
    error: Error,
    open_decoder: OpenDecoder,
    decode_picture: DecodePicture,
    query_decoder: QueryDecoderCaps,
    query_encoder: QueryEncoderCaps,
    encode: EncodeFrame<'a>,
    reconfigure: Reconfigure,
    sequence_params: SequenceParams,
    count: CountDevices,
    name: NameDevice,
    copy: CopyMemory,
    allocate: AllocatePitched,
    stream: CreateStream,
)
    ensures
        passes_on(open_decoder, error),
        passes_on(decode_picture, error),
        passes_on(query_decoder, error),
        passes_on(query_encoder, error),
        passes_on(encode, error),
        passes_on(reconfigure, error),
        passes_on(sequence_params, error),
        passes_on(count, error),
        passes_on(name, error),
        passes_on(copy, error),
        passes_on(allocate, error),
        passes_on(stream, error),
        passes_on(SingleCall, error),
{
}

/// Whether all calls of a run have succeeded.
pub open spec fn all_succeeded<S: Stage>(events: Seq<Event<S>>) -> bool {
    forall|i: int| 0 <= i < events.len() ==> (#[trigger] events[i]).reply is Ok
}

/// Whether a call of a run has failed with `error`.
pub open spec fn failed_with<S: Stage>(events: Seq<Event<S>>, i: int, error: Error) -> bool {
    0 <= i < events.len() && events[i].reply == Err::<crate::driver::Output, Error>(error)
}

/// What comes of starting a sequence. It succeeds only if every call does. Its error is that of
/// its last call, which leaves the context or could not enter it; or, if that has succeeded, that
/// of the call before, which destroys the old decoder or creates the new one.
pub proof fn a_sequence_says_why_it_failed(
    plan: SequencePlan,
    events: Seq<Event<StartSequence>>,
    outcome: Result<i32, Error>,
)
    requires
        events.len() > 0,
        is_run(sequence_start(events[0].before@, plan), events),
        events.last().turn.step == Step::Done(outcome),
    ensures
        outcome is Ok ==> all_succeeded(events),
        outcome matches Err(error) ==> {
            let last = events.len() - 1;
            failed_with(events, last, error) || (events[last].reply is Ok && failed_with(
                events,
                last - 1,
                error,
            ))
        },
{
    a_sequence_knows_what_failed(plan, events);
}

proof fn a_sequence_knows_what_failed(plan: SequencePlan, events: Seq<Event<StartSequence>>)
    requires
        events.len() > 0,
        is_run(sequence_start(events[0].before@, plan), events),
    ensures
        ({
            let turn = events.last().turn;
            let last = events.len() - 1;
            &&& turn.operation.releases.len() == 0
            &&& match turn.operation.phase {
                Phase::Forward { stage, .. } => {
                    &&& turn.step is Call
                    &&& match stage {
                        StartSequence::LeaveOld { destroyed: Err(error), .. } => failed_with(
                            events,
                            last,
                            error,
                        ),
                        StartSequence::LeaveNew { created: Err(error), .. } => failed_with(
                            events,
                            last,
                            error,
                        ),
                        _ => all_succeeded(events),
                    }
                },
                Phase::Releasing { .. } => false,
                Phase::Finished => match turn.step {
                    Step::Done(Ok(_)) => all_succeeded(events),
                    Step::Done(Err(error)) => failed_with(events, last, error) || (
                    events[last].reply is Ok && failed_with(events, last - 1, error)),
                    _ => false,
                },
            }
        }),
    decreases events.len(),
{
    let start = sequence_start(events[0].before@, plan);
    let earlier = events.drop_last();
    let event = events.last();
    let turn = last_turn(start, earlier);
    if earlier.len() > 0 {
        assert(earlier[0] == events[0]);
        a_sequence_knows_what_failed(plan, earlier);
        assert(earlier.last() == events[events.len() - 2]);
    }
    let stage = turn.operation.phase->Forward_stage;
    let progress = choose|progress: Progress<StartSequence, i32>|
        #![trigger stage.moves(event.before, event.reply, event.after, progress)]
        stage.moves(event.before, event.reply, event.after, progress) && event.turn == proceeded(
            turn.operation.releases,
            progress,
        );
    assert(turn.operation.releases + progress.acquired@ =~= Seq::empty());
    assert(all_succeeded(earlier) && event.reply is Ok ==> all_succeeded(events)) by {
        assert forall|i: int|
            all_succeeded(earlier) && event.reply is Ok && 0 <= i < events.len() implies (
        #[trigger] events[i]).reply is Ok by {
            if i < earlier.len() {
                assert(earlier[i].reply is Ok);
            }
        }
    }
}

/// Whether all calls of a run but those that unmap a picture have succeeded.
pub open spec fn all_but_unmapping_succeeded(events: Seq<Event<DisplayPicture>>) -> bool {
    forall|i: int|
        0 <= i < events.len() && !((#[trigger] events[i]).call is UnmapVideoFrame)
            ==> events[i].reply is Ok
}

/// What comes of putting a picture out. It succeeds only if every call does, but for the one that
/// unmaps the picture, of which nothing depends. Its error is that of one of the other calls, and
/// that of the last one, if that has failed.
pub proof fn a_picture_says_why_it_failed(
    info: DisplayInfo,
    events: Seq<Event<DisplayPicture>>,
    outcome: Result<(), Error>,
)
    requires
        events.len() > 0,
        is_run(display_start(events[0].before@, info), events),
        events.last().turn.step == Step::<()>::Done(outcome),
    ensures
        outcome is Ok ==> all_but_unmapping_succeeded(events),
        outcome matches Err(error) ==> {
            &&& exists|i: int|
                #[trigger] failed_with(events, i, error) && !(events[i].call is UnmapVideoFrame)
            &&& events.last().reply is Err ==> failed_with(events, events.len() - 1, error)
        },
{
    a_picture_knows_what_failed(info, events);
}

/// Whether putting a picture out has failed on the way with `error`.
spec fn went_wrong(events: Seq<Event<DisplayPicture>>, error: Error) -> bool {
    exists|i: int| #[trigger]
        failed_with(events, i, error) && !(events[i].call is UnmapVideoFrame)
}

proof fn a_picture_knows_what_failed(info: DisplayInfo, events: Seq<Event<DisplayPicture>>)
    requires
        events.len() > 0,
        is_run(display_start(events[0].before@, info), events),
    ensures
        ({
            let turn = events.last().turn;
            let last = events.len() - 1;
            &&& turn.operation.releases.len() == 0
            &&& match turn.operation.phase {
                Phase::Forward { stage, call } => {
                    &&& turn.step == Step::<()>::Call(call)
                    &&& stage is UnmapPicture <==> call is UnmapVideoFrame
                    &&& match stage {
                        DisplayPicture::UnmapPicture { copied: Err(error) } => went_wrong(
                            events,
                            error,
                        ),
                        DisplayPicture::Leave { copied: Err(error) } => went_wrong(events, error),
                        _ => all_but_unmapping_succeeded(events),
                    }
                },
                Phase::Releasing { .. } => false,
                Phase::Finished => match turn.step {
                    Step::Done(Ok(_)) => all_but_unmapping_succeeded(events),
                    Step::Done(Err(error)) => went_wrong(events, error) && (
                    events.last().reply is Err ==> failed_with(events, last, error)),
                    _ => false,
                },
            }
        }),
    decreases events.len(),
{
    let start = display_start(events[0].before@, info);
    let earlier = events.drop_last();
    let event = events.last();
    let turn = last_turn(start, earlier);
    if earlier.len() > 0 {
        assert(earlier[0] == events[0]);
        a_picture_knows_what_failed(info, earlier);
    }
    let stage = turn.operation.phase->Forward_stage;
    let progress = choose|progress: Progress<DisplayPicture, ()>|
        #![trigger stage.moves(event.before, event.reply, event.after, progress)]
        stage.moves(event.before, event.reply, event.after, progress) && event.turn == proceeded(
            turn.operation.releases,
            progress,
        );
    assert(turn.operation.releases + progress.acquired@ =~= Seq::empty());
    if all_but_unmapping_succeeded(earlier) && (event.reply is Ok || event.call is UnmapVideoFrame) {
        assert forall|i: int|
            0 <= i < events.len() && !((#[trigger] events[i]).call is UnmapVideoFrame) implies
            events[i].reply is Ok by {
            if i < earlier.len() {
                assert(earlier[i] == events[i]);
            }
        }
    }
    if event.reply is Err && !(event.call is UnmapVideoFrame) {
        assert(failed_with(events, events.len() - 1, event.reply->Err_0));
    }
    assert forall|error: Error| #[trigger] went_wrong(earlier, error) implies went_wrong(
        events,
        error,
    ) by {
        let i = choose|i: int| #[trigger]
            failed_with(earlier, i, error) && !(earlier[i].call is UnmapVideoFrame);
        assert(earlier[i] == events[i]);
        assert(failed_with(events, i, error));
    }
}

/// A call that fails while an encoder is opened makes that fail. Where the context is current and
/// no session is there yet, it is left first, and then the error is that of the call.
pub proof fn an_encoder_that_fails_to_open_says_why(
    stage: OpenEncoder,
    error: Error,
    progress: Progress<OpenEncoder, Encoder>,
)
    requires
        stage.moves((), Err(error), (), progress),
    ensures
        progress.acquired@.len() == 0,
        match stage {
            OpenEncoder::CreateApiInstance { .. } | OpenEncoder::OpenSession { .. } => {
                &&& progress.next matches Next::Call { stage: leaving, call }
                &&& call == Call::CtxPopCurrent
                &&& leaving matches OpenEncoder::Leave { opened, .. }
                &&& opened == Err::<u64, Error>(error)
                &&& forall|
                    reply: crate::driver::Reply,
                    after: Progress<OpenEncoder, Encoder>,
                | #[trigger]
                    leaving.moves((), reply, (), after) ==> after.next == Next::<
                        OpenEncoder,
                        Encoder,
                    >::Fail(
                        match reply {
                            Ok(_) => error,
                            Err(last) => last,
                        },
                    )
            },
            _ => progress.next == Next::<OpenEncoder, Encoder>::Fail(error),
        },
{
}

/// The picture that is decoded is decoded by the hardware decoder of the decoder, in its context.
pub proof fn a_picture_is_decoded_by_its_decoder(
    state: DecoderStateView,
    events: Seq<Event<DecodePicture>>,
    outcome: Result<(), Error>,
)
    requires
        events.len() > 0,
        is_run(picture_start(state), events),
        events.last().turn.step == Step::<()>::Done(outcome),
    ensures
        events[0].call == (Call::CtxPushCurrent { ctx: state.ctx }),
        outcome is Ok ==> all_succeeded(events) && events.len() == 3 && events[1].call
            == (Call::DecodePicture { decoder: state.decoder }) && events[2].call
            == Call::CtxPopCurrent,
{
    a_picture_is_decoded_in_its_context(state.decoder, state.ctx, events, outcome);
    if outcome is Ok {
        assert forall|i: int| 0 <= i < events.len() implies (#[trigger] events[i]).reply is Ok by {
            assert(events[0].reply is Ok && events[1].reply is Ok && events[2].reply is Ok);
        }
    }
}

/// The end of a stream where parsing has not gone well: the failure of a callback, if there was
/// one, is what comes of it, and otherwise what the driver says. Nothing is waited for then.
pub proof fn a_stream_that_cannot_be_ended_says_why(events: Seq<Event<EndStream>>)
    requires
        events.len() > 0,
        is_run(end_start(events[0].before@), events),
        events[0].before@.callback_error is Some || events[0].reply is Err,
    ensures
        events.len() == 1,
        events[0].turn.step == Step::<()>::Done(
            Err(
                match events[0].before@.callback_error {
                    Some(failure) => failure,
                    None => events[0].reply->Err_0,
                },
            ),
        ),
        events[0].after@.callback_error is None,
{
    let start = end_start(events[0].before@);
    let none = Seq::<Release>::empty();
    assert(none + none =~= none);
    event_of_a_run(start, events, 0);
    assert(events[0].turn.step is Done);
    nothing_follows_the_end(start, events, 0);
}

/// The end of encoding a frame. Once what the bitstream holds was queued, the bitstream is unlocked
/// and destroyed, the frame is unmapped and unregistered, its memory is freed, and the context is
/// left. It comes to a success just where the context could be left; what comes of the other calls
/// does not matter.
pub proof fn encoding_ends_when_the_context_is_left<'a>(
    job: EncodeJob,
    frame: &'a [u8],
    events: Seq<Event<EncodeFrame<'a>>>,
)
    requires
        events.len() == 14,
        events[0].before@.frame_count < u64::MAX,
        is_run(encode_start(events[0].before@, job, frame), events),
        forall|i: int| 0 <= i < 8 ==> (#[trigger] events[i]).reply is Ok,
        events[7].reply->Ok_0.bitstream_spec() is Some,
    ensures
        ({
            let session = events[0].before@.session;
            let buffer = events[5].reply->Ok_0.handle_spec();
            &&& events[8].call == Call::UnlockBitstream { session, buffer }
            &&& events[9].call == Call::DestroyBitstreamBuffer { session, buffer }
            &&& events[10].call == Call::UnmapInputResource {
                session,
                mapped: events[4].reply->Ok_0.handle_spec(),
            }
            &&& events[11].call == Call::UnregisterResource {
                session,
                resource: events[3].reply->Ok_0.handle_spec(),
            }
            &&& events[12].call == Call::MemFree {
                device_ptr: events[1].reply->Ok_0.handle_spec(),
            }
            &&& events[13].call == Call::CtxPopCurrent
            &&& events[13].turn.step == Step::<()>::Done(result_of(events[13].reply))
        }),
{
    let start = encode_start(events[0].before@, job, frame);
    let first = events.take(8);
    a_run_begins_with_runs(start, events, 8);
    assert forall|i: int| 0 <= i < first.len() implies (#[trigger] first[i]).reply is Ok by {
        assert(events[i].reply is Ok);
    }
    assert(first[0] == events[0] && first[7] == events[7]);
    a_frame_is_encoded(job, frame, first);
    let releases = encode_releases(
        events[0].before@.session,
        events[1].reply->Ok_0.handle_spec(),
        events[3].reply->Ok_0.handle_spec(),
        events[4].reply->Ok_0.handle_spec(),
        events[5].reply->Ok_0.handle_spec(),
    );
    let rest = events.skip(8);
    a_run_goes_on_as_a_run(start, events, 7);
    assert(events[7].turn == unwound::<EncodeFrame>(Ok(()), releases));
    releases_come_in_reverse_order::<EncodeFrame>(Ok(()), releases, rest);
    assert(forall|i: int| 0 <= i < 6 ==> rest[i] == #[trigger] events[8 + i]);
    assert(rest[0] == events[8] && rest[1] == events[9] && rest[2] == events[10] && rest[3]
        == events[11] && rest[4] == events[12] && rest[5] == events[13]);
    let all = replies(rest);
    reveal_with_fuel(outcome_of, 7);
    assert(all.drop_last() =~= all.take(5));
    assert(all.take(5).drop_last() =~= all.take(4));
    assert(all.take(4).drop_last() =~= all.take(3));
    assert(all.take(3).drop_last() =~= all.take(2));
    assert(all.take(2).drop_last() =~= all.take(1));
    assert(all.take(1).drop_last() =~= all.take(0));
    assert(outcome_of(Ok::<(), Error>(()), releases, all.take(5)) == Ok::<(), Error>(()));
    assert(releases.take(0) =~= Seq::empty());
}

/// A reconfiguration that the driver has accepted comes to a success just where the context could
/// be left; and so does reading the sequence parameters.
pub proof fn leaving_the_context_decides(
    params: ReconfigureParams,
    reconfiguring: Seq<Event<Reconfigure>>,
    reading: Seq<Event<SequenceParams>>,
)
    requires
        reconfiguring.len() == 3,
        is_run(reconfigure_start(reconfiguring[0].before@, params), reconfiguring),
        reconfiguring[0].reply is Ok,
        reconfiguring[1].reply is Ok,
        reconfiguration(reconfiguring[0].before@, params) is Ok,
        reading.len() == 3,
        is_run(sequence_params_start(reading[0].before@), reading),
        reading[0].reply is Ok,
        reading[1].reply is Ok,
    ensures
        reconfiguring[2].call == Call::CtxPopCurrent,
        reconfiguring[2].turn.step == Step::<()>::Done(result_of(reconfiguring[2].reply)),
        reading[2].call == Call::CtxPopCurrent,
        reading[2].turn.step matches Step::Done(outcome) && match reading[2].reply {
            Ok(_) => outcome is Ok,
            Err(error) => outcome == Err::<Vec<u8>, Error>(error),
        },
{
    let leave = seq![Release::Checked(Call::CtxPopCurrent)];
    let none = Seq::<Release>::empty();
    assert(none + leave =~= leave);
    assert(leave + none =~= leave);
    assert(leave.drop_last() =~= none);
    let start = reconfigure_start(reconfiguring[0].before@, params);
    event_of_a_run(start, reconfiguring, 0);
    assert(reconfiguring[0].turn.operation.releases =~= leave);
    event_of_a_run(start, reconfiguring, 1);
    event_of_a_run(start, reconfiguring, 2);
    let start = sequence_params_start(reading[0].before@);
    event_of_a_run(start, reading, 0);
    assert(reading[0].turn.operation.releases =~= leave);
    event_of_a_run(start, reading, 1);
    let stage = reading[0].turn.operation.phase->Forward_stage;
    let progress = choose|progress: Progress<SequenceParams, Vec<u8>>|
        #![trigger stage.moves(reading[1].before, reading[1].reply, reading[1].after, progress)]
        stage.moves(reading[1].before, reading[1].reply, reading[1].after, progress)
            && reading[1].turn == proceeded(leave, progress);
    assert(leave + progress.acquired@ =~= leave);
    event_of_a_run(start, reading, 2);
}

/// Asking for the capabilities of an encoder comes to a success just where the context could be
/// left and destroyed. The first of these that fails is the error, once all answers are there.
pub proof fn a_query_ends_when_its_context_is_gone(
    codec: Guid,
    device_id: i32,
    events: Seq<Event<QueryEncoderCaps>>,
)
    requires
        events.len() == 8 + capabilities().len(),
        is_run(query_start(codec, device_id), events),
        forall|i: int| 0 <= i < 5 + capabilities().len() ==> (#[trigger] events[i]).reply is Ok,
    ensures
        ({
            let n = capabilities().len() as int;
            &&& events[6 + n].call == Call::CtxPopCurrent
            &&& events[7 + n].call is CtxDestroy
            &&& events[7 + n].turn.step matches Step::Done(outcome)
            &&& match (events[6 + n].reply, events[7 + n].reply) {
                (Err(leaving), _) => outcome == Err::<EncoderCaps, Error>(leaving),
                (Ok(_), Err(destroying)) => outcome == Err::<EncoderCaps, Error>(destroying),
                (Ok(_), Ok(_)) => outcome is Ok,
            }
        }),
{
    let start = query_start(codec, device_id);
    let n = capabilities().len() as int;
    let ctx = events[1].reply->Ok_0.handle_spec();
    let session = events[4].reply->Ok_0.handle_spec();
    let all = query_releases(ctx, session);
    asking_for_capabilities(codec, device_id, events, capabilities().len());
    event_of_a_run(start, events, 5 + n);
    assert(all.drop_last() =~= all.take(2));
    event_of_a_run(start, events, 6 + n);
    assert(all.take(2).drop_last() =~= all.take(1));
    event_of_a_run(start, events, 7 + n);
    assert(all.take(1).drop_last() =~= Seq::empty());
}

/// An encoder whose context could not be left after it was initialized is not there: opening it
/// fails, however what it has is given back.
pub proof fn an_encoder_is_open_when_its_context_was_left(
    config: EncoderConfig,
    events: Seq<Event<OpenEncoder>>,
    outcome: Result<Encoder, Error>,
)
    requires
        events.len() >= 10,
        is_run(
            forward(OpenEncoder::Load { config }, Call::LoadLibraries, Seq::empty()),
            events,
        ),
        forall|i: int| 0 <= i < 9 ==> (#[trigger] events[i]).reply is Ok,
        config.rate_control_mode is ConstQp || config.average_bitrate is Some,
        events.last().turn.step == Step::Done(outcome),
    ensures
        events[9].call == Call::CtxPopCurrent,
        events[9].reply is Err ==> outcome is Err,
        events[9].reply is Ok ==> outcome is Ok && events.len() == 10,
{
    let start = forward(OpenEncoder::Load { config }, Call::LoadLibraries, Seq::empty());
    let ctx = events[1].reply->Ok_0.handle_spec();
    let session = events[4].reply->Ok_0.handle_spec();
    let all = seq![
        Release::OnFailure(Call::CtxDestroy { ctx }),
        Release::InContextOnFailure { ctx, call: Call::DestroyEncoder { session } },
        Release::Checked(Call::CtxPopCurrent),
    ];
    encoders_are_initialized_as_configured(config, events[7].reply->Ok_0.preset_spec());
    event_of_a_run(start, events, 0);
    assert(events[0].reply is Ok);
    assert(events[0].turn.operation.releases =~= all.take(0));
    event_of_a_run(start, events, 1);
    assert(events[1].reply is Ok);
    assert(events[1].turn.operation.releases =~= all.take(1));
    event_of_a_run(start, events, 2);
    assert(events[2].reply is Ok);
    assert(events[2].turn.operation.releases =~= all.take(1));
    event_of_a_run(start, events, 3);
    assert(events[3].reply is Ok);
    assert(events[3].turn.operation.releases =~= all.take(1));
    event_of_a_run(start, events, 4);
    assert(events[4].reply is Ok);
    assert(events[4].turn.operation.releases =~= all.take(1));
    event_of_a_run(start, events, 5);
    assert(events[5].reply is Ok);
    assert(events[5].turn.operation.releases =~= all.take(2));
    event_of_a_run(start, events, 6);
    assert(events[6].reply is Ok);
    assert(events[6].turn.operation.releases =~= all);
    event_of_a_run(start, events, 7);
    assert(events[7].reply is Ok);
    assert(events[7].turn.operation.releases =~= all);
    event_of_a_run(start, events, 8);
    assert(events[8].reply is Ok);
    let stage = events[7].turn.operation.phase->Forward_stage;
    let progress = choose|progress: Progress<OpenEncoder, Encoder>|
        #![trigger stage.moves(events[8].before, events[8].reply, events[8].after, progress)]
        stage.moves(events[8].before, events[8].reply, events[8].after, progress)
            && events[8].turn == proceeded(all, progress);
    assert(all + progress.acquired@ =~= all);
    assert(all.drop_last() =~= all.take(2));
    let encoder = progress.next->Succeed_0;
    event_of_a_run(start, events, 9);
    match events[9].reply {
        Ok(_) => {
            assert forall|i: int| 0 <= i < all.take(2).len() implies (
            #[trigger] all.take(2)[i]).only_on_failure() by {}
            unwinding_drops_what_is_for_failures::<OpenEncoder>(encoder, all.take(2));
            nothing_follows_the_end(start, events, 9);
        },
        Err(error) => {
            a_run_goes_on_as_a_run(start, events, 9);
            let rest = events.skip(10);
            assert(events[9].turn == unwound::<OpenEncoder>(Err(error), all.take(2)));
            failures_stay_failures(error, all.take(2), rest);
            if rest.len() > 0 {
                assert(rest.last() == events.last());
            }
        },
    }
}

} // verus!
