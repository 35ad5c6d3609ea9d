//! What a whole survey of the codecs comes to.

use vstd::prelude::*;

use crate::codec_info::all_codecs;
use crate::codec_info::continues;
use crate::codec_info::decoder_query;
use crate::codec_info::decoding_info;
use crate::codec_info::decoding_moves;
use crate::codec_info::encoder_query;
use crate::codec_info::encoding_info;
use crate::codec_info::encoding_moves;
use crate::codec_info::infos;
use crate::codec_info::reports_on_decoding_show_the_capabilities;
use crate::codec_info::reports_on_encoding_show_the_capabilities;
use crate::codec_info::CodecInfo;
use crate::codec_info::CodecInfoView;
use crate::codec_info::SurveyCodecs;
use crate::codec_info::VideoCodecType;
use crate::codec_info::NUM_CODECS;
use crate::decode::QueryDecoderCaps;
use crate::driver::Call;
use crate::driver::EncoderCapability;
use crate::driver::Reply;
use crate::encoder::capabilities;
use crate::encoder::QueryEncoderCaps;
use crate::error::Error;
use crate::operation::forward;
use crate::operation::proceeded;
use crate::operation::resumes;
use crate::operation::Phase;
use crate::operation::Progress;
use crate::operation::Release;
use crate::operation::Stage;
use crate::operation::Step;
use crate::operation::TurnView;
use crate::runs::capabilities_say_what_the_driver_answers;
use crate::runs::decoder_capabilities_are_what_the_driver_answers;
use crate::trace::a_run_waits_or_ends;
use crate::trace::event_of_a_run;
use crate::trace::is_run;
use crate::trace::last_turn;
use crate::trace::nothing_follows_the_end;
use crate::trace::Event;

verus! {

/// The calls of a run, each with its reply.
pub open spec fn exchanges<S: Stage>(events: Seq<Event<S>>) -> Seq<(Call, Reply)> {
    events.map_values(|event: Event<S>| (event.call, event.reply))
}

/// The two queries of which a report on a codec is made.
pub struct CodecQueries {
    pub decoder: Seq<Event<QueryDecoderCaps>>,
    /// Empty for a codec that has no encoder.
    pub encoder: Seq<Event<QueryEncoderCaps>>,
}

impl CodecQueries {
    /// What was asked and answered: first about decoding, then about encoding.
    pub open spec fn exchanges(self) -> Seq<(Call, Reply)> {
        exchanges(self.decoder) + exchanges(self.encoder)
    }

    /// Whether these are the whole queries about a codec.
    pub open spec fn are_about(self, codec: VideoCodecType, device_id: i32) -> bool {
        &&& is_run(decoder_query(codec, device_id), self.decoder)
        &&& last_turn(decoder_query(codec, device_id), self.decoder).step is Done
        &&& match codec.encoder_codec() {
            Some(encoder_codec) => {
                let start = encoder_query(encoder_codec, device_id);
                &&& is_run(start, self.encoder)
                &&& last_turn(start, self.encoder).step is Done
            },
            None => self.encoder.len() == 0,
        }
    }

    /// The report on a codec that follows from how its queries have ended.
    pub open spec fn report(self, codec: VideoCodecType, device_id: i32) -> CodecInfoView {
        let decoder_caps = last_turn(decoder_query(codec, device_id), self.decoder).step->Done_0;
        CodecInfoView {
            codec,
            decoding: decoding_info(decoder_caps),
            encoding: encoding_info(
                codec,
                match codec.encoder_codec() {
                    Some(encoder_codec) => Some(
                        last_turn(
                            encoder_query(encoder_codec, device_id),
                            self.encoder,
                        ).step->Done_0,
                    ),
                    None => None,
                },
            ),
        }
    }
}

/// What was asked and answered in the queries about several codecs, in order.
pub open spec fn all_exchanges(queries: Seq<CodecQueries>) -> Seq<(Call, Reply)>
    decreases queries.len(),
{
    if queries.len() == 0 {
        Seq::empty()
    } else {
        all_exchanges(queries.drop_last()) + queries.last().exchanges()
    }
}

/// Whether there is one report on each of the first codecs, in order, and each follows from the
/// queries about its own codec.
pub open spec fn reported(
    queries: Seq<CodecQueries>,
    found: Seq<CodecInfoView>,
    device_id: i32,
) -> bool {
    &&& queries.len() == found.len() <= NUM_CODECS
    &&& forall|i: int|
        0 <= i < queries.len() ==> {
            &&& (#[trigger] queries[i]).are_about(all_codecs()[i], device_id)
            &&& found[i] == queries[i].report(all_codecs()[i], device_id)
        }
}

/// The turn in which a survey starts.
pub open spec fn survey_start(device_id: i32) -> TurnView<SurveyCodecs> {
    forward(SurveyCodecs::Load { device_id }, Call::LoadLibraries, Seq::empty())
}

/// How far a survey has come: the queries about the codecs that it is through with, and those
/// about the codec that it is at.
struct Log {
    through: Seq<CodecQueries>,
    at: CodecQueries,
}

spec fn no_queries() -> CodecQueries {
    CodecQueries { decoder: Seq::empty(), encoder: Seq::empty() }
}

/// Whether a survey stands where its log says.
spec fn stands(turn: TurnView<SurveyCodecs>, log: Log, device_id: i32) -> bool {
    let codec = all_codecs()[log.through.len() as int];
    let decoder_start = decoder_query(codec, device_id);
    &&& turn.operation.releases.len() == 0
    &&& match turn.operation.phase {
        Phase::Forward { stage: SurveyCodecs::Decoding { device_id: d, found, query }, call } => {
            &&& turn.step == Step::<Vec<CodecInfo>>::Call(call)
            &&& d == device_id
            &&& reported(log.through, infos(found@), device_id)
            &&& log.through.len() < NUM_CODECS
            &&& is_run(decoder_start, log.at.decoder)
            &&& last_turn(decoder_start, log.at.decoder) == TurnView {
                operation: query@,
                step: Step::Call(call),
            }
            &&& log.at.encoder.len() == 0
        },
        Phase::Forward {
            stage: SurveyCodecs::Encoding { device_id: d, found, decoding, codec: c, query },
            call,
        } => {
            &&& turn.step == Step::<Vec<CodecInfo>>::Call(call)
            &&& d == device_id
            &&& reported(log.through, infos(found@), device_id)
            &&& log.through.len() < NUM_CODECS
            &&& is_run(decoder_start, log.at.decoder)
            &&& last_turn(decoder_start, log.at.decoder).step is Done
            &&& decoding == decoding_info(last_turn(decoder_start, log.at.decoder).step->Done_0)
            &&& c == codec
            &&& codec.encoder_codec() matches Some(encoder_codec)
            &&& is_run(encoder_query(encoder_codec, device_id), log.at.encoder)
            &&& last_turn(encoder_query(encoder_codec, device_id), log.at.encoder) == TurnView {
                operation: query@,
                step: Step::Call(call),
            }
        },
        Phase::Finished => {
            &&& turn.step matches Step::Done(Ok(list))
            &&& reported(log.through, infos(list@), device_id)
            &&& log.through.len() == NUM_CODECS
            &&& log.at == no_queries()
        },
        _ => false,
    }
}

spec fn logged(log: Log) -> Seq<(Call, Reply)> {
    all_exchanges(log.through) + log.at.exchanges()
}

proof fn run_extended<S: Stage>(start: TurnView<S>, events: Seq<Event<S>>, event: Event<S>)
    requires
        is_run(start, events),
        events.len() > 0 ==> event.before == events.last().after,
        last_turn(start, events).step == Step::<S::Output>::Call(event.call),
        resumes(
            last_turn(start, events).operation,
            event.before,
            event.reply,
            event.after,
            event.turn,
        ),
    ensures
        is_run(start, events.push(event)),
        last_turn(start, events.push(event)) == event.turn,
        exchanges(events.push(event)) == exchanges(events).push((event.call, event.reply)),
{
    assert(events.push(event).drop_last() =~= events);
    assert(exchanges(events.push(event)) =~= exchanges(events).push((event.call, event.reply)));
}

proof fn next_codec(
    progress: Progress<SurveyCodecs, Vec<CodecInfo>>,
    turn: TurnView<SurveyCodecs>,
    through: Seq<CodecQueries>,
    found: Seq<CodecInfoView>,
    device_id: i32,
)
    requires
        continues(progress, device_id, found),
        reported(through, found, device_id),
        turn == proceeded(Seq::empty(), progress),
    ensures
        stands(turn, Log { through, at: no_queries() }, device_id),
{
    assert(Seq::<Release>::empty() + progress.acquired@ =~= Seq::empty());
}

proof fn through_with_a_codec(
    through: Seq<CodecQueries>,
    found: Seq<CodecInfoView>,
    queries: CodecQueries,
    device_id: i32,
)
    requires
        reported(through, found, device_id),
        through.len() < NUM_CODECS,
        queries.are_about(all_codecs()[through.len() as int], device_id),
    ensures
        reported(
            through.push(queries),
            found.push(queries.report(all_codecs()[through.len() as int], device_id)),
            device_id,
        ),
        all_exchanges(through.push(queries)) == all_exchanges(through) + queries.exchanges(),
{
    assert(through.push(queries).drop_last() =~= through);
    let more = through.push(queries);
    let all = found.push(queries.report(all_codecs()[through.len() as int], device_id));
    assert forall|i: int| 0 <= i < more.len() implies {
        &&& (#[trigger] more[i]).are_about(all_codecs()[i], device_id)
        &&& all[i] == more[i].report(all_codecs()[i], device_id)
    } by {
        if i < through.len() {
            assert(through[i].are_about(all_codecs()[i], device_id));
        }
    }
}

proof fn step_of_decoding(
    turn: TurnView<SurveyCodecs>,
    event: Event<SurveyCodecs>,
    log: Log,
    device_id: i32,
) -> (after: Log)
    requires
        stands(turn, log, device_id),
        turn.operation.phase is Forward,
        turn.operation.phase->Forward_stage is Decoding,
        turn.step == Step::<Vec<CodecInfo>>::Call(event.call),
        resumes(turn.operation, event.before, event.reply, event.after, event.turn),
    ensures
        stands(event.turn, after, device_id),
        logged(after) == logged(log).push((event.call, event.reply)),
{
    let stage = turn.operation.phase->Forward_stage;
    let progress = choose|progress: Progress<SurveyCodecs, Vec<CodecInfo>>|
        #![trigger stage.moves(event.before, event.reply, event.after, progress)]
        stage.moves(event.before, event.reply, event.after, progress) && event.turn == proceeded(
            turn.operation.releases,
            progress,
        );
    assert(turn.operation.releases =~= Seq::empty());
    assert(turn.operation.releases + progress.acquired@ =~= progress.acquired@);
    let found = infos(stage->Decoding_found@);
    let query = stage->Decoding_query@;
    let codec = all_codecs()[log.through.len() as int];
    let start = decoder_query(codec, device_id);
    let inner = choose|inner: TurnView<QueryDecoderCaps>| #[trigger]
        resumes(query, (), event.reply, (), inner) && decoding_moves(
            progress,
            device_id,
            found,
            inner,
        );
    let inner_event = Event {
        call: event.call,
        before: (),
        reply: event.reply,
        after: (),
        turn: inner,
    };
    run_extended(start, log.at.decoder, inner_event);
    let decoder = log.at.decoder.push(inner_event);
    let at = CodecQueries { decoder, encoder: log.at.encoder };
    assert(log.at.encoder =~= Seq::empty());
    assert(exchanges(log.at.encoder) =~= Seq::empty());
    assert(at.exchanges() =~= log.at.exchanges().push((event.call, event.reply)));
    let exchanged = all_exchanges(log.through) + at.exchanges();
    assert(exchanged =~= logged(log).push((event.call, event.reply)));
    if inner.step is Done && codec.encoder_codec() is None {
        through_with_a_codec(log.through, found, at, device_id);
        let through = log.through.push(at);
        next_codec(
            progress,
            event.turn,
            through,
            found.push(at.report(codec, device_id)),
            device_id,
        );
        assert(no_queries().exchanges() =~= Seq::empty());
        assert(all_exchanges(through) + no_queries().exchanges() =~= exchanged);
        Log { through, at: no_queries() }
    } else {
        Log { through: log.through, at }
    }
}

proof fn step_of_encoding(
    turn: TurnView<SurveyCodecs>,
    event: Event<SurveyCodecs>,
    log: Log,
    device_id: i32,
) -> (after: Log)
    requires
        stands(turn, log, device_id),
        turn.operation.phase is Forward,
        turn.operation.phase->Forward_stage is Encoding,
        turn.step == Step::<Vec<CodecInfo>>::Call(event.call),
        resumes(turn.operation, event.before, event.reply, event.after, event.turn),
    ensures
        stands(event.turn, after, device_id),
        logged(after) == logged(log).push((event.call, event.reply)),
{
    let stage = turn.operation.phase->Forward_stage;
    let progress = choose|progress: Progress<SurveyCodecs, Vec<CodecInfo>>|
        #![trigger stage.moves(event.before, event.reply, event.after, progress)]
        stage.moves(event.before, event.reply, event.after, progress) && event.turn == proceeded(
            turn.operation.releases,
            progress,
        );
    assert(turn.operation.releases =~= Seq::empty());
    assert(turn.operation.releases + progress.acquired@ =~= progress.acquired@);
    let found = infos(stage->Encoding_found@);
    let query = stage->Encoding_query@;
    let codec = all_codecs()[log.through.len() as int];
    let start = encoder_query(codec.encoder_codec()->0, device_id);
    let inner = choose|inner: TurnView<QueryEncoderCaps>| #[trigger]
        resumes(query, (), event.reply, (), inner) && encoding_moves(
            progress,
            device_id,
            found,
            stage->Encoding_decoding,
            codec,
            inner,
        );
    let inner_event = Event {
        call: event.call,
        before: (),
        reply: event.reply,
        after: (),
        turn: inner,
    };
    run_extended(start, log.at.encoder, inner_event);
    let encoder = log.at.encoder.push(inner_event);
    let at = CodecQueries { decoder: log.at.decoder, encoder };
    assert(at.exchanges() =~= log.at.exchanges().push((event.call, event.reply)));
    let exchanged = all_exchanges(log.through) + at.exchanges();
    assert(exchanged =~= logged(log).push((event.call, event.reply)));
    if inner.step is Done {
        through_with_a_codec(log.through, found, at, device_id);
        let through = log.through.push(at);
        next_codec(
            progress,
            event.turn,
            through,
            found.push(at.report(codec, device_id)),
            device_id,
        );
        assert(no_queries().exchanges() =~= Seq::empty());
        assert(all_exchanges(through) + no_queries().exchanges() =~= exchanged);
        Log { through, at: no_queries() }
    } else {
        Log { through: log.through, at }
    }
}

proof fn survey_progress(device_id: i32, events: Seq<Event<SurveyCodecs>>) -> (log: Log)
    requires
        events.len() > 0,
        is_run(survey_start(device_id), events),
        events[0].reply is Ok,
    ensures
        stands(events.last().turn, log, device_id),
        exchanges(events) == seq![(Call::LoadLibraries, events[0].reply)] + logged(log),
    decreases events.len(),
{
    let start = survey_start(device_id);
    let earlier = events.drop_last();
    let event = events.last();
    let first = (Call::LoadLibraries, events[0].reply);
    if earlier.len() == 0 {
        let stage = SurveyCodecs::Load { device_id };
        let progress = choose|progress: Progress<SurveyCodecs, Vec<CodecInfo>>|
            #![trigger stage.moves(event.before, event.reply, event.after, progress)]
            stage.moves(event.before, event.reply, event.after, progress) && event.turn
                == proceeded(start.operation.releases, progress);
        let log = Log { through: Seq::empty(), at: no_queries() };
        next_codec(progress, event.turn, log.through, Seq::empty(), device_id);
        assert(no_queries().exchanges() =~= Seq::empty());
        assert(logged(log) =~= Seq::empty());
        assert(exchanges(events) =~= seq![first] + logged(log));
        log
    } else {
        assert(earlier[0] == events[0]);
        let log = survey_progress(device_id, earlier);
        let turn = last_turn(start, earlier);
        let after = if turn.operation.phase->Forward_stage is Decoding {
            step_of_decoding(turn, event, log, device_id)
        } else {
            step_of_encoding(turn, event, log, device_id)
        };
        assert(exchanges(events) =~= exchanges(earlier).push((event.call, event.reply)));
        assert(exchanges(events) =~= seq![first] + logged(after));
        after
    }
}

/// A whole survey. If the driver libraries cannot be loaded, that is the error, and nothing is
/// asked. In every other case the survey succeeds, and there is one report on each codec, in the
/// order of [`VideoCodecType::all`]. The calls of the survey are those of the queries about each
/// codec in turn, first whether it can be decoded, then whether it can be encoded; and each report
/// follows from the queries about its own codec.
pub proof fn a_survey_is_made_of_queries(
    device_id: i32,
    events: Seq<Event<SurveyCodecs>>,
    outcome: Result<Vec<CodecInfo>, Error>,
) -> (queries: Seq<CodecQueries>)
    requires
        events.len() > 0,
        is_run(survey_start(device_id), events),
        events.last().turn.step == Step::Done(outcome),
    ensures
        events[0].call == Call::LoadLibraries,
        match outcome {
            Ok(list) => {
                &&& events[0].reply is Ok
                &&& list@.len() == queries.len() == NUM_CODECS
                &&& forall|i: int|
                    0 <= i < NUM_CODECS ==> (#[trigger] infos(list@)[i]).codec == all_codecs()[i]
                &&& reported(queries, infos(list@), device_id)
                &&& exchanges(events) == seq![(Call::LoadLibraries, events[0].reply)]
                    + all_exchanges(queries)
            },
            Err(error) => events.len() == 1 && events[0].reply == Err::<
                crate::driver::Output,
                Error,
            >(error),
        },
{
    event_of_a_run(survey_start(device_id), events, 0);
    if events[0].reply is Ok {
        let log = survey_progress(device_id, events);
        assert(no_queries().exchanges() =~= Seq::empty());
        assert(logged(log) =~= all_exchanges(log.through));
        let found = infos(outcome->Ok_0@);
        assert(found.len() == outcome->Ok_0@.len());
        assert forall|i: int| 0 <= i < NUM_CODECS implies (#[trigger] found[i]).codec
            == all_codecs()[i] by {
            assert(found[i] == log.through[i].report(all_codecs()[i], device_id));
        }
        log.through
    } else {
        nothing_follows_the_end(survey_start(device_id), events, 0);
        Seq::empty()
    }
}

/// A survey can take any reply to any call that it asks for.
pub proof fn a_survey_takes_every_reply(
    device_id: i32,
    events: Seq<Event<SurveyCodecs>>,
    reply: Reply,
)
    requires
        is_run(survey_start(device_id), events),
        last_turn(survey_start(device_id), events).step is Call,
    ensures
        ({
            let turn = last_turn(survey_start(device_id), events);
            turn.operation.phase matches Phase::Forward { stage, .. } && stage.admits((), reply)
        }),
{
    if events.len() > 0 {
        event_of_a_run(survey_start(device_id), events, 0);
        if events[0].reply is Err {
            nothing_follows_the_end(survey_start(device_id), events, 0);
        }
        let log = survey_progress(device_id, events);
        let codec = all_codecs()[log.through.len() as int];
        let turn = events.last().turn;
        if turn.operation.phase->Forward_stage is Decoding {
            a_run_waits_or_ends(
                QueryDecoderCaps::Load { codec_type: codec.decoder_codec().code(), device_id },
                Call::LoadLibraries,
                Seq::empty(),
                log.at.decoder,
            );
        } else {
            a_run_waits_or_ends(
                QueryEncoderCaps::Load { codec: codec.encoder_codec()->0.guid(), device_id },
                Call::LoadLibraries,
                Seq::empty(),
                log.at.encoder,
            );
        }
    }
}

/// The report on encoding a codec is what the driver has answered about it. Where all calls of the
/// query succeed, each entry is the answer to the question about that very capability: what is
/// supported is what was not answered with 0, and sizes, B frames and rate control modes are the
/// answers themselves. The codec is supported where the answer for the largest width is positive.
pub proof fn a_report_on_encoding_is_what_the_driver_answers(
    codec: VideoCodecType,
    device_id: i32,
    events: Seq<Event<QueryEncoderCaps>>,
    capability: EncoderCapability,
) -> (i: int)
    requires
        codec.encoder_codec() is Some,
        events.len() == 8 + capabilities().len(),
        is_run(encoder_query(codec.encoder_codec()->0, device_id), events),
        forall|i: int|
            0 <= i < events.len() && i != 5 + capabilities().len() ==> (
            #[trigger] events[i]).reply is Ok,
    ensures
        0 <= i < events.len(),
        events[i].call matches Call::GetEncodeCaps { codec: asked, capability: about, .. }
            && asked == codec.encoder_codec()->0.guid() && about == capability,
        ({
            let answer = events[i].reply->Ok_0.integer_spec();
            let info = encoding_info(codec, Some(events.last().turn.step->Done_0));
            &&& events.last().turn.step is Done
            &&& match capability {
                EncoderCapability::SupportedRateControlModes => info.supported_ratecontrol_modes
                    == answer,
                EncoderCapability::SupportYuv444Encode => info.supports_yuv444 <==> answer != 0,
                EncoderCapability::SupportYuv422Encode => info.supports_yuv422 <==> answer != 0,
                EncoderCapability::SupportMeOnlyMode => true,
                EncoderCapability::WidthMax => {
                    &&& info.max_width == answer
                    &&& info.supported <==> answer > 0
                    &&& info.hardware_accelerated <==> answer > 0
                },
                EncoderCapability::HeightMax => info.max_height == answer,
                EncoderCapability::WidthMin => info.min_width == answer,
                EncoderCapability::HeightMin => info.min_height == answer,
                EncoderCapability::NumMaxBFrames => info.num_max_bframes == answer,
                EncoderCapability::Support10BitEncode => info.supports_10bit <==> answer != 0,
                EncoderCapability::SupportLosslessEncode => info.supports_lossless <==> answer
                    != 0,
                EncoderCapability::SupportLookahead => info.supports_lookahead <==> answer != 0,
                EncoderCapability::SupportTemporalAq => info.supports_temporal_aq <==> answer
                    != 0,
            }
        }),
{
    let i = capabilities_say_what_the_driver_answers(
        codec.encoder_codec()->0.guid(),
        device_id,
        events,
        capability,
    );
    crate::codec_info::codecs_keep_their_identity(codec);
    reports_on_encoding_show_the_capabilities(codec, events.last().turn.step->Done_0->Ok_0);
    i
}

/// The report on decoding a codec is what the driver has answered about it: where all calls of the
/// query succeed, each entry is what the driver says of that very thing.
pub proof fn a_report_on_decoding_is_what_the_driver_answers(
    codec: VideoCodecType,
    device_id: i32,
    events: Seq<Event<QueryDecoderCaps>>,
)
    requires
        events.len() == 6,
        is_run(decoder_query(codec, device_id), events),
        forall|i: int| 0 <= i < events.len() ==> (#[trigger] events[i]).reply is Ok,
        events.last().turn.step is Done,
    ensures
        events[3].call matches Call::GetDecoderCaps { codec_type, .. } && codec_type
            == codec.decoder_codec().code(),
        ({
            let raw = events[3].reply->Ok_0.decoder_caps_spec();
            let info = decoding_info(events.last().turn.step->Done_0);
            &&& info.supported <==> raw.is_supported > 0
            &&& info.hardware_accelerated <==> raw.is_supported > 0
            &&& info.max_width == raw.max_width
            &&& info.max_height == raw.max_height
            &&& info.min_width == raw.min_width
            &&& info.min_height == raw.min_height
            &&& info.max_mb_count == raw.max_mb_count
        }),
{
    let outcome = events.last().turn.step->Done_0;
    assert(events[3].reply is Ok && events[4].reply is Ok && events[5].reply is Ok);
    decoder_capabilities_are_what_the_driver_answers(
        codec.decoder_codec().code(),
        device_id,
        events,
        outcome,
    );
    reports_on_decoding_show_the_capabilities(outcome->Ok_0);
}

} // verus!
