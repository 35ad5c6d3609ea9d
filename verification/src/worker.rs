//! The worker that feeds a decoder, and the side that submits work to it.

use std::collections::VecDeque;
use vstd::prelude::*;

use crate::decode::DecoderConfig;
use crate::decode::DecoderStats;
use crate::decode::StatsView;
use crate::decoder::DecoderState;
use crate::decoder::DecoderStateView;
use crate::decoder::OpenDecoder;
use crate::error::Error;
use crate::frame::DecodedFrame;
use crate::frame::DecodedFrameView;
use crate::frame::FrameView;
use crate::operation::Turn;
use crate::stats::counted;

verus! {

/// What the handler of a decoder is told: a frame, or why decoding has come to its end.
pub type Notice<T> = Result<DecodedFrame<T>, Error>;

/// What a [`Notice`] says.
pub type NoticeView<T> = Result<DecodedFrameView<T>, Error>;

pub open spec fn notice_view<T>(notice: Notice<T>) -> NoticeView<T> {
    match notice {
        Ok(frame) => Ok(frame@),
        Err(error) => Err(error),
    }
}

/// What a list of notices says.
pub open spec fn told<T>(notices: Seq<Notice<T>>) -> Seq<NoticeView<T>> {
    notices.map_values(|notice: Notice<T>| notice_view(notice))
}

/// Work for the worker.
#[derive(Debug)]
pub enum Job<T> {
    /// Decode a packet.
    Decode { data: Vec<u8>, user_data: T },
    /// Put out all frames that are under way.
    Flush,
    /// Stop.
    Terminate,
}

/// What has to be done with the decoder for a job.
#[derive(Debug, Clone, Copy, PartialEq, Eq, Structural)]
pub enum Work {
    /// Nothing.
    Nothing,
    /// Decode the packet.
    Decode,
    /// End the stream.
    EndStream,
}

/// What follows after a job.
#[derive(Debug, Clone, Copy, PartialEq, Eq, Structural)]
pub enum Sequel {
    /// Go on with the next job.
    Continue,
    /// Tell the submitter that the flush is done, and go on.
    Flushed,
    /// Stop.
    Stop,
}

/// The worker that feeds a decoder.
///
/// The first failure is final: from then on nothing is decoded, and each packet that still comes
/// is answered with an error.
#[derive(Debug)]
pub struct DecodeWorker<T> {
    state: DecoderState,
    pending_user_data: VecDeque<T>,
    terminated: bool,
}

/// The state of a [`DecodeWorker`].
#[verifier::ext_equal]
pub struct WorkerView<T> {
    pub state: DecoderStateView,
    /// User data of packets whose frames have not come out, the oldest first.
    pub pending: Seq<T>,
    /// Whether the decoder has failed.
    pub terminated: bool,
}

impl<T> View for DecodeWorker<T> {
    type V = WorkerView<T>;

    closed spec fn view(&self) -> WorkerView<T> {
        WorkerView {
            state: self.state@,
            pending: self.pending_user_data@,
            terminated: self.terminated,
        }
    }
}

/// The error that answers a packet for a decoder that has failed.
pub open spec fn terminal_error() -> Error {
    crate::error::custom("decode", "decoder has already failed")
}

/// The error if a frame comes out to which there is no packet.
pub open spec fn missing_user_data() -> Error {
    crate::error::custom("drain_frames", "missing user data")
}

/// Whether there is user data for every frame that is ready.
pub open spec fn matched<T>(worker: WorkerView<T>) -> bool {
    worker.state.frames.len() <= worker.pending.len()
}

/// `state`, with `frames` as the frames that are ready.
pub open spec fn with_frames(state: DecoderStateView, frames: Seq<FrameView>) -> DecoderStateView {
    DecoderStateView { frames, ..state }
}

/// What is told of the first `n` frames that are ready: each is put out with the user data that
/// is due.
pub open spec fn paired<T>(frames: Seq<FrameView>, pending: Seq<T>, n: nat) -> Seq<NoticeView<T>> {
    Seq::new(
        n,
        |i: int|
            Ok::<DecodedFrameView<T>, Error>(
                DecodedFrameView { frame: frames[i], user_data: pending[i] },
            ),
    )
}

/// What is told when the frames that are ready are put out: each with the user data that is due,
/// in order; and an error if user data runs out.
pub open spec fn drained_notices<T>(worker: WorkerView<T>) -> Seq<NoticeView<T>> {
    let frames = worker.state.frames;
    if matched(worker) {
        paired(frames, worker.pending, frames.len())
    } else {
        paired(frames, worker.pending, worker.pending.len()).push(Err(missing_user_data()))
    }
}

/// A worker after the frames that are ready were put out.
pub open spec fn drained<T>(worker: WorkerView<T>) -> WorkerView<T> {
    if matched(worker) {
        WorkerView {
            state: with_frames(worker.state, Seq::empty()),
            pending: worker.pending.skip(worker.state.frames.len() as int),
            ..worker
        }
    } else {
        WorkerView {
            state: with_frames(
                worker.state,
                worker.state.frames.skip(worker.pending.len() as int + 1),
            ),
            pending: Seq::empty(),
            ..worker
        }
    }
}

/// A worker whose decoder has failed: nothing that was under way is left.
pub open spec fn terminated<T>(worker: WorkerView<T>) -> WorkerView<T> {
    WorkerView {
        state: with_frames(worker.state, Seq::empty()),
        pending: Seq::empty(),
        terminated: true,
    }
}

/// A worker after it has put out what is ready, and has given up if user data ran out.
pub open spec fn drained_or_terminated<T>(worker: WorkerView<T>) -> WorkerView<T> {
    if matched(worker) {
        drained(worker)
    } else {
        terminated(worker)
    }
}

/// `worker`, with the user data of one more packet.
pub open spec fn with_packet<T>(worker: WorkerView<T>, user_data: T) -> WorkerView<T> {
    WorkerView { pending: worker.pending.push(user_data), ..worker }
}

/// A worker after a packet. `outcome` is how decoding it went, if it was decoded at all.
pub open spec fn after_decode<T>(
    worker: WorkerView<T>,
    outcome: Option<Result<(), Error>>,
    user_data: T,
) -> WorkerView<T> {
    match outcome {
        None => worker,
        Some(Ok(())) => drained_or_terminated(with_packet(worker, user_data)),
        Some(Err(_)) => terminated(worker),
    }
}

/// What is told after a packet.
pub open spec fn decode_notices<T>(
    worker: WorkerView<T>,
    outcome: Option<Result<(), Error>>,
    user_data: T,
) -> Seq<NoticeView<T>> {
    match outcome {
        None => seq![Err(terminal_error())],
        Some(Ok(())) => drained_notices(with_packet(worker, user_data)),
        Some(Err(error)) => seq![Err(error)],
    }
}

/// A worker after a flush. `outcome` is how ending the stream went, if it was ended at all.
pub open spec fn after_flush<T>(
    worker: WorkerView<T>,
    outcome: Option<Result<(), Error>>,
) -> WorkerView<T> {
    match outcome {
        None => worker,
        Some(Ok(())) => drained_or_terminated(worker),
        Some(Err(_)) => terminated(worker),
    }
}

/// What is told at a flush.
pub open spec fn flush_notices<T>(
    worker: WorkerView<T>,
    outcome: Option<Result<(), Error>>,
) -> Seq<NoticeView<T>> {
    match outcome {
        None => Seq::empty(),
        Some(Ok(())) => drained_notices(worker),
        Some(Err(error)) => seq![Err(error)],
    }
}

/// A worker after its last job.
pub open spec fn after_finish<T>(
    worker: WorkerView<T>,
    outcome: Option<Result<(), Error>>,
) -> WorkerView<T> {
    if outcome is None {
        worker
    } else {
        drained(worker)
    }
}

/// What is told at the end.
pub open spec fn finish_notices<T>(
    worker: WorkerView<T>,
    outcome: Option<Result<(), Error>>,
) -> Seq<NoticeView<T>> {
    if outcome is None {
        Seq::empty()
    } else {
        drained_notices(worker)
    }
}

/// Whether a job is a packet.
pub open spec fn is_packet<T>(job: Option<Job<T>>) -> bool {
    job matches Some(Job::Decode { .. })
}

/// Whether a job is a flush.
pub open spec fn is_flush<T>(job: Option<Job<T>>) -> bool {
    job matches Some(Job::Flush)
}

/// What has to be done with the decoder for a job. `None` stands for the end of all jobs.
pub open spec fn work_for<T>(terminated: bool, job: Option<Job<T>>) -> Work {
    if terminated {
        Work::Nothing
    } else if is_packet(job) {
        Work::Decode
    } else {
        Work::EndStream
    }
}

/// A worker after a job.
pub open spec fn after_job<T>(
    worker: WorkerView<T>,
    job: Option<Job<T>>,
    outcome: Option<Result<(), Error>>,
) -> WorkerView<T> {
    match job {
        Some(Job::Decode { user_data, .. }) => after_decode(worker, outcome, user_data),
        Some(Job::Flush) => after_flush(worker, outcome),
        _ => after_finish(worker, outcome),
    }
}

/// What is told after a job.
pub open spec fn job_notices<T>(
    worker: WorkerView<T>,
    job: Option<Job<T>>,
    outcome: Option<Result<(), Error>>,
) -> Seq<NoticeView<T>> {
    match job {
        Some(Job::Decode { user_data, .. }) => decode_notices(worker, outcome, user_data),
        Some(Job::Flush) => flush_notices(worker, outcome),
        _ => finish_notices(worker, outcome),
    }
}

/// What follows after a job.
pub open spec fn sequel_of<T>(job: Option<Job<T>>) -> Sequel {
    match job {
        Some(Job::Decode { .. }) => Sequel::Continue,
        Some(Job::Flush) => Sequel::Flushed,
        _ => Sequel::Stop,
    }
}

/// The error that answers a packet for a decoder that has failed.
pub fn terminal_decode_error() -> (error: Error)
    ensures
        error == terminal_error(),
{
    Error::new_custom("decode", "decoder has already failed")
}

impl<T> DecodeWorker<T> {
    /// A worker for a decoder that was just created.
    pub fn new(state: DecoderState) -> (worker: Self)
        ensures
            worker@ == (WorkerView {
                state: state@,
                pending: Seq::<T>::empty(),
                terminated: false,
            }),
    {
        DecodeWorker { state, pending_user_data: VecDeque::new(), terminated: false }
    }

    /// The decoder.
    pub fn state(&self) -> (state: &DecoderState)
        ensures
            state@ == self@.state,
    {
        &self.state
    }

    /// The decoder, for the operations on it.
    pub fn state_mut(&mut self) -> (state: &mut DecoderState)
        ensures
            state@ == old(self)@.state,
            final(self)@ == (WorkerView { state: final(state)@, ..old(self)@ }),
    {
        &mut self.state
    }

    /// The decoder, once the worker has stopped.
    pub fn into_state(self) -> (state: DecoderState)
        ensures
            state@ == self@.state,
    {
        self.state
    }

    /// Gives up: frames that are ready and user data that is due are dropped without a notice.
    pub fn enter_terminated(&mut self)
        ensures
            final(self)@ == terminated(old(self)@),
    {
        self.terminated = true;
        self.discard_queued_frames();
        self.pending_user_data.clear();
        assert(self@ =~= terminated(old(self)@));
    }

    /// Drops the frames that are ready.
    pub fn discard_queued_frames(&mut self)
        ensures
            final(self)@ == (WorkerView {
                state: with_frames(old(self)@.state, Seq::empty()),
                ..old(self)@
            }),
    {
        loop
            invariant_except_break
                self@ == (WorkerView {
                    state: with_frames(old(self)@.state, self@.state.frames),
                    ..old(self)@
                }),
            ensures
                self@ == (WorkerView {
                    state: with_frames(old(self)@.state, Seq::empty()),
                    ..old(self)@
                }),
            decreases self@.state.frames.len(),
        {
            let frame = self.state.next_frame();
            if frame.is_none() {
                assert(self@.state.frames =~= Seq::empty());
                break;
            }
        }
    }

    /// Puts out the frames that are ready. Returns whether there was user data for each.
    pub fn drain_frames(&mut self, notices: &mut Vec<Notice<T>>) -> (complete: bool)
        ensures
            complete == matched(old(self)@),
            told(final(notices)@) == told(old(notices)@) + drained_notices(old(self)@),
            final(self)@ == drained(old(self)@),
    {
        let ghost frames = self@.state.frames;
        let ghost pending = self@.pending;
        let ghost before = told(notices@);
        let ghost mut n: nat = 0;
        assert(frames.skip(0) =~= frames);
        assert(pending.skip(0) =~= pending);
        assert(told(notices@) =~= before + paired(frames, pending, 0));
        loop
            invariant
                n <= frames.len(),
                n <= pending.len(),
                frames == old(self)@.state.frames,
                pending == old(self)@.pending,
                before == told(old(notices)@),
                self@ == (WorkerView {
                    state: with_frames(old(self)@.state, frames.skip(n as int)),
                    pending: pending.skip(n as int),
                    ..old(self)@
                }),
                told(notices@) == before + paired(frames, pending, n),
            decreases frames.len() - n,
        {
            match self.state.next_frame() {
                None => {
                    assert(n == frames.len());
                    assert(self@ =~= drained(old(self)@));
                    return true;
                },
                Some(raw) => {
                    assert(frames.skip(n as int).drop_first() =~= frames.skip(n as int + 1));
                    let ghost earlier = notices@;
                    match self.pending_user_data.pop_front() {
                        Some(user_data) => {
                            let notice = Ok(raw.with_user_data(user_data));
                            notices.push(notice);
                            assert(told(notices@) =~= told(earlier).push(notice_view(notice)));
                            assert(paired(frames, pending, n + 1) =~= paired(
                                frames,
                                pending,
                                n,
                            ).push(notice_view(notice)));
                            assert(self@.pending =~= pending.skip(n as int + 1));
                            assert(told(notices@) =~= before + paired(frames, pending, n + 1));
                            proof {
                                n = n + 1;
                            }
                        },
                        None => {
                            assert(n == pending.len());
                            let notice = Err(Error::new_custom("drain_frames", "missing user data"));
                            notices.push(notice);
                            assert(told(notices@) =~= told(earlier).push(notice_view(notice)));
                            assert(told(notices@) =~= before + drained_notices(old(self)@));
                            assert(self@ =~= drained(old(self)@));
                            return false;
                        },
                    }
                },
            }
        }
    }

    /// Goes on after a packet, given how decoding it went; `None` if it was not decoded, since
    /// the decoder has failed before. Returns what the handler is told.
    pub fn handle_decode(
        &mut self,
        outcome: Option<Result<(), Error>>,
        user_data: T,
    ) -> (notices: Vec<Notice<T>>)
        requires
            outcome is None <==> old(self)@.terminated,
        ensures
            told(notices@) == decode_notices(old(self)@, outcome, user_data),
            final(self)@ == after_decode(old(self)@, outcome, user_data),
    {
        let mut notices: Vec<Notice<T>> = Vec::new();
        match outcome {
            None => {
                notices.push(Err(terminal_decode_error()));
                assert(told(notices@) =~= decode_notices(old(self)@, outcome, user_data));
            },
            Some(Err(error)) => {
                self.enter_terminated();
                notices.push(Err(error));
                assert(told(notices@) =~= decode_notices(old(self)@, outcome, user_data));
            },
            Some(Ok(())) => {
                self.pending_user_data.push_back(user_data);
                assert(self@ =~= with_packet(old(self)@, user_data));
                if !self.drain_frames(&mut notices) {
                    self.enter_terminated();
                    assert(self@ =~= terminated(with_packet(old(self)@, user_data)));
                }
                assert(told(notices@) =~= decode_notices(old(self)@, outcome, user_data));
            },
        }
        notices
    }

    /// Goes on at a flush, given how ending the stream went; `None` if it was not ended, since
    /// the decoder has failed before. Returns what the handler is told.
    pub fn handle_flush(&mut self, outcome: Option<Result<(), Error>>) -> (notices: Vec<Notice<T>>)
        requires
            outcome is None <==> old(self)@.terminated,
        ensures
            told(notices@) == flush_notices(old(self)@, outcome),
            final(self)@ == after_flush(old(self)@, outcome),
    {
        let mut notices: Vec<Notice<T>> = Vec::new();
        match outcome {
            None => {
                assert(told(notices@) =~= flush_notices(old(self)@, outcome));
            },
            Some(Err(error)) => {
                self.enter_terminated();
                notices.push(Err(error));
                assert(told(notices@) =~= flush_notices(old(self)@, outcome));
            },
            Some(Ok(())) => {
                if !self.drain_frames(&mut notices) {
                    self.enter_terminated();
                    assert(self@ =~= terminated(old(self)@));
                }
                assert(told(notices@) =~= flush_notices(old(self)@, outcome));
            },
        }
        notices
    }

    /// Comes to the end, given how ending the stream went; `None` if it was not ended, since the
    /// decoder has failed before. Returns what the handler is told.
    pub fn finish(&mut self, outcome: Option<Result<(), Error>>) -> (notices: Vec<Notice<T>>)
        requires
            outcome is None <==> old(self)@.terminated,
        ensures
            told(notices@) == finish_notices(old(self)@, outcome),
            final(self)@ == after_finish(old(self)@, outcome),
    {
        let mut notices: Vec<Notice<T>> = Vec::new();
        if outcome.is_some() {
            let _ = self.drain_frames(&mut notices);
        }
        assert(told(notices@) =~= finish_notices(old(self)@, outcome));
        notices
    }

    /// What has to be done with the decoder for a job. `None` stands for the end of all jobs.
    pub fn work(&self, job: &Option<Job<T>>) -> (work: Work)
        ensures
            work == work_for(self@.terminated, *job),
    {
        if self.terminated {
            return Work::Nothing;
        }
        match job {
            Some(Job::Decode { .. }) => Work::Decode,
            _ => Work::EndStream,
        }
    }

    /// Goes on after a job, given how the work for it went; `None` if there was none to do.
    /// Returns what the handler is told, and what follows.
    pub fn run(&mut self, job: Option<Job<T>>, outcome: Option<Result<(), Error>>) -> (result: (
        Vec<Notice<T>>,
        Sequel,
    ))
        requires
            outcome is None <==> work_for(old(self)@.terminated, job) is Nothing,
        ensures
            told(result.0@) == job_notices(old(self)@, job, outcome),
            result.1 == sequel_of(job),
            final(self)@ == after_job(old(self)@, job, outcome),
    {
        match job {
            Some(Job::Decode { data: _, user_data }) => (
                self.handle_decode(outcome, user_data),
                Sequel::Continue,
            ),
            Some(Job::Flush) => (self.handle_flush(outcome), Sequel::Flushed),
            _ => (self.finish(outcome), Sequel::Stop),
        }
    }
}

/// The result of a flush, given whether the worker could be told and whether it has answered.
pub open spec fn flush_result(sent: bool, answered: bool) -> Result<(), Error> {
    if !sent {
        Err(crate::error::custom("flush", "send failed"))
    } else if !answered {
        Err(crate::error::custom("flush", "recv failed"))
    } else {
        Ok(())
    }
}

/// The side of a decoder that submits packets.
#[derive(Debug)]
pub struct Decoder {
    stats: DecoderStats,
}

impl View for Decoder {
    type V = StatsView;

    closed spec fn view(&self) -> StatsView {
        self.stats@
    }
}

impl Decoder {
    /// Starts to create a decoder.
    pub fn new(config: DecoderConfig) -> (turn: Turn<OpenDecoder>)
        ensures
            config.max_num_decode_surfaces == 0 ==> turn@ == crate::operation::finished::<
                OpenDecoder,
            >(
                Err(
                    crate::error::custom(
                        "Decoder::new",
                        "max_num_decode_surfaces must be greater than 0",
                    ),
                ),
            ),
            config.max_num_decode_surfaces != 0 ==> turn@ == crate::operation::forward(
                OpenDecoder::Load { config },
                crate::driver::Call::LoadLibraries,
                Seq::empty(),
            ),
    {
        DecoderState::new(config)
    }

    /// The decoder, once it was tried to start its worker.
    pub fn start(spawned: bool) -> (decoder: Result<Decoder, Error>)
        ensures
            match decoder {
                Ok(decoder) => spawned && decoder@ == crate::decode::no_stats(),
                Err(error) => !spawned && error == crate::error::custom(
                    "Decoder::new",
                    "failed to spawn decoder thread",
                ),
            },
    {
        if spawned {
            Ok(Decoder { stats: DecoderStats::default() })
        } else {
            Err(Error::new_custom("Decoder::new", "failed to spawn decoder thread"))
        }
    }

    /// The statistics.
    pub fn stats(&self) -> (stats: &DecoderStats)
        ensures
            stats@ == self@,
    {
        &self.stats
    }

    /// Takes over the statistics of the worker. The number of packets is counted on this side.
    pub fn observe(&mut self, worker: &DecoderStats)
        ensures
            final(self)@ == (StatsView { decode: old(self)@.decode, ..worker@ }),
    {
        let decode = self.stats.total_decode_count.clone();
        self.stats = worker.clone();
        self.stats.total_decode_count = decode;
    }

    /// Goes on after it was tried to send a packet to the worker.
    pub fn decode(&mut self, sent: bool) -> (result: Result<(), Error>)
        ensures
            match result {
                Ok(()) => {
                    &&& sent
                    &&& final(self)@ == (StatsView {
                        decode: counted(old(self)@.decode, 1),
                        ..old(self)@
                    })
                },
                Err(error) => {
                    &&& !sent
                    &&& final(self)@ == old(self)@
                    &&& error == crate::error::custom(
                        "decode",
                        "decoder worker thread has terminated",
                    )
                },
            },
    {
        if !sent {
            return Err(Error::new_custom("decode", "decoder worker thread has terminated"));
        }
        self.stats.total_decode_count.inc();
        Ok(())
    }

    /// The result of a flush, given whether the worker could be told and whether it has answered.
    pub fn flush(sent: bool, answered: bool) -> (result: Result<(), Error>)
        ensures
            result == flush_result(sent, answered),
    {
        if !sent {
            return Err(Error::new_custom("flush", "send failed"));
        }
        if !answered {
            return Err(Error::new_custom("flush", "recv failed"));
        }
        Ok(())
    }
}

/// Whether a notice is a frame.
pub open spec fn is_frame<T>(notice: NoticeView<T>) -> bool {
    notice is Ok
}

/// Once a decoder has failed, it stays so. Each packet that still comes is answered with the same
/// error, and nothing else is told: no frame ever comes out again.
pub proof fn failure_is_final<T>(
    worker: WorkerView<T>,
    job: Option<Job<T>>,
    outcome: Option<Result<(), Error>>,
)
    requires
        worker.terminated,
        outcome is None <==> work_for(worker.terminated, job) is Nothing,
    ensures
        work_for(worker.terminated, job) is Nothing,
        after_job(worker, job, outcome) == worker,
        is_packet(job) ==> job_notices(worker, job, outcome) == seq![
            Err::<DecodedFrameView<T>, Error>(terminal_error()),
        ],
        !is_packet(job) ==> job_notices(worker, job, outcome).len() == 0,
        forall|i: int|
            0 <= i < job_notices(worker, job, outcome).len() ==> !is_frame(
                #[trigger] job_notices(worker, job, outcome)[i],
            ),
{
}

/// A decoder that is told of a failure by a packet or a flush has failed from then on, and what
/// was under way is dropped. The failure is told once, after all frames; and a decoder does not
/// fail without its being told.
pub proof fn failure_is_told_once_and_last<T>(
    worker: WorkerView<T>,
    job: Option<Job<T>>,
    outcome: Option<Result<(), Error>>,
)
    requires
        !worker.terminated,
        outcome is None <==> work_for(worker.terminated, job) is Nothing,
        is_packet(job) || is_flush(job),
    ensures
        ({
            let notices = job_notices(worker, job, outcome);
            let after = after_job(worker, job, outcome);
            &&& after.terminated <==> (notices.len() > 0 && !is_frame(notices.last()))
            &&& forall|i: int|
                0 <= i < notices.len() - 1 ==> is_frame(#[trigger] notices[i])
            &&& after.terminated ==> after.pending.len() == 0 && after.state.frames.len() == 0
            &&& outcome matches Some(Err(error)) ==> notices == seq![
                Err::<DecodedFrameView<T>, Error>(error),
            ]
        }),
{
}

/// The user data of the frames among notices.
pub open spec fn user_data_of<T>(notices: Seq<NoticeView<T>>) -> Seq<T>
    decreases notices.len(),
{
    if notices.len() == 0 {
        Seq::empty()
    } else {
        match notices.last() {
            Ok(frame) => user_data_of(notices.drop_last()).push(frame.user_data),
            Err(_) => user_data_of(notices.drop_last()),
        }
    }
}

/// The frames among notices.
pub open spec fn frames_of<T>(notices: Seq<NoticeView<T>>) -> Seq<FrameView>
    decreases notices.len(),
{
    if notices.len() == 0 {
        Seq::empty()
    } else {
        match notices.last() {
            Ok(frame) => frames_of(notices.drop_last()).push(frame.frame),
            Err(_) => frames_of(notices.drop_last()),
        }
    }
}

proof fn paired_parts<T>(frames: Seq<FrameView>, pending: Seq<T>, n: nat)
    requires
        n <= frames.len(),
        n <= pending.len(),
    ensures
        user_data_of(paired(frames, pending, n)) == pending.take(n as int),
        frames_of(paired(frames, pending, n)) == frames.take(n as int),
    decreases n,
{
    let notices = paired(frames, pending, n);
    if n == 0 {
        assert(pending.take(0) =~= Seq::empty());
        assert(frames.take(0) =~= Seq::empty());
    } else {
        let earlier = (n - 1) as nat;
        paired_parts(frames, pending, earlier);
        assert(notices.drop_last() =~= paired(frames, pending, earlier));
        assert(pending.take(n as int) =~= pending.take(earlier as int).push(pending[n - 1]));
        assert(frames.take(n as int) =~= frames.take(earlier as int).push(frames[n - 1]));
    }
}

/// As long as a decoder does not fail, no user data is lost, doubled or put out of order: what
/// came with packets is what comes out with frames, and then what is still due. The same holds of
/// the frames: all that were ready come out, in order.
pub proof fn user_data_comes_back_in_order<T>(
    worker: WorkerView<T>,
    job: Option<Job<T>>,
    outcome: Option<Result<(), Error>>,
)
    requires
        !worker.terminated,
        outcome is None <==> work_for(worker.terminated, job) is Nothing,
        is_packet(job) || is_flush(job),
        !after_job(worker, job, outcome).terminated,
    ensures
        user_data_of(job_notices(worker, job, outcome)) + after_job(worker, job, outcome).pending
            == (match job {
            Some(Job::Decode { user_data, .. }) => worker.pending.push(user_data),
            _ => worker.pending,
        }),
        frames_of(job_notices(worker, job, outcome)) == worker.state.frames,
        after_job(worker, job, outcome).state.frames.len() == 0,
{
    let fed = match job {
        Some(Job::Decode { user_data, .. }) => with_packet(worker, user_data),
        _ => worker,
    };
    let frames = fed.state.frames;
    paired_parts(frames, fed.pending, frames.len());
    assert(frames.take(frames.len() as int) =~= frames);
    assert(fed.pending.take(frames.len() as int) + fed.pending.skip(frames.len() as int)
        =~= fed.pending);
}

/// A job that a worker has done.
pub struct JobEvent<T> {
    /// Frames that the decoder has got ready while the work for the job was done.
    pub ready: Seq<FrameView>,
    /// The worker after that.
    pub before: WorkerView<T>,
    pub job: Option<Job<T>>,
    pub outcome: Option<Result<(), Error>>,
}

impl<T> JobEvent<T> {
    /// The worker after the job.
    pub open spec fn after(self) -> WorkerView<T> {
        after_job(self.before, self.job, self.outcome)
    }

    /// What is told after the job.
    pub open spec fn notices(self) -> Seq<NoticeView<T>> {
        job_notices(self.before, self.job, self.outcome)
    }
}

/// Whether jobs are what a new worker has done one after the other. No job follows one after which
/// the worker stops.
pub open spec fn is_history<T>(events: Seq<JobEvent<T>>) -> bool
    decreases events.len(),
{
    events.len() > 0 ==> {
        let earlier = events.drop_last();
        let event = events.last();
        &&& is_history(earlier)
        &&& event.outcome is None <==> work_for(event.before.terminated, event.job) is Nothing
        &&& if earlier.len() == 0 {
            &&& !event.before.terminated
            &&& event.before.pending == Seq::<T>::empty()
            &&& event.before.state.frames == event.ready
        } else {
            let previous = earlier.last().after();
            &&& !(sequel_of(earlier.last().job) is Stop)
            &&& event.before.terminated == previous.terminated
            &&& event.before.pending == previous.pending
            &&& event.before.state.frames == previous.state.frames + event.ready
        }
    }
}

/// All that was told over jobs.
pub open spec fn all_notices<T>(events: Seq<JobEvent<T>>) -> Seq<NoticeView<T>>
    decreases events.len(),
{
    if events.len() == 0 {
        Seq::empty()
    } else {
        all_notices(events.drop_last()) + events.last().notices()
    }
}

/// The user data of the packets among jobs.
pub open spec fn packet_data<T>(events: Seq<JobEvent<T>>) -> Seq<T>
    decreases events.len(),
{
    if events.len() == 0 {
        Seq::empty()
    } else {
        match events.last().job {
            Some(Job::Decode { user_data, .. }) => packet_data(events.drop_last()).push(user_data),
            _ => packet_data(events.drop_last()),
        }
    }
}

/// All frames that the decoder has got ready over jobs.
pub open spec fn all_ready<T>(events: Seq<JobEvent<T>>) -> Seq<FrameView>
    decreases events.len(),
{
    if events.len() == 0 {
        Seq::empty()
    } else {
        all_ready(events.drop_last()) + events.last().ready
    }
}

proof fn parts_of_more<T>(first: Seq<NoticeView<T>>, second: Seq<NoticeView<T>>)
    ensures
        user_data_of(first + second) == user_data_of(first) + user_data_of(second),
        frames_of(first + second) == frames_of(first) + frames_of(second),
    decreases second.len(),
{
    if second.len() == 0 {
        assert(first + second =~= first);
        assert(user_data_of(first) + user_data_of(second) =~= user_data_of(first));
        assert(frames_of(first) + frames_of(second) =~= frames_of(first));
    } else {
        let all = first + second;
        assert(all.drop_last() =~= first + second.drop_last());
        parts_of_more(first, second.drop_last());
        assert(user_data_of(all) =~= user_data_of(first) + user_data_of(second));
        assert(frames_of(all) =~= frames_of(first) + frames_of(second));
    }
}

proof fn failures_hold_nothing<T>(notices: Seq<NoticeView<T>>)
    requires
        forall|i: int| 0 <= i < notices.len() ==> !is_frame(#[trigger] notices[i]),
    ensures
        user_data_of(notices) == Seq::<T>::empty(),
        frames_of(notices) == Seq::<FrameView>::empty(),
    decreases notices.len(),
{
    if notices.len() > 0 {
        assert(!is_frame(notices[notices.len() - 1]));
        assert forall|i: int| 0 <= i < notices.drop_last().len() implies !is_frame(
            #[trigger] notices.drop_last()[i],
        ) by {
            assert(!is_frame(notices[i]));
        }
        failures_hold_nothing(notices.drop_last());
    }
}

/// What the frames put out hold, and what is left of both queues.
proof fn drained_parts<T>(worker: WorkerView<T>)
    ensures
        user_data_of(drained_notices(worker)) + drained(worker).pending == worker.pending,
        frames_of(drained_notices(worker)).is_prefix_of(worker.state.frames),
        matched(worker) ==> frames_of(drained_notices(worker)) == worker.state.frames,
{
    let frames = worker.state.frames;
    let pending = worker.pending;
    if matched(worker) {
        paired_parts(frames, pending, frames.len());
        assert(frames.take(frames.len() as int) =~= frames);
        assert(pending.take(frames.len() as int) + pending.skip(frames.len() as int) =~= pending);
    } else {
        let told = paired(frames, pending, pending.len());
        let failure = seq![Err::<DecodedFrameView<T>, Error>(missing_user_data())];
        paired_parts(frames, pending, pending.len());
        failures_hold_nothing(failure);
        parts_of_more(told, failure);
        assert(drained_notices(worker) =~= told + failure);
        assert(pending.take(pending.len() as int) =~= pending);
        assert(user_data_of(drained_notices(worker)) =~= pending);
        assert(frames_of(drained_notices(worker)) =~= frames.take(pending.len() as int));
    }
}

/// Whether the books are right after a job: `user_data` and `frames` were told, `packets` came,
/// and `ready` is what the decoder has got ready.
spec fn books_are_right<T>(
    event: JobEvent<T>,
    user_data: Seq<T>,
    frames: Seq<FrameView>,
    packets: Seq<T>,
    ready: Seq<FrameView>,
) -> bool {
    let after = event.after();
    &&& user_data.is_prefix_of(packets)
    &&& frames.is_prefix_of(ready)
    &&& !after.terminated ==> user_data + after.pending == packets
    &&& !after.terminated && !(sequel_of(event.job) is Stop) ==> frames == ready
        && after.state.frames.len() == 0
}

/// The books stay right over a job of a decoder that has not failed before.
proof fn job_keeps_the_books<T>(
    event: JobEvent<T>,
    user_data: Seq<T>,
    frames: Seq<FrameView>,
    packets: Seq<T>,
    ready: Seq<FrameView>,
)
    requires
        !event.before.terminated,
        event.outcome is Some,
        user_data + event.before.pending == packets,
        frames + event.before.state.frames == ready,
    ensures
        books_are_right(
            event,
            user_data + user_data_of(event.notices()),
            frames + frames_of(event.notices()),
            match event.job {
                Some(Job::Decode { user_data, .. }) => packets.push(user_data),
                _ => packets,
            },
            ready,
        ),
{
    let before = event.before;
    let notices = event.notices();
    let fed = match event.job {
        Some(Job::Decode { user_data, .. }) => with_packet(before, user_data),
        _ => before,
    };
    let all = match event.job {
        Some(Job::Decode { user_data, .. }) => packets.push(user_data),
        _ => packets,
    };
    assert(user_data + fed.pending =~= all);
    let failing = is_packet(event.job) || is_flush(event.job);
    let now = user_data_of(notices);
    let shown = frames_of(notices);
    if failing && event.outcome->0 is Err {
        failures_hold_nothing(notices);
        assert((user_data + now).is_prefix_of(all));
        assert((frames + shown).is_prefix_of(ready));
    } else {
        drained_parts(fed);
        assert(notices == drained_notices(fed));
        assert((user_data + now) + drained(fed).pending =~= user_data + (now + drained(
            fed,
        ).pending));
        assert((user_data + now).is_prefix_of(all));
        assert((frames + shown).is_prefix_of(ready));
    }
}

proof fn history_is_kept<T>(events: Seq<JobEvent<T>>)
    requires
        events.len() > 0,
        is_history(events),
    ensures
        books_are_right(
            events.last(),
            user_data_of(all_notices(events)),
            frames_of(all_notices(events)),
            packet_data(events),
            all_ready(events),
        ),
    decreases events.len(),
{
    let earlier = events.drop_last();
    let event = events.last();
    let before = event.before;
    let notices = event.notices();
    let user_data = user_data_of(all_notices(earlier));
    let frames = frames_of(all_notices(earlier));
    parts_of_more(all_notices(earlier), notices);
    if earlier.len() > 0 {
        history_is_kept(earlier);
    } else {
        assert(all_notices(earlier) == Seq::<NoticeView<T>>::empty());
    }
    if before.terminated {
        failure_is_final(before, event.job, event.outcome);
        failures_hold_nothing(notices);
        assert(user_data + user_data_of(notices) =~= user_data);
        assert(frames + frames_of(notices) =~= frames);
    } else {
        assert(user_data + before.pending =~= packet_data(earlier));
        assert(frames =~= all_ready(earlier));
        assert(frames + before.state.frames =~= all_ready(events)) by {
            assert(before.state.frames =~= event.ready);
        }
        job_keeps_the_books(event, user_data, frames, packet_data(earlier), all_ready(events));
    }
}

/// Whatever jobs a worker has done: the frames that were told, in the order in which they were
/// told, carry the user data of the packets, in the order in which these came. The first frame
/// carries that of the first packet, and so on: none is passed over, doubled or swapped. The frames
/// themselves come in the order in which the decoder got them ready.
///
/// As long as the decoder has not failed, user data that has not come out is still due; and after
/// a packet or a flush all frames that were ready have come out.
pub proof fn frames_carry_the_data_of_their_packets<T>(events: Seq<JobEvent<T>>)
    requires
        events.len() > 0,
        is_history(events),
    ensures
        ({
            let after = events.last().after();
            let user_data = user_data_of(all_notices(events));
            let frames = frames_of(all_notices(events));
            &&& user_data.len() == frames.len()
            &&& user_data.len() <= packet_data(events).len()
            &&& forall|i: int|
                0 <= i < user_data.len() ==> #[trigger] user_data[i] == packet_data(events)[i]
            &&& frames.len() <= all_ready(events).len()
            &&& forall|i: int|
                0 <= i < frames.len() ==> #[trigger] frames[i] == all_ready(events)[i]
            &&& !after.terminated ==> user_data + after.pending == packet_data(events)
            &&& !after.terminated && (is_packet(events.last().job) || is_flush(
                events.last().job,
            )) ==> frames == all_ready(events)
        }),
{
    history_is_kept(events);
    parts_have_one_length(all_notices(events));
}

proof fn parts_have_one_length<T>(notices: Seq<NoticeView<T>>)
    ensures
        user_data_of(notices).len() == frames_of(notices).len(),
    decreases notices.len(),
{
    if notices.len() > 0 {
        parts_have_one_length(notices.drop_last());
    }
}

/// Something that a worker does where others can see it.
pub enum Deed<T> {
    /// The handler is told something.
    Tell(NoticeView<T>),
    /// The submitter of a flush is told that the flush is done.
    Answer,
}

/// What a worker does after a job, in order: it tells the handler, and then, if the job was a
/// flush, answers.
pub open spec fn deeds<T>(event: JobEvent<T>) -> Seq<Deed<T>> {
    let told = event.notices().map_values(|notice: NoticeView<T>| Deed::Tell(notice));
    if sequel_of(event.job) is Flushed {
        told.push(Deed::Answer)
    } else {
        told
    }
}

/// What a worker does over jobs, in order.
pub open spec fn transcript<T>(events: Seq<JobEvent<T>>) -> Seq<Deed<T>>
    decreases events.len(),
{
    if events.len() == 0 {
        Seq::empty()
    } else {
        transcript(events.drop_last()) + deeds(events.last())
    }
}

proof fn history_begins_with<T>(events: Seq<JobEvent<T>>, n: int)
    requires
        is_history(events),
        0 <= n <= events.len(),
    ensures
        is_history(events.take(n)),
        transcript(events.take(n)).is_prefix_of(transcript(events)),
    decreases events.len() - n,
{
    if n == events.len() {
        assert(events.take(n) =~= events);
    } else {
        let longer = events.take(n + 1);
        history_begins_with(events, n + 1);
        assert(longer.drop_last() =~= events.take(n));
        assert(transcript(longer) =~= transcript(events.take(n)) + deeds(longer.last()));
    }
}

/// A flush among the jobs of a worker. It is answered, so that the submitter's call succeeds; and
/// the answer comes after all that there was to tell.
///
/// If the decoder has not failed by then, every frame that it has got ready since it was created
/// was told before the answer, nothing waits, and the next packet is decoded. If it fails at the
/// flush, its failure is the last that is told before the answer. If it had failed before, the
/// answer comes at once.
pub proof fn a_flush_is_answered_after_all_is_told<T>(events: Seq<JobEvent<T>>, k: int)
    requires
        is_history(events),
        0 <= k < events.len(),
        is_flush(events[k].job),
    ensures
        ({
            let event = events[k];
            let after = event.after();
            let earlier = transcript(events.take(k));
            let done = transcript(events.take(k + 1));
            let told = event.notices();
            &&& done.is_prefix_of(transcript(events))
            &&& done == earlier + deeds(event)
            &&& done.len() == earlier.len() + told.len() + 1
            &&& done.last() is Answer
            &&& forall|i: int|
                0 <= i < told.len() ==> #[trigger] done[earlier.len() + i] == Deed::Tell(told[i])
            &&& flush_result(true, done.last() is Answer) is Ok
            &&& !after.terminated ==> {
                &&& frames_of(all_notices(events.take(k + 1))) == all_ready(events.take(k + 1))
                &&& after.state.frames.len() == 0
                &&& forall|packet: Option<Job<T>>|
                    is_packet(packet) ==> #[trigger] work_for(after.terminated, packet) is Decode
            }
            &&& after.terminated && !event.before.terminated ==> {
                &&& told.len() > 0
                &&& !is_frame(told.last())
                &&& event.outcome matches Some(Err(error)) ==> told == seq![
                    Err::<DecodedFrameView<T>, Error>(error),
                ]
            }
            &&& event.before.terminated ==> told.len() == 0
        }),
{
    let event = events[k];
    let upto = events.take(k + 1);
    history_begins_with(events, k + 1);
    assert(upto.drop_last() =~= events.take(k));
    assert(upto.last() == event);
    history_is_kept(upto);
    let earlier = transcript(events.take(k));
    let done = transcript(upto);
    assert(done =~= earlier + deeds(event));
    if event.before.terminated {
        failure_is_final(event.before, event.job, event.outcome);
    } else {
        failure_is_told_once_and_last(event.before, event.job, event.outcome);
    }
}

/// Whether a packet or a flush among the jobs was answered with a failure.
pub open spec fn failed<T>(events: Seq<JobEvent<T>>) -> bool
    decreases events.len(),
{
    events.len() > 0 && {
        let event = events.last();
        let notices = event.notices();
        ||| failed(events.drop_last())
        ||| {
            &&& is_packet(event.job) || is_flush(event.job)
            &&& exists|i: int| 0 <= i < notices.len() && !is_frame(#[trigger] notices[i])
        }
    }
}

/// Whatever jobs a worker has done: once a packet or a flush was answered with a failure, no
/// later job puts a frame out, and every later packet is answered with the terminal error.
pub proof fn no_frame_after_a_failure<T>(events: Seq<JobEvent<T>>)
    requires
        events.len() > 0,
        is_history(events),
        failed(events.drop_last()),
    ensures
        ({
            let event = events.last();
            let notices = event.notices();
            &&& event.before.terminated
            &&& forall|i: int| 0 <= i < notices.len() ==> !is_frame(#[trigger] notices[i])
            &&& is_packet(event.job) ==> notices == seq![
                Err::<DecodedFrameView<T>, Error>(terminal_error()),
            ]
        }),
    decreases events.len(),
{
    reveal_with_fuel(is_history, 2);
    let earlier = events.drop_last();
    let previous = earlier.last();
    if failed(earlier.drop_last()) {
        no_frame_after_a_failure(earlier);
        failure_is_final(previous.before, previous.job, previous.outcome);
    } else {
        if previous.before.terminated {
            failure_is_final(previous.before, previous.job, previous.outcome);
        } else {
            failure_is_told_once_and_last(previous.before, previous.job, previous.outcome);
        }
    }
    let event = events.last();
    failure_is_final(event.before, event.job, event.outcome);
}

/// What has to be done for a job, and what follows. A packet is decoded, and all else ends the
/// stream, so that what is under way comes out; but a decoder that has failed does nothing more.
/// After a packet the worker goes on, a flush is answered, and after all else the worker stops.
pub proof fn jobs_are_done_as_they_say<T>(job: Option<Job<T>>)
    ensures
        work_for(true, job) is Nothing,
        job matches Some(Job::Decode { .. }) ==> work_for(false, job) is Decode && sequel_of(
            job,
        ) is Continue,
        job matches Some(Job::Flush) ==> work_for(false, job) is EndStream && sequel_of(
            job,
        ) is Flushed,
        job matches Some(Job::Terminate) ==> work_for(false, job) is EndStream && sequel_of(
            job,
        ) is Stop,
        job is None ==> work_for(false, job) is EndStream && sequel_of(job) is Stop,
{
}

/// The last job of a decoder that has not failed: whatever came of ending the stream, all frames
/// that are ready are told, in order, each with the user data that is due.
pub proof fn the_end_puts_out_what_is_ready<T>(
    worker: WorkerView<T>,
    job: Option<Job<T>>,
    outcome: Result<(), Error>,
)
    requires
        !worker.terminated,
        job is None || job matches Some(Job::Terminate),
        worker.state.frames.len() <= worker.pending.len(),
    ensures
        ({
            let notices = job_notices(worker, job, Some(outcome));
            &&& notices.len() == worker.state.frames.len()
            &&& forall|i: int|
                0 <= i < notices.len() ==> {
                    &&& (#[trigger] notices[i]) matches Ok(told)
                    &&& told.frame == worker.state.frames[i]
                    &&& told.user_data == worker.pending[i]
                }
        }),
{
}

/// Packets and frames. A packet that was decoded without a failure, while there is user data for
/// every frame that is ready: each frame is told with the user data of the packet that came in its
/// place, and what is due beyond that stays due. If a frame comes out to which there is no packet,
/// the frames before it are told, and then that.
pub proof fn frames_are_told_with_what_is_due<T>(worker: WorkerView<T>, user_data: T, data: Vec<u8>)
    requires
        !worker.terminated,
    ensures
        ({
            let job = Some(Job::Decode { data, user_data });
            let outcome = Some(Ok::<(), Error>(()));
            let due = worker.pending.push(user_data);
            let frames = worker.state.frames;
            let notices = job_notices(worker, job, outcome);
            let after = after_job(worker, job, outcome);
            let told = if frames.len() <= due.len() { frames.len() } else { due.len() };
            &&& forall|i: int|
                0 <= i < told ==> {
                    &&& (#[trigger] notices[i]) matches Ok(frame)
                    &&& frame.frame == frames[i]
                    &&& frame.user_data == due[i]
                }
            &&& frames.len() <= due.len() ==> {
                &&& notices.len() == frames.len()
                &&& after.pending == due.skip(frames.len() as int)
                &&& after.state.frames.len() == 0
                &&& !after.terminated
            }
            &&& frames.len() > due.len() ==> {
                &&& notices.len() == due.len() + 1
                &&& notices.last() matches Err(error)
                &&& error.function == "drain_frames"
                &&& error@.status_message == Some("missing user data"@)
                &&& after.terminated
                &&& after.pending.len() == 0
                &&& after.state.frames.len() == 0
            }
        }),
{
}

/// A decoder that has failed answers each packet with an error that says so.
pub proof fn a_failed_decoder_says_so<T>(worker: WorkerView<T>, user_data: T, data: Vec<u8>)
    requires
        worker.terminated,
    ensures
        ({
            let job = Some(Job::Decode { data, user_data });
            let notices = job_notices(worker, job, None);
            &&& notices.len() == 1
            &&& notices[0] matches Err(error)
            &&& error.function == "decode"
            &&& error.status_code is None
            &&& error@.status_message == Some("decoder has already failed"@)
            &&& after_job(worker, job, None) == worker
        }),
{
}

} // verus!
