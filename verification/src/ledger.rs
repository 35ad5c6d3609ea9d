//! What operations acquire from the driver, and what they give back.

use vstd::prelude::*;

use crate::codec_info::all_codecs;
use crate::codec_info::continues;
use crate::codec_info::decoding_info;
use crate::codec_info::decoding_moves;
use crate::codec_info::encoding_info;
use crate::codec_info::encoding_moves;
use crate::codec_info::infos;
use crate::codec_info::CodecInfo;
use crate::codec_info::CodecInfoView;
use crate::codec_info::SurveyCodecs;
use crate::decode::QueryDecoderCaps;
use crate::decoder::closing_releases;
use crate::decoder::unparsed_releases;
use crate::decoder::DecodePicture;
use crate::decoder::DecoderState;
use crate::decoder::DecoderStateView;
use crate::decoder::DisplayPicture;
use crate::decoder::EndStream;
use crate::decoder::OpenDecoder;
use crate::decoder::ParsePacket;
use crate::decoder::StartSequence;
use crate::device::AllocatePitched;
use crate::device::CopyMemory;
use crate::device::CountDevices;
use crate::device::CreateStream;
use crate::device::CudaStream;
use crate::device::NameDevice;
use crate::driver::Call;
use crate::driver::Reply;
use crate::encoder::EncodeFrame;
use crate::encoder::Encoder;
use crate::encoder::EncoderView;
use crate::encoder::OpenEncoder;
use crate::encoder::QueryEncoderCaps;
use crate::encoder::Reconfigure;
use crate::encoder::SequenceParams;
use crate::operation::forward;
use crate::operation::outcome_after;
use crate::operation::proceeded;
use crate::operation::releases_after;
use crate::operation::resumes;
use crate::operation::unwound;
use crate::operation::Next;
use crate::operation::OperationView;
use crate::operation::Phase;
use crate::operation::Progress;
use crate::operation::Release;
use crate::operation::SingleCall;
use crate::operation::Stage;
use crate::operation::Step;
use crate::operation::TurnView;
use crate::sys;
use crate::trace::is_run;
use crate::trace::last_turn;
use crate::trace::Event;

verus! {

/// Something that the driver lends. A null handle stands for nothing.
pub enum Resource {
    Context(u64),
    /// A context that was made the current one.
    Current,
    Memory(u64),
    Stream(u64),
    ContextLock(u64),
    Parser(u64),
    Decoder(u64),
    /// A decoded picture that is mapped.
    Picture(u64),
    Session(u64),
    Registered(u64),
    MappedInput(u64),
    Bitstream(u64),
    LockedBitstream(u64),
}

impl Resource {
    /// Whether this is a resource, and not a null handle.
    pub open spec fn is_something(self) -> bool {
        match self {
            Resource::Current => true,
            Resource::Context(handle)
            | Resource::Memory(handle)
            | Resource::Stream(handle)
            | Resource::ContextLock(handle)
            | Resource::Parser(handle)
            | Resource::Decoder(handle)
            | Resource::Picture(handle)
            | Resource::Session(handle)
            | Resource::Registered(handle)
            | Resource::MappedInput(handle)
            | Resource::Bitstream(handle)
            | Resource::LockedBitstream(handle) => handle != sys::NULL,
        }
    }
}

/// What a call that got `reply` has acquired.
pub open spec fn acquired(call: Call, reply: Reply) -> Option<Resource> {
    match reply {
        Err(_) => None,
        Ok(output) => match call {
            Call::CtxCreate { .. } => Some(Resource::Context(output.handle_spec())),
            Call::CtxPushCurrent { .. } => Some(Resource::Current),
            Call::MemAlloc { .. } => Some(Resource::Memory(output.handle_spec())),
            Call::MemAllocPitch { .. } => Some(Resource::Memory(output.pitched_spec().0)),
            Call::StreamCreate { .. } => Some(Resource::Stream(output.handle_spec())),
            Call::CtxLockCreate { .. } => Some(Resource::ContextLock(output.handle_spec())),
            Call::CreateVideoParser { .. } => Some(Resource::Parser(output.handle_spec())),
            Call::CreateDecoder { .. } => Some(Resource::Decoder(output.handle_spec())),
            Call::MapVideoFrame { .. } => Some(Resource::Picture(output.mapped_spec().0)),
            Call::OpenEncodeSession { .. } => Some(Resource::Session(output.handle_spec())),
            Call::RegisterResource { .. } => Some(Resource::Registered(output.handle_spec())),
            Call::MapInputResource { .. } => Some(Resource::MappedInput(output.handle_spec())),
            Call::CreateBitstreamBuffer { .. } => Some(Resource::Bitstream(output.handle_spec())),
            Call::LockBitstream { buffer, .. } => Some(Resource::LockedBitstream(buffer)),
            _ => None,
        },
    }
}

/// What a call gives back.
pub open spec fn given_back(call: Call) -> Option<Resource> {
    match call {
        Call::CtxDestroy { ctx } => Some(Resource::Context(ctx)),
        Call::CtxPopCurrent => Some(Resource::Current),
        Call::MemFree { device_ptr } => Some(Resource::Memory(device_ptr)),
        Call::StreamDestroy { stream } => Some(Resource::Stream(stream)),
        Call::CtxLockDestroy { lock } => Some(Resource::ContextLock(lock)),
        Call::DestroyVideoParser { parser } => Some(Resource::Parser(parser)),
        Call::DestroyDecoder { decoder } => Some(Resource::Decoder(decoder)),
        Call::UnmapVideoFrame { device_ptr, .. } => Some(Resource::Picture(device_ptr)),
        Call::DestroyEncoder { session } => Some(Resource::Session(session)),
        Call::UnregisterResource { resource, .. } => Some(Resource::Registered(resource)),
        Call::UnmapInputResource { mapped, .. } => Some(Resource::MappedInput(mapped)),
        Call::DestroyBitstreamBuffer { buffer, .. } => Some(Resource::Bitstream(buffer)),
        Call::UnlockBitstream { buffer, .. } => Some(Resource::LockedBitstream(buffer)),
        _ => None,
    }
}

/// How often `resource` is what is `found`: once or not at all.
pub open spec fn count(found: Option<Resource>, resource: Resource) -> int {
    if resource.is_something() && found == Some(resource) {
        1
    } else {
        0
    }
}

/// How a call with its reply changes how often `resource` is on loan.
pub open spec fn change(call: Call, reply: Reply, resource: Resource) -> int {
    count(acquired(call, reply), resource) - count(given_back(call), resource)
}

/// The call of a release that gives something back.
pub open spec fn returning_call(release: Release) -> Call {
    match release {
        Release::Always(call) => call,
        Release::OnFailure(call) => call,
        Release::Checked(call) => call,
        Release::CheckedOnSuccess(call) => call,
        Release::InContext { call, .. } => call,
        Release::InContextOnFailure { call, .. } => call,
    }
}

/// Whether all releases give something back.
pub open spec fn all_return(releases: Seq<Release>) -> bool {
    forall|i: int|
        0 <= i < releases.len() ==> given_back(returning_call(#[trigger] releases[i])) is Some
}

/// Whether the failure of a release can make an operation fail.
pub open spec fn decisive(release: Release) -> bool {
    release is Checked || release is CheckedOnSuccess
}

/// Whether any release is decisive.
pub open spec fn any_decisive(releases: Seq<Release>) -> bool {
    exists|i: int| 0 <= i < releases.len() && decisive(#[trigger] releases[i])
}

/// Whether the decisive releases come before those that are dropped on success. (The latest
/// release comes first.)
pub open spec fn decided_first(releases: Seq<Release>) -> bool {
    forall|i: int, j: int|
        0 <= i < j < releases.len() && decisive(#[trigger] releases[i])
            ==> !(#[trigger] releases[j]).only_on_failure()
}

/// How often a release gives `resource` back.
pub open spec fn returned(release: Release, resource: Resource) -> int {
    count(given_back(returning_call(release)), resource)
}

/// How often releases give `resource` back if the operation fails.
pub open spec fn covered(releases: Seq<Release>, resource: Resource) -> int
    decreases releases.len(),
{
    if releases.len() == 0 {
        0
    } else {
        covered(releases.drop_last(), resource) + returned(releases.last(), resource)
    }
}

/// How often releases would give `resource` back that are dropped if the operation succeeds.
pub open spec fn spared(releases: Seq<Release>, resource: Resource) -> int
    decreases releases.len(),
{
    if releases.len() == 0 {
        0
    } else {
        spared(releases.drop_last(), resource) + if releases.last().only_on_failure() {
            returned(releases.last(), resource)
        } else {
            0
        }
    }
}

/// How often `resource` is on loan after events, beyond how often it was before.
pub open spec fn balance<S: Stage>(events: Seq<Event<S>>, resource: Resource) -> int
    decreases events.len(),
{
    if events.len() == 0 {
        0
    } else {
        balance(events.drop_last(), resource) + change(
            events.last().call,
            events.last().reply,
            resource,
        )
    }
}

/// An operation whose stages account for what they acquire.
pub trait Accounted: Stage {
    /// Whether a stage waits for the reply to this call.
    spec fn awaits(self, context: Self::Context, call: Call) -> bool;

    /// Whether this is what is due for release at a stage.
    spec fn due(self, releases: Seq<Release>) -> bool;

    /// How often `resource` is on loan at a stage beyond what is due for release and what belongs
    /// to the context.
    spec fn held(self, context: Self::Context, call: Call, resource: Resource) -> int;

    /// How often `resource` belongs to the context.
    spec fn belongs(context: Self::Context, resource: Resource) -> int;

    /// How often `resource` belongs to the result.
    spec fn kept(output: Self::Output, resource: Resource) -> int;

    /// Whether the reply lets a stage lose track of what is on loan: the driver refuses to take
    /// something back or to leave a context, or something is given back twice.
    spec fn refused(self, reply: Reply) -> bool;

    proof fn accounts(
        self,
        call: Call,
        before: Self::Context,
        reply: Reply,
        after: Self::Context,
        progress: Progress<Self, Self::Output>,
        releases: Seq<Release>,
        resource: Resource,
    )
        requires
            self.awaits(before, call),
            self.due(releases),
            self.moves(before, reply, after, progress),
            !self.refused(reply),
        ensures
            ({
                let all = releases + progress.acquired@;
                let loans = covered(releases, resource) + self.held(before, call, resource)
                    + Self::belongs(before, resource) + change(call, reply, resource)
                    - Self::belongs(after, resource);
                &&& all_return(all)
                &&& match progress.next {
                    Next::Call { stage, call } => {
                        &&& stage.awaits(after, call)
                        &&& stage.due(all)
                        &&& loans == covered(all, resource) + stage.held(after, call, resource)
                    },
                    Next::Succeed(output) => {
                        &&& decided_first(all)
                        &&& loans == covered(all, resource) - spared(all, resource) + Self::kept(
                            output,
                            resource,
                        )
                        &&& any_decisive(all) ==> spared(all, resource) == Self::kept(
                            output,
                            resource,
                        )
                    },
                    Next::Fail(_) => loans == covered(all, resource),
                }
            }),
    ;
}

/// Whether an operation loses track of what is on loan when it gets `reply`.
pub open spec fn refused<S: Accounted>(operation: OperationView<S>, reply: Reply) -> bool {
    match operation.phase {
        Phase::Forward { stage, .. } => stage.refused(reply),
        Phase::Releasing { release, .. } => (release is InContext || release is InContextOnFailure)
            && reply is Err,
        Phase::Finished => false,
    }
}

/// Whether an operation loses track of what is on loan at any of the events.
pub open spec fn any_refused<S: Accounted>(start: TurnView<S>, events: Seq<Event<S>>) -> bool
    decreases events.len(),
{
    events.len() > 0 && {
        let earlier = events.drop_last();
        ||| any_refused(start, earlier)
        ||| refused(last_turn(start, earlier).operation, events.last().reply)
    }
}

/// How often `resource` belongs to an outcome.
pub open spec fn kept_by<S: Accounted>(
    outcome: Result<S::Output, crate::error::Error>,
    resource: Resource,
) -> int {
    match outcome {
        Ok(output) => S::kept(output, resource),
        Err(_) => 0,
    }
}

/// Whether the books balance: what is on loan is what is due for release, what the stage or the
/// result holds, and what belongs to the context.
pub open spec fn balanced<S: Accounted>(
    turn: TurnView<S>,
    context: S::Context,
    loans: int,
    resource: Resource,
) -> bool {
    let releases = turn.operation.releases;
    let rest = loans - S::belongs(context, resource);
    match turn.operation.phase {
        Phase::Forward { stage, call } => {
            &&& turn.step == Step::<S::Output>::Call(call)
            &&& stage.awaits(context, call)
            &&& stage.due(releases)
            &&& rest == covered(releases, resource) + stage.held(context, call, resource)
        },
        Phase::Releasing { release, outcome } => {
            &&& turn.step == Step::<S::Output>::Call(release.first_call())
            &&& all_return(releases)
            &&& given_back(returning_call(release)) is Some
            &&& match outcome {
                Ok(output) => {
                    &&& decided_first(releases)
                    &&& rest == covered(releases, resource) + returned(release, resource) - spared(
                        releases,
                        resource,
                    ) + S::kept(output, resource)
                    &&& decisive(release) || any_decisive(releases) ==> spared(releases, resource)
                        == S::kept(output, resource)
                },
                Err(_) => rest == covered(releases, resource) + returned(release, resource),
            }
        },
        Phase::Finished => {
            &&& turn.step matches Step::Done(outcome)
            &&& rest == kept_by::<S>(outcome, resource)
        },
    }
}

proof fn unwinding_is_balanced<S: Accounted>(
    outcome: Result<S::Output, crate::error::Error>,
    releases: Seq<Release>,
    context: S::Context,
    loans: int,
    resource: Resource,
)
    requires
        all_return(releases),
        match outcome {
            Ok(output) => {
                &&& decided_first(releases)
                &&& loans - S::belongs(context, resource) == covered(releases, resource) - spared(
                    releases,
                    resource,
                ) + S::kept(output, resource)
                &&& any_decisive(releases) ==> spared(releases, resource) == S::kept(
                    output,
                    resource,
                )
            },
            Err(_) => loans - S::belongs(context, resource) == covered(releases, resource),
        },
    ensures
        balanced(unwound::<S>(outcome, releases), context, loans, resource),
    decreases releases.len(),
{
    if releases.len() > 0 {
        let last = releases.last();
        let rest = releases.drop_last();
        assert(last == releases[releases.len() - 1]);
        assert(given_back(returning_call(last)) is Some);
        assert(all_return(rest)) by {
            assert forall|i: int| 0 <= i < rest.len() implies given_back(
                returning_call(#[trigger] rest[i]),
            ) is Some by {
                assert(given_back(returning_call(releases[i])) is Some);
            }
        }
        assert(decided_first(releases) ==> decided_first(rest)) by {
            assert forall|i: int, j: int|
                decided_first(releases) && 0 <= i < j < rest.len() && decisive(
                    #[trigger] rest[i],
                ) implies !(
            #[trigger] rest[j]).only_on_failure() by {
                assert(decisive(releases[i]));
                assert(!releases[j].only_on_failure());
            }
        }
        if outcome is Ok && any_decisive(rest) {
            let i = choose|i: int| 0 <= i < rest.len() && decisive(#[trigger] rest[i]);
            assert(decisive(releases[i]));
            assert(any_decisive(releases));
            assert(!releases[releases.len() - 1].only_on_failure());
        }
        if decisive(last) {
            assert(any_decisive(releases));
        }
        if last.only_on_failure() && outcome is Ok {
            unwinding_is_balanced::<S>(outcome, rest, context, loans, resource);
        }
    }
}

proof fn step_is_balanced<S: Accounted>(
    turn: TurnView<S>,
    event: Event<S>,
    loans: int,
    resource: Resource,
)
    requires
        balanced(turn, event.before, loans, resource),
        turn.step == Step::<S::Output>::Call(event.call),
        resumes(turn.operation, event.before, event.reply, event.after, event.turn),
        !refused(turn.operation, event.reply),
    ensures
        balanced(
            event.turn,
            event.after,
            loans + change(event.call, event.reply, resource),
            resource,
        ),
{
    let operation = turn.operation;
    let after = loans + change(event.call, event.reply, resource);
    match operation.phase {
        Phase::Forward { stage, call } => {
            let progress = choose|progress: Progress<S, S::Output>|
                #![trigger stage.moves(event.before, event.reply, event.after, progress)]
                stage.moves(event.before, event.reply, event.after, progress) && event.turn
                    == proceeded(operation.releases, progress);
            stage.accounts(
                call,
                event.before,
                event.reply,
                event.after,
                progress,
                operation.releases,
                resource,
            );
            let releases = operation.releases + progress.acquired@;
            match progress.next {
                Next::Call { .. } => {},
                Next::Succeed(output) => {
                    unwinding_is_balanced::<S>(Ok(output), releases, event.after, after, resource);
                },
                Next::Fail(error) => {
                    unwinding_is_balanced::<S>(Err(error), releases, event.after, after, resource);
                },
            }
        },
        Phase::Releasing { release, outcome } => {
            let releases = releases_after(release, operation.releases, event.reply);
            if release is InContext || release is InContextOnFailure {
                let leave = Release::Always(Call::CtxPopCurrent);
                let inner = Release::Always(returning_call(release));
                assert(releases == operation.releases.push(leave).push(inner));
                assert(releases.drop_last() =~= operation.releases.push(leave));
                assert(operation.releases.push(leave).drop_last() =~= operation.releases);
                assert(covered(releases, resource) == covered(
                    operation.releases.push(leave),
                    resource,
                ) + returned(inner, resource));
                assert(spared(releases, resource) == spared(
                    operation.releases.push(leave),
                    resource,
                ));
                if any_decisive(releases) {
                    let i = choose|i: int| 0 <= i < releases.len() && decisive(
                        #[trigger] releases[i],
                    );
                    assert(decisive(operation.releases[i]));
                }
                assert forall|i: int| 0 <= i < releases.len() implies given_back(
                    returning_call(#[trigger] releases[i]),
                ) is Some by {
                    if i < operation.releases.len() {
                        assert(given_back(returning_call(operation.releases[i])) is Some);
                    }
                }
                assert forall|i: int, j: int|
                    outcome is Ok && 0 <= i < j < releases.len() && decisive(
                        #[trigger] releases[i],
                    ) implies !(#[trigger] releases[j]).only_on_failure() by {
                    if j < operation.releases.len() {
                        assert(decisive(operation.releases[i]));
                        assert(!operation.releases[j].only_on_failure());
                    }
                }
            }
            unwinding_is_balanced::<S>(
                outcome_after(release, outcome, event.reply),
                releases,
                event.after,
                after,
                resource,
            );
        },
        Phase::Finished => {},
    }
}

proof fn run_is_balanced<S: Accounted>(
    start: TurnView<S>,
    events: Seq<Event<S>>,
    loans: int,
    resource: Resource,
)
    requires
        events.len() > 0,
        is_run(start, events),
        !any_refused(start, events),
        balanced(start, events[0].before, loans, resource),
    ensures
        balanced(
            last_turn(start, events),
            events.last().after,
            loans + balance(events, resource),
            resource,
        ),
    decreases events.len(),
{
    let earlier = events.drop_last();
    let event = events.last();
    let turn = last_turn(start, earlier);
    if earlier.len() > 0 {
        assert(earlier[0] == events[0]);
        run_is_balanced(start, earlier, loans, resource);
    } else {
        assert(balance(earlier, resource) == 0);
    }
    step_is_balanced(turn, event, loans + balance(earlier, resource), resource);
}

/// An operation that has come to its end has given back all that it has acquired, except what
/// belongs to its result and what now belongs to its context; and it has given back nothing else,
/// except what had belonged to its context. An operation that has failed has no result, so it
/// keeps nothing. This holds however the calls went.
///
/// It is not claimed where the driver refuses to let go: see [`refused`].
pub proof fn what_is_acquired_is_given_back<S: Accounted>(
    stage: S,
    call: Call,
    events: Seq<Event<S>>,
    outcome: Result<S::Output, crate::error::Error>,
    resource: Resource,
)
    requires
        events.len() > 0,
        stage.awaits(events[0].before, call),
        stage.due(Seq::empty()),
        stage.held(events[0].before, call, resource) == 0,
        is_run(forward(stage, call, Seq::empty()), events),
        !any_refused(forward(stage, call, Seq::empty()), events),
        events.last().turn.step == Step::Done(outcome),
    ensures
        S::belongs(events[0].before, resource) + balance(events, resource) == S::belongs(
            events.last().after,
            resource,
        ) + kept_by::<S>(outcome, resource),
{
    run_is_balanced(
        forward(stage, call, Seq::empty()),
        events,
        S::belongs(events[0].before, resource),
        resource,
    );
}

proof fn covered_appended(first: Seq<Release>, second: Seq<Release>, resource: Resource)
    ensures
        covered(first + second, resource) == covered(first, resource) + covered(second, resource),
        spared(first + second, resource) == spared(first, resource) + spared(second, resource),
    decreases second.len(),
{
    if second.len() == 0 {
        assert(first + second =~= first);
    } else {
        assert((first + second).drop_last() =~= first + second.drop_last());
        covered_appended(first, second.drop_last(), resource);
    }
}

/// Whether a release is made in any case, and gives something back.
pub open spec fn unconditional(release: Release) -> bool {
    &&& release is Always || release is Checked || release is CheckedOnSuccess
    &&& given_back(returning_call(release)) is Some
}

/// Whether all releases are unconditional.
pub open spec fn all_unconditional(releases: Seq<Release>) -> bool {
    forall|i: int| 0 <= i < releases.len() ==> unconditional(#[trigger] releases[i])
}

proof fn unconditional_releases(releases: Seq<Release>, resource: Resource)
    requires
        all_unconditional(releases),
    ensures
        all_return(releases),
        decided_first(releases),
        spared(releases, resource) == 0,
    decreases releases.len(),
{
    assert forall|i: int| 0 <= i < releases.len() implies given_back(
        returning_call(#[trigger] releases[i]),
    ) is Some by {
        assert(unconditional(releases[i]));
    }
    assert forall|i: int, j: int|
        0 <= i < j < releases.len() && decisive(#[trigger] releases[i]) implies !(
    #[trigger] releases[j]).only_on_failure() by {
        assert(unconditional(releases[j]));
    }
    if releases.len() > 0 {
        let rest = releases.drop_last();
        assert forall|i: int| 0 <= i < rest.len() implies unconditional(#[trigger] rest[i]) by {
            assert(unconditional(releases[i]));
        }
        assert(unconditional(releases[releases.len() - 1]));
        unconditional_releases(rest, resource);
    }
}

/// What a stage has acquired, where all is released unconditionally, or nothing.
proof fn unconditionally_acquired(
    releases: Seq<Release>,
    acquired: Seq<Release>,
    resource: Resource,
)
    requires
        all_unconditional(releases),
        all_unconditional(acquired),
    ensures
        all_unconditional(releases + acquired),
        all_return(releases + acquired),
        decided_first(releases + acquired),
        spared(releases + acquired, resource) == 0,
        covered(releases + acquired, resource) == covered(releases, resource) + covered(
            acquired,
            resource,
        ),
{
    let all = releases + acquired;
    assert forall|i: int| 0 <= i < all.len() implies unconditional(#[trigger] all[i]) by {
        if i < releases.len() {
            assert(unconditional(releases[i]));
        } else {
            assert(unconditional(acquired[i - releases.len()]));
        }
    }
    unconditional_releases(all, resource);
    covered_appended(releases, acquired, resource);
}

impl Accounted for QueryDecoderCaps {
    open spec fn awaits(self, context: (), call: Call) -> bool {
        match self {
            QueryDecoderCaps::Load { .. } => call == Call::LoadLibraries,
            QueryDecoderCaps::CreateContext { .. } => call is CtxCreate,
            QueryDecoderCaps::Enter { .. } => call is CtxPushCurrent,
            QueryDecoderCaps::Query => call is GetDecoderCaps,
        }
    }

    open spec fn due(self, releases: Seq<Release>) -> bool {
        all_unconditional(releases)
    }

    open spec fn held(self, context: (), call: Call, resource: Resource) -> int {
        0
    }

    open spec fn belongs(context: (), resource: Resource) -> int {
        0
    }

    open spec fn kept(output: crate::decode::DecoderCaps, resource: Resource) -> int {
        0
    }

    open spec fn refused(self, reply: Reply) -> bool {
        false
    }

    proof fn accounts(
        self,
        call: Call,
        before: (),
        reply: Reply,
        after: (),
        progress: Progress<Self, crate::decode::DecoderCaps>,
        releases: Seq<Release>,
        resource: Resource,
    ) {
        reveal_with_fuel(covered, 2);
        unconditionally_acquired(releases, progress.acquired@, resource);
    }
}

impl Accounted for QueryEncoderCaps {
    open spec fn awaits(self, context: (), call: Call) -> bool {
        match self {
            QueryEncoderCaps::Load { .. } => call == Call::LoadLibraries,
            QueryEncoderCaps::CreateContext { .. } => call is CtxCreate,
            QueryEncoderCaps::Enter { .. } => call is CtxPushCurrent,
            QueryEncoderCaps::CreateApiInstance { .. } => call is CreateApiInstance,
            QueryEncoderCaps::OpenSession { .. } => call is OpenEncodeSession,
            QueryEncoderCaps::Query { .. } => call is GetEncodeCaps,
        }
    }

    open spec fn due(self, releases: Seq<Release>) -> bool {
        all_unconditional(releases)
    }

    open spec fn held(self, context: (), call: Call, resource: Resource) -> int {
        0
    }

    open spec fn belongs(context: (), resource: Resource) -> int {
        0
    }

    open spec fn kept(output: crate::encode::EncoderCaps, resource: Resource) -> int {
        0
    }

    open spec fn refused(self, reply: Reply) -> bool {
        false
    }

    proof fn accounts(
        self,
        call: Call,
        before: (),
        reply: Reply,
        after: (),
        progress: Progress<Self, crate::encode::EncoderCaps>,
        releases: Seq<Release>,
        resource: Resource,
    ) {
        reveal_with_fuel(covered, 2);
        unconditionally_acquired(releases, progress.acquired@, resource);
    }
}

impl<'a> Accounted for EncodeFrame<'a> {
    open spec fn awaits(self, context: Encoder, call: Call) -> bool {
        match self {
            EncodeFrame::Enter { .. } => call is CtxPushCurrent,
            EncodeFrame::Allocate { .. } => call is MemAlloc,
            EncodeFrame::Upload { .. } => call is MemcpyHtoD,
            EncodeFrame::Register { .. } => call is RegisterResource,
            EncodeFrame::MapInput { .. } => call is MapInputResource,
            EncodeFrame::CreateBuffer { .. } => call is CreateBitstreamBuffer,
            EncodeFrame::Encode { .. } => call is EncodePicture,
            EncodeFrame::Lock { buffer } => call matches Call::LockBitstream { buffer: b, .. } && b
                == buffer,
        }
    }

    open spec fn due(self, releases: Seq<Release>) -> bool {
        all_unconditional(releases)
    }

    open spec fn held(self, context: Encoder, call: Call, resource: Resource) -> int {
        0
    }

    open spec fn belongs(context: Encoder, resource: Resource) -> int {
        0
    }

    open spec fn kept(output: (), resource: Resource) -> int {
        0
    }

    open spec fn refused(self, reply: Reply) -> bool {
        false
    }

    proof fn accounts(
        self,
        call: Call,
        before: Encoder,
        reply: Reply,
        after: Encoder,
        progress: Progress<Self, ()>,
        releases: Seq<Release>,
        resource: Resource,
    ) {
        reveal_with_fuel(covered, 2);
        unconditionally_acquired(releases, progress.acquired@, resource);
    }
}

impl Accounted for Reconfigure {
    open spec fn awaits(self, context: Encoder, call: Call) -> bool {
        match self {
            Reconfigure::Enter { .. } => call is CtxPushCurrent,
            Reconfigure::Apply { .. } => call is ReconfigureEncoder,
        }
    }

    open spec fn due(self, releases: Seq<Release>) -> bool {
        all_unconditional(releases)
    }

    open spec fn held(self, context: Encoder, call: Call, resource: Resource) -> int {
        0
    }

    open spec fn belongs(context: Encoder, resource: Resource) -> int {
        0
    }

    open spec fn kept(output: (), resource: Resource) -> int {
        0
    }

    open spec fn refused(self, reply: Reply) -> bool {
        false
    }

    proof fn accounts(
        self,
        call: Call,
        before: Encoder,
        reply: Reply,
        after: Encoder,
        progress: Progress<Self, ()>,
        releases: Seq<Release>,
        resource: Resource,
    ) {
        reveal_with_fuel(covered, 2);
        unconditionally_acquired(releases, progress.acquired@, resource);
    }
}

impl Accounted for SequenceParams {
    open spec fn awaits(self, context: Encoder, call: Call) -> bool {
        match self {
            SequenceParams::Enter => call is CtxPushCurrent,
            SequenceParams::Query => call is GetSequenceParams,
        }
    }

    open spec fn due(self, releases: Seq<Release>) -> bool {
        all_unconditional(releases)
    }

    open spec fn held(self, context: Encoder, call: Call, resource: Resource) -> int {
        0
    }

    open spec fn belongs(context: Encoder, resource: Resource) -> int {
        0
    }

    open spec fn kept(output: Vec<u8>, resource: Resource) -> int {
        0
    }

    open spec fn refused(self, reply: Reply) -> bool {
        false
    }

    proof fn accounts(
        self,
        call: Call,
        before: Encoder,
        reply: Reply,
        after: Encoder,
        progress: Progress<Self, Vec<u8>>,
        releases: Seq<Release>,
        resource: Resource,
    ) {
        reveal_with_fuel(covered, 2);
        unconditionally_acquired(releases, progress.acquired@, resource);
    }
}

impl Accounted for DecodePicture {
    open spec fn awaits(self, context: (), call: Call) -> bool {
        match self {
            DecodePicture::Enter { .. } => call is CtxPushCurrent,
            DecodePicture::Decode => call is DecodePicture,
        }
    }

    open spec fn due(self, releases: Seq<Release>) -> bool {
        all_unconditional(releases)
    }

    open spec fn held(self, context: (), call: Call, resource: Resource) -> int {
        0
    }

    open spec fn belongs(context: (), resource: Resource) -> int {
        0
    }

    open spec fn kept(output: (), resource: Resource) -> int {
        0
    }

    open spec fn refused(self, reply: Reply) -> bool {
        false
    }

    proof fn accounts(
        self,
        call: Call,
        before: (),
        reply: Reply,
        after: (),
        progress: Progress<Self, ()>,
        releases: Seq<Release>,
        resource: Resource,
    ) {
        reveal_with_fuel(covered, 2);
        unconditionally_acquired(releases, progress.acquired@, resource);
    }
}

impl Accounted for EndStream {
    open spec fn awaits(self, context: DecoderState, call: Call) -> bool {
        match self {
            EndStream::Parse => call is ParseVideoData,
            EndStream::Enter => call is CtxPushCurrent,
            EndStream::Synchronize => call is CtxSynchronize,
        }
    }

    open spec fn due(self, releases: Seq<Release>) -> bool {
        all_unconditional(releases)
    }

    open spec fn held(self, context: DecoderState, call: Call, resource: Resource) -> int {
        0
    }

    open spec fn belongs(context: DecoderState, resource: Resource) -> int {
        0
    }

    open spec fn kept(output: (), resource: Resource) -> int {
        0
    }

    open spec fn refused(self, reply: Reply) -> bool {
        false
    }

    proof fn accounts(
        self,
        call: Call,
        before: DecoderState,
        reply: Reply,
        after: DecoderState,
        progress: Progress<Self, ()>,
        releases: Seq<Release>,
        resource: Resource,
    ) {
        reveal_with_fuel(covered, 2);
        unconditionally_acquired(releases, progress.acquired@, resource);
    }
}

impl Accounted for DisplayPicture {
    open spec fn awaits(self, context: DecoderState, call: Call) -> bool {
        match self {
            DisplayPicture::Enter { .. } => call is CtxPushCurrent,
            DisplayPicture::MapPicture => call is MapVideoFrame,
            DisplayPicture::CopyLuma { .. } => call is CopyPlane,
            DisplayPicture::CopyChroma { .. } => call is CopyPlane,
            DisplayPicture::UnmapPicture { .. } => call is UnmapVideoFrame,
            DisplayPicture::Leave { .. } => call is CtxPopCurrent,
        }
    }

    open spec fn due(self, releases: Seq<Release>) -> bool {
        all_unconditional(releases)
    }

    /// Once the context is entered, it is to be left; and while a picture is mapped, it is to be
    /// unmapped.
    open spec fn held(self, context: DecoderState, call: Call, resource: Resource) -> int {
        (if self is Enter {
            0
        } else {
            count(Some(Resource::Current), resource)
        }) + (match self {
            DisplayPicture::CopyLuma { device_ptr, .. }
            | DisplayPicture::CopyChroma { device_ptr, .. } => count(
                Some(Resource::Picture(device_ptr)),
                resource,
            ),
            DisplayPicture::UnmapPicture { .. } => count(given_back(call), resource),
            _ => 0,
        })
    }

    open spec fn belongs(context: DecoderState, resource: Resource) -> int {
        0
    }

    open spec fn kept(output: (), resource: Resource) -> int {
        0
    }

    open spec fn refused(self, reply: Reply) -> bool {
        false
    }

    proof fn accounts(
        self,
        call: Call,
        before: DecoderState,
        reply: Reply,
        after: DecoderState,
        progress: Progress<Self, ()>,
        releases: Seq<Release>,
        resource: Resource,
    ) {
        reveal_with_fuel(covered, 2);
        unconditionally_acquired(releases, progress.acquired@, resource);
    }
}

impl Accounted for StartSequence {
    open spec fn awaits(self, context: DecoderState, call: Call) -> bool {
        match self {
            StartSequence::EnterToDestroy { .. } => call is CtxPushCurrent,
            StartSequence::Destroy { .. } => call == Call::DestroyDecoder {
                decoder: context@.decoder,
            },
            StartSequence::LeaveOld { destroyed, .. } => call is CtxPopCurrent && destroyed is Ok,
            StartSequence::EnterToCreate { .. } => call is CtxPushCurrent && context@.decoder
                == sys::NULL,
            StartSequence::Create { .. } => call is CreateDecoder && context@.decoder == sys::NULL,
            StartSequence::LeaveNew { .. } => call is CtxPopCurrent,
        }
    }

    open spec fn due(self, releases: Seq<Release>) -> bool {
        all_unconditional(releases)
    }

    /// Once the context is entered, it is to be left. A decoder that was destroyed is no longer
    /// on loan, though it belongs to the context until that is left.
    open spec fn held(self, context: DecoderState, call: Call, resource: Resource) -> int {
        (if self is EnterToDestroy || self is EnterToCreate {
            0
        } else {
            count(Some(Resource::Current), resource)
        }) - (if self is LeaveOld {
            count(Some(Resource::Decoder(context@.decoder)), resource)
        } else {
            0
        })
    }

    open spec fn belongs(context: DecoderState, resource: Resource) -> int {
        count(Some(Resource::Decoder(context@.decoder)), resource)
    }

    open spec fn kept(output: i32, resource: Resource) -> int {
        0
    }

    open spec fn refused(self, reply: Reply) -> bool {
        (self is Destroy || self is LeaveOld) && reply is Err
    }

    proof fn accounts(
        self,
        call: Call,
        before: DecoderState,
        reply: Reply,
        after: DecoderState,
        progress: Progress<Self, i32>,
        releases: Seq<Release>,
        resource: Resource,
    ) {
        reveal_with_fuel(covered, 2);
        unconditionally_acquired(releases, progress.acquired@, resource);
    }
}

proof fn one_more_release(releases: Seq<Release>, release: Release, resource: Resource)
    ensures
        covered(releases.push(release), resource) == covered(releases, resource) + returned(
            release,
            resource,
        ),
        spared(releases.push(release), resource) == spared(releases, resource) + (
        if release.only_on_failure() {
            returned(release, resource)
        } else {
            0
        }),
{
    assert(releases.push(release).drop_last() =~= releases);
}

/// What is due for release once the context of an encoder was created.
pub open spec fn due_with_context(ctx: u64) -> Seq<Release> {
    Seq::<Release>::empty().push(Release::OnFailure(Call::CtxDestroy { ctx }))
}

/// What is due for release once the session of an encoder was opened.
pub open spec fn due_with_session(ctx: u64, session: u64) -> Seq<Release> {
    due_with_context(ctx).push(
        Release::InContextOnFailure { ctx, call: Call::DestroyEncoder { session } },
    )
}

/// What is due for release while an encoder is being initialized.
pub open spec fn due_while_initializing(ctx: u64, session: u64) -> Seq<Release> {
    due_with_session(ctx, session).push(Release::Checked(Call::CtxPopCurrent))
}

impl Accounted for OpenEncoder {
    open spec fn awaits(self, context: (), call: Call) -> bool {
        match self {
            OpenEncoder::Load { .. } => call is LoadLibraries,
            OpenEncoder::CreateContext { .. } => call is CtxCreate,
            OpenEncoder::Enter { .. } => call is CtxPushCurrent,
            OpenEncoder::CreateApiInstance { .. } => call is CreateApiInstance,
            OpenEncoder::OpenSession { .. } => call is OpenEncodeSession,
            OpenEncoder::Leave { .. } => call is CtxPopCurrent,
            OpenEncoder::EnterAgain { .. } => call is CtxPushCurrent,
            OpenEncoder::Preset { .. } => call is GetEncodePresetConfig,
            OpenEncoder::Initialize { .. } => call is InitializeEncoder,
        }
    }

    open spec fn due(self, releases: Seq<Release>) -> bool {
        match self {
            OpenEncoder::Load { .. } | OpenEncoder::CreateContext { .. } => releases == Seq::<
                Release,
            >::empty(),
            OpenEncoder::Enter { ctx, .. }
            | OpenEncoder::CreateApiInstance { ctx, .. }
            | OpenEncoder::OpenSession { ctx, .. }
            | OpenEncoder::Leave { ctx, .. } => releases == due_with_context(ctx),
            OpenEncoder::EnterAgain { ctx, session, .. } => releases == due_with_session(
                ctx,
                session,
            ),
            OpenEncoder::Preset { ctx, session, .. }
            | OpenEncoder::Initialize { ctx, session, .. } => releases == due_while_initializing(
                ctx,
                session,
            ),
        }
    }

    /// While the session is being opened, the context is to be left; and once it is open, it is
    /// to be destroyed.
    open spec fn held(self, context: (), call: Call, resource: Resource) -> int {
        match self {
            OpenEncoder::CreateApiInstance { .. } | OpenEncoder::OpenSession { .. } => count(
                Some(Resource::Current),
                resource,
            ),
            OpenEncoder::Leave { opened, .. } => count(Some(Resource::Current), resource) + (
            match opened {
                Ok(session) => count(Some(Resource::Session(session)), resource),
                Err(_) => 0,
            }),
            _ => 0,
        }
    }

    open spec fn belongs(context: (), resource: Resource) -> int {
        0
    }

    open spec fn kept(output: Encoder, resource: Resource) -> int {
        count(Some(Resource::Context(output@.ctx)), resource) + count(
            Some(Resource::Session(output@.session)),
            resource,
        )
    }

    /// If the context cannot be left after the session was opened, the session is not destroyed.
    open spec fn refused(self, reply: Reply) -> bool {
        self matches OpenEncoder::Leave { opened: Ok(_), .. } && reply is Err
    }

    proof fn accounts(
        self,
        call: Call,
        before: (),
        reply: Reply,
        after: (),
        progress: Progress<Self, Encoder>,
        releases: Seq<Release>,
        resource: Resource,
    ) {
        let all = releases + progress.acquired@;
        if progress.acquired@.len() == 0 {
            assert(all =~= releases);
        } else {
            assert(all =~= releases.push(progress.acquired@[0]));
            one_more_release(releases, progress.acquired@[0], resource);
        }
        match self {
            OpenEncoder::EnterAgain { ctx, session, .. }
            | OpenEncoder::Preset { ctx, session, .. }
            | OpenEncoder::Initialize { ctx, session, .. } => {
                let none = Seq::<Release>::empty();
                one_more_release(none, due_with_context(ctx)[0], resource);
                one_more_release(
                    due_with_context(ctx),
                    due_with_session(ctx, session)[1],
                    resource,
                );
                one_more_release(
                    due_with_session(ctx, session),
                    Release::Checked(Call::CtxPopCurrent),
                    resource,
                );
            },
            _ => {},
        }
    }
}

impl Accounted for OpenDecoder {
    open spec fn awaits(self, context: (), call: Call) -> bool {
        match self {
            OpenDecoder::Load { .. } => call is LoadLibraries,
            OpenDecoder::CreateContext { .. } => call is CtxCreate,
            OpenDecoder::CreateLock { .. } => call is CtxLockCreate,
            OpenDecoder::CreateParser { .. } => call is CreateVideoParser,
        }
    }

    open spec fn due(self, releases: Seq<Release>) -> bool {
        match self {
            OpenDecoder::Load { .. } | OpenDecoder::CreateContext { .. } => releases == Seq::<
                Release,
            >::empty(),
            OpenDecoder::CreateLock { ctx, .. } => releases == due_with_context(ctx),
            OpenDecoder::CreateParser { ctx, ctx_lock, .. } => releases == due_with_context(
                ctx,
            ).push(Release::OnFailure(Call::CtxLockDestroy { lock: ctx_lock }))
                + unparsed_releases(ctx, ctx_lock),
        }
    }

    /// While the parser is being created, lock and context are due for release twice.
    open spec fn held(self, context: (), call: Call, resource: Resource) -> int {
        match self {
            OpenDecoder::CreateParser { ctx, ctx_lock, .. } => -covered(
                unparsed_releases(ctx, ctx_lock),
                resource,
            ),
            _ => 0,
        }
    }

    open spec fn belongs(context: (), resource: Resource) -> int {
        0
    }

    open spec fn kept(output: DecoderState, resource: Resource) -> int {
        count(Some(Resource::Context(output@.ctx)), resource) + count(
            Some(Resource::ContextLock(output@.ctx_lock)),
            resource,
        ) + count(Some(Resource::Parser(output@.parser)), resource)
    }

    /// If the parser cannot be created, lock and context are given back twice.
    open spec fn refused(self, reply: Reply) -> bool {
        self is CreateParser && reply is Err
    }

    proof fn accounts(
        self,
        call: Call,
        before: (),
        reply: Reply,
        after: (),
        progress: Progress<Self, DecoderState>,
        releases: Seq<Release>,
        resource: Resource,
    ) {
        let all = releases + progress.acquired@;
        let none = Seq::<Release>::empty();
        match self {
            OpenDecoder::CreateContext { .. } => {
                if reply is Ok {
                    assert(all =~= none.push(progress.acquired@[0]));
                    one_more_release(none, progress.acquired@[0], resource);
                } else {
                    assert(all =~= none);
                }
            },
            OpenDecoder::CreateLock { ctx, .. } => {
                one_more_release(none, due_with_context(ctx)[0], resource);
                if reply is Ok {
                    let lock = reply->Ok_0.handle_spec();
                    let guard = Release::OnFailure(Call::CtxLockDestroy { lock });
                    let guards = due_with_context(ctx).push(guard);
                    one_more_release(due_with_context(ctx), guard, resource);
                    assert(all =~= guards + unparsed_releases(ctx, lock));
                    covered_appended(guards, unparsed_releases(ctx, lock), resource);
                } else {
                    assert(all =~= releases);
                }
            },
            OpenDecoder::CreateParser { ctx, ctx_lock, .. } => {
                assert(all =~= releases);
                let guard = Release::OnFailure(Call::CtxLockDestroy { lock: ctx_lock });
                let guards = due_with_context(ctx).push(guard);
                one_more_release(none, due_with_context(ctx)[0], resource);
                one_more_release(due_with_context(ctx), guard, resource);
                covered_appended(guards, unparsed_releases(ctx, ctx_lock), resource);
                spared_when_conditional(all, resource);
                assert(!any_decisive(all));
            },
            _ => {
                assert(all =~= none);
            },
        }
    }
}

proof fn spared_when_conditional(releases: Seq<Release>, resource: Resource)
    requires
        forall|i: int| 0 <= i < releases.len() ==> (#[trigger] releases[i]).only_on_failure(),
    ensures
        spared(releases, resource) == covered(releases, resource),
    decreases releases.len(),
{
    if releases.len() > 0 {
        assert(releases[releases.len() - 1].only_on_failure());
        assert forall|i: int| 0 <= i < releases.drop_last().len() implies (
        #[trigger] releases.drop_last()[i]).only_on_failure() by {
            assert(releases[i].only_on_failure());
        }
        spared_when_conditional(releases.drop_last(), resource);
    }
}

impl Accounted for CreateStream {
    open spec fn awaits(self, context: (), call: Call) -> bool {
        match self {
            CreateStream::Load => call is LoadLibraries,
            CreateStream::Create => call is StreamCreate,
        }
    }

    open spec fn due(self, releases: Seq<Release>) -> bool {
        releases == Seq::<Release>::empty()
    }

    open spec fn held(self, context: (), call: Call, resource: Resource) -> int {
        0
    }

    open spec fn belongs(context: (), resource: Resource) -> int {
        0
    }

    open spec fn kept(output: CudaStream, resource: Resource) -> int {
        count(Some(Resource::Stream(output@)), resource)
    }

    open spec fn refused(self, reply: Reply) -> bool {
        false
    }

    proof fn accounts(
        self,
        call: Call,
        before: (),
        reply: Reply,
        after: (),
        progress: Progress<Self, CudaStream>,
        releases: Seq<Release>,
        resource: Resource,
    ) {
        assert(releases + progress.acquired@ =~= Seq::<Release>::empty());
    }
}

impl Accounted for AllocatePitched {
    open spec fn awaits(self, context: (), call: Call) -> bool {
        match self {
            AllocatePitched::Load { .. } => call is LoadLibraries,
            AllocatePitched::Allocate => call is MemAllocPitch,
        }
    }

    open spec fn due(self, releases: Seq<Release>) -> bool {
        releases == Seq::<Release>::empty()
    }

    open spec fn held(self, context: (), call: Call, resource: Resource) -> int {
        0
    }

    open spec fn belongs(context: (), resource: Resource) -> int {
        0
    }

    open spec fn kept(output: (u64, usize), resource: Resource) -> int {
        count(Some(Resource::Memory(output.0)), resource)
    }

    open spec fn refused(self, reply: Reply) -> bool {
        false
    }

    proof fn accounts(
        self,
        call: Call,
        before: (),
        reply: Reply,
        after: (),
        progress: Progress<Self, (u64, usize)>,
        releases: Seq<Release>,
        resource: Resource,
    ) {
        assert(releases + progress.acquired@ =~= Seq::<Release>::empty());
    }
}

impl Accounted for CopyMemory {
    open spec fn awaits(self, context: (), call: Call) -> bool {
        match self {
            CopyMemory::Load { .. } => call is LoadLibraries,
            CopyMemory::Copy => call is Memcpy2D,
        }
    }

    open spec fn due(self, releases: Seq<Release>) -> bool {
        releases == Seq::<Release>::empty()
    }

    open spec fn held(self, context: (), call: Call, resource: Resource) -> int {
        0
    }

    open spec fn belongs(context: (), resource: Resource) -> int {
        0
    }

    open spec fn kept(output: (), resource: Resource) -> int {
        0
    }

    open spec fn refused(self, reply: Reply) -> bool {
        false
    }

    proof fn accounts(
        self,
        call: Call,
        before: (),
        reply: Reply,
        after: (),
        progress: Progress<Self, ()>,
        releases: Seq<Release>,
        resource: Resource,
    ) {
        assert(releases + progress.acquired@ =~= Seq::<Release>::empty());
    }
}

impl Accounted for CountDevices {
    open spec fn awaits(self, context: (), call: Call) -> bool {
        match self {
            CountDevices::Load => call is LoadLibraries,
            CountDevices::Count => call is DeviceGetCount,
        }
    }

    open spec fn due(self, releases: Seq<Release>) -> bool {
        releases == Seq::<Release>::empty()
    }

    open spec fn held(self, context: (), call: Call, resource: Resource) -> int {
        0
    }

    open spec fn belongs(context: (), resource: Resource) -> int {
        0
    }

    open spec fn kept(output: i32, resource: Resource) -> int {
        0
    }

    open spec fn refused(self, reply: Reply) -> bool {
        false
    }

    proof fn accounts(
        self,
        call: Call,
        before: (),
        reply: Reply,
        after: (),
        progress: Progress<Self, i32>,
        releases: Seq<Release>,
        resource: Resource,
    ) {
        assert(releases + progress.acquired@ =~= Seq::<Release>::empty());
    }
}

impl Accounted for NameDevice {
    open spec fn awaits(self, context: (), call: Call) -> bool {
        match self {
            NameDevice::Load { .. } => call is LoadLibraries,
            NameDevice::Get => call is DeviceGet,
            NameDevice::Name => call is DeviceGetName,
        }
    }

    open spec fn due(self, releases: Seq<Release>) -> bool {
        releases == Seq::<Release>::empty()
    }

    open spec fn held(self, context: (), call: Call, resource: Resource) -> int {
        0
    }

    open spec fn belongs(context: (), resource: Resource) -> int {
        0
    }

    open spec fn kept(output: String, resource: Resource) -> int {
        0
    }

    open spec fn refused(self, reply: Reply) -> bool {
        false
    }

    proof fn accounts(
        self,
        call: Call,
        before: (),
        reply: Reply,
        after: (),
        progress: Progress<Self, String>,
        releases: Seq<Release>,
        resource: Resource,
    ) {
        assert(releases + progress.acquired@ =~= Seq::<Release>::empty());
    }
}

impl Accounted for SingleCall {
    open spec fn awaits(self, context: (), call: Call) -> bool {
        call is EncodePicture || call is StreamSynchronize
    }

    open spec fn due(self, releases: Seq<Release>) -> bool {
        releases == Seq::<Release>::empty()
    }

    open spec fn held(self, context: (), call: Call, resource: Resource) -> int {
        0
    }

    open spec fn belongs(context: (), resource: Resource) -> int {
        0
    }

    open spec fn kept(output: (), resource: Resource) -> int {
        0
    }

    open spec fn refused(self, reply: Reply) -> bool {
        false
    }

    proof fn accounts(
        self,
        call: Call,
        before: (),
        reply: Reply,
        after: (),
        progress: Progress<Self, ()>,
        releases: Seq<Release>,
        resource: Resource,
    ) {
        assert(releases + progress.acquired@ =~= Seq::<Release>::empty());
    }
}

impl<'a> Accounted for ParsePacket<'a> {
    open spec fn awaits(self, context: DecoderState, call: Call) -> bool {
        call is ParseVideoData
    }

    open spec fn due(self, releases: Seq<Release>) -> bool {
        releases == Seq::<Release>::empty()
    }

    open spec fn held(self, context: DecoderState, call: Call, resource: Resource) -> int {
        0
    }

    open spec fn belongs(context: DecoderState, resource: Resource) -> int {
        0
    }

    open spec fn kept(output: (), resource: Resource) -> int {
        0
    }

    open spec fn refused(self, reply: Reply) -> bool {
        false
    }

    proof fn accounts(
        self,
        call: Call,
        before: DecoderState,
        reply: Reply,
        after: DecoderState,
        progress: Progress<Self, ()>,
        releases: Seq<Release>,
        resource: Resource,
    ) {
        assert(releases + progress.acquired@ =~= Seq::<Release>::empty());
    }
}

/// How often `resource` is on loan to an operation, as its releases and its stage have it.
pub open spec fn on_loan<S: Accounted>(
    operation: OperationView<S>,
    context: S::Context,
    resource: Resource,
) -> int {
    let releases = operation.releases;
    match operation.phase {
        Phase::Forward { stage, call } => covered(releases, resource) + stage.held(
            context,
            call,
            resource,
        ),
        Phase::Releasing { release, outcome: Ok(output) } => covered(releases, resource) + returned(
            release,
            resource,
        ) - spared(releases, resource) + S::kept(output, resource),
        Phase::Releasing { release, outcome: Err(_) } => covered(releases, resource) + returned(
            release,
            resource,
        ),
        Phase::Finished => 0,
    }
}

/// Whether an operation that waits for the reply to `call` has its books in balance, and has only
/// releases that are made in any case.
pub open spec fn in_balance<S: Accounted>(
    operation: OperationView<S>,
    context: S::Context,
    call: Call,
) -> bool {
    &&& all_unconditional(operation.releases)
    &&& operation.phase matches Phase::Releasing { release, .. } ==> unconditional(release)
    &&& forall|resource: Resource| #[trigger]
        balanced(
            TurnView { operation, step: Step::<S::Output>::Call(call) },
            context,
            S::belongs(context, resource) + on_loan(operation, context, resource),
            resource,
        )
}

proof fn unwinding_stays_unconditional<S: Stage>(
    outcome: Result<S::Output, crate::error::Error>,
    releases: Seq<Release>,
)
    requires
        all_unconditional(releases),
    ensures
        ({
            let operation = unwound::<S>(outcome, releases).operation;
            &&& all_unconditional(operation.releases)
            &&& operation.phase matches Phase::Releasing { release, .. } ==> unconditional(release)
        }),
{
    if releases.len() > 0 {
        assert(unconditional(releases[releases.len() - 1]));
        let rest = releases.drop_last();
        assert forall|i: int| 0 <= i < rest.len() implies unconditional(#[trigger] rest[i]) by {
            assert(unconditional(releases[i]));
        }
    }
}

proof fn proceeding_stays_unconditional<S: Stage>(
    releases: Seq<Release>,
    progress: Progress<S, S::Output>,
)
    requires
        all_unconditional(releases),
        all_unconditional(progress.acquired@),
    ensures
        ({
            let operation = proceeded(releases, progress).operation;
            &&& all_unconditional(operation.releases)
            &&& operation.phase matches Phase::Releasing { release, .. } ==> unconditional(release)
        }),
{
    let all = releases + progress.acquired@;
    assert forall|i: int| 0 <= i < all.len() implies unconditional(#[trigger] all[i]) by {
        if i < releases.len() {
            assert(unconditional(releases[i]));
        } else {
            assert(unconditional(progress.acquired@[i - releases.len()]));
        }
    }
    match progress.next {
        Next::Call { .. } => {},
        Next::Succeed(output) => unwinding_stays_unconditional::<S>(Ok(output), all),
        Next::Fail(error) => unwinding_stays_unconditional::<S>(Err(error), all),
    }
}

/// What a step does to the books of an operation that is part of another one, keeps nothing and
/// has only releases that are made in any case.
proof fn inner_step_is_balanced<S: Accounted>(
    operation: OperationView<S>,
    context: S::Context,
    call: Call,
    reply: Reply,
    turn: TurnView<S>,
    resource: Resource,
)
    requires
        in_balance(operation, context, call),
        resumes(operation, context, reply, context, turn),
        operation.phase matches Phase::Forward { stage, .. } ==> {
            &&& !stage.refused(reply)
            &&& forall|progress: Progress<S, S::Output>| #[trigger]
                stage.moves(context, reply, context, progress) ==> all_unconditional(
                    progress.acquired@,
                )
        },
        forall|r: Resource| #[trigger] S::belongs(context, r) == 0,
        forall|output: S::Output, r: Resource| #[trigger] S::kept(output, r) == 0,
    ensures
        on_loan(operation, context, resource) + change(call, reply, resource) == on_loan(
            turn.operation,
            context,
            resource,
        ),
        turn.step matches Step::Call(next) ==> in_balance(turn.operation, context, next),
        turn.step is Done ==> on_loan(turn.operation, context, resource) == 0,
{
    match operation.phase {
        Phase::Forward { stage, .. } => {
            let progress = choose|progress: Progress<S, S::Output>|
                #![trigger stage.moves(context, reply, context, progress)]
                stage.moves(context, reply, context, progress) && turn == proceeded(
                    operation.releases,
                    progress,
                );
            proceeding_stays_unconditional(operation.releases, progress);
        },
        Phase::Releasing { release, outcome } => {
            unwinding_stays_unconditional::<S>(
                outcome_after(release, outcome, reply),
                operation.releases,
            );
        },
        Phase::Finished => {},
    }
    let waiting = TurnView { operation, step: Step::<S::Output>::Call(call) };
    let event = Event { call, before: context, reply, after: context, turn };
    assert forall|r: Resource|
        balanced(turn, context, #[trigger] on_loan(turn.operation, context, r), r) && on_loan(
            turn.operation,
            context,
            r,
        ) == on_loan(operation, context, r) + change(call, reply, r) by {
        let loans = S::belongs(context, r) + on_loan(operation, context, r);
        assert(balanced(waiting, context, loans, r));
        step_is_balanced(waiting, event, loans, r);
    }
    assert(balanced(turn, context, on_loan(turn.operation, context, resource), resource));
    if let Step::Call(next) = turn.step {
        assert forall|r: Resource| #[trigger]
            balanced(
                TurnView { operation: turn.operation, step: Step::<S::Output>::Call(next) },
                context,
                S::belongs(context, r) + on_loan(turn.operation, context, r),
                r,
            ) by {
            assert(balanced(turn, context, on_loan(turn.operation, context, r), r));
        }
    }
}

proof fn a_codec_starts_in_balance(
    progress: Progress<SurveyCodecs, Vec<CodecInfo>>,
    device_id: i32,
    found: Seq<CodecInfoView>,
    resource: Resource,
)
    requires
        continues(progress, device_id, found),
    ensures
        progress.next matches Next::Call { stage, call } ==> {
            &&& stage.awaits((), call)
            &&& stage.held((), call, resource) == 0
        },
{
}

/// A survey asks in the name of two queries, one after the other. What these have on loan is all
/// that it has on loan.
impl Accounted for SurveyCodecs {
    open spec fn awaits(self, context: (), call: Call) -> bool {
        match self {
            SurveyCodecs::Load { .. } => call == Call::LoadLibraries,
            SurveyCodecs::Decoding { query, .. } => in_balance(query@, (), call),
            SurveyCodecs::Encoding { query, .. } => in_balance(query@, (), call),
        }
    }

    open spec fn due(self, releases: Seq<Release>) -> bool {
        releases == Seq::<Release>::empty()
    }

    open spec fn held(self, context: (), call: Call, resource: Resource) -> int {
        match self {
            SurveyCodecs::Load { .. } => 0,
            SurveyCodecs::Decoding { query, .. } => on_loan(query@, (), resource),
            SurveyCodecs::Encoding { query, .. } => on_loan(query@, (), resource),
        }
    }

    open spec fn belongs(context: (), resource: Resource) -> int {
        0
    }

    open spec fn kept(output: Vec<CodecInfo>, resource: Resource) -> int {
        0
    }

    open spec fn refused(self, reply: Reply) -> bool {
        false
    }

    proof fn accounts(
        self,
        call: Call,
        before: (),
        reply: Reply,
        after: (),
        progress: Progress<Self, Vec<CodecInfo>>,
        releases: Seq<Release>,
        resource: Resource,
    ) {
        assert(releases + progress.acquired@ =~= progress.acquired@);
        match self {
            SurveyCodecs::Load { device_id } => {
                if reply is Ok {
                    a_codec_starts_in_balance(progress, device_id, Seq::empty(), resource);
                }
            },
            SurveyCodecs::Decoding { device_id, found, query } => {
                let earlier = infos(found@);
                let turn = choose|turn: TurnView<QueryDecoderCaps>| #[trigger]
                    resumes(query@, (), reply, (), turn) && decoding_moves(
                        progress,
                        device_id,
                        earlier,
                        turn,
                    );
                inner_step_is_balanced(query@, (), call, reply, turn, resource);
                if let Step::Done(caps) = turn.step {
                    let codec = all_codecs()[earlier.len() as int];
                    if codec.encoder_codec() is None {
                        let info = CodecInfoView {
                            codec,
                            decoding: decoding_info(caps),
                            encoding: encoding_info(codec, None),
                        };
                        a_codec_starts_in_balance(
                            progress,
                            device_id,
                            earlier.push(info),
                            resource,
                        );
                    }
                }
            },
            SurveyCodecs::Encoding { device_id, found, decoding, codec, query } => {
                let earlier = infos(found@);
                let turn = choose|turn: TurnView<QueryEncoderCaps>| #[trigger]
                    resumes(query@, (), reply, (), turn) && encoding_moves(
                        progress,
                        device_id,
                        earlier,
                        decoding,
                        codec,
                        turn,
                    );
                inner_step_is_balanced(query@, (), call, reply, turn, resource);
                if let Step::Done(caps) = turn.step {
                    let info = CodecInfoView {
                        codec,
                        decoding,
                        encoding: encoding_info(codec, Some(caps)),
                    };
                    a_codec_starts_in_balance(progress, device_id, earlier.push(info), resource);
                }
            },
        }
    }
}

/// How often `resource` is one of the handles of a decoder.
pub open spec fn owned_by_decoder(state: DecoderStateView, resource: Resource) -> int {
    count(Some(Resource::Context(state.ctx)), resource) + count(
        Some(Resource::ContextLock(state.ctx_lock)),
        resource,
    ) + count(Some(Resource::Decoder(state.decoder)), resource) + count(
        Some(Resource::Parser(state.parser)),
        resource,
    )
}

/// How often `resource` is one of the handles of an encoder.
pub open spec fn owned_by_encoder(encoder: EncoderView, resource: Resource) -> int {
    count(Some(Resource::Context(encoder.ctx)), resource) + count(
        Some(Resource::Session(encoder.session)),
        resource,
    )
}

proof fn a_taking_down_is_balanced(
    releases: Seq<Release>,
    events: Seq<Event<SingleCall>>,
    resource: Resource,
)
    requires
        events.len() > 0,
        all_return(releases),
        forall|i: int|
            0 <= i < releases.len() ==> !decisive(#[trigger] releases[i])
                && !releases[i].only_on_failure(),
        is_run(unwound::<SingleCall>(Ok(()), releases), events),
        !any_refused(unwound::<SingleCall>(Ok(()), releases), events),
        events.last().turn.step is Done,
    ensures
        balance(events, resource) == -covered(releases, resource),
{
    nothing_is_spared(releases, resource);
    unwinding_is_balanced::<SingleCall>(
        Ok(()),
        releases,
        (),
        covered(releases, resource),
        resource,
    );
    run_is_balanced(
        unwound::<SingleCall>(Ok(()), releases),
        events,
        covered(releases, resource),
        resource,
    );
}

proof fn nothing_is_spared(releases: Seq<Release>, resource: Resource)
    requires
        forall|i: int|
            0 <= i < releases.len() ==> !decisive(#[trigger] releases[i])
                && !releases[i].only_on_failure(),
    ensures
        spared(releases, resource) == 0,
        !any_decisive(releases),
        decided_first(releases),
    decreases releases.len(),
{
    if releases.len() > 0 {
        let rest = releases.drop_last();
        assert(!releases[releases.len() - 1].only_on_failure());
        assert forall|i: int| 0 <= i < rest.len() implies !decisive(#[trigger] rest[i])
            && !rest[i].only_on_failure() by {
            assert(!decisive(releases[i]));
        }
        nothing_is_spared(rest, resource);
    }
}

/// A decoder that is taken down gives back its context, its lock, its hardware decoder and its
/// parser, each once and nothing else, whatever comes of the calls; unless the context cannot be
/// entered in order to destroy the hardware decoder.
pub proof fn a_decoder_gives_back_what_it_has(
    state: DecoderStateView,
    events: Seq<Event<SingleCall>>,
    resource: Resource,
)
    requires
        events.len() > 0,
        is_run(unwound::<SingleCall>(Ok(()), closing_releases(state)), events),
        !any_refused(unwound::<SingleCall>(Ok(()), closing_releases(state)), events),
        events.last().turn.step is Done,
    ensures
        balance(events, resource) == -owned_by_decoder(state, resource),
{
    let none = Seq::<Release>::empty();
    let context = if state.ctx != sys::NULL {
        seq![Release::Always(Call::CtxDestroy { ctx: state.ctx })]
    } else {
        none
    };
    let lock = if state.ctx_lock != sys::NULL {
        seq![Release::Always(Call::CtxLockDestroy { lock: state.ctx_lock })]
    } else {
        none
    };
    let decoder = if state.decoder != sys::NULL {
        seq![
            Release::InContext {
                ctx: state.ctx,
                call: Call::DestroyDecoder { decoder: state.decoder },
            },
        ]
    } else {
        none
    };
    let parser = if state.parser != sys::NULL {
        seq![Release::Always(Call::DestroyVideoParser { parser: state.parser })]
    } else {
        none
    };
    reveal_with_fuel(covered, 2);
    assert(closing_releases(state) =~= context + lock + decoder + parser);
    covered_appended(context + lock + decoder, parser, resource);
    covered_appended(context + lock, decoder, resource);
    covered_appended(context, lock, resource);
    assert(covered(context, resource) == count(Some(Resource::Context(state.ctx)), resource));
    assert(covered(lock, resource) == count(
        Some(Resource::ContextLock(state.ctx_lock)),
        resource,
    ));
    assert(covered(decoder, resource) == count(Some(Resource::Decoder(state.decoder)), resource));
    assert(covered(parser, resource) == count(Some(Resource::Parser(state.parser)), resource));
    a_taking_down_is_balanced(closing_releases(state), events, resource);
}

/// An encoder that is taken down gives back its session and its context, each once and nothing
/// else, whatever comes of the calls; unless the context cannot be entered in order to destroy the
/// session.
pub proof fn an_encoder_gives_back_what_it_has(
    encoder: EncoderView,
    events: Seq<Event<SingleCall>>,
    resource: Resource,
)
    requires
        events.len() > 0,
        is_run(
            unwound::<SingleCall>(Ok(()), crate::encoder::closing_releases(encoder)),
            events,
        ),
        !any_refused(
            unwound::<SingleCall>(Ok(()), crate::encoder::closing_releases(encoder)),
            events,
        ),
        events.last().turn.step is Done,
    ensures
        balance(events, resource) == -owned_by_encoder(encoder, resource),
{
    let releases = crate::encoder::closing_releases(encoder);
    reveal_with_fuel(covered, 3);
    assert(releases.drop_last() =~= seq![releases[0]]);
    assert(releases.drop_last().drop_last() =~= Seq::empty());
    a_taking_down_is_balanced(releases, events, resource);
}

} // verus!
