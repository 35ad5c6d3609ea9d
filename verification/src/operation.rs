//! Operations that alternate driver calls and decisions.
//!
//! An [`Operation`] asks for one driver call at a time. It goes forward through its stages until
//! it succeeds or fails, and then releases, in reverse order, what it has acquired on the way.

use vstd::prelude::*;

use crate::driver::Call;
use crate::driver::Reply;
use crate::error::Error;

verus! {

/// Something to be undone when an operation comes to its end.
#[derive(Debug, Clone, Copy, PartialEq, Eq)]
pub enum Release {
    /// Made in any case. Its result is ignored.
    Always(Call),
    /// Made only if the operation fails. Its result is ignored.
    OnFailure(Call),
    /// Made in any case. If it fails, its error is what the operation returns.
    Checked(Call),
    /// Made in any case. If it fails although all else went well, its error is what the operation
    /// returns.
    CheckedOnSuccess(Call),
    /// Made with the context `ctx` current, if that context can be entered. All results are
    /// ignored.
    InContext { ctx: u64, call: Call },
    /// As `InContext`, but only if the operation fails.
    InContextOnFailure { ctx: u64, call: Call },
}

impl Release {
    /// Whether the release is dropped when the operation succeeds.
    pub open spec fn only_on_failure(self) -> bool {
        self is OnFailure || self is InContextOnFailure
    }

    /// The call that the release begins with.
    pub open spec fn first_call(self) -> Call {
        match self {
            Release::Always(call) => call,
            Release::OnFailure(call) => call,
            Release::Checked(call) => call,
            Release::CheckedOnSuccess(call) => call,
            Release::InContext { ctx, .. } => Call::CtxPushCurrent { ctx },
            Release::InContextOnFailure { ctx, .. } => Call::CtxPushCurrent { ctx },
        }
    }

    fn begin(&self) -> (call: Call)
        ensures
            call == self.first_call(),
    {
        match *self {
            Release::Always(call) => call,
            Release::OnFailure(call) => call,
            Release::Checked(call) => call,
            Release::CheckedOnSuccess(call) => call,
            Release::InContext { ctx, .. } => Call::CtxPushCurrent { ctx },
            Release::InContextOnFailure { ctx, .. } => Call::CtxPushCurrent { ctx },
        }
    }
}

/// What an operation wants next.
#[derive(Debug)]
pub enum Step<R> {
    /// Make this call, and resume the operation with the reply.
    Call(Call),
    /// Nothing: the operation has come to its end.
    Done(Result<R, Error>),
}

/// What a stage does about the reply to its call.
pub enum Next<S, R> {
    /// Go on: the next stage waits for the reply to `call`.
    Call { stage: S, call: Call },
    /// Succeed with a result.
    Succeed(R),
    /// Fail.
    Fail(Error),
}

/// How a stage moves the operation on: what there is to release from now on, and what comes next.
pub struct Progress<S, R> {
    pub acquired: Vec<Release>,
    pub next: Next<S, R>,
}

impl<S, R> Progress<S, R> {
    /// Whether the progress consists of these two parts.
    pub open spec fn is(self, acquired: Seq<Release>, next: Next<S, R>) -> bool {
        self.acquired@ == acquired && self.next == next
    }

    pub(crate) fn call(stage: S, call: Call) -> (progress: Self)
        ensures
            progress.is(Seq::empty(), Next::Call { stage, call }),
    {
        Progress { acquired: Vec::new(), next: Next::Call { stage, call } }
    }

    pub(crate) fn acquire(release: Release, stage: S, call: Call) -> (progress: Self)
        ensures
            progress.is(seq![release], Next::Call { stage, call }),
    {
        let acquired = vec![release];
        assert(acquired@ =~= seq![release]);
        Progress { acquired, next: Next::Call { stage, call } }
    }

    pub(crate) fn succeed(output: R) -> (progress: Self)
        ensures
            progress.is(Seq::empty(), Next::Succeed(output)),
    {
        Progress { acquired: Vec::new(), next: Next::Succeed(output) }
    }

    pub(crate) fn fail(error: Error) -> (progress: Self)
        ensures
            progress.is(Seq::empty(), Next::Fail(error)),
    {
        Progress { acquired: Vec::new(), next: Next::Fail(error) }
    }
}

/// The forward part of an operation. A value of the type is a stage that waits for a reply.
pub trait Stage: Sized {
    /// What the operation works on, beyond its own stages.
    type Context;

    /// What the operation results in.
    type Output;

    /// Whether the stage can take the reply without exceeding the limits of machine integers.
    spec fn admits(self, context: Self::Context, reply: Reply) -> bool;

    /// How the stage moves on, and what it makes of the context.
    spec fn moves(
        self,
        before: Self::Context,
        reply: Reply,
        after: Self::Context,
        progress: Progress<Self, Self::Output>,
    ) -> bool;

    fn advance(self, context: &mut Self::Context, reply: Reply) -> (progress: Progress<
        Self,
        Self::Output,
    >)
        requires
            self.admits(*old(context), reply),
        ensures
            self.moves(*old(context), reply, *final(context), progress),
    ;
}

/// A stage whose call may take data of the host, of which the call itself says only the size.
pub trait Carrier: Stage {
    /// The data that the call takes, if it takes any.
    spec fn payload(self) -> Option<Seq<u8>>;

    fn data(&self) -> (data: Option<&[u8]>)
        ensures
            data is Some == self.payload() is Some,
            data is Some ==> data->0@ == self.payload()->0,
    ;
}

/// Where an operation stands.
pub enum Phase<S: Stage> {
    /// A stage waits for the reply to `call`.
    Forward { stage: S, call: Call },
    /// The outcome is known, and a release is under way.
    Releasing { release: Release, outcome: Result<S::Output, Error> },
    /// It is over.
    Finished,
}

/// A sequence of driver calls with decisions between them.
pub struct Operation<S: Stage> {
    pub phase: Phase<S>,
    pub releases: Vec<Release>,
}

/// The state of an [`Operation`].
#[verifier::ext_equal]
pub struct OperationView<S: Stage> {
    pub phase: Phase<S>,
    pub releases: Seq<Release>,
}

impl<S: Stage> View for Operation<S> {
    type V = OperationView<S>;

    open spec fn view(&self) -> OperationView<S> {
        OperationView { phase: self.phase, releases: self.releases@ }
    }
}

impl<S: Carrier> OperationView<S> {
    /// The data that goes with the call that the operation waits for.
    pub open spec fn payload(self) -> Option<Seq<u8>> {
        match self.phase {
            Phase::Forward { stage, .. } => stage.payload(),
            _ => None,
        }
    }
}

impl<S: Carrier> Operation<S> {
    /// The data that goes with the call that the operation waits for.
    pub fn payload(&self) -> (data: Option<&[u8]>)
        ensures
            data is Some == self@.payload() is Some,
            data is Some ==> data->0@ == self@.payload()->0,
    {
        match &self.phase {
            Phase::Forward { stage, .. } => stage.data(),
            _ => None,
        }
    }
}

/// An operation together with what it wants next.
pub struct Turn<S: Stage> {
    pub operation: Operation<S>,
    pub step: Step<S::Output>,
}

/// What a [`Turn`] is.
#[verifier::ext_equal]
pub struct TurnView<S: Stage> {
    pub operation: OperationView<S>,
    pub step: Step<S::Output>,
}

impl<S: Stage> View for Turn<S> {
    type V = TurnView<S>;

    open spec fn view(&self) -> TurnView<S> {
        TurnView { operation: self.operation@, step: self.step }
    }
}

/// The turn of an operation that waits in `stage` for the reply to `call`.
pub open spec fn forward<S: Stage>(stage: S, call: Call, releases: Seq<Release>) -> TurnView<S> {
    TurnView {
        operation: OperationView { phase: Phase::Forward { stage, call }, releases },
        step: Step::Call(call),
    }
}

/// The turn of an operation that is over.
pub open spec fn finished<S: Stage>(outcome: Result<S::Output, Error>) -> TurnView<S> {
    TurnView {
        operation: OperationView { phase: Phase::Finished, releases: Seq::empty() },
        step: Step::Done(outcome),
    }
}

/// The turn of an operation whose outcome is known: the latest release comes first.
pub open spec fn unwound<S: Stage>(
    outcome: Result<S::Output, Error>,
    releases: Seq<Release>,
) -> TurnView<S>
    decreases releases.len(),
{
    if releases.len() == 0 {
        finished(outcome)
    } else if releases.last().only_on_failure() && outcome is Ok {
        unwound(outcome, releases.drop_last())
    } else {
        TurnView {
            operation: OperationView {
                phase: Phase::Releasing { release: releases.last(), outcome },
                releases: releases.drop_last(),
            },
            step: Step::Call(releases.last().first_call()),
        }
    }
}

/// The outcome of an operation after a release was answered.
pub open spec fn outcome_after<R>(
    release: Release,
    outcome: Result<R, Error>,
    reply: Reply,
) -> Result<R, Error> {
    match (release, outcome, reply) {
        (Release::Checked(_), _, Err(error)) => Err(error),
        (Release::CheckedOnSuccess(_), Ok(_), Err(error)) => Err(error),
        _ => outcome,
    }
}

/// What is left to release after a release was answered.
pub open spec fn releases_after(
    release: Release,
    releases: Seq<Release>,
    reply: Reply,
) -> Seq<Release> {
    match release {
        Release::InContext { call, .. } | Release::InContextOnFailure { call, .. } => if reply is Ok {
            releases.push(Release::Always(Call::CtxPopCurrent)).push(Release::Always(call))
        } else {
            releases
        },
        _ => releases,
    }
}

/// How an operation moves on from a stage.
pub open spec fn proceeded<S: Stage>(
    releases: Seq<Release>,
    progress: Progress<S, S::Output>,
) -> TurnView<S> {
    let releases = releases + progress.acquired@;
    match progress.next {
        Next::Call { stage, call } => forward(stage, call, releases),
        Next::Succeed(output) => unwound(Ok(output), releases),
        Next::Fail(error) => unwound(Err(error), releases),
    }
}

/// Whether `turn` is how an operation goes on when it gets `reply`, and `after` what then has
/// become of the context.
pub open spec fn resumes<S: Stage>(
    operation: OperationView<S>,
    before: S::Context,
    reply: Reply,
    after: S::Context,
    turn: TurnView<S>,
) -> bool {
    match operation.phase {
        Phase::Forward { stage, .. } => exists|progress: Progress<S, S::Output>|
            #![trigger stage.moves(before, reply, after, progress)]
            stage.moves(before, reply, after, progress) && turn == proceeded(
                operation.releases,
                progress,
            ),
        Phase::Releasing { release, outcome } => after == before && turn == unwound::<S>(
            outcome_after(release, outcome, reply),
            releases_after(release, operation.releases, reply),
        ),
        Phase::Finished => false,
    }
}

fn unwind<S: Stage>(outcome: Result<S::Output, Error>, releases: Vec<Release>) -> (turn: Turn<S>)
    ensures
        turn@ == unwound::<S>(outcome, releases@),
    decreases releases@.len(),
{
    let mut releases = releases;
    match releases.pop() {
        None => Turn {
            operation: Operation { phase: Phase::Finished, releases },
            step: Step::Done(outcome),
        },
        Some(release) => {
            let skipped = match (&release, &outcome) {
                (Release::OnFailure(_), Ok(_)) => true,
                (Release::InContextOnFailure { .. }, Ok(_)) => true,
                _ => false,
            };
            if skipped {
                unwind(outcome, releases)
            } else {
                let step = Step::Call(release.begin());
                Turn {
                    operation: Operation { phase: Phase::Releasing { release, outcome }, releases },
                    step,
                }
            }
        },
    }
}

impl<S: Stage> Turn<S> {
    /// Starts an operation in `stage`, which waits for the reply to `call`.
    pub fn start(stage: S, call: Call) -> (turn: Self)
        ensures
            turn@ == forward(stage, call, Seq::empty()),
    {
        Turn {
            operation: Operation { phase: Phase::Forward { stage, call }, releases: Vec::new() },
            step: Step::Call(call),
        }
    }

    /// An operation that is over before it has begun.
    pub fn refuse(error: Error) -> (turn: Self)
        ensures
            turn@ == finished::<S>(Err(error)),
    {
        Turn {
            operation: Operation { phase: Phase::Finished, releases: Vec::new() },
            step: Step::Done(Err(error)),
        }
    }

    /// Starts an operation that consists of releases only.
    pub fn release(output: S::Output, releases: Vec<Release>) -> (turn: Self)
        ensures
            turn@ == unwound::<S>(Ok(output), releases@),
    {
        unwind(Ok(output), releases)
    }
}

impl<S: Stage> Operation<S> {
    /// Whether the operation waits for a reply that it can take.
    pub open spec fn accepts(self, context: S::Context, reply: Reply) -> bool {
        match self.phase {
            Phase::Forward { stage, .. } => stage.admits(context, reply),
            Phase::Releasing { .. } => true,
            Phase::Finished => false,
        }
    }

    /// Goes on with the reply to the call that the operation has asked for.
    pub fn resume(self, context: &mut S::Context, reply: Reply) -> (turn: Turn<S>)
        requires
            self.accepts(*old(context), reply),
        ensures
            resumes(self@, *old(context), reply, *final(context), turn@),
    {
        let Operation { phase, releases } = self;
        let mut releases = releases;
        match phase {
            Phase::Forward { stage, call: _ } => {
                let ghost before = *context;
                let progress = stage.advance(context, reply);
                let ghost held = releases@;
                let ghost moved = progress;
                assert(stage.moves(before, reply, *context, moved));
                let Progress { acquired, next } = progress;
                let mut acquired = acquired;
                releases.append(&mut acquired);
                assert(releases@ == held + moved.acquired@);
                match next {
                    Next::Call { stage, call } => Turn {
                        operation: Operation { phase: Phase::Forward { stage, call }, releases },
                        step: Step::Call(call),
                    },
                    Next::Succeed(output) => unwind(Ok(output), releases),
                    Next::Fail(error) => unwind(Err(error), releases),
                }
            },
            Phase::Releasing { release, outcome } => {
                let entered = match &reply {
                    Ok(_) => true,
                    Err(_) => false,
                };
                match release {
                    Release::InContext { call, .. } | Release::InContextOnFailure { call, .. } => {
                        if entered {
                            releases.push(Release::Always(Call::CtxPopCurrent));
                            releases.push(Release::Always(call));
                        }
                    },
                    _ => {},
                }
                let outcome = match (release, outcome, reply) {
                    (Release::Checked(_), _, Err(error)) => Err(error),
                    (Release::CheckedOnSuccess(_), Ok(_), Err(error)) => Err(error),
                    (_, outcome, _) => outcome,
                };
                unwind(outcome, releases)
            },
            Phase::Finished => vstd::pervasive::unreached(),
        }
    }
}

/// The only stage of an operation that consists of one call, or of releases alone.
pub struct SingleCall;

impl Stage for SingleCall {
    type Context = ();

    type Output = ();

    open spec fn admits(self, context: (), reply: Reply) -> bool {
        true
    }

    open spec fn moves(self, before: (), reply: Reply, after: (), progress: Progress<
        Self,
        (),
    >) -> bool {
        match reply {
            Ok(_) => progress.is(Seq::empty(), Next::Succeed(())),
            Err(error) => progress.is(Seq::empty(), Next::Fail(error)),
        }
    }

    fn advance(self, context: &mut (), reply: Reply) -> (progress: Progress<Self, ()>) {
        match reply {
            Ok(_) => Progress::succeed(()),
            Err(error) => Progress::fail(error),
        }
    }
}

} // verus!
