//! Runs of operations: which calls they make, and what comes of them.

use vstd::prelude::*;

use crate::driver::Call;
use crate::driver::Reply;
use crate::error::Error;
use crate::operation::forward;
use crate::operation::outcome_after;
use crate::operation::proceeded;
use crate::operation::releases_after;
use crate::operation::resumes;
use crate::operation::unwound;
use crate::operation::Next;
use crate::operation::Phase;
use crate::operation::Progress;
use crate::operation::Release;
use crate::operation::Stage;
use crate::operation::Step;
use crate::operation::TurnView;

verus! {

/// A call that an operation has asked for, the reply to it, and what followed.
pub struct Event<S: Stage> {
    pub call: Call,
    /// The context when the reply came.
    pub before: S::Context,
    pub reply: Reply,
    /// The context when the reply had been dealt with.
    pub after: S::Context,
    pub turn: TurnView<S>,
}

/// The turn of an operation after events.
pub open spec fn last_turn<S: Stage>(start: TurnView<S>, events: Seq<Event<S>>) -> TurnView<S> {
    if events.len() == 0 {
        start
    } else {
        events.last().turn
    }
}

/// Whether events are what an operation goes through from `start` on: each call is the one that
/// was asked for, and each turn is how the operation goes on.
pub open spec fn is_run<S: Stage>(start: TurnView<S>, events: Seq<Event<S>>) -> bool
    decreases events.len(),
{
    events.len() > 0 ==> {
        let earlier = events.drop_last();
        let event = events.last();
        let turn = last_turn(start, earlier);
        &&& is_run(start, earlier)
        &&& earlier.len() > 0 ==> event.before == earlier.last().after
        &&& turn.step == Step::<S::Output>::Call(event.call)
        &&& resumes(turn.operation, event.before, event.reply, event.after, event.turn)
    }
}

/// Whether a release consists of one call that is made in any case.
pub open spec fn simple(release: Release) -> bool {
    release is Always || release is Checked || release is CheckedOnSuccess
}

/// The outcome of an operation after some of its releases were answered.
pub open spec fn outcome_of<R>(
    outcome: Result<R, Error>,
    releases: Seq<Release>,
    replies: Seq<Reply>,
) -> Result<R, Error>
    decreases replies.len(),
{
    if replies.len() == 0 {
        outcome
    } else {
        let earlier = replies.drop_last();
        outcome_after(
            releases[releases.len() - replies.len()],
            outcome_of(outcome, releases, earlier),
            replies.last(),
        )
    }
}

/// The replies in a run.
pub open spec fn replies<S: Stage>(events: Seq<Event<S>>) -> Seq<Reply> {
    events.map_values(|event: Event<S>| event.reply)
}

/// When its outcome is known, an operation makes its releases in reverse order, each once, and
/// then it ends. Those whose failure counts decide on the outcome.
pub proof fn releases_come_in_reverse_order<S: Stage>(
    outcome: Result<S::Output, Error>,
    releases: Seq<Release>,
    events: Seq<Event<S>>,
)
    requires
        forall|i: int| 0 <= i < releases.len() ==> simple(#[trigger] releases[i]),
        is_run(unwound::<S>(outcome, releases), events),
        events.len() <= releases.len(),
    ensures
        forall|i: int|
            0 <= i < events.len() ==> (#[trigger] events[i]).call == releases[releases.len() - 1
                - i].first_call(),
        last_turn(unwound::<S>(outcome, releases), events) == unwound::<S>(
            outcome_of(outcome, releases, replies(events)),
            releases.take(releases.len() - events.len()),
        ),
    decreases events.len(),
{
    let start = unwound::<S>(outcome, releases);
    if events.len() == 0 {
        assert(releases.take(releases.len() as int) =~= releases);
    } else {
        let earlier = events.drop_last();
        let event = events.last();
        releases_come_in_reverse_order::<S>(outcome, releases, earlier);
        let left = releases.take(releases.len() - earlier.len());
        assert(left.last() == releases[releases.len() - 1 - earlier.len()]);
        assert(simple(releases[releases.len() - 1 - earlier.len()]));
        assert(left.drop_last() =~= releases.take(releases.len() - events.len()));
        assert(replies(events).drop_last() =~= replies(earlier));
        assert forall|i: int| 0 <= i < events.len() implies (#[trigger] events[i]).call
            == releases[releases.len() - 1 - i].first_call() by {
            if i < earlier.len() {
                assert(earlier[i] == events[i]);
            }
        }
    }
}

/// The turn of an operation before event `i`.
pub open spec fn turn_before<S: Stage>(
    start: TurnView<S>,
    events: Seq<Event<S>>,
    i: int,
) -> TurnView<S> {
    if i == 0 {
        start
    } else {
        events[i - 1].turn
    }
}

/// What holds of each event of a run.
pub proof fn event_of_a_run<S: Stage>(start: TurnView<S>, events: Seq<Event<S>>, i: int)
    requires
        is_run(start, events),
        0 <= i < events.len(),
    ensures
        turn_before(start, events, i).step == Step::<S::Output>::Call(events[i].call),
        resumes(
            turn_before(start, events, i).operation,
            events[i].before,
            events[i].reply,
            events[i].after,
            events[i].turn,
        ),
        i > 0 ==> events[i].before == events[i - 1].after,
    decreases events.len(),
{
    let earlier = events.drop_last();
    if i < earlier.len() {
        event_of_a_run(start, earlier, i);
    }
}

/// A run ends where the operation does: no event follows one after which it was over.
pub proof fn nothing_follows_the_end<S: Stage>(start: TurnView<S>, events: Seq<Event<S>>, i: int)
    requires
        is_run(start, events),
        0 <= i < events.len(),
        events[i].turn.step is Done,
    ensures
        i == events.len() - 1,
{
    if i + 1 < events.len() {
        event_of_a_run(start, events, i + 1);
    }
}

proof fn unwinding_waits_or_ends<S: Stage>(
    outcome: Result<S::Output, Error>,
    releases: Seq<Release>,
)
    ensures
        ({
            let turn = unwound::<S>(outcome, releases);
            turn.step is Done <==> turn.operation.phase is Finished
        }),
    decreases releases.len(),
{
    if releases.len() > 0 {
        unwinding_waits_or_ends::<S>(outcome, releases.drop_last());
    }
}

/// An operation that asks for a call is not over, and one that is over asks for nothing.
pub proof fn a_run_waits_or_ends<S: Stage>(
    stage: S,
    call: Call,
    releases: Seq<Release>,
    events: Seq<Event<S>>,
)
    requires
        is_run(forward(stage, call, releases), events),
    ensures
        ({
            let turn = last_turn(forward(stage, call, releases), events);
            turn.step is Done <==> turn.operation.phase is Finished
        }),
{
    if events.len() > 0 {
        let turn = last_turn(forward(stage, call, releases), events.drop_last());
        let event = events.last();
        match turn.operation.phase {
            Phase::Forward { stage, .. } => {
                let progress = choose|progress: Progress<S, S::Output>|
                    #![trigger stage.moves(event.before, event.reply, event.after, progress)]
                    stage.moves(event.before, event.reply, event.after, progress) && event.turn
                        == proceeded(turn.operation.releases, progress);
                let all = turn.operation.releases + progress.acquired@;
                match progress.next {
                    Next::Call { .. } => {},
                    Next::Succeed(output) => unwinding_waits_or_ends::<S>(Ok(output), all),
                    Next::Fail(error) => unwinding_waits_or_ends::<S>(Err(error), all),
                }
            },
            Phase::Releasing { release, outcome } => unwinding_waits_or_ends::<S>(
                outcome_after(release, outcome, event.reply),
                releases_after(release, turn.operation.releases, event.reply),
            ),
            Phase::Finished => {},
        }
    }
}

/// The first events of a run are a run themselves.
pub proof fn a_run_begins_with_runs<S: Stage>(start: TurnView<S>, events: Seq<Event<S>>, n: int)
    requires
        is_run(start, events),
        0 <= n <= events.len(),
    ensures
        is_run(start, events.take(n)),
    decreases events.len() - n,
{
    if n == events.len() {
        assert(events.take(n) =~= events);
    } else {
        a_run_begins_with_runs(start, events, n + 1);
        assert(events.take(n + 1).drop_last() =~= events.take(n));
    }
}

/// What follows an event of a run is a run itself, from the turn after that event on.
pub proof fn a_run_goes_on_as_a_run<S: Stage>(start: TurnView<S>, events: Seq<Event<S>>, i: int)
    requires
        is_run(start, events),
        0 <= i < events.len(),
    ensures
        is_run(events[i].turn, events.skip(i + 1)),
    decreases events.len(),
{
    let rest = events.skip(i + 1);
    if rest.len() > 0 {
        let earlier = events.drop_last();
        a_run_goes_on_as_a_run(start, earlier, i);
        assert(rest.drop_last() =~= earlier.skip(i + 1));
        assert(earlier[i] == events[i]);
        if rest.len() == 1 {
            assert(earlier.last() == events[i]);
        } else {
            assert(rest.drop_last().last() == earlier.last());
        }
    }
}

/// An operation whose outcome is a failure comes to no success any more, however its releases go.
pub proof fn failures_stay_failures<S: Stage>(
    error: Error,
    releases: Seq<Release>,
    events: Seq<Event<S>>,
)
    requires
        is_run(unwound::<S>(Err(error), releases), events),
    ensures
        ({
            let turn = last_turn(unwound::<S>(Err(error), releases), events);
            &&& !(turn.operation.phase is Forward)
            &&& turn.operation.phase matches Phase::Releasing { outcome, .. } ==> outcome is Err
            &&& turn.step matches Step::Done(outcome) ==> outcome is Err
        }),
    decreases events.len(),
{
    if events.len() == 0 {
        a_failure_is_unwound::<S>(error, releases);
    } else {
        let earlier = events.drop_last();
        failures_stay_failures(error, releases, earlier);
        let turn = last_turn(unwound::<S>(Err(error), releases), earlier);
        let event = events.last();
        let release = turn.operation.phase->Releasing_release;
        let outcome = turn.operation.phase->Releasing_outcome;
        a_failure_is_unwound::<S>(
            outcome_after(release, outcome, event.reply)->Err_0,
            releases_after(release, turn.operation.releases, event.reply),
        );
    }
}

proof fn a_failure_is_unwound<S: Stage>(error: Error, releases: Seq<Release>)
    ensures
        ({
            let turn = unwound::<S>(Err(error), releases);
            &&& !(turn.operation.phase is Forward)
            &&& turn.operation.phase matches Phase::Releasing { outcome, .. } ==> outcome is Err
            &&& turn.step matches Step::Done(outcome) ==> outcome is Err
        }),
{
}

} // verus!
