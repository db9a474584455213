//! Whole calls: what holds of every sequence of events.
//!
//! [`next`] says what one step does. The laws here follow a call from its
//! first event to its last, whatever the caller reports on the way.

use vstd::prelude::*;
use crate::error::{FailureKind, OperationErrorView};
use crate::exchange::{next, ActionView, EventView, PlanView, ProcessOutcomeView, Stage};

verus! {

/// The stage that a call has reached from `stage` after `events`.
pub open spec fn stage_after(plan: PlanView, stage: Stage, events: Seq<EventView>) -> Stage
    decreases events.len(),
{
    if events.len() == 0 {
        stage
    } else {
        next(stage_after(plan, stage, events.drop_last()), plan, events.last()).0
    }
}

/// The actions that a call asks for, one for each of `events`.
pub open spec fn actions_of(plan: PlanView, stage: Stage, events: Seq<EventView>) -> Seq<ActionView>
    decreases events.len(),
{
    if events.len() == 0 {
        Seq::empty()
    } else {
        actions_of(plan, stage, events.drop_last()).push(
            next(stage_after(plan, stage, events.drop_last()), plan, events.last()).1,
        )
    }
}

/// The place of a stage in the sequence.
pub open spec fn rank(stage: Stage) -> nat {
    match stage {
        Stage::Idle => 0,
        Stage::ScriptsDir => 1,
        Stage::Script => 2,
        Stage::RunRoot => 3,
        Stage::RunDir => 4,
        Stage::StaleResponse => 5,
        Stage::Encode => 6,
        Stage::Request => 7,
        Stage::Host => 8,
        Stage::Response => 9,
        Stage::Finished => 10,
    }
}

/// The number of events after which every call is over.
pub open spec fn steps_at_most() -> nat {
    10
}

/// There is one action for each event.
pub proof fn lemma_one_action_per_event(plan: PlanView, stage: Stage, events: Seq<EventView>)
    ensures
        actions_of(plan, stage, events).len() == events.len(),
    decreases events.len(),
{
    if events.len() > 0 {
        lemma_one_action_per_event(plan, stage, events.drop_last());
    }
}

/// The `j`-th action is the one that the `j`-th event draws from the stage
/// reached by the events before it.
pub proof fn lemma_action_at(plan: PlanView, stage: Stage, events: Seq<EventView>, j: int)
    requires
        0 <= j < events.len(),
    ensures
        actions_of(plan, stage, events).len() == events.len(),
        actions_of(plan, stage, events)[j] == next(
            stage_after(plan, stage, events.take(j)),
            plan,
            events[j],
        ).1,
        stage_after(plan, stage, events.take(j + 1)) == next(
            stage_after(plan, stage, events.take(j)),
            plan,
            events[j],
        ).0,
    decreases events.len(),
{
    lemma_one_action_per_event(plan, stage, events);
    lemma_one_action_per_event(plan, stage, events.drop_last());
    assert(events.take(j + 1).drop_last() =~= events.take(j));
    assert(events.take(j + 1).last() == events[j]);
    if j == events.len() - 1 {
        assert(events.drop_last() =~= events.take(j));
    } else {
        lemma_action_at(plan, stage, events.drop_last(), j);
        assert(events.drop_last().take(j) =~= events.take(j));
    }
}

/// Strict sequence: every step either ends the call or moves to the stage
/// that follows; no stage is skipped and none is entered twice.
pub proof fn lemma_one_stage_at_a_time(plan: PlanView, stage: Stage, event: EventView)
    ensures
        next(stage, plan, event).0 == Stage::Finished || rank(next(stage, plan, event).0) == rank(
            stage,
        ) + 1,
        next(stage, plan, event).0 == Stage::Finished <==> next(stage, plan, event).1 is Finish,
{
}

/// A call never goes back: after `events` it is over, or as many stages on
/// as there were events.
pub proof fn lemma_progress(plan: PlanView, stage: Stage, events: Seq<EventView>)
    ensures
        stage_after(plan, stage, events) == Stage::Finished || rank(
            stage_after(plan, stage, events),
        ) == rank(stage) + events.len(),
    decreases events.len(),
{
    if events.len() > 0 {
        lemma_progress(plan, stage, events.drop_last());
        lemma_one_stage_at_a_time(
            plan,
            stage_after(plan, stage, events.drop_last()),
            events.last(),
        );
    }
}

/// Every call is over after ten events, whatever they are.
pub proof fn lemma_call_ends(plan: PlanView, events: Seq<EventView>)
    requires
        events.len() >= steps_at_most(),
    ensures
        stage_after(plan, Stage::Idle, events) == Stage::Finished,
{
    lemma_progress(plan, Stage::Idle, events);
}

/// Fail fast: once a call is over it asks for nothing but the end. No file
/// is touched and no process is run after the first failure.
pub proof fn lemma_nothing_after_the_end(
    plan: PlanView,
    stage: Stage,
    events: Seq<EventView>,
    i: int,
    j: int,
)
    requires
        0 <= i < j < events.len(),
        actions_of(plan, stage, events)[i] is Finish,
    ensures
        actions_of(plan, stage, events)[j] is Finish,
    decreases j - i,
{
    lemma_action_at(plan, stage, events, i);
    lemma_action_at(plan, stage, events, j);
    lemma_stays_finished(plan, stage, events, i + 1, j);
}

proof fn lemma_stays_finished(plan: PlanView, stage: Stage, events: Seq<EventView>, i: int, j: int)
    requires
        0 <= i <= j <= events.len(),
        stage_after(plan, stage, events.take(i)) == Stage::Finished,
    ensures
        stage_after(plan, stage, events.take(j)) == Stage::Finished,
    decreases j - i,
{
    if i < j {
        lemma_stays_finished(plan, stage, events, i, j - 1);
        lemma_action_at(plan, stage, events, j - 1);
    }
}

/// The stale-response guard runs strictly before the host: in every call
/// that comes to run the host, the fifth action removed the response file,
/// and the host is the eighth.
pub proof fn lemma_guard_precedes_host(plan: PlanView, events: Seq<EventView>, j: int)
    requires
        0 <= j < events.len(),
        actions_of(plan, Stage::Idle, events)[j] is RunHost,
    ensures
        j == 7,
        actions_of(plan, Stage::Idle, events)[4] == plan.clear_stale_response(),
{
    lemma_action_at(plan, Stage::Idle, events, j);
    lemma_progress(plan, Stage::Idle, events.take(j));
    assert(stage_after(plan, Stage::Idle, events.take(j)) == Stage::Request);
    assert(j == 7);
    lemma_action_at(plan, Stage::Idle, events, 6);
    lemma_progress(plan, Stage::Idle, events.take(6));
    lemma_action_at(plan, Stage::Idle, events, 5);
    lemma_progress(plan, Stage::Idle, events.take(5));
    lemma_action_at(plan, Stage::Idle, events, 4);
    lemma_progress(plan, Stage::Idle, events.take(4));
}

/// No shortcut to success: a call that ends with the bytes of a response
/// has taken every step. It ends with its tenth action, the bytes are the
/// ones that the last event brought, the guard has run, and so has the host.
pub proof fn lemma_success_takes_every_step(
    plan: PlanView,
    events: Seq<EventView>,
    j: int,
    response: Seq<u8>,
)
    requires
        0 <= j < events.len(),
        actions_of(plan, Stage::Idle, events)[j] == (ActionView::Finish { outcome: Ok(response) }),
    ensures
        j == 9,
        events[9] == EventView::Contents(Ok(response)),
        actions_of(plan, Stage::Idle, events)[1] == plan.ensure_script(),
        actions_of(plan, Stage::Idle, events)[4] == plan.clear_stale_response(),
        actions_of(plan, Stage::Idle, events)[7] == plan.invoke(),
        actions_of(plan, Stage::Idle, events)[8] == plan.read_response(),
{
    lemma_action_at(plan, Stage::Idle, events, j);
    lemma_progress(plan, Stage::Idle, events.take(j));
    assert(stage_after(plan, Stage::Idle, events.take(j)) == Stage::Response);
    assert(j == 9);
    lemma_action_at(plan, Stage::Idle, events, 8);
    lemma_progress(plan, Stage::Idle, events.take(8));
    lemma_action_at(plan, Stage::Idle, events, 7);
    lemma_progress(plan, Stage::Idle, events.take(7));
    lemma_action_at(plan, Stage::Idle, events, 6);
    lemma_progress(plan, Stage::Idle, events.take(6));
    lemma_action_at(plan, Stage::Idle, events, 5);
    lemma_progress(plan, Stage::Idle, events.take(5));
    lemma_action_at(plan, Stage::Idle, events, 4);
    lemma_progress(plan, Stage::Idle, events.take(4));
    lemma_action_at(plan, Stage::Idle, events, 3);
    lemma_progress(plan, Stage::Idle, events.take(3));
    lemma_action_at(plan, Stage::Idle, events, 2);
    lemma_progress(plan, Stage::Idle, events.take(2));
    lemma_action_at(plan, Stage::Idle, events, 1);
    lemma_progress(plan, Stage::Idle, events.take(1));
}

/// The events of a call in which nothing fails: `stale` tells whether a
/// response was left in the run directory, `outcome` how the host ended.
pub open spec fn clean_events(
    stale: bool,
    request: Seq<u8>,
    outcome: ProcessOutcomeView,
    response: Seq<u8>,
) -> Seq<EventView> {
    seq![
        EventView::Start,
        EventView::Unit(Ok(())),
        EventView::Unit(Ok(())),
        EventView::Unit(Ok(())),
        EventView::Unit(Ok(())),
        if stale {
            EventView::Unit(Ok(()))
        } else {
            EventView::Unit(
                Err(
                    crate::error::IoFailureView {
                        kind: FailureKind::NotFound,
                        message: Seq::empty(),
                    },
                ),
            )
        },
        EventView::Encoded(Ok(request)),
        EventView::Unit(Ok(())),
        EventView::Exited(Ok(outcome)),
        EventView::Contents(Ok(response)),
    ]
}

/// The actions of a call in which nothing fails.
pub open spec fn clean_actions(plan: PlanView, request: Seq<u8>, response: Seq<u8>) -> Seq<
    ActionView,
> {
    seq![
        plan.create_scripts_dir(),
        plan.ensure_script(),
        plan.create_run_root(),
        plan.create_run_dir(),
        plan.clear_stale_response(),
        ActionView::EncodeRequest,
        plan.write_request(request),
        plan.invoke(),
        plan.read_response(),
        ActionView::Finish { outcome: Ok(response) },
    ]
}

/// A call in which nothing fails asks for the nine actions in their order
/// and ends with the bytes of the response, whether or not a stale response
/// was there to remove, and however the host ended.
pub proof fn lemma_clean_call(
    plan: PlanView,
    stale: bool,
    request: Seq<u8>,
    outcome: ProcessOutcomeView,
    response: Seq<u8>,
)
    ensures
        actions_of(plan, Stage::Idle, clean_events(stale, request, outcome, response))
            == clean_actions(plan, request, response),
        stage_after(plan, Stage::Idle, clean_events(stale, request, outcome, response))
            == Stage::Finished,
{
    let events = clean_events(stale, request, outcome, response);
    let actions = actions_of(plan, Stage::Idle, events);
    lemma_one_action_per_event(plan, Stage::Idle, events);
    assert(events.take(0) =~= Seq::<EventView>::empty());
    assert(stage_after(plan, Stage::Idle, events.take(0)) == Stage::Idle);
    lemma_action_at(plan, Stage::Idle, events, 0);
    lemma_action_at(plan, Stage::Idle, events, 1);
    lemma_action_at(plan, Stage::Idle, events, 2);
    lemma_action_at(plan, Stage::Idle, events, 3);
    lemma_action_at(plan, Stage::Idle, events, 4);
    lemma_action_at(plan, Stage::Idle, events, 5);
    lemma_action_at(plan, Stage::Idle, events, 6);
    lemma_action_at(plan, Stage::Idle, events, 7);
    lemma_action_at(plan, Stage::Idle, events, 8);
    lemma_action_at(plan, Stage::Idle, events, 9);
    assert(events.take(10) =~= events);
    assert(actions =~= clean_actions(plan, request, response));
}

/// A step that fails ends the call with the failure kind of that step.
pub open spec fn failure_of_stage(stage: Stage, event: EventView) -> Option<OperationErrorView> {
    match (stage, event) {
        (Stage::ScriptsDir, EventView::Unit(Err(f))) => Some(
            OperationErrorView::DirectoryCreationFailed(f),
        ),
        (Stage::Script, EventView::Unit(Err(f))) => Some(OperationErrorView::ScriptWriteFailed(f)),
        (Stage::RunRoot, EventView::Unit(Err(f))) => Some(
            OperationErrorView::DirectoryCreationFailed(f),
        ),
        (Stage::RunDir, EventView::Unit(Err(f))) => Some(
            OperationErrorView::DirectoryCreationFailed(f),
        ),
        (Stage::StaleResponse, EventView::Unit(Err(f))) => if f.kind == FailureKind::NotFound {
            None
        } else {
            Some(OperationErrorView::RequestWriteFailed(f))
        },
        (Stage::Encode, EventView::Encoded(Err(m))) => Some(
            OperationErrorView::RequestEncodeFailed(m),
        ),
        (Stage::Request, EventView::Unit(Err(f))) => Some(OperationErrorView::RequestWriteFailed(f)),
        (Stage::Host, EventView::Exited(Err(m))) => Some(OperationErrorView::HostInvocationFailed(m)),
        (Stage::Response, EventView::Contents(Err(f))) => Some(
            OperationErrorView::ResponseReadFailed(f),
        ),
        _ => None,
    }
}

/// Each failure is passed on unchanged, under the kind of the step at which
/// it arose, and ends the call.
pub proof fn lemma_failure_ends_the_call(stage: Stage, plan: PlanView, event: EventView)
    requires
        failure_of_stage(stage, event) is Some,
    ensures
        next(stage, plan, event) == (
            Stage::Finished,
            ActionView::Finish { outcome: Err(failure_of_stage(stage, event)->0) },
        ),
{
}

/// A run directory that exists already is a failure of the call: the
/// directory is not used.
pub proof fn lemma_existing_run_dir_is_refused(plan: PlanView, message: Seq<char>)
    ensures
        next(
            Stage::RunDir,
            plan,
            EventView::Unit(
                Err(crate::error::IoFailureView { kind: FailureKind::AlreadyExists, message }),
            ),
        ).1 is Finish,
{
}

/// The exit status of the host decides nothing: however the host ended,
/// and whatever it printed, the response file is read next.
pub proof fn lemma_exit_status_is_advisory(plan: PlanView, outcome: ProcessOutcomeView)
    ensures
        next(Stage::Host, plan, EventView::Exited(Ok(outcome))) == (
            Stage::Response,
            plan.read_response(),
        ),
{
}

} // verus!
