//! The whole of one finalize attempt, as the sequence of actions that the
//! state machine asks for when the outside world answers in a given way,
//! and the laws that every attempt obeys.
use vstd::prelude::*;

use crate::finalize::{
    accepts_spec, step_spec, ActionView, EventView, FinalizeStep, ResponseView, UpdateErrorView,
};
use crate::patch::{apply_patch, lemma_removal_patch, status_update, PatchView};
use crate::resource::ResourceView;

verus! {

/// How the outside world answers during one attempt.
pub struct Environment {
    /// What the handler invocation reports.
    pub handler: EventView,
    /// What each patch call returns.
    pub patch: Result<(), Seq<char>>,
}

impl Environment {
    /// The handler invocation reports either the handler's answer or a
    /// failure to join the isolated execution.
    pub open spec fn valid(self) -> bool {
        self.handler is HandlerFinished || self.handler is HandlerLost
    }
}

impl Environment {
    /// The handler answers that the parent is finalized.
    pub open spec fn finishes_without_retry(self) -> bool {
        match self.handler {
            EventView::HandlerFinished(Ok(resp)) => resp.retry is None,
            _ => false,
        }
    }
}

/// The event that answers `action`.
pub open spec fn respond(env: Environment, action: ActionView) -> EventView {
    match action {
        ActionView::InvokeHandler => env.handler,
        ActionView::ApplyPatch(_) => EventView::PatchApplied(env.patch),
        ActionView::Delay(_) => EventView::DelayElapsed,
        ActionView::Complete(_) => EventView::Begin,
    }
}

/// The actions taken from `step` on `event` onwards, for at most `fuel`
/// steps; the sequence stops after the completion.
pub open spec fn run(
    operator: Seq<char>,
    parent: ResourceView,
    step: FinalizeStep,
    event: EventView,
    env: Environment,
    fuel: nat,
) -> Seq<ActionView>
    decreases fuel,
{
    if fuel == 0 {
        Seq::empty()
    } else {
        let (next, action) = step_spec(operator, parent, step, event);
        if action is Complete {
            seq![action]
        } else {
            seq![action] + run(operator, parent, next, respond(env, action), env, (fuel - 1) as nat)
        }
    }
}

/// The actions of a whole attempt on `parent`.
pub open spec fn attempt(operator: Seq<char>, parent: ResourceView, env: Environment) -> Seq<
    ActionView,
> {
    run(operator, parent, FinalizeStep::Start, EventView::Begin, env, 5)
}

/// Every attempt ends in exactly one completion, which is its last action.
pub proof fn lemma_single_completion(operator: Seq<char>, parent: ResourceView, env: Environment)
    requires
        env.valid(),
    ensures
        ({
            let t = attempt(operator, parent, env);
            &&& 0 < t.len() <= 4
            &&& t.last() is Complete
            &&& forall|i: int| 0 <= i < t.len() - 1 ==> !(#[trigger] t[i] is Complete)
        }),
{
    reveal_with_fuel(run, 6);
}

/// A parent that no longer carries the operator's finalizer is already
/// finalized: the handler is not called, nothing is patched, and the attempt
/// reports success with no retry.
pub proof fn lemma_already_finalized(operator: Seq<char>, parent: ResourceView, env: Environment)
    requires
        !parent.has_finalizer(operator),
    ensures
        attempt(operator, parent, env) == seq![ActionView::Complete(Ok(None))],
{
    reveal_with_fuel(run, 2);
    assert(attempt(operator, parent, env) =~= seq![ActionView::Complete(Ok(None))]);
}

/// An attempt issues at most one patch, never both a status patch and a
/// finalizer removal; none where the parent is already finalized; and
/// exactly the removal where the handler answers with no retry.
pub proof fn lemma_at_most_one_patch(operator: Seq<char>, parent: ResourceView, env: Environment)
    requires
        env.valid(),
    ensures
        ({
            let t = attempt(operator, parent, env);
            &&& forall|i: int, j: int|
                0 <= i < j < t.len() && #[trigger] t[i] is ApplyPatch ==> !(#[trigger] t[j] is ApplyPatch)
            &&& !parent.has_finalizer(operator) ==> forall|i: int|
                0 <= i < t.len() ==> !(#[trigger] t[i] is ApplyPatch)
            &&& (parent.has_finalizer(operator) && env.finishes_without_retry()) ==> {
                &&& t[1] == ActionView::ApplyPatch(PatchView::RemoveFinalizer(operator))
                &&& forall|i: int| 0 <= i < t.len() && i != 1 ==> !(#[trigger] t[i] is ApplyPatch)
            }
        }),
{
    reveal_with_fuel(run, 6);
}

/// Where the handler asks to be called again after `d`, any patch issued
/// keeps the operator's finalizer on the parent; and unless a needed status
/// patch fails, the attempt waits `d` and reports `Some(d)`.
pub proof fn lemma_retry(operator: Seq<char>, parent: ResourceView, env: Environment, resp: ResponseView, d: std::time::Duration)
    requires
        parent.has_finalizer(operator),
        env.handler == EventView::HandlerFinished(Ok(resp)),
        resp.retry == Some(d),
    ensures
        ({
            let t = attempt(operator, parent, env);
            &&& forall|i: int| #![auto] 0 <= i < t.len() && t[i] is ApplyPatch ==> apply_patch(
                parent,
                t[i]->ApplyPatch_0,
            ).has_finalizer(operator)
            &&& (env.patch is Ok || status_update(parent, resp.status) is None) ==> {
                &&& t.contains(ActionView::Delay(d))
                &&& t.last() == ActionView::Complete(Ok(Some(d)))
            }
        }),
{
    reveal_with_fuel(run, 6);
    let t = attempt(operator, parent, env);
    if env.patch is Ok || status_update(parent, resp.status) is None {
        assert(t[t.len() - 2] == ActionView::Delay(d));
    }
}

/// Where the handler answers with no retry, the one patch issued takes the
/// operator's finalizer off the parent, whatever the stored parent holds when
/// it is applied; once it is applied the attempt reports `None`.
pub proof fn lemma_terminal(operator: Seq<char>, parent: ResourceView, env: Environment, resp: ResponseView)
    requires
        parent.has_finalizer(operator),
        env.handler == EventView::HandlerFinished(Ok(resp)),
        resp.retry is None,
    ensures
        forall|stored: ResourceView| !(#[trigger] apply_patch(
            stored,
            PatchView::RemoveFinalizer(operator),
        )).has_finalizer(operator),
        env.patch is Ok ==> attempt(operator, parent, env) == seq![
            ActionView::InvokeHandler,
            ActionView::ApplyPatch(PatchView::RemoveFinalizer(operator)),
            ActionView::Complete(Ok(None)),
        ],
{
    reveal_with_fuel(run, 4);
    assert forall|stored: ResourceView| !(#[trigger] apply_patch(
        stored,
        PatchView::RemoveFinalizer(operator),
    )).has_finalizer(operator) by {
        lemma_removal_patch(stored, operator);
    }
    if env.patch is Ok {
        assert(attempt(operator, parent, env) =~= seq![
            ActionView::InvokeHandler,
            ActionView::ApplyPatch(PatchView::RemoveFinalizer(operator)),
            ActionView::Complete(Ok(None)),
        ]);
    }
}

/// Where the handler returns the status the parent holds already, no status
/// patch is issued.
pub proof fn lemma_unchanged_status(operator: Seq<char>, parent: ResourceView, env: Environment, resp: ResponseView)
    requires
        env.handler == EventView::HandlerFinished(Ok(resp)),
        resp.status == parent.status,
    ensures
        ({
            let t = attempt(operator, parent, env);
            forall|i: int|
                0 <= i < t.len() ==> !(#[trigger] t[i] matches ActionView::ApplyPatch(
                    PatchView::SetStatus(_),
                ))
        }),
{
    reveal_with_fuel(run, 6);
}

/// A handler error, or a handler execution that cannot be joined, ends the
/// attempt with a failure and no patch.
pub proof fn lemma_handler_failure(operator: Seq<char>, parent: ResourceView, env: Environment, m: Seq<char>)
    requires
        parent.has_finalizer(operator),
        env.handler == EventView::HandlerFinished(Err(m)) || env.handler == EventView::HandlerLost(m),
    ensures
        attempt(operator, parent, env) == seq![
            ActionView::InvokeHandler,
            ActionView::Complete(Err(
                if env.handler is HandlerLost {
                    UpdateErrorView::JoinError(m)
                } else {
                    UpdateErrorView::HandlerError(m)
                },
            )),
        ],
{
    reveal_with_fuel(run, 3);
    assert(attempt(operator, parent, env) =~= seq![
        ActionView::InvokeHandler,
        ActionView::Complete(Err(
            if env.handler is HandlerLost {
                UpdateErrorView::JoinError(m)
            } else {
                UpdateErrorView::HandlerError(m)
            },
        )),
    ]);
}

/// The protocol accepts every answer that it asks for: an attempt begins
/// with `Begin`, and after each action but the completion, the answer that
/// the outside world gives to it fits the step that the machine is in.
pub proof fn lemma_answers_accepted(
    operator: Seq<char>,
    parent: ResourceView,
    env: Environment,
    step: FinalizeStep,
    event: EventView,
)
    requires
        env.valid(),
        accepts_spec(step, event),
    ensures
        accepts_spec(FinalizeStep::Start, EventView::Begin),
        ({
            let (next, action) = step_spec(operator, parent, step, event);
            !(action is Complete) ==> accepts_spec(next, respond(env, action))
        }),
{
}

} // verus!
