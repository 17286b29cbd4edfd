//! The finalize protocol as a state machine: each call takes the current
//! step and what the outside world reported, and gives the next step and
//! the one thing to do next.
use vstd::prelude::*;

use std::time::Duration;

use crate::patch::{remove_finalizer_patch, status_update, status_update_patch, Patch, PatchView};
use crate::resource::{does_finalizer_exist, opt_text, K8sResource, ResourceView};

verus! {

/// Process-wide settings that the protocol reads.
#[derive(Debug, Clone, PartialEq, Eq)]
pub struct RuntimeConfig {
    /// The operator's name, which is also its finalizer string.
    pub operator_name: String,
    /// The kind of the parent resources.
    pub parent_type: String,
}

/// What the handler answered for a finalize request.
#[derive(Debug, PartialEq, Eq)]
pub struct FinalizeResponse {
    /// Where present, the resource is not finalized yet and is to be
    /// revisited after this delay.
    pub retry: Option<Duration>,
    /// Status to persist on the parent, if any.
    pub status: Option<String>,
}

/// Why a finalize attempt failed.
#[derive(Debug, Clone, PartialEq, Eq)]
pub enum UpdateError {
    /// The handler returned an error.
    HandlerError(String),
    /// A patch call to the API failed.
    ClientError(String),
    /// The isolated handler execution could not be joined.
    JoinError(String),
}

/// Where an attempt stands.
#[derive(Debug, PartialEq, Eq)]
pub enum FinalizeStep {
    Start,
    AwaitHandler,
    AwaitStatusPatch(Duration),
    AwaitRemoval,
    AwaitDelay(Duration),
    Done,
}

/// What the outside world reports back to the protocol.
#[derive(Debug, PartialEq, Eq)]
pub enum Event {
    /// The attempt begins.
    Begin,
    /// The handler returned.
    HandlerFinished(Result<FinalizeResponse, String>),
    /// The isolated handler execution could not be joined.
    HandlerLost(String),
    /// A patch call returned.
    PatchApplied(Result<(), String>),
    /// The retry delay has passed.
    DelayElapsed,
}

/// What the protocol asks the outside world to do next.
#[derive(Debug, PartialEq, Eq)]
pub enum Action {
    /// Run the handler's finalize on the request, off the scheduler.
    InvokeHandler,
    /// Apply this patch to the parent.
    ApplyPatch(Patch),
    /// Suspend this attempt for this long.
    Delay(Duration),
    /// The attempt is over with this outcome.
    Complete(Result<Option<Duration>, UpdateError>),
}

/// Model of a handler answer.
pub struct ResponseView {
    pub retry: Option<Duration>,
    pub status: Option<Seq<char>>,
}

/// Model of an error.
pub enum UpdateErrorView {
    HandlerError(Seq<char>),
    ClientError(Seq<char>),
    JoinError(Seq<char>),
}

/// Model of an event.
pub enum EventView {
    Begin,
    HandlerFinished(Result<ResponseView, Seq<char>>),
    HandlerLost(Seq<char>),
    PatchApplied(Result<(), Seq<char>>),
    DelayElapsed,
}

/// Model of an action.
pub enum ActionView {
    InvokeHandler,
    ApplyPatch(PatchView),
    Delay(Duration),
    Complete(Result<Option<Duration>, UpdateErrorView>),
}

impl View for FinalizeResponse {
    type V = ResponseView;

    open spec fn view(&self) -> ResponseView {
        ResponseView { retry: self.retry, status: opt_text(self.status) }
    }
}

impl View for UpdateError {
    type V = UpdateErrorView;

    open spec fn view(&self) -> UpdateErrorView {
        match self {
            UpdateError::HandlerError(m) => UpdateErrorView::HandlerError(m@),
            UpdateError::ClientError(m) => UpdateErrorView::ClientError(m@),
            UpdateError::JoinError(m) => UpdateErrorView::JoinError(m@),
        }
    }
}

/// Model of an attempt's outcome.
pub open spec fn outcome_view(o: Result<Option<Duration>, UpdateError>) -> Result<
    Option<Duration>,
    UpdateErrorView,
> {
    match o {
        Ok(r) => Ok(r),
        Err(e) => Err(e@),
    }
}

impl View for Event {
    type V = EventView;

    open spec fn view(&self) -> EventView {
        match self {
            Event::Begin => EventView::Begin,
            Event::HandlerFinished(Ok(r)) => EventView::HandlerFinished(Ok(r@)),
            Event::HandlerFinished(Err(m)) => EventView::HandlerFinished(Err(m@)),
            Event::HandlerLost(m) => EventView::HandlerLost(m@),
            Event::PatchApplied(Ok(())) => EventView::PatchApplied(Ok(())),
            Event::PatchApplied(Err(m)) => EventView::PatchApplied(Err(m@)),
            Event::DelayElapsed => EventView::DelayElapsed,
        }
    }
}

impl View for Action {
    type V = ActionView;

    open spec fn view(&self) -> ActionView {
        match self {
            Action::InvokeHandler => ActionView::InvokeHandler,
            Action::ApplyPatch(p) => ActionView::ApplyPatch(p@),
            Action::Delay(d) => ActionView::Delay(*d),
            Action::Complete(o) => ActionView::Complete(outcome_view(*o)),
        }
    }
}

/// Whether `event` is one that can arrive while the attempt is at `step`.
pub open spec fn accepts_spec(step: FinalizeStep, event: EventView) -> bool {
    match (step, event) {
        (FinalizeStep::Start, EventView::Begin) => true,
        (FinalizeStep::AwaitHandler, EventView::HandlerFinished(_)) => true,
        (FinalizeStep::AwaitHandler, EventView::HandlerLost(_)) => true,
        (FinalizeStep::AwaitStatusPatch(_), EventView::PatchApplied(_)) => true,
        (FinalizeStep::AwaitRemoval, EventView::PatchApplied(_)) => true,
        (FinalizeStep::AwaitDelay(_), EventView::DelayElapsed) => true,
        _ => false,
    }
}

/// What the handler's answer leads to.
pub open spec fn after_response(operator: Seq<char>, parent: ResourceView, resp: ResponseView) -> (
    FinalizeStep,
    ActionView,
) {
    match resp.retry {
        Some(d) => match status_update(parent, resp.status) {
            Some(p) => (FinalizeStep::AwaitStatusPatch(d), ActionView::ApplyPatch(p)),
            None => (FinalizeStep::AwaitDelay(d), ActionView::Delay(d)),
        },
        None => (FinalizeStep::AwaitRemoval, ActionView::ApplyPatch(PatchView::RemoveFinalizer(operator))),
    }
}

/// One transition of the protocol for the parent `parent` and the operator
/// whose finalizer string is `operator`.
pub open spec fn step_spec(
    operator: Seq<char>,
    parent: ResourceView,
    step: FinalizeStep,
    event: EventView,
) -> (FinalizeStep, ActionView) {
    match (step, event) {
        (FinalizeStep::Start, _) => if parent.has_finalizer(operator) {
            (FinalizeStep::AwaitHandler, ActionView::InvokeHandler)
        } else {
            (FinalizeStep::Done, ActionView::Complete(Ok(None)))
        },
        (FinalizeStep::AwaitHandler, EventView::HandlerFinished(Ok(resp))) => after_response(
            operator,
            parent,
            resp,
        ),
        (FinalizeStep::AwaitHandler, EventView::HandlerFinished(Err(m))) => (
            FinalizeStep::Done,
            ActionView::Complete(Err(UpdateErrorView::HandlerError(m))),
        ),
        (FinalizeStep::AwaitHandler, EventView::HandlerLost(m)) => (
            FinalizeStep::Done,
            ActionView::Complete(Err(UpdateErrorView::JoinError(m))),
        ),
        (FinalizeStep::AwaitStatusPatch(d), EventView::PatchApplied(Ok(()))) => (
            FinalizeStep::AwaitDelay(d),
            ActionView::Delay(d),
        ),
        (FinalizeStep::AwaitRemoval, EventView::PatchApplied(Ok(()))) => (
            FinalizeStep::Done,
            ActionView::Complete(Ok(None)),
        ),
        (_, EventView::PatchApplied(Err(m))) => (
            FinalizeStep::Done,
            ActionView::Complete(Err(UpdateErrorView::ClientError(m))),
        ),
        (FinalizeStep::AwaitDelay(d), _) => (FinalizeStep::Done, ActionView::Complete(Ok(Some(d)))),
        _ => (FinalizeStep::Done, ActionView::Complete(Ok(None))),
    }
}

impl FinalizeStep {
    /// Whether `event` can arrive while the attempt is at this step.
    pub fn accepts(&self, event: &Event) -> (r: bool)
        ensures
            r == accepts_spec(*self, event@),
    {
        match (self, event) {
            (FinalizeStep::Start, Event::Begin) => true,
            (FinalizeStep::AwaitHandler, Event::HandlerFinished(_)) => true,
            (FinalizeStep::AwaitHandler, Event::HandlerLost(_)) => true,
            (FinalizeStep::AwaitStatusPatch(_), Event::PatchApplied(_)) => true,
            (FinalizeStep::AwaitRemoval, Event::PatchApplied(_)) => true,
            (FinalizeStep::AwaitDelay(_), Event::DelayElapsed) => true,
            _ => false,
        }
    }
}

/// Takes the attempt one step further: from `step`, on `event`, to the next
/// step and the action to perform.
pub fn next_step(config: &RuntimeConfig, parent: &K8sResource, step: FinalizeStep, event: Event) -> (r: (
    FinalizeStep,
    Action,
))
    requires
        accepts_spec(step, event@),
    ensures
        (r.0, r.1@) == step_spec(config.operator_name@, parent@, step, event@),
{
    match step {
        FinalizeStep::Start => {
            if does_finalizer_exist(parent, &config.operator_name) {
                (FinalizeStep::AwaitHandler, Action::InvokeHandler)
            } else {
                (FinalizeStep::Done, Action::Complete(Ok(None)))
            }
        },
        FinalizeStep::AwaitHandler => match event {
            Event::HandlerFinished(Ok(resp)) => {
                let FinalizeResponse { retry, status } = resp;
                match retry {
                    Some(d) => match status_update_patch(parent, status) {
                        Some(p) => (FinalizeStep::AwaitStatusPatch(d), Action::ApplyPatch(p)),
                        None => (FinalizeStep::AwaitDelay(d), Action::Delay(d)),
                    },
                    None => (
                        FinalizeStep::AwaitRemoval,
                        Action::ApplyPatch(remove_finalizer_patch(&config.operator_name)),
                    ),
                }
            },
            Event::HandlerFinished(Err(m)) => (
                FinalizeStep::Done,
                Action::Complete(Err(UpdateError::HandlerError(m))),
            ),
            Event::HandlerLost(m) => (
                FinalizeStep::Done,
                Action::Complete(Err(UpdateError::JoinError(m))),
            ),
            _ => (FinalizeStep::Done, Action::Complete(Ok(None))),
        },
        FinalizeStep::AwaitStatusPatch(d) => match event {
            Event::PatchApplied(Ok(())) => (FinalizeStep::AwaitDelay(d), Action::Delay(d)),
            Event::PatchApplied(Err(m)) => (
                FinalizeStep::Done,
                Action::Complete(Err(UpdateError::ClientError(m))),
            ),
            _ => (FinalizeStep::Done, Action::Complete(Ok(None))),
        },
        FinalizeStep::AwaitRemoval => match event {
            Event::PatchApplied(Ok(())) => (FinalizeStep::Done, Action::Complete(Ok(None))),
            Event::PatchApplied(Err(m)) => (
                FinalizeStep::Done,
                Action::Complete(Err(UpdateError::ClientError(m))),
            ),
            _ => (FinalizeStep::Done, Action::Complete(Ok(None))),
        },
        FinalizeStep::AwaitDelay(d) => (FinalizeStep::Done, Action::Complete(Ok(Some(d)))),
        FinalizeStep::Done => (FinalizeStep::Done, Action::Complete(Ok(None))),
    }
}

} // verus!
