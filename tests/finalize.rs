use std::time::Duration;

use roperator::finalize::{
    next_step, Action, Event, FinalizeResponse, FinalizeStep, RuntimeConfig, UpdateError,
};
use roperator::patch::{remove_finalizer_patch, status_update_patch, Patch};
use roperator::report::{completion_message, counts_as_failure, EventType};
use roperator::resource::{does_finalizer_exist, K8sResource, ObjectId};

fn config() -> RuntimeConfig {
    RuntimeConfig {
        operator_name: "my-operator".to_string(),
        parent_type: "example.com/v1/Widget".to_string(),
    }
}

fn parent(finalizers: &[&str], status: Option<&str>) -> K8sResource {
    K8sResource {
        id: ObjectId {
            namespace: "default".to_string(),
            name: "widget-1".to_string(),
        },
        finalizers: finalizers.iter().map(|f| f.to_string()).collect(),
        status: status.map(|s| s.to_string()),
    }
}

fn response(retry: Option<Duration>, status: Option<&str>) -> Event {
    Event::HandlerFinished(Ok(FinalizeResponse {
        retry,
        status: status.map(|s| s.to_string()),
    }))
}

/// What one attempt did when driven against scripted answers.
struct Record {
    handler_calls: usize,
    patches: Vec<Patch>,
    delays: Vec<Duration>,
    outcome: Result<Option<Duration>, UpdateError>,
}

fn drive(
    config: &RuntimeConfig,
    parent: &K8sResource,
    handler_answer: Event,
    patch_result: Result<(), String>,
) -> Record {
    let mut answer = Some(handler_answer);
    let mut handler_calls = 0;
    let mut patches = Vec::new();
    let mut delays = Vec::new();
    let mut step = FinalizeStep::Start;
    let mut event = Event::Begin;
    loop {
        assert!(step.accepts(&event));
        let (next, action) = next_step(config, parent, step, event);
        step = next;
        event = match action {
            Action::InvokeHandler => {
                handler_calls += 1;
                answer.take().expect("the handler runs once per attempt")
            }
            Action::ApplyPatch(p) => {
                patches.push(p);
                Event::PatchApplied(patch_result.clone())
            }
            Action::Delay(d) => {
                delays.push(d);
                Event::DelayElapsed
            }
            Action::Complete(outcome) => {
                assert_eq!(step, FinalizeStep::Done);
                return Record {
                    handler_calls,
                    patches,
                    delays,
                    outcome,
                };
            }
        };
    }
}

#[test]
fn terminal_answer_removes_finalizer() {
    let cfg = config();
    let p = parent(&["my-operator"], None);
    let rec = drive(&cfg, &p, response(None, None), Ok(()));
    assert_eq!(rec.handler_calls, 1);
    assert_eq!(
        rec.patches,
        vec![Patch::RemoveFinalizer("my-operator".to_string())]
    );
    assert!(rec.delays.is_empty());
    assert_eq!(rec.outcome, Ok(None));
    let msg = completion_message(&cfg, &p, "slot-3".to_string(), &rec.outcome);
    assert_eq!(
        msg.event_type,
        EventType::UpdateOperationComplete { result: Ok(None) }
    );
}

#[test]
fn retry_answer_patches_status_and_waits() {
    let cfg = config();
    let p = parent(&["my-operator"], Some("{\"phase\":\"running\"}"));
    let five = Duration::from_secs(5);
    let rec = drive(
        &cfg,
        &p,
        response(Some(five), Some("{\"phase\":\"deleting\"}")),
        Ok(()),
    );
    assert_eq!(rec.handler_calls, 1);
    assert_eq!(
        rec.patches,
        vec![Patch::SetStatus("{\"phase\":\"deleting\"}".to_string())]
    );
    assert_eq!(rec.delays, vec![five]);
    assert_eq!(rec.outcome, Ok(Some(five)));
    let msg = completion_message(&cfg, &p, "slot-3".to_string(), &rec.outcome);
    assert_eq!(
        msg.event_type,
        EventType::UpdateOperationComplete {
            result: Ok(Some(five))
        }
    );
}

#[test]
fn already_finalized_skips_handler() {
    let cfg = config();
    let p = parent(&[], None);
    let rec = drive(&cfg, &p, response(Some(Duration::from_secs(1)), None), Ok(()));
    assert_eq!(rec.handler_calls, 0);
    assert!(rec.patches.is_empty());
    assert!(rec.delays.is_empty());
    assert_eq!(rec.outcome, Ok(None));
}

#[test]
fn handler_error_reports_failure() {
    let cfg = config();
    let p = parent(&["my-operator"], None);
    let rec = drive(
        &cfg,
        &p,
        Event::HandlerFinished(Err("database unreachable".to_string())),
        Ok(()),
    );
    assert_eq!(rec.handler_calls, 1);
    assert!(rec.patches.is_empty());
    assert!(rec.delays.is_empty());
    assert_eq!(
        rec.outcome,
        Err(UpdateError::HandlerError("database unreachable".to_string()))
    );
    let msg = completion_message(&cfg, &p, "slot-3".to_string(), &rec.outcome);
    assert_eq!(
        msg.event_type,
        EventType::UpdateOperationComplete { result: Err(()) }
    );
}

#[test]
fn other_controllers_finalizer_not_a_match() {
    let cfg = config();
    let p = parent(&["other-operator"], None);
    let rec = drive(&cfg, &p, response(None, None), Ok(()));
    assert_eq!(rec.handler_calls, 0);
    assert!(rec.patches.is_empty());
    assert_eq!(rec.outcome, Ok(None));
}

#[test]
fn lost_handler_execution_reports_failure() {
    let cfg = config();
    let p = parent(&["my-operator"], None);
    let rec = drive(&cfg, &p, Event::HandlerLost("worker panicked".to_string()), Ok(()));
    assert!(rec.patches.is_empty());
    assert_eq!(
        rec.outcome,
        Err(UpdateError::JoinError("worker panicked".to_string()))
    );
}

#[test]
fn failed_removal_reports_client_error() {
    let cfg = config();
    let p = parent(&["my-operator"], None);
    let rec = drive(&cfg, &p, response(None, None), Err("connection reset".to_string()));
    assert_eq!(rec.patches.len(), 1);
    assert_eq!(
        rec.outcome,
        Err(UpdateError::ClientError("connection reset".to_string()))
    );
}

#[test]
fn failed_status_patch_reports_client_error_without_waiting() {
    let cfg = config();
    let p = parent(&["my-operator"], Some("a"));
    let rec = drive(
        &cfg,
        &p,
        response(Some(Duration::from_millis(250)), Some("b")),
        Err("forbidden".to_string()),
    );
    assert_eq!(rec.patches, vec![Patch::SetStatus("b".to_string())]);
    assert!(rec.delays.is_empty());
    assert_eq!(
        rec.outcome,
        Err(UpdateError::ClientError("forbidden".to_string()))
    );
}

#[test]
fn unchanged_status_is_not_patched() {
    let cfg = config();
    let p = parent(&["my-operator"], Some("{\"phase\":\"deleting\"}"));
    let two = Duration::from_secs(2);
    let rec = drive(
        &cfg,
        &p,
        response(Some(two), Some("{\"phase\":\"deleting\"}")),
        Ok(()),
    );
    assert!(rec.patches.is_empty());
    assert_eq!(rec.delays, vec![two]);
    assert_eq!(rec.outcome, Ok(Some(two)));
}

#[test]
fn retry_without_status_only_waits() {
    let cfg = config();
    let p = parent(&["my-operator"], Some("x"));
    let d = Duration::from_millis(1500);
    let rec = drive(&cfg, &p, response(Some(d), None), Err("never called".to_string()));
    assert!(rec.patches.is_empty());
    assert_eq!(rec.delays, vec![d]);
    assert_eq!(rec.outcome, Ok(Some(d)));
}

#[test]
fn terminal_ignores_returned_status() {
    let cfg = config();
    let p = parent(&["my-operator", "other"], Some("old"));
    let rec = drive(&cfg, &p, response(None, Some("new")), Ok(()));
    assert_eq!(
        rec.patches,
        vec![Patch::RemoveFinalizer("my-operator".to_string())]
    );
    assert_eq!(rec.outcome, Ok(None));
}

#[test]
fn removal_patch_names_only_the_operator_finalizer() {
    let patch = remove_finalizer_patch(&"my-operator".to_string());
    assert_eq!(patch, Patch::RemoveFinalizer("my-operator".to_string()));
    assert_ne!(patch, Patch::RemoveFinalizer("other-operator".to_string()));
}

#[test]
fn counter_raised_only_on_failure() {
    assert!(!counts_as_failure(&Ok(None)));
    assert!(!counts_as_failure(&Ok(Some(Duration::from_secs(5)))));
    assert!(counts_as_failure(&Err(UpdateError::HandlerError(
        "boom".to_string()
    ))));
    assert!(counts_as_failure(&Err(UpdateError::ClientError(
        "reset".to_string()
    ))));
}

#[test]
fn finalizer_presence() {
    let name = "my-operator".to_string();
    assert!(does_finalizer_exist(&parent(&["a", "my-operator"], None), &name));
    assert!(!does_finalizer_exist(&parent(&["a", "my-operator-2"], None), &name));
    assert!(!does_finalizer_exist(&parent(&[], None), &name));
}

#[test]
fn status_patch_only_when_different() {
    let p = parent(&[], Some("same"));
    assert_eq!(status_update_patch(&p, None), None);
    assert_eq!(status_update_patch(&p, Some("same".to_string())), None);
    assert_eq!(
        status_update_patch(&p, Some("other".to_string())),
        Some(Patch::SetStatus("other".to_string()))
    );
    let bare = parent(&[], None);
    assert_eq!(
        status_update_patch(&bare, Some("first".to_string())),
        Some(Patch::SetStatus("first".to_string()))
    );
}

#[test]
fn completion_message_identifies_resource_and_slot() {
    let cfg = config();
    let p = parent(&["my-operator"], None);
    let outcome = Err(UpdateError::ClientError("timeout".to_string()));
    let msg = completion_message(&cfg, &p, "slot-9".to_string(), &outcome);
    assert_eq!(msg.resource_type, "example.com/v1/Widget");
    assert_eq!(
        msg.resource_id,
        ObjectId {
            namespace: "default".to_string(),
            name: "widget-1".to_string()
        }
    );
    assert_eq!(msg.index_key, Some("slot-9".to_string()));
    assert_eq!(
        msg.event_type,
        EventType::UpdateOperationComplete { result: Err(()) }
    );
}

#[test]
fn steps_accept_only_their_answers() {
    assert!(FinalizeStep::Start.accepts(&Event::Begin));
    assert!(!FinalizeStep::Start.accepts(&Event::DelayElapsed));
    assert!(FinalizeStep::AwaitHandler.accepts(&Event::HandlerLost("x".to_string())));
    assert!(!FinalizeStep::AwaitRemoval.accepts(&Event::DelayElapsed));
    assert!(FinalizeStep::AwaitDelay(Duration::from_secs(1)).accepts(&Event::DelayElapsed));
    assert!(!FinalizeStep::Done.accepts(&Event::Begin));
}
