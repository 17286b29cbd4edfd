//! Packs the outcome of an attempt into the message the controller loop
//! expects.
use vstd::prelude::*;

use std::time::Duration;

use crate::finalize::{outcome_view, RuntimeConfig, UpdateError, UpdateErrorView};
use crate::resource::{K8sResource, ObjectId};

verus! {

/// The kind of event delivered to the controller loop.
#[derive(Debug, PartialEq, Eq)]
pub enum EventType {
    /// A reconcile or finalize attempt is over. A failure carries nothing:
    /// its detail has been logged and counted already.
    UpdateOperationComplete { result: Result<Option<Duration>, ()> },
}

/// The event the controller loop receives for one resource.
#[derive(Debug, PartialEq, Eq)]
pub struct ResourceMessage {
    pub event_type: EventType,
    pub resource_type: String,
    pub resource_id: ObjectId,
    /// The in-flight slot that this attempt held.
    pub index_key: Option<String>,
}

/// The result that the controller loop sees for an attempt's outcome.
pub open spec fn reported(o: Result<Option<Duration>, UpdateErrorView>) -> Result<Option<Duration>, ()> {
    match o {
        Ok(r) => Ok(r),
        Err(_) => Err(()),
    }
}

/// Builds the completion event for the attempt on `parent`, which held the
/// slot `index_key` and ended with `outcome`.
pub fn completion_message(
    config: &RuntimeConfig,
    parent: &K8sResource,
    index_key: String,
    outcome: &Result<Option<Duration>, UpdateError>,
) -> (m: ResourceMessage)
    ensures
        m.event_type == (EventType::UpdateOperationComplete {
            result: reported(outcome_view(*outcome)),
        }),
        m.resource_type@ == config.parent_type@,
        m.resource_id.namespace@ == parent@.namespace,
        m.resource_id.name@ == parent@.name,
        m.index_key == Some(index_key),
{
    let result = match outcome {
        Ok(r) => Ok(*r),
        Err(_) => Err(()),
    };
    ResourceMessage {
        event_type: EventType::UpdateOperationComplete { result },
        resource_type: config.parent_type.clone(),
        resource_id: ObjectId {
            namespace: parent.id.namespace.clone(),
            name: parent.id.name.clone(),
        },
        index_key: Some(index_key),
    }
}

/// Whether an attempt that ended with `outcome` raises the parent's error
/// counter: only a failure does.
pub fn counts_as_failure(outcome: &Result<Option<Duration>, UpdateError>) -> (r: bool)
    ensures
        r == outcome is Err,
{
    match outcome {
        Ok(_) => false,
        Err(_) => true,
    }
}

} // verus!
