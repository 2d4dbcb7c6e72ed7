//! The reconciliation controller's decisions: which action a resource needs,
//! how fetch failures are classified, and when to requeue.

use vstd::prelude::*;

use crate::crd::{CertificateResource, ResourceMeta, Stage};
use crate::strutil::str_eq;

verus! {

/// Arguments of the controller process: the port its admission endpoint
/// listens on.
#[derive(Clone, Copy, Debug)]
pub struct RunArgs {
    pub port: u16,
}

/// The action a reconciliation decides to take for a resource.
#[derive(Clone, Copy, Debug, PartialEq, Eq)]
pub enum CustomAction {
    /// Issue the certificate (or webhook) and attach the finalizer.
    Create,
    /// Tear down what was created and clear the finalizer.
    Delete,
    /// The resource is already managed; only its stage is inspected.
    Update,
    /// Nothing to do.
    NoOp,
}

/// The finalizer the controller owns; its presence gates deletion.
pub open spec fn spec_finalizer() -> Seq<char> {
    "certificate-helper.io"@
}

/// Whether the controller's finalizer is a member of a finalizer list:
/// exactly one finalizer string gates deletion.
pub open spec fn finalizer_present(finalizers: Option<Vec<String>>) -> bool {
    match finalizers {
        Some(v) => exists|i: int| 0 <= i < v.len() && (#[trigger] v[i]@) == spec_finalizer(),
        None => false,
    }
}

/// The action required for a resource, as a function of its metadata alone:
/// with a deletion timestamp, `Delete` exactly when the finalizer is present,
/// else `NoOp`; without one, `Update` when the finalizer is present, else
/// `Create`.
pub open spec fn spec_determine_action(meta: ResourceMeta) -> CustomAction {
    if meta.deletion_timestamp is Some {
        if finalizer_present(meta.finalizers) {
            CustomAction::Delete
        } else {
            CustomAction::NoOp
        }
    } else {
        if finalizer_present(meta.finalizers) {
            CustomAction::Update
        } else {
            CustomAction::Create
        }
    }
}

/// The finalizer string itself, for callers that patch it onto resources.
pub fn finalizer() -> (r: String)
    ensures
        r@ == spec_finalizer(),
{
    String::from_str("certificate-helper.io")
}

/// Whether the controller's finalizer stands in the list.
fn has_finalizer(finalizers: &Option<Vec<String>>) -> (r: bool)
    ensures
        r == finalizer_present(*finalizers),
{
    match finalizers {
        None => false,
        Some(v) => {
            let n = v.len();
            let mut i: usize = 0;
            while i < n
                invariant
                    *finalizers is Some,
                    (*finalizers)->Some_0 == *v,
                    n == v.len(),
                    0 <= i <= n,
                    forall|j: int| 0 <= j < i ==> (#[trigger] v[j]@) != spec_finalizer(),
                decreases n - i,
            {
                if str_eq(v[i].as_str(), "certificate-helper.io") {
                    proof {
                        let w = (*finalizers)->Some_0;
                        assert(w[i as int]@ == spec_finalizer());
                    }
                    return true;
                }
                i += 1;
            }
            false
        },
    }
}

/// Decides which action to perform for a resource arriving in the
/// reconciliation queue, from its metadata alone.
pub fn determine_action(meta: &ResourceMeta) -> (a: CustomAction)
    ensures
        a == spec_determine_action(*meta),
        meta.deletion_timestamp is None && !finalizer_present(meta.finalizers) ==> a is Create,
        meta.deletion_timestamp is None && finalizer_present(meta.finalizers) ==> a is Update,
        meta.deletion_timestamp is Some ==> (a is Delete <==> finalizer_present(meta.finalizers)),
        meta.deletion_timestamp is Some && !finalizer_present(meta.finalizers) ==> a is NoOp,
{
    let managed = has_finalizer(&meta.finalizers);
    if meta.deletion_timestamp.is_some() {
        if managed {
            CustomAction::Delete
        } else {
            CustomAction::NoOp
        }
    } else {
        if managed {
            CustomAction::Update
        } else {
            CustomAction::Create
        }
    }
}

/// How a failed fetch of the reconciled object is handled.
#[derive(Clone, Copy, Debug, PartialEq, Eq)]
pub enum FetchOutcome {
    /// A "not found" answer: proceed as if the object does not exist.
    TreatAsAbsent,
    /// Any other failure: retry after this many seconds.
    RequeueSeconds(u64),
}

/// A failure fetching the reconciled object, reduced to what the policy
/// reads: an API error's status code, or some other failure.
#[derive(Clone, Copy, Debug, PartialEq, Eq)]
pub enum FetchError {
    /// The API answered with this status code.
    Api(u16),
    /// The request failed before any API answer.
    Other,
}

/// Classifies a failed object fetch: a 404 means absence; any other API
/// answer retries after 15 seconds; anything else after 30 seconds.
pub fn classify_fetch_error(err: FetchError) -> (r: FetchOutcome)
    ensures
        err == FetchError::Api(404u16) ==> r is TreatAsAbsent,
        (err matches FetchError::Api(c) && c != 404) ==> r
            == FetchOutcome::RequeueSeconds(15u64),
        err is Other ==> r == FetchOutcome::RequeueSeconds(30u64),
{
    match err {
        FetchError::Api(code) => {
            if code == 404 {
                FetchOutcome::TreatAsAbsent
            } else {
                FetchOutcome::RequeueSeconds(15)
            }
        },
        FetchError::Other => FetchOutcome::RequeueSeconds(30),
    }
}

/// What the reconciliation loop does after a step.
#[derive(Clone, Copy, Debug, PartialEq, Eq)]
pub enum Requeue {
    /// Run again after this many seconds.
    After(u64),
    /// Wait for the next external change.
    AwaitChange,
}

/// The requeue after a successful creation: a short 5-second retry.
pub fn create_requeue() -> (r: Requeue)
    ensures
        r == Requeue::After(5u64),
{
    Requeue::After(5)
}

/// The fixed backoff applied by the error policy to any propagated workflow
/// error: 60 seconds, with no growth and no fatal termination.
pub fn error_policy_requeue() -> (r: Requeue)
    ensures
        r == Requeue::After(60u64),
{
    Requeue::After(60)
}

/// What the `Update` action does once the stage is read: terminal stages stop
/// requeueing; `Creating` and `Deleting` are informational and keep the short
/// retry.
pub fn update_plan(stage: &Stage) -> (r: Requeue)
    ensures
        (stage is CertificateCreated || stage is CreationFailed) ==> r is AwaitChange,
        !(stage is CertificateCreated || stage is CreationFailed) ==> r == Requeue::After(5u64),
{
    match stage {
        Stage::CertificateCreated(_) => Requeue::AwaitChange,
        Stage::CreationFailed(_) => Requeue::AwaitChange,
        _ => Requeue::After(5),
    }
}

/// The secret the `Delete` action must remove: the one the status records,
/// if any was issued. Deletion appends no new condition.
pub fn delete_plan(resource: &CertificateResource) -> (r: Option<&String>)
    ensures
        resource.status is Some && resource.status->Some_0.certificate is Some ==> (
        r matches Some(x) && x == resource.status->Some_0.certificate->Some_0),
        !(resource.status is Some && resource.status->Some_0.certificate is Some) ==> r is None,
{
    match &resource.status {
        Some(s) => match &s.certificate {
            Some(c) => Some(c),
            None => None,
        },
        None => None,
    }
}

} // verus!
