//! The resource-operation abstraction and the status/stage tracker.

use vstd::prelude::*;

use crate::crd::{
    spec_message, spec_type_label, CertificateCondition, CertificateStatus, Stage,
};
use crate::errors::Error;
use crate::strutil::str_eq;

verus! {

/// The uniform operation set over managed resources, for both namespaced and
/// cluster-scoped kinds.
#[derive(Clone, Debug, PartialEq, Eq)]
pub enum Operation {
    /// Fetch the current server state.
    Get,
    /// Submit a new object.
    Create,
    /// Replace the object wholesale.
    Update,
    /// Best-effort removal.
    Delete,
    /// Merge-patch an owner reference onto the object; carries the owner uid.
    ApplyOwner(String),
    /// An unsupported verb; always fails, carrying this label.
    Unknown(String),
}

/// The concrete call an operation maps to, once validated.
#[derive(Clone, Debug, PartialEq, Eq)]
pub enum ApiVerb {
    /// Fetch by name.
    Get,
    /// Submit the object.
    Create,
    /// Replace by name.
    Replace,
    /// Delete by name.
    Delete,
    /// Merge-patch an owner reference; carries the owner uid.
    ApplyOwner(String),
}

/// Validates an operation and maps it to the call to perform. An `Unknown`
/// operation always fails, and the error carries exactly its label.
pub fn classify_operation(operation: Operation) -> (r: Result<ApiVerb, Error>)
    ensures
        operation is Get ==> (r matches Ok(v) && v is Get),
        operation is Create ==> (r matches Ok(v) && v is Create),
        operation is Update ==> (r matches Ok(v) && v is Replace),
        operation is Delete ==> (r matches Ok(v) && v is Delete),
        operation matches Operation::ApplyOwner(o) ==> (r matches Ok(v) && v matches ApiVerb::ApplyOwner(u) && u == o),
        operation matches Operation::Unknown(l) ==> (r matches Err(e) && e matches Error::UnknownOperation(m) && m == l),
{
    match operation {
        Operation::Get => Ok(ApiVerb::Get),
        Operation::Create => Ok(ApiVerb::Create),
        Operation::Update => Ok(ApiVerb::Replace),
        Operation::Delete => Ok(ApiVerb::Delete),
        Operation::ApplyOwner(owner) => Ok(ApiVerb::ApplyOwner(owner)),
        Operation::Unknown(label) => Err(Error::UnknownOperation(label)),
    }
}

/// One entry of an object's `ownerReferences` metadata, as the controller
/// merge-patches it onto child objects.
#[derive(Clone, Debug, PartialEq, Eq)]
pub struct OwnerReference {
    pub api_version: String,
    pub kind: String,
    pub name: String,
    pub uid: String,
    pub block_owner_deletion: bool,
}

/// The owner reference patched onto objects the controller creates: it links
/// the child to the owning resource's uid without blocking owner deletion.
pub fn owner_reference(uid: String) -> (r: OwnerReference)
    ensures
        r.api_version@ == "v1"@,
        r.kind@ == "WebhookHelper"@,
        r.name@ == "webhook-helper.io"@,
        r.uid == uid,
        !r.block_owner_deletion,
{
    OwnerReference {
        api_version: String::from_str("v1"),
        kind: String::from_str("WebhookHelper"),
        name: String::from_str("webhook-helper.io"),
        uid,
        block_owner_deletion: false,
    }
}

/// Relies on `chrono`'s `DateTime<Utc>` formatting of the current system
/// time with `%d/%m/%Y %T`: the rendered text is never empty.
#[verifier::external_body]
pub fn now_timestamp() -> (r: String)
    ensures
        r@.len() > 0,
{
    let datetime: chrono::DateTime<chrono::Utc> = std::time::SystemTime::now().into();
    format!("{}", datetime.format("%d/%m/%Y %T"))
}

/// The condition log recorded in a status, empty when nothing was recorded.
pub open spec fn spec_conditions(status: Option<CertificateStatus>) -> Seq<CertificateCondition> {
    match status {
        Some(s) => match s.conditions {
            Some(v) => v@,
            None => Seq::empty(),
        },
        None => Seq::empty(),
    }
}

/// The status value a stage's condition carries: "False" only for a failure.
pub open spec fn spec_condition_status(stage: Stage) -> Seq<char> {
    if stage is CreationFailed {
        "False"@
    } else {
        "True"@
    }
}

/// The condition entry recorded for reaching `stage` at time `now`.
pub fn make_condition(stage: &Stage, now: String) -> (c: CertificateCondition)
    ensures
        c.type__@ == spec_type_label(*stage),
        c.message@ == spec_message(*stage),
        c.status@ == spec_condition_status(*stage),
        c.last_transition_time == now,
{
    let status_text = if let Stage::CreationFailed(_) = stage {
        String::from_str("False")
    } else {
        String::from_str("True")
    };
    CertificateCondition {
        type__: stage.type_label(),
        message: stage.message(),
        status: status_text,
        last_transition_time: now,
    }
}

/// Appends the condition for `stage` to a resource's status and records the
/// issued certificate's name when the stage carries one.
///
/// The condition log is append-only: the new log is the old one with exactly
/// one entry appended, and no prior entry is changed, reordered or dropped.
pub fn apply_stage(status: Option<CertificateStatus>, stage: &Stage, now: String) -> (r:
    CertificateStatus)
    ensures
        r.conditions is Some,
        ({
            let old_conds = spec_conditions(status);
            let new_conds = r.conditions->0@;
            &&& new_conds.len() == old_conds.len() + 1
            &&& forall|i: int| 0 <= i < old_conds.len() ==> new_conds[i] == old_conds[i]
            &&& new_conds.last().type__@ == spec_type_label(*stage)
            &&& new_conds.last().message@ == spec_message(*stage)
            &&& new_conds.last().status@ == spec_condition_status(*stage)
            &&& new_conds.last().last_transition_time == now
        }),
        *stage matches Stage::CertificateCreated(c) ==> r.certificate == Some(c),
        !(stage is CertificateCreated) ==> r.certificate == match status {
            Some(s) => s.certificate,
            None => None::<String>,
        },
        r.service == match status {
            Some(s) => s.service,
            None => None::<String>,
        },
        r.alt_names == match status {
            Some(s) => s.alt_names,
            None => None::<Vec<String>>,
        },
{
    let entry = make_condition(stage, now);
    let (certificate0, service0, alt_names0, conditions0) = match status {
        Some(s) => (s.certificate, s.service, s.alt_names, s.conditions),
        None => (None, None, None, None),
    };
    let mut log: Vec<CertificateCondition> = match conditions0 {
        Some(v) => v,
        None => Vec::new(),
    };
    log.push(entry);
    let certificate = match stage {
        Stage::CertificateCreated(c) => Some(c.clone()),
        _ => certificate0,
    };
    CertificateStatus {
        certificate,
        service: service0,
        alt_names: alt_names0,
        conditions: Some(log),
    }
}

/// The certificate name a status records, "<unknown>" when none was set.
pub open spec fn spec_recorded_certificate(status: Option<CertificateStatus>) -> Seq<char> {
    match status {
        Some(s) => match s.certificate {
            Some(c) => c@,
            None => "<unknown>"@,
        },
        None => "<unknown>"@,
    }
}

/// Classifies the current stage of a resource from the last entry of its
/// condition log alone. An empty log means the resource is still being
/// created; a last entry of an unrecognized type is a classification error,
/// never silently `Creating`.
pub fn classify_status(status: &Option<CertificateStatus>) -> (r: Result<Stage, Error>)
    ensures
        ({
            let conds = spec_conditions(*status);
            &&& conds.len() == 0 ==> (r matches Ok(s) && s is Creating)
            &&& conds.len() > 0 && conds.last().type__@ == "CertificateCreated"@ ==> (r matches Ok(
                s,
            ) && s matches Stage::CertificateCreated(c) && c@ == spec_recorded_certificate(*status))
            &&& conds.len() > 0 && conds.last().type__@ != "CertificateCreated"@
                && conds.last().type__@ == "CreationFailed"@ ==> (r matches Ok(s)
                && s matches Stage::CreationFailed(m) && m@ == conds.last().message@)
            &&& conds.len() > 0 && conds.last().type__@ != "CertificateCreated"@
                && conds.last().type__@ != "CreationFailed"@ ==> (r matches Err(e)
                && e matches Error::UnknownOperation(m) && m@ == "Unable to determine condition type: "@
                    + conds.last().type__@)
        }),
{
    let empty = Ok(Stage::Creating);
    match status {
        None => empty,
        Some(s) => match &s.conditions {
            None => empty,
            Some(log) => {
                if log.len() == 0 {
                    empty
                } else {
                    let last = &log[log.len() - 1];
                    if str_eq(last.type__.as_str(), "CertificateCreated") {
                        let name = match &s.certificate {
                            Some(c) => c.clone(),
                            None => String::from_str("<unknown>"),
                        };
                        Ok(Stage::CertificateCreated(name))
                    } else if str_eq(last.type__.as_str(), "CreationFailed") {
                        Ok(Stage::CreationFailed(last.message.clone()))
                    } else {
                        Err(Error::UnknownOperation(String::from_str(
                            "Unable to determine condition type: ",
                        ).concat(last.type__.as_str())))
                    }
                }
            },
        },
    }
}

} // verus!
