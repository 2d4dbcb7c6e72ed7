//! The managed resources and the stages of their lifecycle.

use vstd::prelude::*;

verus! {

/// A point in the lifecycle of a managed resource, derived from the last
/// entry of its condition log.
#[derive(Clone, Debug, PartialEq, Eq)]
pub enum Stage {
    /// The resource is being torn down.
    Deleting,
    /// The resource exists but nothing has been issued for it yet.
    Creating,
    /// A certificate was issued; carries the name of the signing request.
    CertificateCreated(String),
    /// Issuance failed; carries the reason.
    CreationFailed(String),
    /// A backing service was created for a webhook; carries its name.
    ServiceCreated(String),
    /// A webhook configuration was created; carries its name.
    WebhookCreated(String),
}

/// The condition type written for a stage: its bare name.
pub open spec fn spec_type_label(s: Stage) -> Seq<char> {
    match s {
        Stage::Deleting => "Deleting"@,
        Stage::Creating => "Creating"@,
        Stage::CertificateCreated(_) => "CertificateCreated"@,
        Stage::CreationFailed(_) => "CreationFailed"@,
        Stage::ServiceCreated(_) => "ServiceCreated"@,
        Stage::WebhookCreated(_) => "WebhookCreated"@,
    }
}

/// The human-readable message written for a stage.
pub open spec fn spec_message(s: Stage) -> Seq<char> {
    match s {
        Stage::Deleting => "Deleting resource"@,
        Stage::Creating => "Creating resource"@,
        Stage::CertificateCreated(c) => "Certificate "@ + c@ + " Created"@,
        Stage::CreationFailed(r) => "Webhook-helper failed to created webhook: "@ + r@,
        Stage::ServiceCreated(s) => "Service "@ + s@ + " Created"@,
        Stage::WebhookCreated(w) => "Webhook "@ + w@ + " Created"@,
    }
}

impl Stage {
    /// The name of this stage, used as the condition type in the status log.
    pub fn type_label(&self) -> (r: String)
        ensures
            r@ == spec_type_label(*self),
    {
        match self {
            Stage::Deleting => String::from_str("Deleting"),
            Stage::Creating => String::from_str("Creating"),
            Stage::CertificateCreated(_) => String::from_str("CertificateCreated"),
            Stage::CreationFailed(_) => String::from_str("CreationFailed"),
            Stage::ServiceCreated(_) => String::from_str("ServiceCreated"),
            Stage::WebhookCreated(_) => String::from_str("WebhookCreated"),
        }
    }

    /// The human-readable message recorded for this stage.
    pub fn message(&self) -> (r: String)
        ensures
            r@ == spec_message(*self),
    {
        match self {
            Stage::Deleting => String::from_str("Deleting resource"),
            Stage::Creating => String::from_str("Creating resource"),
            Stage::CertificateCreated(c) => String::from_str("Certificate ").concat(
                c.as_str(),
            ).concat(" Created"),
            Stage::CreationFailed(r) => String::from_str(
                "Webhook-helper failed to created webhook: ",
            ).concat(r.as_str()),
            Stage::ServiceCreated(s) => String::from_str("Service ").concat(s.as_str()).concat(
                " Created",
            ),
            Stage::WebhookCreated(w) => String::from_str("Webhook ").concat(w.as_str()).concat(
                " Created",
            ),
        }
    }
}

/// One immutable entry of a resource's condition log.
#[derive(Clone, Debug, PartialEq, Eq)]
pub struct CertificateCondition {
    /// The machine-readable condition type: the name of the stage recorded.
    pub type__: String,
    /// The human-readable message of the stage recorded.
    pub message: String,
    /// "True" for every stage except a failure, which records "False".
    pub status: String,
    /// The time the entry was appended.
    pub last_transition_time: String,
}

/// The status of a certificate resource: what was issued for it so far, and
/// the append-only log of conditions.
#[derive(Clone, Debug, PartialEq, Eq)]
pub struct CertificateStatus {
    /// The name of the signing request and secret, once issued.
    pub certificate: Option<String>,
    /// The subject service name, once recorded.
    pub service: Option<String>,
    /// Extra subject alternative names, once recorded.
    pub alt_names: Option<Vec<String>>,
    /// The ordered, append-only condition log.
    pub conditions: Option<Vec<CertificateCondition>>,
}

/// The desired state of a certificate resource.
#[derive(Clone, Debug, PartialEq, Eq)]
pub struct CertificateSpec {
    /// The namespace the issued secret is placed in.
    pub namespace: String,
    /// The service the certificate is issued for; its lowercased form is the
    /// subject name.
    pub service: String,
    /// Extra DNS subject alternative names.
    pub alt_names: Option<Vec<String>>,
}

/// The metadata of a managed resource, as far as the controller reads it.
#[derive(Clone, Debug, PartialEq, Eq)]
pub struct ResourceMeta {
    /// The object's name.
    pub name: String,
    /// The server-assigned unique id, if the object was ever persisted.
    pub uid: Option<String>,
    /// Set once deletion was requested; the value is the timestamp text.
    pub deletion_timestamp: Option<String>,
    /// The finalizers currently attached.
    pub finalizers: Option<Vec<String>>,
}

/// A certificate resource: the primary managed entity.
#[derive(Clone, Debug, PartialEq, Eq)]
pub struct CertificateResource {
    pub metadata: ResourceMeta,
    pub spec: CertificateSpec,
    pub status: Option<CertificateStatus>,
}

/// The desired state of a webhook-helper resource.
#[derive(Clone, Debug, PartialEq, Eq)]
pub struct HelperSpec {
    /// The namespace the backing service and deployment live in.
    pub namespace: String,
    /// The webhook configuration manifest, as JSON text; it parses as either
    /// a mutating or a validating configuration.
    pub webhook: String,
    /// The port the webhook service listens on.
    pub listening_port: i32,
    /// The container port the service forwards to.
    pub target_port: Option<i32>,
    /// The URL path of the admission endpoint.
    pub path: Option<String>,
    /// The deployment manifest, as JSON text.
    pub deployment: String,
    /// The container the service targets.
    pub container_name: Option<String>,
}

/// The status of a webhook-helper resource: references to what was created.
#[derive(Clone, Debug, PartialEq, Eq)]
pub struct HelperStatus {
    /// The name of the created validating webhook configuration, if any.
    pub validating_webhook: Option<String>,
    /// The name of the created mutating webhook configuration, if any.
    pub mutating_webhook: Option<String>,
    /// The name of the created backing service, if any.
    pub service: Option<String>,
}

/// A webhook-helper resource: the secondary managed entity.
#[derive(Clone, Debug, PartialEq, Eq)]
pub struct WebhookHelper {
    pub metadata: ResourceMeta,
    pub spec: HelperSpec,
    pub status: Option<HelperStatus>,
}

} // verus!
