//! The webhook lifecycle manager: variant resolution of the embedded
//! manifest, CA injection and client-target rewriting, and teardown.

use vstd::prelude::*;

use crate::crd::{HelperStatus, WebhookHelper};
use crate::errors::Error;
use crate::strutil::str_eq;
use crate::utils::Operation;

verus! {

/// Which of the two configuration variants a manifest resolved to; exactly
/// one is active per resource.
#[derive(Clone, Copy, Debug, PartialEq, Eq, Structural)]
pub enum WebhookKind {
    Mutating,
    Validating,
}

/// The service a webhook entry's client is pointed at.
#[derive(Clone, Debug, PartialEq, Eq)]
pub struct ServiceRef {
    pub name: String,
    pub namespace: String,
    pub port: Option<i32>,
    pub path: Option<String>,
}

/// One webhook entry of a configuration, as far as the manager reads and
/// rewrites it.
#[derive(Clone, Debug, PartialEq, Eq)]
pub struct WebhookEntry {
    /// The entry's name.
    pub name: String,
    /// A static URL target, cleared by the rewrite.
    pub url: Option<String>,
    /// The CA bundle the client trusts, injected by the rewrite.
    pub ca_bundle: Option<Vec<u8>>,
    /// The service target, set by the rewrite.
    pub service: Option<ServiceRef>,
}

/// A webhook configuration manifest: its object name and its entries.
#[derive(Clone, Debug, PartialEq, Eq)]
pub struct WebhookManifest {
    pub name: String,
    pub entries: Vec<WebhookEntry>,
}

/// A manifest together with the variant it resolved to.
#[derive(Clone, Debug, PartialEq, Eq)]
pub struct ResolvedWebhook {
    pub kind: WebhookKind,
    pub manifest: WebhookManifest,
}

/// What the manifest text parses to as a mutating configuration, if it does.
/// The result depends on the text alone.
pub uninterp spec fn mutating_manifest_of(s: Seq<char>) -> Option<WebhookManifest>;

/// What the manifest text parses to as a validating configuration, if it
/// does. The result depends on the text alone.
pub uninterp spec fn validating_manifest_of(s: Seq<char>) -> Option<WebhookManifest>;

/// Relies on `serde_json::from_str::<MutatingWebhookConfiguration>` (of
/// `k8s_openapi`): whether the text parses as a mutating configuration, and
/// what it holds, depend on the text alone; a text whose `kind` field names
/// another configuration kind is rejected. The fields the manager reads are
/// carried over one for one.
#[verifier::external_body]
fn parse_mutating(manifest: &str) -> (r: Option<WebhookManifest>)
    ensures
        r == mutating_manifest_of(manifest@),
{
    let parsed = serde_json::from_str::<k8s_openapi::api::admissionregistration::v1::MutatingWebhookConfiguration>(manifest);
    let conf = match parsed { Ok(c) => c, Err(_) => return None };
    let entries = conf.webhooks.unwrap_or_default().into_iter().map(|w| WebhookEntry {
        name: w.name,
        url: w.client_config.url,
        ca_bundle: w.client_config.ca_bundle.map(|b| b.0),
        service: w.client_config.service.map(|s| ServiceRef {
            name: s.name, namespace: s.namespace, port: s.port, path: s.path }),
    }).collect();
    Some(WebhookManifest { name: conf.metadata.name.unwrap_or_default(), entries })
}

/// Relies on `serde_json::from_str::<ValidatingWebhookConfiguration>` (of
/// `k8s_openapi`): whether the text parses as a validating configuration, and
/// what it holds, depend on the text alone; a text whose `kind` field names
/// another configuration kind is rejected. The fields the manager reads are
/// carried over one for one.
#[verifier::external_body]
fn parse_validating(manifest: &str) -> (r: Option<WebhookManifest>)
    ensures
        r == validating_manifest_of(manifest@),
{
    let parsed = serde_json::from_str::<k8s_openapi::api::admissionregistration::v1::ValidatingWebhookConfiguration>(manifest);
    let conf = match parsed { Ok(c) => c, Err(_) => return None };
    let entries = conf.webhooks.unwrap_or_default().into_iter().map(|w| WebhookEntry {
        name: w.name,
        url: w.client_config.url,
        ca_bundle: w.client_config.ca_bundle.map(|b| b.0),
        service: w.client_config.service.map(|s| ServiceRef {
            name: s.name, namespace: s.namespace, port: s.port, path: s.path }),
    }).collect();
    Some(WebhookManifest { name: conf.metadata.name.unwrap_or_default(), entries })
}

/// The manifest a text resolves to: the mutating parse when it succeeds, else
/// the validating parse.
pub open spec fn spec_resolved(s: Seq<char>) -> Option<WebhookManifest> {
    if mutating_manifest_of(s) is Some {
        mutating_manifest_of(s)
    } else {
        validating_manifest_of(s)
    }
}

/// Resolves the manifest's variant: the text is first tried as a mutating
/// configuration, then as a validating one; the first successful parse
/// determines the variant. A text that parses as neither fails.
pub fn resolve_manifest(manifest: &str) -> (r: Result<ResolvedWebhook, Error>)
    ensures
        mutating_manifest_of(manifest@) is Some ==> (r matches Ok(w) && w.kind is Mutating
            && w.manifest == mutating_manifest_of(manifest@)->Some_0),
        mutating_manifest_of(manifest@) is None && validating_manifest_of(manifest@) is Some ==> (
        r matches Ok(w) && w.kind is Validating && w.manifest == validating_manifest_of(
            manifest@,
        )->Some_0),
        mutating_manifest_of(manifest@) is None && validating_manifest_of(manifest@) is None ==> (
        r matches Err(e) && e matches Error::SerializationFailure(m) && m@
            == "Unable to determine webhook type"@),
{
    match parse_mutating(manifest) {
        Some(m) => Ok(ResolvedWebhook { kind: WebhookKind::Mutating, manifest: m }),
        None => match parse_validating(manifest) {
            Some(v) => Ok(ResolvedWebhook { kind: WebhookKind::Validating, manifest: v }),
            None => Err(
                Error::SerializationFailure(String::from_str("Unable to determine webhook type")),
            ),
        },
    }
}

/// The entries of a config map, as key-value pairs.
pub open spec fn spec_cm_entries(data: Option<Vec<(String, String)>>) -> Seq<(String, String)> {
    match data {
        Some(d) => d@,
        None => Seq::empty(),
    }
}

/// Whether a config map holds the cluster root CA under key "ca.crt".
pub open spec fn spec_has_ca(entries: Seq<(String, String)>) -> bool {
    exists|i: int| 0 <= i < entries.len() && (#[trigger] entries[i]).0@ == "ca.crt"@
}

/// Reads the cluster root CA bundle out of the well-known config map's data:
/// the value under key "ca.crt". Its absence is an unrecoverable
/// configuration error.
pub fn find_ca_bundle(data: &Option<Vec<(String, String)>>) -> (r: Result<&String, Error>)
    ensures
        spec_has_ca(spec_cm_entries(*data)) ==> (r matches Ok(v) && exists|i: int|
            0 <= i < spec_cm_entries(*data).len() && (#[trigger] spec_cm_entries(*data)[i]).0@
                == "ca.crt"@ && v@ == spec_cm_entries(*data)[i].1@),
        !spec_has_ca(spec_cm_entries(*data)) ==> (r matches Err(e)
            && e matches Error::PreconditionViolation(m) && m@ == "Cound not find signing CA"@),
{
    match data {
        Some(d) => {
            let n = d.len();
            let mut i: usize = 0;
            while i < n
                invariant
                    *data is Some,
                    (*data)->Some_0 == *d,
                    n == d.len(),
                    0 <= i <= n,
                    forall|j: int| 0 <= j < i ==> (#[trigger] d@[j]).0@ != "ca.crt"@,
                decreases n - i,
            {
                if str_eq(d[i].0.as_str(), "ca.crt") {
                    return Ok(&d[i].1);
                }
                i += 1;
            }
            Err(Error::PreconditionViolation(String::from_str("Cound not find signing CA")))
        },
        None => Err(Error::PreconditionViolation(String::from_str("Cound not find signing CA"))),
    }
}

/// A backing service, as far as the manager reads it: its name and its
/// namespace, if it has one.
#[derive(Clone, Debug, PartialEq, Eq)]
pub struct ServiceModel {
    pub name: String,
    pub namespace: Option<String>,
}

/// The namespace a client target uses: the service's own, or "default".
pub open spec fn spec_target_namespace(service: ServiceModel) -> Seq<char> {
    match service.namespace {
        Some(ns) => ns@,
        None => "default"@,
    }
}

/// Builds the client target every rewritten entry points at: the resolved
/// service, the helper's listening port, and its optional path.
pub fn client_target(service: &ServiceModel, listening_port: i32, path: &Option<String>) -> (r:
    ServiceRef)
    ensures
        r.name == service.name,
        r.namespace@ == spec_target_namespace(*service),
        r.port == Some(listening_port),
        r.path == *path,
{
    let namespace = match &service.namespace {
        Some(ns) => ns.clone(),
        None => String::from_str("default"),
    };
    let path_c = match path {
        Some(p) => Some(p.clone()),
        None => None,
    };
    ServiceRef { name: service.name.clone(), namespace, port: Some(listening_port), path: path_c }
}

/// An exact copy of a client target.
fn clone_service_ref(svc: &ServiceRef) -> (r: ServiceRef)
    ensures
        r == *svc,
{
    let path = match &svc.path {
        Some(p) => Some(p.clone()),
        None => None,
    };
    ServiceRef { name: svc.name.clone(), namespace: svc.namespace.clone(), port: svc.port, path }
}

/// How a rewritten entry relates to the one it came from: the name is kept,
/// any static URL is cleared, the CA bundle is injected, and the client is
/// pointed at the target.
pub open spec fn spec_rewritten_entry(
    new: WebhookEntry,
    old_entry: WebhookEntry,
    ca: Seq<u8>,
    svc: ServiceRef,
) -> bool {
    &&& new.name == old_entry.name
    &&& new.url is None
    &&& new.ca_bundle matches Some(b) && b@ == ca
    &&& new.service == Some(svc)
}

/// Rewrites every entry of a parsed manifest: clears any static URL, injects
/// the CA bundle, and points the client at the resolved service.
pub fn rewrite_entries(entries: Vec<WebhookEntry>, ca: &Vec<u8>, svc: &ServiceRef) -> (r: Vec<
    WebhookEntry,
>)
    ensures
        r@.len() == entries@.len(),
        forall|i: int|
            0 <= i < r@.len() ==> spec_rewritten_entry(#[trigger] r@[i], entries@[i], ca@, *svc),
{
    let n = entries.len();
    let mut out: Vec<WebhookEntry> = Vec::new();
    let mut i: usize = 0;
    while i < n
        invariant
            n == entries.len(),
            0 <= i <= n,
            out@.len() == i,
            forall|j: int|
                0 <= j < i ==> spec_rewritten_entry(#[trigger] out@[j], entries@[j], ca@, *svc),
        decreases n - i,
    {
        let rewritten = WebhookEntry {
            name: entries[i].name.clone(),
            url: None,
            ca_bundle: Some(vstd::slice::slice_to_vec(ca.as_slice())),
            service: Some(clone_service_ref(svc)),
        };
        out.push(rewritten);
        i += 1;
    }
    out
}

/// Records a created webhook configuration in the owning resource's status,
/// under the reference of the variant that was created.
pub fn record_webhook_created(status: Option<HelperStatus>, kind: WebhookKind, name: String) -> (r:
    HelperStatus)
    ensures
        kind is Validating ==> (r.validating_webhook == Some(name) && r.mutating_webhook == match status {
            Some(s) => s.mutating_webhook,
            None => None::<String>,
        }),
        kind is Mutating ==> (r.mutating_webhook == Some(name) && r.validating_webhook == match status {
            Some(s) => s.validating_webhook,
            None => None::<String>,
        }),
        r.service == match status {
            Some(s) => s.service,
            None => None::<String>,
        },
{
    let (validating0, mutating0, service0) = match status {
        Some(s) => (s.validating_webhook, s.mutating_webhook, s.service),
        None => (None, None, None),
    };
    match kind {
        WebhookKind::Validating => HelperStatus {
            validating_webhook: Some(name),
            mutating_webhook: mutating0,
            service: service0,
        },
        WebhookKind::Mutating => HelperStatus {
            validating_webhook: validating0,
            mutating_webhook: Some(name),
            service: service0,
        },
    }
}

/// The configuration the teardown must remove, resolved from the stored
/// status references: the validating reference when one is recorded, else
/// the mutating one.
pub fn webhook_delete_target(status: &Option<HelperStatus>) -> (r: Option<(WebhookKind, String)>)
    ensures
        status is Some && status->Some_0.validating_webhook is Some ==> r == Some(
            (WebhookKind::Validating, status->Some_0.validating_webhook->Some_0),
        ),
        status is Some && status->Some_0.validating_webhook is None
            && status->Some_0.mutating_webhook is Some ==> r == Some(
            (WebhookKind::Mutating, status->Some_0.mutating_webhook->Some_0),
        ),
        !(status is Some && (status->Some_0.validating_webhook is Some
            || status->Some_0.mutating_webhook is Some)) ==> r is None,
{
    match status {
        Some(s) => match &s.validating_webhook {
            Some(v) => Some((WebhookKind::Validating, v.clone())),
            None => match &s.mutating_webhook {
                Some(m) => Some((WebhookKind::Mutating, m.clone())),
                None => None,
            },
        },
        None => None,
    }
}

/// How an entry of a prepared configuration relates to the parsed manifest
/// and the resource it was prepared for.
pub open spec fn spec_client_rewritten(
    new: WebhookEntry,
    old_entry: WebhookEntry,
    ca: Seq<u8>,
    service: ServiceModel,
    port: i32,
    path: Option<String>,
) -> bool {
    &&& new.name == old_entry.name
    &&& new.url is None
    &&& new.ca_bundle matches Some(b) && b@ == ca
    &&& new.service matches Some(s) && s.name == service.name && s.namespace@
        == spec_target_namespace(service) && s.port == Some(port) && s.path == path
}

/// One run of the webhook lifecycle over a single resource.
pub struct WebhookStage {
    /// The operation this run performs.
    pub operation: Operation,
    /// The resource the run is for.
    pub webhook: WebhookHelper,
    /// The resolved backing service, when the caller supplied one.
    pub service: Option<ServiceModel>,
    /// The prepared or fetched configuration, once resolved.
    pub webhook_resource: Option<ResolvedWebhook>,
}

impl WebhookStage {
    /// A fresh run: nothing resolved yet.
    pub fn new(operation: Operation, webhook: WebhookHelper, service: Option<ServiceModel>) -> (s:
        WebhookStage)
        ensures
            s.operation == operation,
            s.webhook == webhook,
            s.service == service,
            s.webhook_resource is None,
    {
        WebhookStage { operation, webhook, service, webhook_resource: None }
    }

    /// Prepares the configuration to create: resolves the manifest's variant
    /// and rewrites every entry to trust `ca` and target the resolved
    /// service. Fails fast with a precondition error when no service was
    /// supplied.
    pub fn prepare_webhook(&mut self, ca: &Vec<u8>) -> (r: Result<(), Error>)
        ensures
            old(self).service is None ==> (r matches Err(e) && e is PreconditionViolation
                && *final(self) == *old(self)),
            r is Ok ==> ({
                let text = old(self).webhook.spec.webhook@;
                let parsed = spec_resolved(text);
                let w = final(self).webhook_resource->Some_0;
                &&& final(self).webhook_resource is Some
                &&& parsed is Some
                &&& (w.kind is Mutating <==> mutating_manifest_of(text) is Some)
                &&& w.manifest.name == parsed->Some_0.name
                &&& w.manifest.entries@.len() == parsed->Some_0.entries@.len()
                &&& forall|i: int|
                    0 <= i < w.manifest.entries@.len() ==> spec_client_rewritten(
                        #[trigger] w.manifest.entries@[i],
                        parsed->Some_0.entries@[i],
                        ca@,
                        old(self).service->Some_0,
                        old(self).webhook.spec.listening_port,
                        old(self).webhook.spec.path,
                    )
            }),
            r matches Err(e) ==> (*final(self) == *old(self) && (e is PreconditionViolation
                || e is SerializationFailure)),
            old(self).service is Some && spec_resolved(old(self).webhook.spec.webhook@) is Some
                ==> r is Ok,
            final(self).operation == old(self).operation,
            final(self).webhook == old(self).webhook,
            final(self).service == old(self).service,
    {
        let target = match &self.service {
            Some(svc) => client_target(svc, self.webhook.spec.listening_port, &self.webhook.spec.path),
            None => {
                return Err(Error::PreconditionViolation(String::from_str("Service is not known")));
            },
        };
        let resolved = match resolve_manifest(self.webhook.spec.webhook.as_str()) {
            Ok(w) => w,
            Err(e) => {
                return Err(e);
            },
        };
        let ResolvedWebhook { kind, manifest } = resolved;
        let WebhookManifest { name, entries } = manifest;
        let rewritten = rewrite_entries(entries, ca, &target);
        self.webhook_resource = Some(
            ResolvedWebhook { kind, manifest: WebhookManifest { name, entries: rewritten } },
        );
        Ok(())
    }

    /// The prepared or fetched configuration, if this run resolved one.
    pub fn get_webhook(&self) -> (r: &Option<ResolvedWebhook>)
        ensures
            r == &self.webhook_resource,
    {
        &self.webhook_resource
    }
}

} // verus!
