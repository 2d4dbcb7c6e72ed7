//! The certificate issuance workflow: keypair and signing-request
//! construction, approval, secret materialization, and teardown.

use vstd::prelude::*;

use rcgen::{date_time_ymd, Certificate as RcgenCertificate, CertificateParams};
use rcgen::{DistinguishedName, DnType, SanType};

use crate::crd::CertificateSpec;
use crate::errors::Error;
use crate::errors::Error::CertificateGenerationFailure;
use crate::strutil::{lower_of, lowercase};
use crate::utils::Operation;

verus! {

/// A calendar date, kept as plain fields so that validity bounds can be
/// stated.
#[derive(Clone, Copy, Debug, PartialEq, Eq, Structural)]
pub struct DateYmd {
    pub year: i32,
    pub month: u8,
    pub day: u8,
}

/// A date every calendar accepts; the keypair generator is only called on
/// such dates, since an invalid one would make it panic.
pub open spec fn spec_valid_date(d: DateYmd) -> bool {
    &&& 1 <= d.year <= 9999
    &&& 1 <= d.month <= 12
    &&& 1 <= d.day <= 28
}

/// The parameters a keypair and signing request are generated from.
#[derive(Clone, Debug, PartialEq, Eq)]
pub struct CertParams {
    /// Start of the validity window.
    pub not_before: DateYmd,
    /// End of the validity window.
    pub not_after: DateYmd,
    /// The organization of the distinguished name.
    pub organization: String,
    /// The common name of the distinguished name.
    pub common_name: String,
    /// The DNS subject alternative names.
    pub subject_alt_names: Vec<String>,
}

/// The extra subject alternative names a resource asks for, empty when the
/// field is absent.
pub open spec fn spec_alt_names(alt_names: Option<Vec<String>>) -> Seq<String> {
    match alt_names {
        Some(v) => v@,
        None => Seq::empty(),
    }
}

/// Builds the generation parameters for a resource: a fixed wide validity
/// window, organization "system:nodes", common name
/// "system:node:" followed by the lowercased service, and the lowercased
/// service followed by the extra names (as given) as subject alternative
/// names.
pub fn build_params(spec: &CertificateSpec) -> (p: CertParams)
    ensures
        p.not_before == (DateYmd { year: 1975, month: 1, day: 1 }),
        p.not_after == (DateYmd { year: 4096, month: 1, day: 1 }),
        spec_valid_date(p.not_before),
        spec_valid_date(p.not_after),
        p.organization@ == "system:nodes"@,
        p.common_name@ == "system:node:"@ + lower_of(spec.service@),
        p.subject_alt_names@.len() == 1 + spec_alt_names(spec.alt_names).len(),
        p.subject_alt_names@[0]@ == lower_of(spec.service@),
        forall|i: int|
            1 <= i < p.subject_alt_names@.len() ==> p.subject_alt_names@[i]@ == spec_alt_names(
                spec.alt_names,
            )[i - 1]@,
{
    let service_lower = lowercase(spec.service.as_str());
    let common_name = String::from_str("system:node:").concat(service_lower.as_str());
    let mut subject_alt_names: Vec<String> = Vec::new();
    subject_alt_names.push(service_lower);
    match &spec.alt_names {
        Some(extra) => {
            let n = extra.len();
            let mut i: usize = 0;
            while i < n
                invariant
                    spec.alt_names is Some,
                    spec.alt_names->Some_0 == *extra,
                    n == extra.len(),
                    0 <= i <= n,
                    subject_alt_names@.len() == 1 + i,
                    subject_alt_names@[0]@ == lower_of(spec.service@),
                    forall|j: int|
                        1 <= j < subject_alt_names@.len() ==> subject_alt_names@[j]@ == extra@[j
                            - 1]@,
                decreases n - i,
            {
                subject_alt_names.push(extra[i].clone());
                i += 1;
            }
        },
        None => {},
    }
    CertParams {
        not_before: DateYmd { year: 1975, month: 1, day: 1 },
        not_after: DateYmd { year: 4096, month: 1, day: 1 },
        organization: String::from_str("system:nodes"),
        common_name,
        subject_alt_names,
    }
}

/// Relies on `rcgen::Certificate::from_params`,
/// `Certificate::serialize_request_pem` and
/// `Certificate::serialize_private_key_pem`: a fresh keypair is generated
/// locally from the parameters (so serializing its key cannot hit the
/// remote-key panic), then the signing request and the private key are
/// rendered in PEM, whose armor lines make both non-empty. The dates must be
/// valid, since `rcgen::date_time_ymd` panics on invalid ones, and every
/// subject alternative name must be ASCII, since the ASN.1 writer asserts
/// that IA5 strings are ASCII (the distinguished name is written as a UTF-8
/// string and needs no such bound). Nothing more can be promised of the
/// randomized results; failures are reported as generation failures.
#[verifier::external_body]
fn generate_certificate(params: &CertParams) -> (r: Result<(String, Vec<u8>), Error>)
    requires
        spec_valid_date(params.not_before),
        spec_valid_date(params.not_after),
        forall|i: int|
            0 <= i < params.subject_alt_names@.len()
                ==> #[trigger] vstd::string::string_is_ascii(&params.subject_alt_names@[i]),
    ensures
        r matches Ok(p) ==> (p.0@.len() > 0 && p.1@.len() > 0),
        r matches Err(e) ==> e is CertificateGenerationFailure,
{
    let nb = params.not_before;
    let na = params.not_after;
    let mut p = CertificateParams::default();
    p.not_before = date_time_ymd(nb.year, nb.month, nb.day);
    p.not_after = date_time_ymd(na.year, na.month, na.day);
    let mut dn = DistinguishedName::new();
    dn.push(DnType::OrganizationName, &params.organization);
    dn.push(DnType::CommonName, &params.common_name);
    p.distinguished_name = dn;
    p.subject_alt_names = params.subject_alt_names.iter().map(|n| SanType::DnsName(n.clone())).collect();
    let r = RcgenCertificate::from_params(p).and_then(|c|
        Ok((c.serialize_request_pem()?, c.serialize_private_key_pem().into_bytes())));
    r.map_err(|e| CertificateGenerationFailure(e.to_string()))
}

/// A certificate signing request, as submitted to the cluster's signer.
#[derive(Clone, Debug, PartialEq, Eq)]
pub struct CsrRequest {
    /// The object's name: the lowercased resource name.
    pub name: String,
    /// The signer asked to issue the certificate.
    pub signer_name: String,
    /// The requested lifetime of the issued certificate, in seconds.
    pub expiration_seconds: i32,
    /// The PEM-encoded signing request.
    pub request_pem: String,
    /// The requested key usages.
    pub usages: Vec<String>,
}

/// Builds the signing-request object submitted for a resource: the
/// kubelet-serving signer, a one-day expiration, and the three server
/// usages.
pub fn build_csr_request(name: String, pem: String) -> (r: CsrRequest)
    ensures
        r.name == name,
        r.signer_name@ == "kubernetes.io/kubelet-serving"@,
        r.expiration_seconds == 86400i32,
        r.request_pem == pem,
        r.usages@.len() == 3,
        r.usages@[0]@ == "key encipherment"@,
        r.usages@[1]@ == "digital signature"@,
        r.usages@[2]@ == "server auth"@,
{
    let mut usages: Vec<String> = Vec::new();
    usages.push(String::from_str("key encipherment"));
    usages.push(String::from_str("digital signature"));
    usages.push(String::from_str("server auth"));
    CsrRequest {
        name,
        signer_name: String::from_str("kubernetes.io/kubelet-serving"),
        expiration_seconds: 86400,
        request_pem: pem,
        usages,
    }
}

/// The condition appended to a signing request's own status to approve it.
#[derive(Clone, Debug, PartialEq, Eq)]
pub struct CsrApproval {
    pub type__: String,
    pub message: String,
    pub reason: String,
    pub status: String,
}

/// The approval condition the controller appends to a pending signing
/// request.
pub fn build_approval() -> (r: CsrApproval)
    ensures
        r.type__@ == "Approved"@,
        r.message@ == "Approved by webhook-helper"@,
        r.reason@ == "WebHelperApproved"@,
        r.status@ == "True"@,
{
    CsrApproval {
        type__: String::from_str("Approved"),
        message: String::from_str("Approved by webhook-helper"),
        reason: String::from_str("WebHelperApproved"),
        status: String::from_str("True"),
    }
}

/// The path of the approval subresource of a signing request.
pub fn approval_url(csr_name: &str) -> (r: String)
    ensures
        r@ == "/apis/certificates.k8s.io/v1/certificatesigningrequests/"@ + csr_name@
            + "/approval"@,
{
    String::from_str("/apis/certificates.k8s.io/v1/certificatesigningrequests/").concat(
        csr_name,
    ).concat("/approval")
}

/// The status of a signing request, as far as the poll reads it: the signed
/// certificate bytes, once the signer issued them.
#[derive(Clone, Debug, PartialEq, Eq)]
pub struct CsrState {
    pub certificate: Option<Vec<u8>>,
}

/// The signed certificate a polled signing request carries, if it appeared.
pub fn signed_certificate(state: &Option<CsrState>) -> (r: Option<&Vec<u8>>)
    ensures
        state is Some && state->Some_0.certificate is Some ==> (r matches Some(c) && c
            == state->Some_0.certificate->Some_0),
        !(state is Some && state->Some_0.certificate is Some) ==> r is None,
{
    match state {
        Some(s) => match &s.certificate {
            Some(c) => Some(c),
            None => None,
        },
        None => None,
    }
}

/// The fixed interval between polls of a pending signing request.
pub fn approval_poll_interval_secs() -> (r: u64)
    ensures
        r == 5u64,
{
    5
}

/// The most polls a single issuance waits for approval. The wait used to be
/// unbounded, which could starve the small reconciliation pool; it is now
/// deadline-bounded, and an issuance that exhausts the bound fails like any
/// other workflow error and is retried by the controller's error policy.
pub fn approval_max_attempts() -> (r: u64)
    ensures
        r == 120u64,
{
    120
}

/// A TLS-typed secret holding an issued certificate and its private key.
#[derive(Clone, Debug, PartialEq, Eq)]
pub struct TlsSecret {
    /// The object's name: the lowercased resource name.
    pub name: String,
    /// The namespace the secret is placed in: the resource's target
    /// namespace.
    pub namespace: String,
    /// The secret's type: the TLS type, whose data keys are "tls.key" and
    /// "tls.crt".
    pub secret_type: String,
    /// The PEM-encoded private key, under key "tls.key".
    pub tls_key: Vec<u8>,
    /// The signed certificate, under key "tls.crt".
    pub tls_crt: Vec<u8>,
}

/// Builds the TLS-typed secret materializing an issued certificate.
pub fn build_tls_secret(name: String, namespace: String, key_pem: Vec<u8>, signed: Vec<u8>) -> (r:
    TlsSecret)
    ensures
        r.name == name,
        r.namespace == namespace,
        r.secret_type@ == "kubernetes.io/tls"@,
        r.tls_key == key_pem,
        r.tls_crt == signed,
{
    TlsSecret {
        name,
        namespace,
        secret_type: String::from_str("kubernetes.io/tls"),
        tls_key: key_pem,
        tls_crt: signed,
    }
}

/// One run of the issuance workflow over a single resource: what was
/// generated, submitted and materialized so far.
pub struct CertificateStage {
    /// The operation this run performs.
    pub operation: Operation,
    /// The resource the run is for.
    pub certificate: crate::crd::CertificateResource,
    /// The rendered PEM signing request, once the keypair was generated.
    pub csr_pem: Option<String>,
    /// The rendered PEM private key, once the keypair was generated.
    pub key_pem: Option<Vec<u8>>,
    /// The submitted signing request, once built.
    pub csr_request: Option<CsrRequest>,
    /// The signed certificate, once the signer issued it.
    pub signed_cert: Option<Vec<u8>>,
    /// The materialized secret, once built.
    pub secret: Option<TlsSecret>,
}

impl CertificateStage {
    /// A fresh run: nothing generated yet.
    pub fn new(operation: Operation, certificate: crate::crd::CertificateResource) -> (s:
        CertificateStage)
        ensures
            s.operation == operation,
            s.certificate == certificate,
            s.csr_pem is None,
            s.key_pem is None,
            s.csr_request is None,
            s.signed_cert is None,
            s.secret is None,
    {
        CertificateStage {
            operation,
            certificate,
            csr_pem: None,
            key_pem: None,
            csr_request: None,
            signed_cert: None,
            secret: None,
        }
    }

    /// Generates the keypair for the resource and renders its signing
    /// request and private key, with `build_params` fixing every generation
    /// parameter. A subject alternative name that is not ASCII cannot be
    /// written into a signing request and is rejected up front.
    pub fn generate_cert(&mut self) -> (r: Result<(), Error>)
        ensures
            r is Ok ==> ((final(self).csr_pem matches Some(p) && p@.len() > 0)
                && (final(self).key_pem matches Some(k) && k@.len() > 0)),
            r matches Err(e) ==> (e is CertificateGenerationFailure && final(self).csr_pem == old(
                self,
            ).csr_pem && final(self).key_pem == old(self).key_pem),
            final(self).operation == old(self).operation,
            final(self).certificate == old(self).certificate,
            final(self).csr_request == old(self).csr_request,
            final(self).signed_cert == old(self).signed_cert,
            final(self).secret == old(self).secret,
    {
        let params = build_params(&self.certificate.spec);
        let n = params.subject_alt_names.len();
        let mut i: usize = 0;
        while i < n
            invariant
                n == params.subject_alt_names.len(),
                0 <= i <= n,
                forall|j: int|
                    0 <= j < i ==> #[trigger] vstd::string::string_is_ascii(
                        &params.subject_alt_names@[j],
                    ),
            decreases n - i,
        {
            if !params.subject_alt_names[i].as_str().is_ascii() {
                return Err(
                    Error::CertificateGenerationFailure(
                        String::from_str("subject alternative name is not ASCII"),
                    ),
                );
            }
            i += 1;
        }
        match generate_certificate(&params) {
            Ok((csr_pem, key_pem)) => {
                self.csr_pem = Some(csr_pem);
                self.key_pem = Some(key_pem);
                Ok(())
            },
            Err(e) => Err(e),
        }
    }

    /// Builds the signing request around the rendered request PEM, named
    /// after the lowercased resource name, and records it.
    pub fn prepare_csr(&mut self)
        requires
            old(self).csr_pem is Some,
        ensures
            final(self).csr_request matches Some(c) && c.name@ == lower_of(
                old(self).certificate.metadata.name@,
            ) && c.signer_name@ == "kubernetes.io/kubelet-serving"@ && c.expiration_seconds
                == 86400i32 && c.request_pem == old(self).csr_pem->Some_0 && c.usages@.len() == 3
                && c.usages@[0]@ == "key encipherment"@ && c.usages@[1]@ == "digital signature"@
                && c.usages@[2]@ == "server auth"@,
            final(self).operation == old(self).operation,
            final(self).certificate == old(self).certificate,
            final(self).csr_pem == old(self).csr_pem,
            final(self).key_pem == old(self).key_pem,
            final(self).signed_cert == old(self).signed_cert,
            final(self).secret == old(self).secret,
    {
        let pem = match &self.csr_pem {
            Some(p) => p.clone(),
            None => String::new(),
        };
        let name_lower = lowercase(self.certificate.metadata.name.as_str());
        let request = build_csr_request(name_lower, pem);
        self.csr_request = Some(request);
    }

    /// Builds the TLS secret materializing the signed certificate in the
    /// resource's target namespace, and records it.
    pub fn prepare_secret(&mut self)
        requires
            old(self).key_pem is Some,
            old(self).signed_cert is Some,
        ensures
            final(self).secret matches Some(s) && s.name@ == lower_of(
                old(self).certificate.metadata.name@,
            ) && s.namespace == old(self).certificate.spec.namespace && s.secret_type@
                == "kubernetes.io/tls"@ && s.tls_key@ == old(self).key_pem->Some_0@ && s.tls_crt@
                == old(self).signed_cert->Some_0@,
            final(self).operation == old(self).operation,
            final(self).certificate == old(self).certificate,
            final(self).csr_pem == old(self).csr_pem,
            final(self).key_pem == old(self).key_pem,
            final(self).csr_request == old(self).csr_request,
            final(self).signed_cert == old(self).signed_cert,
    {
        let key = match &self.key_pem {
            Some(k) => vstd::slice::slice_to_vec(k.as_slice()),
            None => Vec::new(),
        };
        let signed = match &self.signed_cert {
            Some(b) => vstd::slice::slice_to_vec(b.as_slice()),
            None => Vec::new(),
        };
        let name_lower = lowercase(self.certificate.metadata.name.as_str());
        let secret = build_tls_secret(
            name_lower,
            self.certificate.spec.namespace.clone(),
            key,
            signed,
        );
        self.secret = Some(secret);
    }

    /// The materialized secret, if this run produced one.
    pub fn get_secret(&self) -> (r: &Option<TlsSecret>)
        ensures
            r == &self.secret,
    {
        &self.secret
    }
}

} // verus!
