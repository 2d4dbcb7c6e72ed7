//! A verified core for a certificate-issuing cluster controller.
//!
//! The library holds the decision logic of the controller: classifying the
//! action a resource needs, tracking issuance stages through an append-only
//! condition log, building certificate-signing requests and TLS secrets, and
//! resolving and rewriting admission-webhook configurations. All cluster I/O
//! stays outside; the functions here take plain values and return plain
//! values, with contracts checked by Verus.

pub mod certificate;
pub mod controller;
pub mod crd;
pub mod errors;
pub mod strutil;
pub mod utils;
pub mod webhook;
