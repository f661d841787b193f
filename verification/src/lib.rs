//! Verified core of a Kubernetes operator that provisions Minecraft server
//! deployments from a declarative specification.
//!
//! The library holds the decision logic of the operator: resolving abstract
//! version requests against the upstream version manifest, verifying artifact
//! digests, composing datapack requests, fingerprinting the fully resolved
//! specification, and driving the reconcile state machine. All network and
//! file I/O lives outside the library; callers hand in plain values and act
//! on the decisions returned.

pub mod api;
pub mod client;
pub mod datapack;
pub mod digest;
pub mod fingerprint;
pub mod manifest;
pub mod reconcile;
pub mod resolver;
pub mod strutil;
