//! Compares locally authored Kubernetes manifests against the live state of a
//! cluster, producing a reviewable diff per resource.
//!
//! The core of the library is the live-state reconciliation and diff engine:
//! resolving a manifest's identity to a concrete API endpoint, stripping
//! server-managed fields, computing a stable unified diff, and fanning work out
//! over many resources with per-resource failure isolation.

use vstd::prelude::*;
use vstd::string::StringExecFns;

pub mod cluster;
pub mod commands;
pub mod diff;
pub mod doc;
pub mod enums;
pub mod filter;
pub mod helm;
pub mod kustomize;
pub mod processor;
pub mod resolver;
pub mod settings;
pub mod strutil;
pub mod yaml;

pub use enums::LogLevel;
pub use processor::{DiffResult, Process, TargetResult};
pub use settings::Settings;

verus! {

/// Joins a kind and a resource name into the `Kind/name` label that diff
/// headers carry.
pub fn resource_label(kind: &str, name: &str) -> (r: String)
    ensures
        r@ == kind@ + "/"@ + name@,
{
    let mut out = kind.to_owned();
    out.append("/");
    out.append(name);
    out
}

} // verus!
