//! Decisions around Helm chart targets.
//!
//! Running `helm template` is I/O and stays outside the library; detecting
//! a chart directory and reading the renderer's outcome are verified here.

use vstd::prelude::*;
use vstd::string::StringExecFns;

use crate::strutil::str_eq;

verus! {

/// Whether a directory is a Helm chart: its entries hold a `Chart.yaml`.
pub fn is_helm_directory(entries: &Vec<String>) -> (r: bool)
    ensures
        r <==> exists|i: int| 0 <= i < entries@.len() && (#[trigger] entries@[i])@ == "Chart.yaml"@,
{
    let mut i: usize = 0;
    while i < entries.len()
        invariant
            i <= entries@.len(),
            forall|j: int| 0 <= j < i ==> (#[trigger] entries@[j])@ != "Chart.yaml"@,
        decreases entries@.len() - i,
    {
        if str_eq(entries[i].as_str(), "Chart.yaml") {
            return true;
        }
        i = i + 1;
    }
    false
}

/// What a finished `helm template` run means: its rendered manifests on
/// success, otherwise an error naming the renderer and carrying its
/// standard error.
pub fn build_outcome(success: bool, stdout: String, stderr: String) -> (r: Result<String, String>)
    ensures
        match r {
            Ok(s) => success && s@ == stdout@,
            Err(e) => !success && e@ == "Helm template failed: "@ + stderr@,
        },
{
    if success {
        Ok(stdout)
    } else {
        let mut msg = String::from_str("Helm template failed: ");
        msg.append(stderr.as_str());
        Err(msg)
    }
}

} // verus!
