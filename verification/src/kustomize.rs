//! Decisions around kustomize targets.
//!
//! Locating the kustomize binary and running it is I/O and stays outside
//! the library; reading the renderer's outcome is verified here.

use vstd::prelude::*;
use vstd::string::StringExecFns;

verus! {

/// What a finished `kustomize build` run means: its rendered manifests on
/// success, otherwise an error naming the renderer and carrying its
/// standard error.
pub fn build_outcome(success: bool, stdout: String, stderr: String) -> (r: Result<String, String>)
    ensures
        match r {
            Ok(s) => success && s@ == stdout@,
            Err(e) => !success && e@ == "Kustomize build failed: "@ + stderr@,
        },
{
    if success {
        Ok(stdout)
    } else {
        let mut msg = String::from_str("Kustomize build failed: ");
        msg.append(stderr.as_str());
        Err(msg)
    }
}

} // verus!
