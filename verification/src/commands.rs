//! Decisions around obtaining a target's manifest text.
//!
//! Reading files and running build tools is I/O and stays outside the
//! library; what is decided about a target — which build strategy applies,
//! how separate manifest files combine, and what a finished command's
//! output means — is verified here.

use vstd::prelude::*;
use vstd::string::StringExecFns;

use crate::strutil::{str_eq, strs_view};

verus! {

/// How a target's manifest text is obtained.
#[derive(Debug, Clone, Copy, PartialEq, Eq, Structural)]
pub enum BuildStrategy {
    /// The target is a single manifest file: read it.
    ReadFile,
    /// The target directory carries a kustomization: render it.
    RunKustomize,
    /// Otherwise: concatenate the directory's manifest files.
    ConcatFiles,
}

/// Whether a directory entry names a kustomization.
pub open spec fn is_kustomization_name(n: Seq<char>) -> bool {
    n == "kustomization.yaml"@ || n == "kustomization.yml"@ || n == "Kustomization"@
}

/// Whether some directory entry names a kustomization.
pub open spec fn has_kustomization(ns: Seq<String>) -> bool {
    exists|i: int| 0 <= i < ns.len() && is_kustomization_name((#[trigger] ns[i])@)
}

/// The build strategy a target calls for.
pub open spec fn spec_plan_build(is_file: bool, entries: Seq<String>) -> BuildStrategy {
    if is_file {
        BuildStrategy::ReadFile
    } else if has_kustomization(entries) {
        BuildStrategy::RunKustomize
    } else {
        BuildStrategy::ConcatFiles
    }
}

/// The text that follows the first part: each further part behind a `---`
/// document separator.
pub open spec fn joined_rest(parts: Seq<Seq<char>>) -> Seq<char>
    decreases parts.len(),
{
    if parts.len() == 0 {
        Seq::empty()
    } else {
        "---\n"@ + parts[0] + joined_rest(parts.drop_first())
    }
}

/// Built manifest texts concatenated with `---` document separators.
pub open spec fn spec_combined(parts: Seq<Seq<char>>) -> Seq<char> {
    if parts.len() == 0 {
        Seq::empty()
    } else {
        parts[0] + joined_rest(parts.drop_first())
    }
}

/// Obtains manifest text for a target.
pub struct Commands {}

impl Commands {
    /// Pick the build strategy for a target from what the filesystem shows:
    /// a file is read as it is, a directory with a kustomization is
    /// rendered, any other directory has its files concatenated.
    pub fn plan_build(is_file: bool, entries: &Vec<String>) -> (r: BuildStrategy)
        ensures
            r == spec_plan_build(is_file, entries@),
    {
        if is_file {
            return BuildStrategy::ReadFile;
        }
        let mut i: usize = 0;
        while i < entries.len()
            invariant
                !is_file,
                i <= entries@.len(),
                forall|j: int| 0 <= j < i ==> !is_kustomization_name((#[trigger] entries@[j])@),
            decreases entries@.len() - i,
        {
            let name = entries[i].as_str();
            if str_eq(name, "kustomization.yaml") || str_eq(name, "kustomization.yml") || str_eq(
                name,
                "Kustomization",
            ) {
                proof {
                    assert(is_kustomization_name(entries@[i as int]@));
                }
                return BuildStrategy::RunKustomize;
            }
            i = i + 1;
        }
        BuildStrategy::ConcatFiles
    }

    /// Concatenate separately built manifest texts into one stream, with a
    /// `---` document separator between consecutive parts.
    pub fn combine_manifests(parts: &Vec<String>) -> (r: String)
        ensures
            r@ == spec_combined(strs_view(parts@)),
    {
        let ghost pv = strs_view(parts@);
        if parts.len() == 0 {
            return String::new();
        }
        let mut acc = parts[0].clone();
        let mut i: usize = 1;
        proof {
            assert(pv.drop_first() =~= pv.skip(1));
        }
        while i < parts.len()
            invariant
                1 <= i <= parts@.len(),
                pv == strs_view(parts@),
                pv.len() == parts@.len(),
                spec_combined(pv) == acc@ + joined_rest(pv.skip(i as int)),
            decreases parts@.len() - i,
        {
            let ghost acc_pre = acc@;
            proof {
                assert(pv.skip(i as int)[0] == pv[i as int]);
                assert(pv.skip(i as int).drop_first() =~= pv.skip(i + 1));
            }
            acc.append("---\n");
            acc.append(parts[i].as_str());
            proof {
                assert(acc@ + joined_rest(pv.skip(i + 1)) =~= acc_pre + ("---\n"@ + pv[i as int]
                    + joined_rest(pv.skip(i + 1))));
            }
            i = i + 1;
        }
        proof {
            assert(pv.skip(parts@.len() as int).len() == 0);
            assert(acc@ + joined_rest(pv.skip(parts@.len() as int)) =~= acc@);
        }
        acc
    }

    /// What a finished build command's output means: its standard output on
    /// success; on failure its standard error, for the caller to report.
    pub fn command_output(success: bool, stdout: String, stderr: String) -> (r: Result<
        String,
        String,
    >)
        ensures
            match r {
                Ok(s) => success && s@ == stdout@,
                Err(e) => !success && e@ == stderr@,
            },
    {
        if success {
            Ok(stdout)
        } else {
            Err(stderr)
        }
    }
}

} // verus!
