//! Diff generation for Kubernetes resources.
//!
//! Computes a unified diff between the serialized live state and the
//! serialized local manifest.  The line diff itself comes from the `similar`
//! crate behind a trusted wrapper; whether a diff exists at all, and the
//! header that names the resource, are decided and assembled here.

use vstd::prelude::*;
use vstd::string::StringExecFns;

use crate::strutil::str_eq;

verus! {

/// The unified-diff hunks that a line-based diff of the two texts produces,
/// with a context radius of three lines.
pub uninterp spec fn hunks_of(live: Seq<char>, local: Seq<char>) -> Seq<char>;

/// The two header lines that name the compared resource.
pub open spec fn diff_header(name: Seq<char>) -> Seq<char> {
    "--- a/"@ + name + "\n"@ + "+++ b/"@ + name + "\n"@
}

/// The full diff text for a changed resource.
pub open spec fn diff_text(name: Seq<char>, live: Seq<char>, local: Seq<char>) -> Seq<char> {
    diff_header(name) + hunks_of(live, local)
}

/// What diffing two texts yields: nothing when they are identical, otherwise
/// the header and the hunks.
pub open spec fn spec_generate_diff(name: Seq<char>, live: Seq<char>, local: Seq<char>) -> Option<
    Seq<char>,
> {
    if live == local {
        None
    } else {
        Some(diff_text(name, live, local))
    }
}

/// Relies on `similar::TextDiff::from_lines` and its unified-diff writer:
/// the hunks are a function of the two texts alone.
#[verifier::external_body]
fn unified_hunks(live: &str, local: &str) -> (r: String)
    ensures
        r@ == hunks_of(live@, local@),
{
    let diff = similar::TextDiff::from_lines(live, local);
    let mut out = String::new();
    for hunk in diff.unified_diff().context_radius(3).iter_hunks() {
        out.push_str(&format!("{}", hunk));
    }
    out
}

/// Generate a unified diff between the live (original) and the local
/// (modified) serialization of one resource.
///
/// Returns `None` when the two texts are identical — "compared, no change" —
/// and otherwise a diff that opens with two header lines naming the
/// resource.
pub fn generate_diff(name: &str, live: &str, local: &str) -> (r: Option<String>)
    ensures
        r is Some <==> live@ != local@,
        match r {
            Some(d) => spec_generate_diff(name@, live@, local@) == Some(d@),
            None => spec_generate_diff(name@, live@, local@) is None,
        },
{
    if str_eq(live, local) {
        return None;
    }
    let mut out = String::from_str("--- a/");
    out.append(name);
    out.append("\n");
    out.append("+++ b/");
    out.append(name);
    out.append("\n");
    let hunks = unified_hunks(live, local);
    out.append(hunks.as_str());
    Some(out)
}

/// Diffing a text against itself reports no change.
pub proof fn lemma_diff_null_property(name: Seq<char>, t: Seq<char>)
    ensures
        spec_generate_diff(name, t, t) is None,
{
}

/// When the two texts differ, the diff exists and opens with the two header
/// lines that embed the resource identity.
pub proof fn lemma_diff_detects_change(name: Seq<char>, live: Seq<char>, local: Seq<char>)
    requires
        live != local,
    ensures
        spec_generate_diff(name, live, local) is Some,
        spec_generate_diff(name, live, local)->0.subrange(0, diff_header(name).len() as int)
            == diff_header(name),
        diff_header(name) == "--- a/"@ + name + "\n"@ + "+++ b/"@ + name + "\n"@,
{
    let d = diff_text(name, live, local);
    assert(d.subrange(0, diff_header(name).len() as int) =~= diff_header(name));
}

} // verus!
