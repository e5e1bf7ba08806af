//! Schema resolution: from a manifest's `apiVersion` and `kind` to the
//! concrete, capability-annotated API endpoint that serves it.
//!
//! Discovery runs once against the cluster and its result is handed in as a
//! read-only snapshot of endpoint descriptors; resolution is a pure function
//! over that snapshot.

use vstd::prelude::*;
use vstd::string::{StrSliceExecFns, StringExecFns};

use crate::strutil::str_eq;

verus! {

/// Whether a resource lives in a namespace or at cluster scope.
#[derive(Clone, Copy, PartialEq, Eq, Structural, Debug)]
pub enum ResourceScope {
    Namespaced,
    Cluster,
}

/// One discovered API endpoint.
#[derive(Debug)]
pub struct EndpointDescriptor {
    pub group: String,
    pub version: String,
    pub kind: String,
    pub scope: ResourceScope,
    pub plural_resource: String,
}

/// The value of an endpoint descriptor.
#[verifier::ext_equal]
pub struct EndpointView {
    pub group: Seq<char>,
    pub version: Seq<char>,
    pub kind: Seq<char>,
    pub scope: ResourceScope,
    pub plural_resource: Seq<char>,
}

impl View for EndpointDescriptor {
    type V = EndpointView;

    open spec fn view(&self) -> EndpointView {
        EndpointView {
            group: self.group@,
            version: self.version@,
            kind: self.kind@,
            scope: self.scope,
            plural_resource: self.plural_resource@,
        }
    }
}

impl EndpointDescriptor {
    /// A field-for-field copy of this descriptor.
    pub fn duplicate(&self) -> (r: Self)
        ensures
            r == *self,
    {
        EndpointDescriptor {
            group: self.group.clone(),
            version: self.version.clone(),
            kind: self.kind.clone(),
            scope: self.scope,
            plural_resource: self.plural_resource.clone(),
        }
    }
}

/// The one-time discovery snapshot: every endpoint the cluster publishes.
#[derive(Debug)]
pub struct SchemaSnapshot {
    pub entries: Vec<EndpointDescriptor>,
}

/// Whether a descriptor serves the given group, version and kind.
pub open spec fn matches_triple(
    d: EndpointView,
    group: Seq<char>,
    version: Seq<char>,
    kind: Seq<char>,
) -> bool {
    d.group == group && d.version == version && d.kind == kind
}

/// A well-formed snapshot holds at most one descriptor per
/// (group, version, kind) triple.
pub open spec fn snapshot_wf(entries: Seq<EndpointView>) -> bool {
    forall|i: int, j: int|
        #![trigger entries[i], entries[j]]
        0 <= i < entries.len() && 0 <= j < entries.len() && matches_triple(
            entries[i],
            entries[j].group,
            entries[j].version,
            entries[j].kind,
        ) ==> entries[i] == entries[j]
}

impl View for SchemaSnapshot {
    type V = Seq<EndpointView>;

    open spec fn view(&self) -> Seq<EndpointView> {
        Seq::new(self.entries@.len(), |i: int| self.entries@[i]@)
    }
}

/// Whether some discovered endpoint serves the triple.
pub open spec fn has_match(
    entries: Seq<EndpointView>,
    group: Seq<char>,
    version: Seq<char>,
    kind: Seq<char>,
) -> bool {
    exists|i: int| 0 <= i < entries.len() && matches_triple(#[trigger] entries[i], group, version, kind)
}

/// The position of the first endpoint that serves the triple.
pub open spec fn match_index(
    entries: Seq<EndpointView>,
    group: Seq<char>,
    version: Seq<char>,
    kind: Seq<char>,
) -> int
    decreases entries.len(),
{
    if entries.len() == 0 {
        0
    } else if matches_triple(entries[0], group, version, kind) {
        0
    } else {
        1 + match_index(entries.drop_first(), group, version, kind)
    }
}

/// What resolution yields: the first endpoint that serves the named group,
/// version and kind, or the unknown-resource error.
pub open spec fn spec_resolve(
    entries: Seq<EndpointView>,
    api_version: Seq<char>,
    kind: Seq<char>,
) -> Result<EndpointView, Seq<char>> {
    let group = group_of(api_version);
    let version = version_of(api_version);
    if has_match(entries, group, version, kind) {
        Ok(entries[match_index(entries, group, version, kind)])
    } else {
        Err("Unknown resource type: "@ + api_version + "/"@ + kind)
    }
}

proof fn lemma_match_index_at(
    entries: Seq<EndpointView>,
    group: Seq<char>,
    version: Seq<char>,
    kind: Seq<char>,
    i: int,
)
    requires
        0 <= i < entries.len(),
        matches_triple(entries[i], group, version, kind),
        forall|j: int| 0 <= j < i ==> !matches_triple(#[trigger] entries[j], group, version, kind),
    ensures
        match_index(entries, group, version, kind) == i,
    decreases i,
{
    if i > 0 {
        assert(forall|j: int| 0 <= j < i - 1 ==> entries.drop_first()[j] == entries[j + 1]);
        lemma_match_index_at(entries.drop_first(), group, version, kind, i - 1);
    }
}

/// Whether the text holds a `/` anywhere.
pub open spec fn has_slash(s: Seq<char>) -> bool {
    exists|i: int| 0 <= i < s.len() && s[i] == '/'
}

/// The position of the first `/`.
pub open spec fn first_slash(s: Seq<char>) -> int
    decreases s.len(),
{
    if s.len() == 0 {
        0
    } else if s[0] == '/' {
        0
    } else {
        1 + first_slash(s.drop_first())
    }
}

/// The API group an `apiVersion` names: what stands before the first `/`,
/// or the empty (core) group when there is no `/`.
pub open spec fn group_of(api: Seq<char>) -> Seq<char> {
    if has_slash(api) {
        api.subrange(0, first_slash(api))
    } else {
        Seq::empty()
    }
}

/// The version an `apiVersion` names: what stands after the first `/`, or
/// the whole text when there is no `/`.
pub open spec fn version_of(api: Seq<char>) -> Seq<char> {
    if has_slash(api) {
        api.subrange(first_slash(api) + 1, api.len() as int)
    } else {
        api
    }
}

proof fn lemma_first_slash_at(s: Seq<char>, i: int)
    requires
        0 <= i < s.len(),
        s[i] == '/',
        forall|j: int| 0 <= j < i ==> s[j] != '/',
    ensures
        first_slash(s) == i,
    decreases i,
{
    if i > 0 {
        assert(forall|j: int| 0 <= j < i - 1 ==> s.drop_first()[j] == s[j + 1]);
        lemma_first_slash_at(s.drop_first(), i - 1);
    }
}

/// Splits an `apiVersion` into its API group and version.  A value with no
/// `/` names the core group, whose name is empty.
pub fn split_api_version(api_version: &str) -> (r: (String, String))
    ensures
        r.0@ == group_of(api_version@),
        r.1@ == version_of(api_version@),
{
    let n = api_version.unicode_len();
    let mut i: usize = 0;
    while i < n
        invariant
            i <= n,
            n == api_version@.len(),
            forall|j: int| 0 <= j < i ==> api_version@[j] != '/',
        decreases n - i,
    {
        if api_version.get_char(i) == '/' {
            proof {
                lemma_first_slash_at(api_version@, i as int);
            }
            let group = api_version.substring_char(0, i).to_owned();
            let version = api_version.substring_char(i + 1, n).to_owned();
            return (group, version);
        }
        i = i + 1;
    }
    proof {
        assert(!has_slash(api_version@));
    }
    (String::new(), api_version.to_owned())
}

impl SchemaSnapshot {
    /// Resolve an `apiVersion` and `kind` against the snapshot.
    ///
    /// Succeeds exactly when some discovered endpoint matches the group,
    /// version and kind; a miss is a client-input error, never retried.
    pub fn resolve(&self, api_version: &str, kind: &str) -> (r: Result<
        EndpointDescriptor,
        String,
    >)
        ensures
            match r {
                Ok(d) => spec_resolve(self@, api_version@, kind@) == Ok::<
                    EndpointView,
                    Seq<char>,
                >(d@),
                Err(e) => spec_resolve(self@, api_version@, kind@) == Err::<
                    EndpointView,
                    Seq<char>,
                >(e@),
            },
    {
        let ghost sv = self@;
        let ghost g = group_of(api_version@);
        let ghost v = version_of(api_version@);
        let (group, version) = split_api_version(api_version);
        let mut i: usize = 0;
        while i < self.entries.len()
            invariant
                i <= self.entries@.len(),
                sv == self@,
                sv.len() == self.entries@.len(),
                g == group_of(api_version@),
                v == version_of(api_version@),
                group@ == g,
                version@ == v,
                forall|k: int| 0 <= k < i ==> !matches_triple(#[trigger] sv[k], g, v, kind@),
            decreases self.entries@.len() - i,
        {
            let d = &self.entries[i];
            proof {
                assert(sv[i as int] == self.entries@[i as int]@);
            }
            if d.group == group && d.version == version && str_eq(d.kind.as_str(), kind) {
                let out = d.duplicate();
                proof {
                    assert(matches_triple(sv[i as int], g, v, kind@));
                    lemma_match_index_at(sv, g, v, kind@, i as int);
                    assert(has_match(sv, g, v, kind@));
                    assert(out@ == sv[i as int]);
                }
                return Ok(out);
            }
            i = i + 1;
        }
        proof {
            assert(!has_match(sv, g, v, kind@));
        }
        let mut msg = String::from_str("Unknown resource type: ");
        msg.append(api_version);
        msg.append("/");
        msg.append(kind);
        Err(msg)
    }
}

/// In a well-formed snapshot a successful resolution is the only endpoint
/// that matches its triple.
pub proof fn lemma_resolution_unique(entries: Seq<EndpointView>, d: EndpointView, i: int, j: int)
    requires
        snapshot_wf(entries),
        0 <= i < entries.len(),
        0 <= j < entries.len(),
        matches_triple(entries[i], d.group, d.version, d.kind),
        matches_triple(entries[j], d.group, d.version, d.kind),
    ensures
        entries[i] == entries[j],
{
    assert(matches_triple(entries[i], entries[j].group, entries[j].version, entries[j].kind));
}

} // verus!
