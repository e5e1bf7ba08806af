//! The batch orchestrator's kernel: per-document preparation, completion,
//! and the fan-out over a target's documents.
//!
//! Every step here is a pure function from a document and the outcomes of
//! the cluster calls to one record.  A failure in any step becomes that
//! resource's own record, never a batch abort, and one document's record
//! never depends on another document.

use vstd::prelude::*;
use vstd::string::StringExecFns;

use crate::cluster::{
    spec_namespace, ApplyOutcome, ApplyOutcomeView, LiveOutcome, LiveOutcomeView,
};
use crate::diff::{generate_diff, spec_generate_diff};
use crate::doc::{doc_lookup, Doc, DocView};
use crate::filter::{filter_resource, spec_filter};
use crate::resolver::{spec_resolve, EndpointDescriptor, EndpointView, SchemaSnapshot};
use crate::strutil::opt_view;
use crate::yaml::{parse_outcome_view, parsed_view, to_yaml, yaml_of};

verus! {

/// The identity a manifest document declares.
#[derive(Debug)]
pub struct ResourceIdentity {
    pub api_version: String,
    pub kind: String,
    pub namespace: Option<String>,
    pub name: String,
}

/// The value of a resource identity.
#[verifier::ext_equal]
pub struct IdentityView {
    pub api_version: Seq<char>,
    pub kind: Seq<char>,
    pub namespace: Option<Seq<char>>,
    pub name: Seq<char>,
}

impl View for ResourceIdentity {
    type V = IdentityView;

    open spec fn view(&self) -> IdentityView {
        IdentityView {
            api_version: self.api_version@,
            kind: self.kind@,
            namespace: opt_view(self.namespace),
            name: self.name@,
        }
    }
}

/// A well-formed identity names its apiVersion, kind and name.
pub open spec fn identity_wf(id: IdentityView) -> bool {
    id.api_version.len() > 0 && id.kind.len() > 0 && id.name.len() > 0
}

/// Result of diffing a single Kubernetes resource.
#[derive(Debug)]
pub struct DiffResult {
    /// The target path that was processed.
    pub target: String,
    /// The resource name (from `metadata.name`).
    pub resource_name: String,
    /// The API version of the resource.
    pub api_version: String,
    /// The kind of the resource.
    pub kind: String,
    /// The diff output if changes exist, `None` if no changes.
    pub diff: Option<String>,
    /// Error message if processing failed for this resource.
    pub error: Option<String>,
}

/// The value of a diff record.
#[verifier::ext_equal]
pub struct DiffResultView {
    pub target: Seq<char>,
    pub resource_name: Seq<char>,
    pub api_version: Seq<char>,
    pub kind: Seq<char>,
    pub diff: Option<Seq<char>>,
    pub error: Option<Seq<char>>,
}

impl View for DiffResult {
    type V = DiffResultView;

    open spec fn view(&self) -> DiffResultView {
        DiffResultView {
            target: self.target@,
            resource_name: self.resource_name@,
            api_version: self.api_version@,
            kind: self.kind@,
            diff: opt_view(self.diff),
            error: opt_view(self.error),
        }
    }
}

/// A record never carries both a diff and an error.
pub open spec fn record_wf(r: DiffResultView) -> bool {
    !(r.diff is Some && r.error is Some)
}

/// Result of processing a single target path.
#[derive(Debug)]
pub struct TargetResult {
    /// The target path that was processed.
    pub target: String,
    /// One record per resource in the target.
    pub results: Vec<DiffResult>,
    /// A build failure that kept any resource-level work from happening.
    pub build_error: Option<String>,
}

/// The value of a target result.
#[verifier::ext_equal]
pub struct TargetResultView {
    pub target: Seq<char>,
    pub results: Seq<DiffResultView>,
    pub build_error: Option<Seq<char>>,
}

/// The values of a vector of records, record by record.
pub open spec fn records_view(s: Seq<DiffResult>) -> Seq<DiffResultView> {
    Seq::new(s.len(), |i: int| s[i]@)
}

/// A target that failed to build short-circuits: it carries no records.
pub open spec fn target_wf(t: TargetResultView) -> bool {
    t.build_error is Some ==> t.results.len() == 0
}

impl View for TargetResult {
    type V = TargetResultView;

    open spec fn view(&self) -> TargetResultView {
        TargetResultView {
            target: self.target@,
            results: records_view(self.results@),
            build_error: opt_view(self.build_error),
        }
    }
}

/// The string bound to `key` at the top of a document, if it is one.
pub open spec fn str_field(d: DocView, key: Seq<char>) -> Option<Seq<char>> {
    match doc_lookup(d, key) {
        Some(DocView::Str(s)) => Some(s),
        _ => None,
    }
}

/// The string bound to `k2` inside the map bound to `k1`, if both exist.
pub open spec fn nested_str_field(d: DocView, k1: Seq<char>, k2: Seq<char>) -> Option<Seq<char>> {
    match doc_lookup(d, k1) {
        Some(md) => str_field(md, k2),
        None => None,
    }
}

/// Whether a declared field is present and non-empty.
pub open spec fn good_field(f: Option<Seq<char>>) -> bool {
    f matches Some(s) && s.len() > 0
}

/// The label a record carries for a field: the field itself, or the
/// `unknown` sentinel when the document does not declare it.
pub open spec fn label_of(f: Option<Seq<char>>) -> Seq<char> {
    match f {
        Some(s) => s,
        None => "unknown"@,
    }
}

/// The identity a document declares, or the first missing required field.
/// `apiVersion`, `kind` and `metadata.name` must be present and non-empty;
/// `metadata.namespace` is optional.
pub open spec fn spec_extract_identity(d: DocView) -> Result<IdentityView, Seq<char>> {
    if !good_field(str_field(d, "apiVersion"@)) {
        Err("Missing apiVersion"@)
    } else if !good_field(str_field(d, "kind"@)) {
        Err("Missing kind"@)
    } else if !good_field(nested_str_field(d, "metadata"@, "name"@)) {
        Err("Missing metadata.name"@)
    } else {
        Ok(
            IdentityView {
                api_version: str_field(d, "apiVersion"@).unwrap(),
                kind: str_field(d, "kind"@).unwrap(),
                namespace: nested_str_field(d, "metadata"@, "namespace"@),
                name: nested_str_field(d, "metadata"@, "name"@).unwrap(),
            },
        )
    }
}

/// Extract the declared identity of a manifest document.
///
/// The absence (or emptiness) of `apiVersion`, `kind` or `metadata.name` is
/// a hard per-document error; a missing namespace is not.
pub fn extract_identity(doc: &Doc) -> (r: Result<ResourceIdentity, String>)
    ensures
        match r {
            Ok(id) => spec_extract_identity(doc@) == Ok::<IdentityView, Seq<char>>(id@)
                && identity_wf(id@),
            Err(e) => spec_extract_identity(doc@) == Err::<IdentityView, Seq<char>>(e@),
        },
{
    let api_version = match doc.get_str("apiVersion") {
        Some(s) => {
            if s.as_str().is_empty() {
                return Err(String::from_str("Missing apiVersion"));
            }
            s.clone()
        },
        None => {
            return Err(String::from_str("Missing apiVersion"));
        },
    };
    let kind = match doc.get_str("kind") {
        Some(s) => {
            if s.as_str().is_empty() {
                return Err(String::from_str("Missing kind"));
            }
            s.clone()
        },
        None => {
            return Err(String::from_str("Missing kind"));
        },
    };
    let metadata = doc.get("metadata");
    let name = match metadata {
        Some(md) => match md.get_str("name") {
            Some(s) => {
                if s.as_str().is_empty() {
                    return Err(String::from_str("Missing metadata.name"));
                }
                s.clone()
            },
            None => {
                return Err(String::from_str("Missing metadata.name"));
            },
        },
        None => {
            return Err(String::from_str("Missing metadata.name"));
        },
    };
    let namespace = match metadata {
        Some(md) => match md.get_str("namespace") {
            Some(s) => Some(s.clone()),
            None => None,
        },
        None => None,
    };
    Ok(ResourceIdentity { api_version, kind, namespace, name })
}

/// A document that passed parsing, identity extraction and resolution:
/// everything the cluster calls for one resource need.
#[derive(Debug)]
pub struct WorkItem {
    pub identity: ResourceIdentity,
    pub endpoint: EndpointDescriptor,
    /// The namespace the fetch targets; `None` for cluster-scoped resources.
    pub fetch_namespace: Option<String>,
    /// The manifest document, to be submitted as the dry-run apply body.
    pub local: Doc,
}

/// The value of a work item.
#[verifier::ext_equal]
pub struct WorkItemView {
    pub identity: IdentityView,
    pub endpoint: EndpointView,
    pub fetch_namespace: Option<Seq<char>>,
    pub local: DocView,
}

impl View for WorkItem {
    type V = WorkItemView;

    open spec fn view(&self) -> WorkItemView {
        WorkItemView {
            identity: self.identity@,
            endpoint: self.endpoint@,
            fetch_namespace: opt_view(self.fetch_namespace),
            local: self.local@,
        }
    }
}

/// What preparing one parsed document yields: a unit of cluster work, or
/// that document's own error record.
#[derive(Debug)]
pub enum DocPrep {
    Ready(WorkItem),
    Rejected(DiffResult),
}

/// The value of a preparation outcome.
#[verifier::ext_equal]
pub enum DocPrepView {
    Ready(WorkItemView),
    Rejected(DiffResultView),
}

impl View for DocPrep {
    type V = DocPrepView;

    open spec fn view(&self) -> DocPrepView {
        match self {
            DocPrep::Ready(w) => DocPrepView::Ready(w@),
            DocPrep::Rejected(r) => DocPrepView::Rejected(r@),
        }
    }
}

/// A record that carries an error and no diff.
pub open spec fn rejected_record(
    target: Seq<char>,
    name: Seq<char>,
    api_version: Seq<char>,
    kind: Seq<char>,
    err: Seq<char>,
) -> DiffResultView {
    DiffResultView {
        target,
        resource_name: name,
        api_version,
        kind,
        diff: None,
        error: Some(err),
    }
}

/// The record for a resource whose dry-run and live fetch both answered:
/// both objects filtered, serialized, and diffed under the resource label.
pub open spec fn spec_compared(
    target: Seq<char>,
    id: IdentityView,
    normalized: DocView,
    live_text: Seq<char>,
) -> DiffResultView {
    DiffResultView {
        target,
        resource_name: id.name,
        api_version: id.api_version,
        kind: id.kind,
        diff: spec_generate_diff(
            id.kind + "/"@ + id.name,
            live_text,
            yaml_of(spec_filter(normalized)),
        ),
        error: None,
    }
}

/// The record one resource's cluster outcomes produce.  A dry-run failure
/// or a fetch failure becomes that record's error; an absent live object is
/// compared as the empty text, so a new resource still yields a diff.
pub open spec fn spec_complete(
    target: Seq<char>,
    id: IdentityView,
    apply: ApplyOutcomeView,
    live: LiveOutcomeView,
) -> DiffResultView {
    match apply {
        ApplyOutcomeView::Failed(m) => rejected_record(
            target,
            id.name,
            id.api_version,
            id.kind,
            m,
        ),
        ApplyOutcomeView::Normalized(n) => match live {
            LiveOutcomeView::Failed(m) => rejected_record(
                target,
                id.name,
                id.api_version,
                id.kind,
                m,
            ),
            LiveOutcomeView::Found(l) => spec_compared(
                target,
                id,
                n,
                yaml_of(spec_filter(l)),
            ),
            LiveOutcomeView::Absent => spec_compared(target, id, n, Seq::empty()),
        },
    }
}

fn error_record(target: &str, identity: ResourceIdentity, message: String) -> (r: DiffResult)
    ensures
        r@ == rejected_record(
            target@,
            identity.name@,
            identity.api_version@,
            identity.kind@,
            message@,
        ),
{
    DiffResult {
        target: target.to_owned(),
        resource_name: identity.name,
        api_version: identity.api_version,
        kind: identity.kind,
        diff: None,
        error: Some(message),
    }
}

fn compared_record(target: &str, identity: ResourceIdentity, normalized: Doc, live_text: String)
    -> (r: DiffResult)
    ensures
        r@ == spec_compared(target@, identity@, normalized@, live_text@),
{
    let local_doc = filter_resource(normalized);
    let local_text = to_yaml(&local_doc);
    let name = crate::resource_label(identity.kind.as_str(), identity.name.as_str());
    let diff = generate_diff(name.as_str(), live_text.as_str(), local_text.as_str());
    DiffResult {
        target: target.to_owned(),
        resource_name: identity.name,
        api_version: identity.api_version,
        kind: identity.kind,
        diff,
        error: None,
    }
}

/// Turn one resource's cluster outcomes into its record.
///
/// The dry-run's answer is the server-normalized local object; the live
/// outcome is the stored object or its absence.  Both sides are filtered
/// and serialized before diffing; any failure becomes this record's error
/// and touches nothing else.
pub fn complete_document(
    target: &str,
    identity: ResourceIdentity,
    apply: ApplyOutcome,
    live: LiveOutcome,
) -> (r: DiffResult)
    ensures
        r@ == spec_complete(target@, identity@, apply@, live@),
        record_wf(r@),
{
    match apply {
        ApplyOutcome::Failed(m) => error_record(target, identity, m),
        ApplyOutcome::Normalized(n) => match live {
            LiveOutcome::Failed(m) => error_record(target, identity, m),
            LiveOutcome::Found(l) => {
                let live_doc = filter_resource(l);
                let live_text = to_yaml(&live_doc);
                compared_record(target, identity, n, live_text)
            },
            LiveOutcome::Absent => compared_record(target, identity, n, String::new()),
        },
    }
}

/// What preparing one parsed document yields, as a value: a parse failure
/// or a missing identity field is that document's own error record under
/// the labels it did declare; an unknown resource type likewise; otherwise
/// a unit of cluster work carrying the resolved endpoint and the namespace
/// the fetch must target.
pub open spec fn spec_prepare(
    entries: Seq<EndpointView>,
    target: Seq<char>,
    parsed: Result<DocView, Seq<char>>,
) -> DocPrepView {
    match parsed {
        Err(e) => DocPrepView::Rejected(
            rejected_record(target, "unknown"@, "unknown"@, "unknown"@, e),
        ),
        Ok(d) => match spec_extract_identity(d) {
            Err(m) => DocPrepView::Rejected(
                rejected_record(
                    target,
                    label_of(nested_str_field(d, "metadata"@, "name"@)),
                    label_of(str_field(d, "apiVersion"@)),
                    label_of(str_field(d, "kind"@)),
                    m,
                ),
            ),
            Ok(id) => match spec_resolve(entries, id.api_version, id.kind) {
                Err(m) => DocPrepView::Rejected(
                    rejected_record(target, id.name, id.api_version, id.kind, m),
                ),
                Ok(ep) => DocPrepView::Ready(
                    WorkItemView {
                        identity: id,
                        endpoint: ep,
                        fetch_namespace: spec_namespace(ep.scope, id.namespace),
                        local: d,
                    },
                ),
            },
        },
    }
}

fn unknown_label() -> (r: String)
    ensures
        r@ == "unknown"@,
{
    String::from_str("unknown")
}

fn field_label(f: Option<&String>) -> (r: String)
    ensures
        r@ == label_of(
            match f {
                Some(s) => Some(s@),
                None => None,
            },
        ),
{
    match f {
        Some(s) => s.clone(),
        None => unknown_label(),
    }
}

/// Prepare one parsed document: extract its identity and resolve its
/// endpoint, or produce its own error record.
pub fn prepare_document(snapshot: &SchemaSnapshot, target: &str, parsed: Result<Doc, String>)
    -> (r: DocPrep)
    ensures
        r@ == spec_prepare(snapshot@, target@, parse_outcome_view(parsed)),
        r@ matches DocPrepView::Rejected(rec) ==> record_wf(rec),
{
    match parsed {
        Err(e) => DocPrep::Rejected(
            DiffResult {
                target: target.to_owned(),
                resource_name: unknown_label(),
                api_version: unknown_label(),
                kind: unknown_label(),
                diff: None,
                error: Some(e),
            },
        ),
        Ok(doc) => {
            let identity = match extract_identity(&doc) {
                Ok(id) => id,
                Err(m) => {
                    let name_label = match doc.get("metadata") {
                        Some(md) => field_label(md.get_str("name")),
                        None => unknown_label(),
                    };
                    let api_label = field_label(doc.get_str("apiVersion"));
                    let kind_label = field_label(doc.get_str("kind"));
                    return DocPrep::Rejected(
                        DiffResult {
                            target: target.to_owned(),
                            resource_name: name_label,
                            api_version: api_label,
                            kind: kind_label,
                            diff: None,
                            error: Some(m),
                        },
                    );
                },
            };
            let endpoint = match snapshot.resolve(
                identity.api_version.as_str(),
                identity.kind.as_str(),
            ) {
                Ok(ep) => ep,
                Err(m) => {
                    return DocPrep::Rejected(error_record(target, identity, m));
                },
            };
            let ns_copy = match &identity.namespace {
                Some(n) => Some(n.clone()),
                None => None,
            };
            let fetch_namespace = crate::cluster::effective_namespace(endpoint.scope, ns_copy);
            DocPrep::Ready(WorkItem { identity, endpoint, fetch_namespace, local: doc })
        },
    }
}

/// The values of a sequence of cluster outcome pairs, pair by pair.
pub open spec fn outcomes_view(s: Seq<(ApplyOutcome, LiveOutcome)>) -> Seq<
    (ApplyOutcomeView, LiveOutcomeView),
> {
    Seq::new(s.len(), |i: int| (s[i].0@, s[i].1@))
}

/// The record one document produces, given its parse outcome and its own
/// cluster outcomes.
pub open spec fn spec_document_record(
    entries: Seq<EndpointView>,
    target: Seq<char>,
    parsed: Result<DocView, Seq<char>>,
    outcome: (ApplyOutcomeView, LiveOutcomeView),
) -> DiffResultView {
    match spec_prepare(entries, target, parsed) {
        DocPrepView::Rejected(rec) => rec,
        DocPrepView::Ready(w) => spec_complete(target, w.identity, outcome.0, outcome.1),
    }
}

/// The records a target's documents produce, document by document.
pub open spec fn spec_process_documents(
    entries: Seq<EndpointView>,
    target: Seq<char>,
    parsed: Seq<Result<DocView, Seq<char>>>,
    outcomes: Seq<(ApplyOutcomeView, LiveOutcomeView)>,
) -> Seq<DiffResultView>
    decreases parsed.len(),
{
    if parsed.len() == 0 {
        Seq::empty()
    } else {
        seq![spec_document_record(entries, target, parsed[0], outcomes[0])]
            + spec_process_documents(
            entries,
            target,
            parsed.drop_first(),
            outcomes.drop_first(),
        )
    }
}

/// Batch isolation: the batch always holds one record per document, and
/// each document's record depends on that document and its own cluster
/// outcomes alone — a failing unit never removes or changes the others.
pub proof fn lemma_batch_isolation(
    entries: Seq<EndpointView>,
    target: Seq<char>,
    parsed: Seq<Result<DocView, Seq<char>>>,
    outcomes: Seq<(ApplyOutcomeView, LiveOutcomeView)>,
    i: int,
)
    requires
        0 <= i < parsed.len(),
        parsed.len() == outcomes.len(),
    ensures
        spec_process_documents(entries, target, parsed, outcomes).len() == parsed.len(),
        spec_process_documents(entries, target, parsed, outcomes)[i] == spec_document_record(
            entries,
            target,
            parsed[i],
            outcomes[i],
        ),
    decreases i,
{
    lemma_process_documents_len(entries, target, parsed, outcomes);
    if i > 0 {
        lemma_batch_isolation(entries, target, parsed.drop_first(), outcomes.drop_first(), i - 1);
        assert(parsed.drop_first()[i - 1] == parsed[i]);
        assert(outcomes.drop_first()[i - 1] == outcomes[i]);
    }
}

proof fn lemma_process_documents_len(
    entries: Seq<EndpointView>,
    target: Seq<char>,
    parsed: Seq<Result<DocView, Seq<char>>>,
    outcomes: Seq<(ApplyOutcomeView, LiveOutcomeView)>,
)
    ensures
        spec_process_documents(entries, target, parsed, outcomes).len() == parsed.len(),
    decreases parsed.len(),
{
    if parsed.len() > 0 {
        lemma_process_documents_len(entries, target, parsed.drop_first(), outcomes.drop_first());
    }
}

/// Drives a batch of resources through the engine.
pub struct Process;

impl Process {
    /// Process a target's parsed documents against their cluster outcomes,
    /// one record per document.
    ///
    /// Rejected documents never consult their outcome slot, so a caller may
    /// fill those slots with anything.
    pub fn process_documents(
        snapshot: &SchemaSnapshot,
        target: &str,
        parsed: Vec<Result<Doc, String>>,
        outcomes: Vec<(ApplyOutcome, LiveOutcome)>,
    ) -> (r: Vec<DiffResult>)
        requires
            parsed@.len() == outcomes@.len(),
        ensures
            r@.len() == parsed@.len(),
            records_view(r@) == spec_process_documents(
                snapshot@,
                target@,
                parsed_view(parsed@),
                outcomes_view(outcomes@),
            ),
            forall|i: int| 0 <= i < r@.len() ==> record_wf(#[trigger] records_view(r@)[i]),
    {
        let ghost sv = snapshot@;
        let ghost tv = target@;
        let ghost full = spec_process_documents(sv, tv, parsed_view(parsed@), outcomes_view(outcomes@));
        proof {
            lemma_process_documents_len(sv, tv, parsed_view(parsed@), outcomes_view(outcomes@));
        }
        let mut parsed = parsed;
        let mut outcomes = outcomes;
        let mut out: Vec<DiffResult> = Vec::new();
        proof {
            assert(records_view(out@) + full =~= full);
        }
        while parsed.len() > 0
            invariant
                sv == snapshot@,
                tv == target@,
                parsed@.len() == outcomes@.len(),
                full == records_view(out@) + spec_process_documents(
                    sv,
                    tv,
                    parsed_view(parsed@),
                    outcomes_view(outcomes@),
                ),
                forall|i: int| 0 <= i < out@.len() ==> record_wf(#[trigger] records_view(out@)[i]),
                out@.len() + parsed@.len() == full.len(),
            decreases parsed.len(),
        {
            let ghost p_pre = parsed@;
            let ghost o_pre = outcomes@;
            proof {
                lemma_process_documents_len(
                    sv,
                    tv,
                    parsed_view(p_pre),
                    outcomes_view(o_pre),
                );
                assert(p_pre.remove(0) =~= p_pre.drop_first());
                assert(o_pre.remove(0) =~= o_pre.drop_first());
                assert(parsed_view(p_pre).drop_first() =~= parsed_view(
                    p_pre.drop_first(),
                ));
                assert(outcomes_view(o_pre).drop_first() =~= outcomes_view(o_pre.drop_first()));
            }
            let p = parsed.remove(0);
            let o = outcomes.remove(0);
            let ghost head = spec_document_record(
                sv,
                tv,
                parsed_view(p_pre)[0],
                outcomes_view(o_pre)[0],
            );
            proof {
                assert(parsed_view(p_pre)[0] == parse_outcome_view(p));
                assert(outcomes_view(o_pre)[0] == (o.0@, o.1@));
                assert(spec_process_documents(
                    sv,
                    tv,
                    parsed_view(p_pre),
                    outcomes_view(o_pre),
                ) == seq![head] + spec_process_documents(
                    sv,
                    tv,
                    parsed_view(parsed@),
                    outcomes_view(outcomes@),
                ));
            }
            let record = match prepare_document(snapshot, target, p) {
                DocPrep::Rejected(rec) => rec,
                DocPrep::Ready(w) => complete_document(target, w.identity, o.0, o.1),
            };
            proof {
                assert(record@ == head);
            }
            let ghost out_pre = out@;
            out.push(record);
            proof {
                assert(records_view(out@) =~= records_view(out_pre).push(head));
                assert(records_view(out_pre).push(head) + spec_process_documents(
                    sv,
                    tv,
                    parsed_view(parsed@),
                    outcomes_view(outcomes@),
                ) =~= records_view(out_pre) + (seq![head] + spec_process_documents(
                    sv,
                    tv,
                    parsed_view(parsed@),
                    outcomes_view(outcomes@),
                )));
            }
        }
        proof {
            assert(parsed_view(parsed@).len() == 0);
            assert(records_view(out@) + spec_process_documents(
                sv,
                tv,
                parsed_view(parsed@),
                outcomes_view(outcomes@),
            ) =~= records_view(out@));
            assert(records_view(out@).len() == out@.len());
        }
        out
    }

    /// The result for a target whose build failed: the failure
    /// short-circuits only this target — no resource-level work happened
    /// and no records exist.
    pub fn build_failure(target: &str, message: String) -> (r: TargetResult)
        ensures
            r@.target == target@,
            r@.results.len() == 0,
            r@.build_error == Some(message@),
            target_wf(r@),
    {
        TargetResult {
            target: target.to_owned(),
            results: Vec::new(),
            build_error: Some(message),
        }
    }

    /// The result for a target whose documents were all processed.
    pub fn target_result(target: &str, records: Vec<DiffResult>) -> (r: TargetResult)
        ensures
            r@.target == target@,
            r@.results == records_view(records@),
            r@.build_error is None,
            target_wf(r@),
    {
        TargetResult { target: target.to_owned(), results: records, build_error: None }
    }

    /// The target paths one run works through: the current directory when
    /// asked to diff in place, an explicitly given path, or otherwise the
    /// service paths that the configuration yields.
    pub fn get_entries(
        inplace: bool,
        current_dir: String,
        path: Option<String>,
        service_paths: Vec<String>,
    ) -> (r: Vec<String>)
        ensures
            inplace ==> r@.len() == 1 && r@[0]@ == current_dir@,
            !inplace ==> match path {
                Some(p) => r@.len() == 1 && r@[0]@ == p@,
                None => r@ == service_paths@,
            },
    {
        if inplace {
            let mut targets: Vec<String> = Vec::new();
            targets.push(current_dir);
            targets
        } else {
            match path {
                Some(p) => {
                    let mut targets: Vec<String> = Vec::new();
                    targets.push(p);
                    targets
                },
                None => service_paths,
            }
        }
    }
}

} // verus!
