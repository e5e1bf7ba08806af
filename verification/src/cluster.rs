//! Decisions around the cluster calls: which namespace a fetch targets and
//! what each call's outcome means to the engine.
//!
//! The calls themselves — discovery, live fetch, dry-run apply — suspend on
//! the network and run outside the library; their results come back as plain
//! values that the functions here classify.

use vstd::prelude::*;
use vstd::string::StringExecFns;

use crate::doc::{Doc, DocView};
use crate::resolver::ResourceScope;
use crate::strutil::opt_view;

verus! {

/// A failed cluster call: the HTTP-level status, when the server sent one,
/// and the reported message.
#[derive(Debug)]
pub struct ApiFailure {
    pub status_code: Option<u16>,
    pub message: String,
}

/// The value of a failed cluster call.
#[verifier::ext_equal]
pub struct ApiFailureView {
    pub status_code: Option<u16>,
    pub message: Seq<char>,
}

impl View for ApiFailure {
    type V = ApiFailureView;

    open spec fn view(&self) -> ApiFailureView {
        ApiFailureView {
            status_code: self.status_code,
            message: self.message@,
        }
    }
}

/// What a dry-run apply produced: the server-normalized object, or the
/// server's error.
#[derive(Debug)]
pub enum ApplyOutcome {
    Normalized(Doc),
    Failed(String),
}

/// The value of a dry-run apply outcome.
#[verifier::ext_equal]
pub enum ApplyOutcomeView {
    Normalized(DocView),
    Failed(Seq<char>),
}

impl View for ApplyOutcome {
    type V = ApplyOutcomeView;

    open spec fn view(&self) -> ApplyOutcomeView {
        match self {
            ApplyOutcome::Normalized(d) => ApplyOutcomeView::Normalized(d@),
            ApplyOutcome::Failed(m) => ApplyOutcomeView::Failed(m@),
        }
    }
}

/// What a live fetch produced: the stored object, "no such object" — a
/// normal outcome meaning the resource is new — or the server's error.
#[derive(Debug)]
pub enum LiveOutcome {
    Found(Doc),
    Absent,
    Failed(String),
}

/// The value of a live fetch outcome.
#[verifier::ext_equal]
pub enum LiveOutcomeView {
    Found(DocView),
    Absent,
    Failed(Seq<char>),
}

impl View for LiveOutcome {
    type V = LiveOutcomeView;

    open spec fn view(&self) -> LiveOutcomeView {
        match self {
            LiveOutcome::Found(d) => LiveOutcomeView::Found(d@),
            LiveOutcome::Absent => LiveOutcomeView::Absent,
            LiveOutcome::Failed(m) => LiveOutcomeView::Failed(m@),
        }
    }
}

/// The namespace a fetch must target, as a value: a namespaced resource
/// whose manifest names no namespace is looked up in `default`; a
/// cluster-scoped resource is looked up without one.
pub open spec fn spec_namespace(scope: ResourceScope, ns: Option<Seq<char>>) -> Option<Seq<char>> {
    if scope == ResourceScope::Cluster {
        None
    } else {
        match ns {
            Some(n) => Some(n),
            None => Some("default"@),
        }
    }
}

/// The namespace a fetch for the given endpoint scope must target: a
/// namespaced resource whose manifest names no namespace is looked up in
/// `default`, mirroring stock Kubernetes client behavior; a cluster-scoped
/// resource is looked up without one.
pub fn effective_namespace(scope: ResourceScope, namespace: Option<String>) -> (r: Option<String>)
    ensures
        opt_view(r) == spec_namespace(scope, opt_view(namespace)),
{
    match scope {
        ResourceScope::Cluster => None,
        ResourceScope::Namespaced => match namespace {
            Some(ns) => Some(ns),
            None => Some(String::from_str("default")),
        },
    }
}

/// The value of a raw fetch result.
pub open spec fn fetch_result_view(r: Result<Option<Doc>, ApiFailure>) -> Result<
    Option<DocView>,
    ApiFailureView,
> {
    match r {
        Ok(Some(d)) => Ok(Some(d@)),
        Ok(None) => Ok(None),
        Err(f) => Err(f@),
    }
}

/// What a raw fetch result means: a missing object (or a 404 from the
/// server) is the normal "resource is new" outcome, every other failure is
/// that resource's error.
pub open spec fn spec_interpret_get(r: Result<Option<DocView>, ApiFailureView>) -> LiveOutcomeView {
    match r {
        Ok(Some(d)) => LiveOutcomeView::Found(d),
        Ok(None) => LiveOutcomeView::Absent,
        Err(f) => if f.status_code == Some(404u16) {
            LiveOutcomeView::Absent
        } else {
            LiveOutcomeView::Failed(f.message)
        },
    }
}

/// Classify the result of a live fetch.
pub fn interpret_get(result: Result<Option<Doc>, ApiFailure>) -> (r: LiveOutcome)
    ensures
        r@ == spec_interpret_get(fetch_result_view(result)),
{
    match result {
        Ok(Some(d)) => LiveOutcome::Found(d),
        Ok(None) => LiveOutcome::Absent,
        Err(f) => {
            let is_not_found = match f.status_code {
                Some(code) => code == 404,
                None => false,
            };
            if is_not_found {
                LiveOutcome::Absent
            } else {
                LiveOutcome::Failed(f.message)
            }
        },
    }
}

/// The value of a raw apply result.
pub open spec fn apply_result_view(r: Result<Doc, ApiFailure>) -> Result<DocView, ApiFailureView> {
    match r {
        Ok(d) => Ok(d@),
        Err(f) => Err(f@),
    }
}

/// What a raw dry-run apply result means: the server's answer is the
/// normalized object; any server error surfaces as that resource's error,
/// never silently swallowed.
pub open spec fn spec_interpret_apply(r: Result<DocView, ApiFailureView>) -> ApplyOutcomeView {
    match r {
        Ok(d) => ApplyOutcomeView::Normalized(d),
        Err(f) => ApplyOutcomeView::Failed(f.message),
    }
}

/// Classify the result of a dry-run apply.
pub fn interpret_apply(result: Result<Doc, ApiFailure>) -> (r: ApplyOutcome)
    ensures
        r@ == spec_interpret_apply(apply_result_view(result)),
{
    match result {
        Ok(d) => ApplyOutcome::Normalized(d),
        Err(f) => ApplyOutcome::Failed(f.message),
    }
}

} // verus!
