//! Field filtering for Kubernetes resources before diffing.
//!
//! Removes the fields that the API server manages on its own, so that a diff
//! between a local manifest and the live object only shows meaningful
//! changes.  The removal rules are stated as spec functions over document
//! values; the executable filter is proved to implement them, and filtering
//! is proved idempotent.

use vstd::prelude::*;

use crate::doc::{
    doc_view, entries_view, lemma_entries_view, lemma_entries_view_push, Doc, DocView,
};
use crate::strutil::str_eq;

verus! {

/// Top-level keys that the server owns outright.
pub open spec fn top_removed_key(k: Seq<char>) -> bool {
    k == "status"@ || k == "webhooks"@
}

/// Metadata keys that the server injects and that never matter to a diff.
pub open spec fn meta_removed_key(k: Seq<char>) -> bool {
    ||| k == "managedFields"@
    ||| k == "ownerReferences"@
    ||| k == "generation"@
    ||| k == "creationTimestamp"@
    ||| k == "resourceVersion"@
    ||| k == "uid"@
    ||| k == "selfLink"@
}

/// Annotation keys written by apply tooling rather than by the author.
pub open spec fn annotation_removed_key(k: Seq<char>) -> bool {
    k == "kubectl.kubernetes.io/last-applied-configuration"@ || k
        == "argocd.argoproj.io/tracking-id"@
}

/// Annotation entries that survive filtering.
pub open spec fn strip_annotations(m: Seq<(Seq<char>, DocView)>) -> Seq<(Seq<char>, DocView)>
    decreases m.len(),
{
    if m.len() == 0 {
        Seq::empty()
    } else if annotation_removed_key(m[0].0) {
        strip_annotations(m.drop_first())
    } else {
        seq![m[0]] + strip_annotations(m.drop_first())
    }
}

/// What becomes of a metadata `annotations` entry: tool-written keys are
/// dropped, and an annotations map left empty disappears entirely.
pub open spec fn annotations_entry(e: (Seq<char>, DocView)) -> Seq<(Seq<char>, DocView)> {
    match e.1 {
        DocView::Object(am) => {
            let stripped = strip_annotations(am);
            if stripped.len() == 0 {
                Seq::empty()
            } else {
                seq![(e.0, DocView::Object(stripped))]
            }
        },
        _ => seq![e],
    }
}

/// What becomes of one metadata entry.
pub open spec fn meta_entry(e: (Seq<char>, DocView)) -> Seq<(Seq<char>, DocView)> {
    if meta_removed_key(e.0) {
        Seq::empty()
    } else if e.0 == "annotations"@ {
        annotations_entry(e)
    } else {
        seq![e]
    }
}

/// The filtered form of a metadata map.
pub open spec fn meta_entries(m: Seq<(Seq<char>, DocView)>) -> Seq<(Seq<char>, DocView)>
    decreases m.len(),
{
    if m.len() == 0 {
        Seq::empty()
    } else {
        meta_entry(m[0]) + meta_entries(m.drop_first())
    }
}

/// The filtered form of a `metadata` value; anything but a map is untouched.
pub open spec fn filter_metadata(v: DocView) -> DocView {
    match v {
        DocView::Object(m) => DocView::Object(meta_entries(m)),
        _ => v,
    }
}

/// Entries of a `spec` map that survive filtering: `caBundle` is dropped.
pub open spec fn strip_ca_bundle(m: Seq<(Seq<char>, DocView)>) -> Seq<(Seq<char>, DocView)>
    decreases m.len(),
{
    if m.len() == 0 {
        Seq::empty()
    } else if m[0].0 == "caBundle"@ {
        strip_ca_bundle(m.drop_first())
    } else {
        seq![m[0]] + strip_ca_bundle(m.drop_first())
    }
}

/// The filtered form of a `spec` value; anything but a map is untouched.
pub open spec fn filter_spec_section(v: DocView) -> DocView {
    match v {
        DocView::Object(m) => DocView::Object(strip_ca_bundle(m)),
        _ => v,
    }
}

/// What becomes of one top-level entry.
pub open spec fn top_entry(e: (Seq<char>, DocView)) -> Seq<(Seq<char>, DocView)> {
    if top_removed_key(e.0) {
        Seq::empty()
    } else if e.0 == "metadata"@ {
        seq![(e.0, filter_metadata(e.1))]
    } else if e.0 == "spec"@ {
        seq![(e.0, filter_spec_section(e.1))]
    } else {
        seq![e]
    }
}

/// The filtered form of a top-level map.
pub open spec fn top_entries(m: Seq<(Seq<char>, DocView)>) -> Seq<(Seq<char>, DocView)>
    decreases m.len(),
{
    if m.len() == 0 {
        Seq::empty()
    } else {
        top_entry(m[0]) + top_entries(m.drop_first())
    }
}

/// The filtered form of a whole document; anything but a map is untouched.
pub open spec fn spec_filter(d: DocView) -> DocView {
    match d {
        DocView::Object(m) => DocView::Object(top_entries(m)),
        _ => d,
    }
}

proof fn lemma_strip_annotations_clean(m: Seq<(Seq<char>, DocView)>)
    ensures
        forall|i: int|
            0 <= i < strip_annotations(m).len() ==> !annotation_removed_key(
                #[trigger] strip_annotations(m)[i].0,
            ),
    decreases m.len(),
{
    if m.len() > 0 {
        lemma_strip_annotations_clean(m.drop_first());
        if !annotation_removed_key(m[0].0) {
            assert forall|i: int|
                0 <= i < strip_annotations(m).len() implies !annotation_removed_key(
                strip_annotations(m)[i].0,
            ) by {
                if i > 0 {
                    assert(strip_annotations(m)[i] == strip_annotations(m.drop_first())[i - 1]);
                }
            }
        }
    }
}

proof fn lemma_strip_annotations_fix(m: Seq<(Seq<char>, DocView)>)
    requires
        forall|i: int| 0 <= i < m.len() ==> !annotation_removed_key((#[trigger] m[i]).0),
    ensures
        strip_annotations(m) == m,
    decreases m.len(),
{
    if m.len() > 0 {
        lemma_strip_annotations_fix(m.drop_first());
        assert(strip_annotations(m) =~= m);
    }
}

proof fn lemma_strip_ca_bundle_clean(m: Seq<(Seq<char>, DocView)>)
    ensures
        forall|i: int|
            0 <= i < strip_ca_bundle(m).len() ==> (#[trigger] strip_ca_bundle(m)[i]).0
                != "caBundle"@,
    decreases m.len(),
{
    if m.len() > 0 {
        lemma_strip_ca_bundle_clean(m.drop_first());
        if m[0].0 != "caBundle"@ {
            assert forall|i: int|
                0 <= i < strip_ca_bundle(m).len() implies strip_ca_bundle(m)[i].0
                != "caBundle"@ by {
                if i > 0 {
                    assert(strip_ca_bundle(m)[i] == strip_ca_bundle(m.drop_first())[i - 1]);
                }
            }
        }
    }
}

proof fn lemma_strip_ca_bundle_fix(m: Seq<(Seq<char>, DocView)>)
    requires
        forall|i: int| 0 <= i < m.len() ==> (#[trigger] m[i]).0 != "caBundle"@,
    ensures
        strip_ca_bundle(m) == m,
    decreases m.len(),
{
    if m.len() > 0 {
        lemma_strip_ca_bundle_fix(m.drop_first());
        assert(strip_ca_bundle(m) =~= m);
    }
}

proof fn lemma_meta_entries_concat(a: Seq<(Seq<char>, DocView)>, b: Seq<(Seq<char>, DocView)>)
    ensures
        meta_entries(a + b) == meta_entries(a) + meta_entries(b),
    decreases a.len(),
{
    if a.len() == 0 {
        assert(a + b =~= b);
        assert(meta_entries(a) + meta_entries(b) =~= meta_entries(b));
    } else {
        assert((a + b).drop_first() =~= a.drop_first() + b);
        lemma_meta_entries_concat(a.drop_first(), b);
        assert(meta_entry((a + b)[0]) + (meta_entries(a.drop_first()) + meta_entries(b)) =~= (
        meta_entry(a[0]) + meta_entries(a.drop_first())) + meta_entries(b));
    }
}

proof fn lemma_top_entries_concat(a: Seq<(Seq<char>, DocView)>, b: Seq<(Seq<char>, DocView)>)
    ensures
        top_entries(a + b) == top_entries(a) + top_entries(b),
    decreases a.len(),
{
    if a.len() == 0 {
        assert(a + b =~= b);
        assert(top_entries(a) + top_entries(b) =~= top_entries(b));
    } else {
        assert((a + b).drop_first() =~= a.drop_first() + b);
        lemma_top_entries_concat(a.drop_first(), b);
        assert(top_entry((a + b)[0]) + (top_entries(a.drop_first()) + top_entries(b)) =~= (
        top_entry(a[0]) + top_entries(a.drop_first())) + top_entries(b));
    }
}

/// The words that name filtered sections differ from the keys that are
/// removed outright, at whichever level they stand.
proof fn lemma_key_words_distinct()
    ensures
        !top_removed_key("metadata"@),
        !top_removed_key("spec"@),
        !meta_removed_key("annotations"@),
        "metadata"@ != "spec"@,
        "annotations"@ != "caBundle"@,
{
    reveal_strlit("status");
    reveal_strlit("webhooks");
    reveal_strlit("metadata");
    reveal_strlit("spec");
    reveal_strlit("annotations");
    reveal_strlit("managedFields");
    reveal_strlit("ownerReferences");
    reveal_strlit("generation");
    reveal_strlit("creationTimestamp");
    reveal_strlit("resourceVersion");
    reveal_strlit("uid");
    reveal_strlit("selfLink");
    reveal_strlit("caBundle");
    assert("status"@.len() == 6);
    assert("webhooks"@.len() == 8);
    assert("metadata"@.len() == 8);
    assert("spec"@.len() == 4);
    assert("annotations"@.len() == 11);
    assert("managedFields"@.len() == 13);
    assert("ownerReferences"@.len() == 15);
    assert("generation"@.len() == 10);
    assert("creationTimestamp"@.len() == 17);
    assert("resourceVersion"@.len() == 15);
    assert("uid"@.len() == 3);
    assert("selfLink"@.len() == 8);
    assert("caBundle"@.len() == 8);
    assert("metadata"@[0] == 'm' && "webhooks"@[0] == 'w');
    assert("annotations"@[0] == 'a' && "caBundle"@[0] == 'c' && "selfLink"@[0] == 's');
}

proof fn lemma_meta_entries_single(e: (Seq<char>, DocView))
    ensures
        meta_entries(seq![e]) == meta_entry(e),
{
    let s = seq![e];
    assert(s.drop_first() =~= Seq::<(Seq<char>, DocView)>::empty());
    assert(meta_entries(Seq::<(Seq<char>, DocView)>::empty()) =~= Seq::<(
        Seq<char>,
        DocView,
    )>::empty());
    assert(meta_entries(s) =~= meta_entry(e));
}

proof fn lemma_top_entries_single(e: (Seq<char>, DocView))
    ensures
        top_entries(seq![e]) == top_entry(e),
{
    let s = seq![e];
    assert(s.drop_first() =~= Seq::<(Seq<char>, DocView)>::empty());
    assert(top_entries(Seq::<(Seq<char>, DocView)>::empty()) =~= Seq::<(
        Seq<char>,
        DocView,
    )>::empty());
    assert(top_entries(s) =~= top_entry(e));
}

proof fn lemma_annotations_entry_stable(e: (Seq<char>, DocView))
    requires
        e.0 == "annotations"@,
    ensures
        meta_entries(annotations_entry(e)) == annotations_entry(e),
    decreases 0int,
{
    lemma_key_words_distinct();
    match e.1 {
        DocView::Object(am) => {
            let stripped = strip_annotations(am);
            if stripped.len() == 0 {
                assert(meta_entries(annotations_entry(e)) =~= annotations_entry(e));
            } else {
                let e2 = (e.0, DocView::Object(stripped));
                lemma_strip_annotations_clean(am);
                lemma_strip_annotations_fix(stripped);
                lemma_meta_entries_single(e2);
                assert(annotations_entry(e2) =~= seq![e2]);
            }
        },
        _ => {
            lemma_meta_entries_single(e);
            assert(meta_entry(e) == annotations_entry(e));
        },
    }
}

proof fn lemma_meta_entry_stable(e: (Seq<char>, DocView))
    ensures
        meta_entries(meta_entry(e)) == meta_entry(e),
{
    lemma_key_words_distinct();
    if meta_removed_key(e.0) {
    } else if e.0 == "annotations"@ {
        lemma_annotations_entry_stable(e);
    } else {
        lemma_meta_entries_single(e);
    }
}

proof fn lemma_meta_entries_idem(m: Seq<(Seq<char>, DocView)>)
    ensures
        meta_entries(meta_entries(m)) == meta_entries(m),
    decreases m.len(),
{
    if m.len() > 0 {
        lemma_meta_entries_concat(meta_entry(m[0]), meta_entries(m.drop_first()));
        lemma_meta_entry_stable(m[0]);
        lemma_meta_entries_idem(m.drop_first());
    }
}

proof fn lemma_top_entry_stable(e: (Seq<char>, DocView))
    ensures
        top_entries(top_entry(e)) == top_entry(e),
{
    lemma_key_words_distinct();
    if top_removed_key(e.0) {
    } else if e.0 == "metadata"@ {
        let e2 = (e.0, filter_metadata(e.1));
        match e.1 {
            DocView::Object(m) => {
                lemma_meta_entries_idem(m);
            },
            _ => {},
        }
        lemma_top_entries_single(e2);
    } else if e.0 == "spec"@ {
        let e2 = (e.0, filter_spec_section(e.1));
        match e.1 {
            DocView::Object(m) => {
                lemma_strip_ca_bundle_clean(m);
                lemma_strip_ca_bundle_fix(strip_ca_bundle(m));
            },
            _ => {},
        }
        lemma_top_entries_single(e2);
    } else {
        lemma_top_entries_single(e);
    }
}

proof fn lemma_top_entries_idem(m: Seq<(Seq<char>, DocView)>)
    ensures
        top_entries(top_entries(m)) == top_entries(m),
    decreases m.len(),
{
    if m.len() > 0 {
        lemma_top_entries_concat(top_entry(m[0]), top_entries(m.drop_first()));
        lemma_top_entry_stable(m[0]);
        lemma_top_entries_idem(m.drop_first());
    }
}

/// Filtering is idempotent: filtering an already-filtered document changes
/// nothing.
pub proof fn lemma_filter_idempotent(x: DocView)
    ensures
        spec_filter(spec_filter(x)) == spec_filter(x),
{
    match x {
        DocView::Object(m) => {
            lemma_top_entries_idem(m);
        },
        _ => {},
    }
}

proof fn lemma_view_drop_front(v: Seq<(String, Doc)>)
    requires
        v.len() > 0,
    ensures
        entries_view(v).len() == v.len(),
        entries_view(v)[0] == (v[0].0@, v[0].1@),
        entries_view(v).drop_first() =~= entries_view(v.drop_first()),
{
    lemma_entries_view(v);
    lemma_entries_view(v.drop_first());
}

fn strip_annotation_entries(am: Vec<(String, Doc)>) -> (r: Vec<(String, Doc)>)
    ensures
        entries_view(r@) == strip_annotations(entries_view(am@)),
{
    let mut src = am;
    let mut out: Vec<(String, Doc)> = Vec::new();
    let ghost orig = entries_view(src@);
    proof {
        assert(entries_view(out@) + strip_annotations(orig) =~= strip_annotations(orig));
    }
    while src.len() > 0
        invariant
            strip_annotations(orig) == entries_view(out@) + strip_annotations(entries_view(src@)),
        decreases src.len(),
    {
        let ghost pre = src@;
        let ghost s = entries_view(src@);
        proof {
            lemma_view_drop_front(pre);
            assert(pre.remove(0) =~= pre.drop_first());
        }
        let e = src.remove(0);
        if str_eq(e.0.as_str(), "kubectl.kubernetes.io/last-applied-configuration") || str_eq(
            e.0.as_str(),
            "argocd.argoproj.io/tracking-id",
        ) {
            proof {
                assert(annotation_removed_key(s[0].0));
                assert(strip_annotations(s) == strip_annotations(entries_view(src@)));
            }
        } else {
            let ghost out_pre = out@;
            proof {
                lemma_entries_view_push(out_pre, e);
            }
            out.push(e);
            proof {
                assert(strip_annotations(s) == seq![s[0]] + strip_annotations(
                    entries_view(src@),
                ));
                assert(entries_view(out_pre).push(s[0]) + strip_annotations(entries_view(src@))
                    =~= entries_view(out_pre) + (seq![s[0]] + strip_annotations(
                    entries_view(src@),
                )));
            }
        }
    }
    proof {
        assert(entries_view(src@) =~= Seq::<(Seq<char>, DocView)>::empty());
        assert(entries_view(out@) + strip_annotations(Seq::<(Seq<char>, DocView)>::empty())
            =~= entries_view(out@));
    }
    out
}

fn strip_ca_bundle_entries(sm: Vec<(String, Doc)>) -> (r: Vec<(String, Doc)>)
    ensures
        entries_view(r@) == strip_ca_bundle(entries_view(sm@)),
{
    let mut src = sm;
    let mut out: Vec<(String, Doc)> = Vec::new();
    let ghost orig = entries_view(src@);
    proof {
        assert(entries_view(out@) + strip_ca_bundle(orig) =~= strip_ca_bundle(orig));
    }
    while src.len() > 0
        invariant
            strip_ca_bundle(orig) == entries_view(out@) + strip_ca_bundle(entries_view(src@)),
        decreases src.len(),
    {
        let ghost pre = src@;
        let ghost s = entries_view(src@);
        proof {
            lemma_view_drop_front(pre);
            assert(pre.remove(0) =~= pre.drop_first());
        }
        let e = src.remove(0);
        if str_eq(e.0.as_str(), "caBundle") {
            proof {
                assert(strip_ca_bundle(s) == strip_ca_bundle(entries_view(src@)));
            }
        } else {
            let ghost out_pre = out@;
            proof {
                lemma_entries_view_push(out_pre, e);
            }
            out.push(e);
            proof {
                assert(strip_ca_bundle(s) == seq![s[0]] + strip_ca_bundle(entries_view(src@)));
                assert(entries_view(out_pre).push(s[0]) + strip_ca_bundle(entries_view(src@))
                    =~= entries_view(out_pre) + (seq![s[0]] + strip_ca_bundle(
                    entries_view(src@),
                )));
            }
        }
    }
    proof {
        assert(entries_view(src@) =~= Seq::<(Seq<char>, DocView)>::empty());
        assert(entries_view(out@) + strip_ca_bundle(Seq::<(Seq<char>, DocView)>::empty())
            =~= entries_view(out@));
    }
    out
}

fn filter_metadata_entries(md: Vec<(String, Doc)>) -> (r: Vec<(String, Doc)>)
    ensures
        entries_view(r@) == meta_entries(entries_view(md@)),
{
    let mut src = md;
    let mut out: Vec<(String, Doc)> = Vec::new();
    let ghost orig = entries_view(src@);
    proof {
        assert(entries_view(out@) + meta_entries(orig) =~= meta_entries(orig));
    }
    while src.len() > 0
        invariant
            meta_entries(orig) == entries_view(out@) + meta_entries(entries_view(src@)),
        decreases src.len(),
    {
        let ghost pre = src@;
        let ghost s = entries_view(src@);
        proof {
            lemma_view_drop_front(pre);
            assert(pre.remove(0) =~= pre.drop_first());
        }
        let e = src.remove(0);
        proof {
            assert(meta_entries(s) == meta_entry(s[0]) + meta_entries(entries_view(src@)));
        }
        if str_eq(e.0.as_str(), "managedFields") || str_eq(e.0.as_str(), "ownerReferences")
            || str_eq(e.0.as_str(), "generation") || str_eq(e.0.as_str(), "creationTimestamp")
            || str_eq(e.0.as_str(), "resourceVersion") || str_eq(e.0.as_str(), "uid") || str_eq(
            e.0.as_str(),
            "selfLink",
        ) {
            proof {
                assert(meta_removed_key(s[0].0));
                assert(entries_view(out@) + (meta_entry(s[0]) + meta_entries(entries_view(src@)))
                    =~= entries_view(out@) + meta_entries(entries_view(src@)));
            }
        } else if str_eq(e.0.as_str(), "annotations") {
            let key = e.0;
            match e.1 {
                Doc::Object(am) => {
                    let ghost amv = entries_view(am@);
                    let am2 = strip_annotation_entries(am);
                    proof {
                        lemma_entries_view(am2@);
                    }
                    if am2.len() == 0 {
                        proof {
                            assert(meta_entry(s[0]) =~= Seq::<(Seq<char>, DocView)>::empty());
                            assert(entries_view(out@) + (meta_entry(s[0]) + meta_entries(
                                entries_view(src@),
                            )) =~= entries_view(out@) + meta_entries(entries_view(src@)));
                        }
                    } else {
                        let ghost out_pre = out@;
                        let e2 = (key, Doc::Object(am2));
                        proof {
                            lemma_entries_view_push(out_pre, e2);
                            assert(meta_entry(s[0]) =~= seq![
                                (s[0].0, DocView::Object(strip_annotations(amv))),
                            ]);
                        }
                        out.push(e2);
                        proof {
                            assert(entries_view(out_pre).push((e2.0@, e2.1@)) + meta_entries(
                                entries_view(src@),
                            ) =~= entries_view(out_pre) + (meta_entry(s[0]) + meta_entries(
                                entries_view(src@),
                            )));
                        }
                    }
                },
                other => {
                    let ghost out_pre = out@;
                    let e2 = (key, other);
                    proof {
                        lemma_entries_view_push(out_pre, e2);
                        assert(meta_entry(s[0]) =~= seq![s[0]]);
                    }
                    out.push(e2);
                    proof {
                        assert(entries_view(out_pre).push(s[0]) + meta_entries(entries_view(src@))
                            =~= entries_view(out_pre) + (meta_entry(s[0]) + meta_entries(
                            entries_view(src@),
                        )));
                    }
                },
            }
        } else {
            let ghost out_pre = out@;
            proof {
                lemma_entries_view_push(out_pre, e);
                assert(meta_entry(s[0]) =~= seq![s[0]]);
            }
            out.push(e);
            proof {
                assert(entries_view(out_pre).push(s[0]) + meta_entries(entries_view(src@))
                    =~= entries_view(out_pre) + (meta_entry(s[0]) + meta_entries(
                    entries_view(src@),
                )));
            }
        }
    }
    proof {
        assert(entries_view(src@) =~= Seq::<(Seq<char>, DocView)>::empty());
        assert(entries_view(out@) + meta_entries(Seq::<(Seq<char>, DocView)>::empty())
            =~= entries_view(out@));
    }
    out
}

fn filter_metadata_value(v: Doc) -> (r: Doc)
    ensures
        r@ == filter_metadata(v@),
{
    match v {
        Doc::Object(md) => Doc::Object(filter_metadata_entries(md)),
        other => other,
    }
}

fn filter_spec_value(v: Doc) -> (r: Doc)
    ensures
        r@ == filter_spec_section(v@),
{
    match v {
        Doc::Object(m) => Doc::Object(strip_ca_bundle_entries(m)),
        other => other,
    }
}

fn filter_top_level(tp: Vec<(String, Doc)>) -> (r: Vec<(String, Doc)>)
    ensures
        entries_view(r@) == top_entries(entries_view(tp@)),
{
    let mut src = tp;
    let mut out: Vec<(String, Doc)> = Vec::new();
    let ghost orig = entries_view(src@);
    proof {
        assert(entries_view(out@) + top_entries(orig) =~= top_entries(orig));
    }
    while src.len() > 0
        invariant
            top_entries(orig) == entries_view(out@) + top_entries(entries_view(src@)),
        decreases src.len(),
    {
        let ghost pre = src@;
        let ghost s = entries_view(src@);
        proof {
            lemma_view_drop_front(pre);
            assert(pre.remove(0) =~= pre.drop_first());
        }
        let e = src.remove(0);
        proof {
            assert(top_entries(s) == top_entry(s[0]) + top_entries(entries_view(src@)));
        }
        if str_eq(e.0.as_str(), "status") || str_eq(e.0.as_str(), "webhooks") {
            proof {
                assert(top_removed_key(s[0].0));
                assert(entries_view(out@) + (top_entry(s[0]) + top_entries(entries_view(src@)))
                    =~= entries_view(out@) + top_entries(entries_view(src@)));
            }
        } else if str_eq(e.0.as_str(), "metadata") {
            let ghost out_pre = out@;
            let e2 = (e.0, filter_metadata_value(e.1));
            proof {
                lemma_entries_view_push(out_pre, e2);
                assert(top_entry(s[0]) =~= seq![(e2.0@, e2.1@)]);
            }
            out.push(e2);
            proof {
                assert(entries_view(out_pre).push((e2.0@, e2.1@)) + top_entries(
                    entries_view(src@),
                ) =~= entries_view(out_pre) + (top_entry(s[0]) + top_entries(
                    entries_view(src@),
                )));
            }
        } else if str_eq(e.0.as_str(), "spec") {
            let ghost out_pre = out@;
            let e2 = (e.0, filter_spec_value(e.1));
            proof {
                lemma_entries_view_push(out_pre, e2);
                assert(top_entry(s[0]) =~= seq![(e2.0@, e2.1@)]);
            }
            out.push(e2);
            proof {
                assert(entries_view(out_pre).push((e2.0@, e2.1@)) + top_entries(
                    entries_view(src@),
                ) =~= entries_view(out_pre) + (top_entry(s[0]) + top_entries(
                    entries_view(src@),
                )));
            }
        } else {
            let ghost out_pre = out@;
            proof {
                lemma_entries_view_push(out_pre, e);
                assert(top_entry(s[0]) =~= seq![s[0]]);
            }
            out.push(e);
            proof {
                assert(entries_view(out_pre).push(s[0]) + top_entries(entries_view(src@))
                    =~= entries_view(out_pre) + (top_entry(s[0]) + top_entries(
                    entries_view(src@),
                )));
            }
        }
    }
    proof {
        assert(entries_view(src@) =~= Seq::<(Seq<char>, DocView)>::empty());
        assert(entries_view(out@) + top_entries(Seq::<(Seq<char>, DocView)>::empty())
            =~= entries_view(out@));
    }
    out
}

/// Filter out server-managed fields from a Kubernetes resource.
///
/// Removes the fields that the API server sets on its own and that would
/// otherwise pollute every diff between a local manifest and live state.
pub fn filter_resource(doc: Doc) -> (r: Doc)
    ensures
        r@ == spec_filter(doc@),
{
    match doc {
        Doc::Object(es) => Doc::Object(filter_top_level(es)),
        other => other,
    }
}

} // verus!
