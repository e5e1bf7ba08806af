//! A structured document: the in-memory model of one Kubernetes object.
//!
//! Manifests and live objects are held as an ordered tree of scalars,
//! sequences and key-ordered maps.  Keeping the map an ordered association
//! list gives the stable, deterministic serialization order that diffing
//! requires.  Numbers are carried as their canonical textual rendering: the
//! engine never computes with them, it only compares and re-serializes them.

use vstd::prelude::*;

use crate::strutil::str_eq;

verus! {

/// One node of a structured document.
#[derive(Debug)]
pub enum Doc {
    Null,
    Bool(bool),
    /// A numeric scalar, kept as its textual rendering.
    Num(String),
    Str(String),
    List(Vec<Doc>),
    /// An ordered mapping from string keys to documents.
    Object(Vec<(String, Doc)>),
}

/// The mathematical value of a [`Doc`].
#[verifier::ext_equal]
pub enum DocView {
    Null,
    Bool(bool),
    Num(Seq<char>),
    Str(Seq<char>),
    List(Seq<DocView>),
    Object(Seq<(Seq<char>, DocView)>),
}

/// The mathematical value of a document node.
pub open spec fn doc_view(d: Doc) -> DocView
    decreases d,
{
    match d {
        Doc::Null => DocView::Null,
        Doc::Bool(b) => DocView::Bool(b),
        Doc::Num(s) => DocView::Num(s@),
        Doc::Str(s) => DocView::Str(s@),
        Doc::List(xs) => DocView::List(list_view(xs@)),
        Doc::Object(es) => DocView::Object(entries_view(es@)),
    }
}

/// The values of a sequence of document nodes, element by element.
pub open spec fn list_view(s: Seq<Doc>) -> Seq<DocView>
    decreases s,
{
    if s.len() == 0 {
        Seq::empty()
    } else {
        seq![doc_view(s[0])] + list_view(s.subrange(1, s.len() as int))
    }
}

/// The values of a sequence of map entries, entry by entry.
pub open spec fn entries_view(es: Seq<(String, Doc)>) -> Seq<(Seq<char>, DocView)>
    decreases es,
{
    if es.len() == 0 {
        Seq::empty()
    } else {
        seq![(es[0].0@, doc_view(es[0].1))] + entries_view(es.subrange(1, es.len() as int))
    }
}

impl View for Doc {
    type V = DocView;

    open spec fn view(&self) -> DocView {
        doc_view(*self)
    }
}

/// A sequence of nodes is valued element by element.
pub proof fn lemma_list_view(s: Seq<Doc>)
    ensures
        list_view(s).len() == s.len(),
        forall|i: int| 0 <= i < s.len() ==> list_view(s)[i] == doc_view(#[trigger] s[i]),
    decreases s.len(),
{
    if s.len() > 0 {
        let tail = s.subrange(1, s.len() as int);
        lemma_list_view(tail);
        assert forall|i: int| 0 <= i < s.len() implies list_view(s)[i] == doc_view(s[i]) by {
            if i > 0 {
                assert(tail[i - 1] == s[i]);
            }
        }
    }
}

/// A sequence of map entries is valued entry by entry.
pub proof fn lemma_entries_view(es: Seq<(String, Doc)>)
    ensures
        entries_view(es).len() == es.len(),
        forall|i: int|
            0 <= i < es.len() ==> entries_view(es)[i] == ((#[trigger] es[i]).0@, doc_view(
                es[i].1,
            )),
    decreases es.len(),
{
    if es.len() > 0 {
        let tail = es.subrange(1, es.len() as int);
        lemma_entries_view(tail);
        assert forall|i: int|
            0 <= i < es.len() implies entries_view(es)[i] == (es[i].0@, doc_view(es[i].1)) by {
            if i > 0 {
                assert(tail[i - 1] == es[i]);
            }
        }
    }
}

/// Appending one entry extends the valued sequence by that entry's value.
pub proof fn lemma_entries_view_push(es: Seq<(String, Doc)>, e: (String, Doc))
    ensures
        entries_view(es.push(e)) =~= entries_view(es).push((e.0@, e.1@)),
{
    lemma_entries_view(es.push(e));
    lemma_entries_view(es);
    assert forall|i: int|
        0 <= i < entries_view(es.push(e)).len() implies entries_view(es.push(e))[i]
        == entries_view(es).push((e.0@, e.1@))[i] by {
        if i < es.len() {
            assert(es.push(e)[i] == es[i]);
        } else {
            assert(es.push(e)[i] == e);
        }
    }
}

/// The first value bound to `key` in an association sequence, if any.
pub open spec fn lookup(m: Seq<(Seq<char>, DocView)>, key: Seq<char>) -> Option<DocView>
    decreases m.len(),
{
    if m.len() == 0 {
        None
    } else if m[0].0 == key {
        Some(m[0].1)
    } else {
        lookup(m.drop_first(), key)
    }
}

/// The value bound to `key` when the document is a map that binds it.
pub open spec fn doc_lookup(d: DocView, key: Seq<char>) -> Option<DocView> {
    match d {
        DocView::Object(m) => lookup(m, key),
        _ => None,
    }
}

impl Doc {
    /// Whether this node is a mapping.
    pub fn is_map(&self) -> (r: bool)
        ensures
            r <==> self@ is Object,
    {
        match self {
            Doc::Object(_) => true,
            _ => false,
        }
    }

    /// The string this node holds, if it is a string scalar.
    pub fn as_str(&self) -> (r: Option<&String>)
        ensures
            match r {
                Some(s) => self@ == DocView::Str(s@),
                None => !(self@ is Str),
            },
    {
        match self {
            Doc::Str(s) => Some(s),
            _ => None,
        }
    }

    /// The first value bound to `key`, when this node is a mapping.
    pub fn get<'a>(&'a self, key: &str) -> (r: Option<&'a Doc>)
        ensures
            match r {
                Some(v) => doc_lookup(self@, key@) == Some(v@),
                None => doc_lookup(self@, key@) is None,
            },
    {
        match self {
            Doc::Object(es) => {
                let ghost m = entries_view(es@);
                proof {
                    lemma_entries_view(es@);
                    assert(m.skip(0) =~= m);
                }
                let mut i: usize = 0;
                while i < es.len()
                    invariant
                        i <= es.len(),
                        m == entries_view(es@),
                        m.len() == es@.len(),
                        forall|j: int|
                            0 <= j < es@.len() ==> m[j] == ((#[trigger] es@[j]).0@, doc_view(
                                es@[j].1,
                            )),
                        lookup(m, key@) == lookup(m.skip(i as int), key@),
                        doc_lookup(self@, key@) == lookup(m, key@),
                    decreases es.len() - i,
                {
                    proof {
                        assert(m.skip(i as int)[0] == m[i as int]);
                    }
                    if str_eq(es[i].0.as_str(), key) {
                        return Some(&es[i].1);
                    }
                    proof {
                        assert(m.skip(i as int).drop_first() =~= m.skip(i + 1));
                    }
                    i = i + 1;
                }
                proof {
                    assert(m.skip(es.len() as int).len() == 0);
                }
                None
            },
            _ => None,
        }
    }

    /// The string bound to `key`, when this node is a mapping and the value
    /// is a string scalar.
    pub fn get_str<'a>(&'a self, key: &str) -> (r: Option<&'a String>)
        ensures
            match r {
                Some(s) => doc_lookup(self@, key@) == Some(DocView::Str(s@)),
                None => match doc_lookup(self@, key@) {
                    Some(v) => !(v is Str),
                    None => true,
                },
            },
    {
        match self.get(key) {
            Some(v) => v.as_str(),
            None => None,
        }
    }
}

} // verus!
