//! Run configuration: which service paths a run diffs, and at which
//! verbosity it reports.
//!
//! Reading the configuration file and expanding glob patterns is I/O and
//! stays outside the library; everything decided about the configuration's
//! content — parsing the document, expanding `~`, assembling and excluding
//! service paths — is verified here.

use vstd::prelude::*;
use vstd::string::{StrSliceExecFns, StringExecFns};

use crate::doc::{doc_lookup, lemma_list_view, list_view, Doc, DocView};
use crate::enums::LogLevel;
use crate::processor::nested_str_field;
use crate::strutil::{str_eq, strs_view};
use crate::yaml::{docs_of, parse_documents, parsed_view};

verus! {

/// The configuration a run works under.
#[derive(Debug)]
pub struct Configs {
    pub targets: Vec<String>,
    pub exclude: Vec<String>,
    pub env: String,
    pub log: LogLevel,
}

/// The value of a configuration.
#[verifier::ext_equal]
pub struct ConfigsView {
    pub targets: Seq<Seq<char>>,
    pub exclude: Seq<Seq<char>>,
    pub env: Seq<char>,
    pub log: LogLevel,
}

impl View for Configs {
    type V = ConfigsView;

    open spec fn view(&self) -> ConfigsView {
        ConfigsView {
            targets: strs_view(self.targets@),
            exclude: strs_view(self.exclude@),
            env: self.env@,
            log: self.log,
        }
    }
}

/// The loaded settings.
#[derive(Debug)]
pub struct Settings {
    pub configs: Configs,
}

impl View for Settings {
    type V = ConfigsView;

    open spec fn view(&self) -> ConfigsView {
        self.configs@
    }
}

/// A leading `~/` expanded against the given home directory.
pub open spec fn spec_expanduser(path: Seq<char>, home: Seq<char>) -> Seq<char> {
    if path.len() >= 2 && path[0] == '~' && path[1] == '/' {
        home + "/"@ + path.subrange(2, path.len() as int)
    } else {
        path
    }
}

/// Expand a leading `~/` in a path against the home directory.
pub fn expanduser(path: &str, home: &str) -> (r: String)
    ensures
        r@ == spec_expanduser(path@, home@),
{
    let n = path.unicode_len();
    if n >= 2 && path.get_char(0) == '~' && path.get_char(1) == '/' {
        let mut out = home.to_owned();
        out.append("/");
        let rest = path.substring_char(2, n);
        out.append(rest);
        out
    } else {
        path.to_owned()
    }
}

impl Settings {
    /// Where the configuration file lives under the given home directory.
    pub fn path(home: &str) -> (r: String)
        ensures
            r@ == home@ + "/.kube/kubediff/config.yaml"@,
    {
        let mut out = home.to_owned();
        out.append("/.kube/kubediff/config.yaml");
        out
    }
}

/// The strings among a sequence of document nodes, in order; anything that
/// is not a string scalar is passed over.
pub open spec fn string_items(xs: Seq<DocView>) -> Seq<Seq<char>>
    decreases xs.len(),
{
    if xs.len() == 0 {
        Seq::empty()
    } else {
        (match xs[0] {
            DocView::Str(s) => seq![s],
            _ => Seq::<Seq<char>>::empty(),
        }) + string_items(xs.drop_first())
    }
}

proof fn lemma_string_items_push(xs: Seq<DocView>, d: DocView)
    ensures
        string_items(xs.push(d)) == string_items(xs) + (match d {
            DocView::Str(s) => seq![s],
            _ => Seq::<Seq<char>>::empty(),
        }),
    decreases xs.len(),
{
    let unit = (match d {
        DocView::Str(s) => seq![s],
        _ => Seq::<Seq<char>>::empty(),
    });
    if xs.len() == 0 {
        assert(xs.push(d).drop_first() =~= Seq::<DocView>::empty());
        assert(xs.push(d)[0] == d);
        assert(string_items(Seq::<DocView>::empty()) =~= Seq::<Seq<char>>::empty());
        assert(string_items(xs.push(d)) =~= string_items(xs) + unit);
    } else {
        assert(xs.push(d).drop_first() =~= xs.drop_first().push(d));
        lemma_string_items_push(xs.drop_first(), d);
        assert(string_items(xs.push(d)) =~= string_items(xs) + unit);
    }
}

fn collect_strings(xs: &Vec<Doc>) -> (r: Vec<String>)
    ensures
        strs_view(r@) == string_items(list_view(xs@)),
{
    let ghost lv = list_view(xs@);
    let mut out: Vec<String> = Vec::new();
    proof {
        lemma_list_view(xs@);
        assert(lv.take(0) =~= Seq::<DocView>::empty());
        assert(strs_view(out@) =~= string_items(lv.take(0)));
    }
    let mut i: usize = 0;
    while i < xs.len()
        invariant
            i <= xs@.len(),
            lv == list_view(xs@),
            lv.len() == xs@.len(),
            forall|j: int| 0 <= j < xs@.len() ==> lv[j] == (#[trigger] xs@[j])@,
            strs_view(out@) == string_items(lv.take(i as int)),
        decreases xs@.len() - i,
    {
        let ghost out_pre = out@;
        proof {
            assert(lv.take(i + 1) =~= lv.take(i as int).push(lv[i as int]));
            lemma_string_items_push(lv.take(i as int), lv[i as int]);
        }
        match xs[i].as_str() {
            Some(s) => {
                out.push(s.clone());
                proof {
                    assert(strs_view(out@) =~= strs_view(out_pre).push(s@));
                    assert(strs_view(out_pre).push(s@) =~= string_items(lv.take(i + 1)));
                }
            },
            None => {
                proof {
                    assert(string_items(lv.take(i + 1)) =~= string_items(lv.take(i as int)));
                }
            },
        }
        i = i + 1;
    }
    proof {
        assert(lv.take(xs@.len() as int) =~= lv);
    }
    out
}

/// The list bound to `k2` inside the map bound to `k1`, or the empty list.
pub open spec fn list_field(d: DocView, k1: Seq<char>, k2: Seq<char>) -> Seq<DocView> {
    match doc_lookup(d, k1) {
        Some(c) => match doc_lookup(c, k2) {
            Some(DocView::List(xs)) => xs,
            _ => Seq::empty(),
        },
        None => Seq::empty(),
    }
}

/// The configuration a parsed configuration document declares: its
/// `configs.targets` and `configs.exclude` path lists, its `configs.env`
/// name (empty when absent), and informational reporting.
pub open spec fn spec_configs(d: DocView) -> ConfigsView {
    ConfigsView {
        targets: string_items(list_field(d, "configs"@, "targets"@)),
        exclude: string_items(list_field(d, "configs"@, "exclude"@)),
        env: match nested_str_field(d, "configs"@, "env"@) {
            Some(s) => s,
            None => Seq::empty(),
        },
        log: LogLevel::Info,
    }
}

fn list_items<'a>(d: &'a Doc, k1: &str, k2: &str) -> (r: Option<&'a Vec<Doc>>)
    ensures
        match r {
            Some(xs) => list_field(d@, k1@, k2@) == list_view(xs@),
            None => list_field(d@, k1@, k2@) == Seq::<DocView>::empty(),
        },
{
    match d.get(k1) {
        Some(c) => match c.get(k2) {
            Some(v) => match v {
                Doc::List(xs) => Some(xs),
                _ => None,
            },
            None => None,
        },
        None => None,
    }
}

fn deserialize_configs(d: &Doc) -> (r: Configs)
    ensures
        r@ == spec_configs(d@),
{
    let targets = match list_items(d, "configs", "targets") {
        Some(xs) => collect_strings(xs),
        None => Vec::new(),
    };
    let exclude = match list_items(d, "configs", "exclude") {
        Some(xs) => collect_strings(xs),
        None => Vec::new(),
    };
    let env = match d.get("configs") {
        Some(c) => match c.get_str("env") {
            Some(s) => s.clone(),
            None => String::new(),
        },
        None => String::new(),
    };
    proof {
        assert(strs_view(Seq::<String>::empty()) =~= Seq::<Seq<char>>::empty());
        assert(string_items(Seq::<DocView>::empty()) =~= Seq::<Seq<char>>::empty());
    }
    Configs { targets, exclude, env, log: LogLevel::Info }
}

impl Settings {
    /// Parse the configuration file's text: the first YAML document in it
    /// carries the configuration.
    pub fn load(text: &str) -> (r: Result<Settings, String>)
        ensures
            match r {
                Ok(s) => docs_of(text@).len() > 0 && (docs_of(text@)[0] matches Ok(d) && s@
                    == spec_configs(d)),
                Err(e) => {
                    if docs_of(text@).len() == 0 {
                        e@ == "Empty config file"@
                    } else {
                        docs_of(text@)[0] matches Err(m) && e@ == m
                    }
                },
            },
    {
        let mut docs = parse_documents(text);
        if docs.len() == 0 {
            return Err(String::from_str("Empty config file"));
        }
        proof {
            assert(parsed_view(docs@)[0] == docs_of(text@)[0]);
        }
        match docs.remove(0) {
            Ok(d) => Ok(Settings { configs: deserialize_configs(&d) }),
            Err(m) => Err(m),
        }
    }
}

/// The service path one glob match yields for an environment.
pub open spec fn service_target(p: Seq<char>, env: Seq<char>) -> Seq<char> {
    p + "/"@ + env
}

/// Whether some match in the list yields this service path.
pub open spec fn has_target(ms: Seq<String>, env: Seq<char>, t: Seq<char>) -> bool {
    exists|i: int| 0 <= i < ms.len() && service_target((#[trigger] ms[i])@, env) == t
}

fn make_target(p: &String, env: &str) -> (r: String)
    ensures
        r@ == service_target(p@, env@),
{
    let mut t = p.clone();
    t.append("/");
    t.append(env);
    t
}

fn contains_str(v: &Vec<String>, s: &String) -> (r: bool)
    ensures
        r <==> exists|i: int| 0 <= i < v@.len() && (#[trigger] v@[i])@ == s@,
{
    let mut i: usize = 0;
    while i < v.len()
        invariant
            i <= v@.len(),
            forall|j: int| 0 <= j < i ==> (#[trigger] v@[j])@ != s@,
        decreases v@.len() - i,
    {
        if str_eq(v[i].as_str(), s.as_str()) {
            return true;
        }
        i = i + 1;
    }
    false
}

proof fn lemma_built_targets(ms: Seq<String>, built: Seq<String>, env: Seq<char>, t: Seq<char>)
    requires
        built.len() == ms.len(),
        forall|i: int| 0 <= i < ms.len() ==> (#[trigger] built[i])@ == service_target(ms[i]@, env),
    ensures
        has_target(ms, env, t) <==> exists|i: int|
            0 <= i < built.len() && (#[trigger] built[i])@ == t,
{
    if has_target(ms, env, t) {
        let i = choose|i: int| 0 <= i < ms.len() && service_target((#[trigger] ms[i])@, env) == t;
        assert(built[i]@ == t);
    }
    if exists|i: int| 0 <= i < built.len() && (#[trigger] built[i])@ == t {
        let i = choose|i: int| 0 <= i < built.len() && (#[trigger] built[i])@ == t;
        assert(service_target(ms[i]@, env) == t);
    }
}

impl Settings {
    /// The service paths a run works through: one `<match>/<env>` path per
    /// target match, without duplicates, and without any path that an
    /// exclude match also yields.
    pub fn get_service_paths(
        target_matches: &Vec<String>,
        exclude_matches: &Vec<String>,
        env: &str,
    ) -> (r: Vec<String>)
        ensures
            forall|i: int|
                0 <= i < r@.len() ==> has_target(target_matches@, env@, (#[trigger] r@[i])@)
                    && !has_target(exclude_matches@, env@, r@[i]@),
            forall|k: int|
                0 <= k < target_matches@.len() ==> has_target(
                    exclude_matches@,
                    env@,
                    service_target((#[trigger] target_matches@[k])@, env@),
                ) || exists|i: int|
                    0 <= i < r@.len() && (#[trigger] r@[i])@ == service_target(
                        target_matches@[k]@,
                        env@,
                    ),
            forall|i: int, j: int|
                #![trigger r@[i], r@[j]]
                0 <= i < j < r@.len() ==> r@[i]@ != r@[j]@,
    {
        let mut excluded: Vec<String> = Vec::new();
        let mut j: usize = 0;
        while j < exclude_matches.len()
            invariant
                j <= exclude_matches@.len(),
                excluded@.len() == j,
                forall|t: int|
                    0 <= t < j ==> (#[trigger] excluded@[t])@ == service_target(
                        exclude_matches@[t]@,
                        env@,
                    ),
            decreases exclude_matches@.len() - j,
        {
            excluded.push(make_target(&exclude_matches[j], env));
            j = j + 1;
        }
        let mut out: Vec<String> = Vec::new();
        let mut k: usize = 0;
        while k < target_matches.len()
            invariant
                k <= target_matches@.len(),
                excluded@.len() == exclude_matches@.len(),
                forall|t: int|
                    0 <= t < excluded@.len() ==> (#[trigger] excluded@[t])@ == service_target(
                        exclude_matches@[t]@,
                        env@,
                    ),
                forall|i: int|
                    0 <= i < out@.len() ==> has_target(target_matches@, env@, (#[trigger] out@[i])@)
                        && !has_target(exclude_matches@, env@, out@[i]@),
                forall|k2: int|
                    0 <= k2 < k ==> has_target(
                        exclude_matches@,
                        env@,
                        service_target((#[trigger] target_matches@[k2])@, env@),
                    ) || exists|i: int|
                        0 <= i < out@.len() && (#[trigger] out@[i])@ == service_target(
                            target_matches@[k2]@,
                            env@,
                        ),
                forall|i: int, j2: int|
                    #![trigger out@[i], out@[j2]]
                    0 <= i < j2 < out@.len() ==> out@[i]@ != out@[j2]@,
            decreases target_matches@.len() - k,
        {
            let t = make_target(&target_matches[k], env);
            proof {
                lemma_built_targets(exclude_matches@, excluded@, env@, t@);
            }
            let ghost out_pre = out@;
            if !contains_str(&excluded, &t) && !contains_str(&out, &t) {
                out.push(t);
                proof {
                    assert forall|k2: int| 0 <= k2 < k + 1 implies has_target(
                        exclude_matches@,
                        env@,
                        service_target((#[trigger] target_matches@[k2])@, env@),
                    ) || exists|i: int|
                        0 <= i < out@.len() && (#[trigger] out@[i])@ == service_target(
                            target_matches@[k2]@,
                            env@,
                        ) by {
                        if k2 == k {
                            assert(out@[out_pre.len() as int]@ == service_target(
                                target_matches@[k2]@,
                                env@,
                            ));
                        } else if !has_target(
                            exclude_matches@,
                            env@,
                            service_target(target_matches@[k2]@, env@),
                        ) {
                            let i = choose|i: int|
                                0 <= i < out_pre.len() && (#[trigger] out_pre[i])@
                                    == service_target(target_matches@[k2]@, env@);
                            assert(out@[i]@ == service_target(target_matches@[k2]@, env@));
                        }
                    }
                    assert(has_target(target_matches@, env@, out@[out_pre.len() as int]@));
                }
            } else {
                proof {
                    if !has_target(
                        exclude_matches@,
                        env@,
                        service_target(target_matches@[k as int]@, env@),
                    ) {
                        assert(exists|i: int|
                            0 <= i < out@.len() && (#[trigger] out@[i])@ == t@);
                    }
                }
            }
            k = k + 1;
        }
        out
    }
}

} // verus!
