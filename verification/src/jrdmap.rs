//! JSON Resource Descriptors (RFC 6415) and the descriptor store.
//!
//! A `Jrd` describes a subject and its links; a `JrdMap` maps subject-URI
//! strings to the descriptors associated with them. Lookup keys are compared
//! by exact string equality, deliberately unlike the normalization applied
//! to relation types during filtering.

use vstd::prelude::*;

use crate::rel::rel_strs_equal;

verus! {

/// A link of a descriptor. The `rel` member is required and is either a URI
/// or a registered relation type (RFC 5988); the rest are optional.
#[derive(Debug)]
pub struct ResourceLink {
    /// Identifies the type of the link relation.
    pub rel: String,
    /// Media type of the target resource (RFC 6838).
    pub type_: Option<String>,
    /// A URI pointing to the target resource.
    pub href: Option<String>,
    /// Human-readable titles, keyed by language tag or `"und"`.
    pub titles: Option<Vec<(String, String)>>,
    /// Name/value pairs whose names are URIs, conveying additional
    /// information about the link relation.
    pub properties: Option<Vec<(String, String)>>,
}

/// A JSON Resource Descriptor: the entity a subject URI identifies,
/// alternate identifiers for it, its properties and its links. The order
/// of `links` is significant and preserved verbatim from source to output.
#[derive(Debug)]
pub struct Jrd {
    /// A URI that identifies the entity that the JRD describes.
    pub subject: String,
    /// Zero or more URI strings that identify the same entity.
    pub aliases: Option<Vec<String>>,
    /// Name/value pairs whose names are URIs, conveying additional
    /// information about the subject.
    pub properties: Option<Vec<(String, String)>>,
    /// The links of the descriptor, in order.
    pub links: Option<Vec<ResourceLink>>,
}

/// The mathematical value of a link: each string as its character sequence.
pub struct LinkView {
    pub rel: Seq<char>,
    pub type_: Option<Seq<char>>,
    pub href: Option<Seq<char>>,
    pub titles: Option<Seq<(Seq<char>, Seq<char>)>>,
    pub properties: Option<Seq<(Seq<char>, Seq<char>)>>,
}

/// The mathematical value of a descriptor.
pub struct JrdView {
    pub subject: Seq<char>,
    pub aliases: Option<Seq<Seq<char>>>,
    pub properties: Option<Seq<(Seq<char>, Seq<char>)>>,
    pub links: Option<Seq<LinkView>>,
}

pub open spec fn opt_str_view(v: Option<String>) -> Option<Seq<char>> {
    match v {
        Option::None => Option::None,
        Option::Some(s) => Option::Some(s@),
    }
}

pub open spec fn strings_view(v: Seq<String>) -> Seq<Seq<char>> {
    v.map_values(|s: String| s@)
}

pub open spec fn pairs_view(v: Seq<(String, String)>) -> Seq<(Seq<char>, Seq<char>)> {
    v.map_values(|p: (String, String)| (p.0@, p.1@))
}

pub open spec fn opt_strings_view(v: Option<Vec<String>>) -> Option<Seq<Seq<char>>> {
    match v {
        Option::None => Option::None,
        Option::Some(inner) => Option::Some(strings_view(inner@)),
    }
}

pub open spec fn opt_pairs_view(v: Option<Vec<(String, String)>>) -> Option<
    Seq<(Seq<char>, Seq<char>)>,
> {
    match v {
        Option::None => Option::None,
        Option::Some(inner) => Option::Some(pairs_view(inner@)),
    }
}

/// The views of a sequence of links.
pub open spec fn links_view(s: Seq<ResourceLink>) -> Seq<LinkView> {
    s.map_values(|lk: ResourceLink| lk@)
}

impl View for ResourceLink {
    type V = LinkView;

    open spec fn view(&self) -> LinkView {
        LinkView {
            rel: self.rel@,
            type_: opt_str_view(self.type_),
            href: opt_str_view(self.href),
            titles: opt_pairs_view(self.titles),
            properties: opt_pairs_view(self.properties),
        }
    }
}

impl View for Jrd {
    type V = JrdView;

    open spec fn view(&self) -> JrdView {
        JrdView {
            subject: self.subject@,
            aliases: opt_strings_view(self.aliases),
            properties: opt_pairs_view(self.properties),
            links: match self.links {
                Option::None => Option::None,
                Option::Some(lks) => Option::Some(links_view(lks@)),
            },
        }
    }
}

fn clone_strings(v: &Vec<String>) -> (r: Vec<String>)
    ensures
        r@ == v@,
{
    let mut r: Vec<String> = Vec::new();
    let n = v.len();
    for i in 0..n
        invariant
            n == v@.len(),
            r@ == v@.take(i as int),
    {
        r.push(v[i].clone());
        proof {
            assert(v@.take(i + 1) =~= v@.take(i as int).push(v@[i as int]));
        }
    }
    proof {
        assert(v@.take(n as int) =~= v@);
    }
    r
}

fn clone_pairs(v: &Vec<(String, String)>) -> (r: Vec<(String, String)>)
    ensures
        r@ == v@,
{
    let mut r: Vec<(String, String)> = Vec::new();
    let n = v.len();
    for i in 0..n
        invariant
            n == v@.len(),
            r@ == v@.take(i as int),
    {
        let p = &v[i];
        r.push((p.0.clone(), p.1.clone()));
        proof {
            assert(v@.take(i + 1) =~= v@.take(i as int).push(v@[i as int]));
        }
    }
    proof {
        assert(v@.take(n as int) =~= v@);
    }
    r
}

fn clone_opt_strings(v: &Option<Vec<String>>) -> (r: Option<Vec<String>>)
    ensures
        opt_strings_view(r) == opt_strings_view(*v),
{
    match v {
        Option::None => Option::None,
        Option::Some(inner) => Option::Some(clone_strings(inner)),
    }
}

fn clone_opt_pairs(v: &Option<Vec<(String, String)>>) -> (r: Option<Vec<(String, String)>>)
    ensures
        opt_pairs_view(r) == opt_pairs_view(*v),
{
    match v {
        Option::None => Option::None,
        Option::Some(inner) => Option::Some(clone_pairs(inner)),
    }
}

fn clone_opt_str(v: &Option<String>) -> (r: Option<String>)
    ensures
        opt_str_view(r) == opt_str_view(*v),
{
    match v {
        Option::None => Option::None,
        Option::Some(s) => Option::Some(s.clone()),
    }
}

impl Clone for ResourceLink {
    fn clone(&self) -> (r: Self)
        ensures
            r@ == self@,
    {
        ResourceLink {
            rel: self.rel.clone(),
            type_: clone_opt_str(&self.type_),
            href: clone_opt_str(&self.href),
            titles: clone_opt_pairs(&self.titles),
            properties: clone_opt_pairs(&self.properties),
        }
    }
}

fn clone_links(v: &Vec<ResourceLink>) -> (r: Vec<ResourceLink>)
    ensures
        links_view(r@) == links_view(v@),
{
    let mut r: Vec<ResourceLink> = Vec::new();
    let n = v.len();
    for i in 0..n
        invariant
            n == v@.len(),
            links_view(r@) == links_view(v@.take(i as int)),
    {
        let ghost prior = r@;
        proof {
            assert(links_view(prior).len() == prior.len());
            assert(links_view(v@.take(i as int)).len() == i);
        }
        let c = v[i].clone();
        assert(c@ == v@[i as int]@);
        r.push(c);
        proof {
            assert(r@ == prior.push(c));
            assert forall|j: int| 0 <= j < i + 1 implies links_view(r@)[j] == links_view(
                v@.take(i + 1),
            )[j] by {
                if j < i {
                    assert(r@[j] == prior[j]);
                    assert(links_view(prior)[j] == links_view(v@.take(i as int))[j]);
                }
            }
            assert(links_view(r@) =~= links_view(v@.take(i + 1)));
        }
    }
    proof {
        assert(links_view(v@.take(n as int)) =~= links_view(v@));
    }
    r
}

impl Clone for Jrd {
    fn clone(&self) -> (r: Self)
        ensures
            r@ == self@,
    {
        let r = Jrd {
            subject: self.subject.clone(),
            aliases: clone_opt_strings(&self.aliases),
            properties: clone_opt_pairs(&self.properties),
            links: match &self.links {
                Option::None => Option::None,
                Option::Some(lks) => Option::Some(clone_links(lks)),
            },
        };
        r
    }
}

/// Whether a link's relation type is matched by at least one of the
/// requested relation strings.
pub open spec fn link_matched(lk: LinkView, rels: Seq<String>) -> bool {
    exists|i: int| 0 <= i < rels.len() && rel_strs_equal(lk.rel, rels[i]@)
}

/// The subsequence, order preserved, of the links whose relation type is
/// matched by at least one requested relation.
pub open spec fn filter_links(links: Seq<LinkView>, rels: Seq<String>) -> Seq<LinkView> {
    links.filter(|lk: LinkView| link_matched(lk, rels))
}

/// How a filtered descriptor relates to the one it was built from:
/// `subject`, `aliases` and `properties` are identical, and `links` is the
/// matched subsequence of the original links, in their original order.
pub open spec fn filtered_from(stored: JrdView, out: JrdView, rels: Seq<String>) -> bool {
    &&& out.subject == stored.subject
    &&& out.aliases == stored.aliases
    &&& out.properties == stored.properties
    &&& match stored.links {
        Option::None => out.links is None,
        Option::Some(lks) => out.links == Option::Some(filter_links(lks, rels)),
    }
}

proof fn lemma_filter_links_push(links: Seq<LinkView>, lk: LinkView, rels: Seq<String>)
    ensures
        filter_links(links.push(lk), rels) == if link_matched(lk, rels) {
            filter_links(links, rels).push(lk)
        } else {
            filter_links(links, rels)
        },
{
    reveal(Seq::filter);
    assert(links.push(lk).drop_last() =~= links);
    assert(links.push(lk).last() == lk);
}

fn matches_any(rel: &String, rels: &Vec<String>) -> (r: bool)
    ensures
        r == exists|i: int| 0 <= i < rels@.len() && rel_strs_equal(rel@, rels@[i]@),
{
    let n = rels.len();
    let mut i: usize = 0;
    while i < n
        invariant
            i <= n,
            n == rels@.len(),
            forall|j: int| 0 <= j < i ==> !rel_strs_equal(rel@, rels@[j]@),
        decreases n - i,
    {
        let candidate = &rels[i];
        if crate::rel::rel_equal(rel.as_str(), candidate.as_str()) {
            assert(rel_strs_equal(rel@, rels@[i as int]@));
            return true;
        }
        i = i + 1;
    }
    false
}

fn filter_links_exec(links: &Vec<ResourceLink>, rels: &Vec<String>) -> (r: Vec<ResourceLink>)
    ensures
        links_view(r@) == filter_links(links_view(links@), rels@),
{
    let mut out: Vec<ResourceLink> = Vec::new();
    let n = links.len();
    proof {
        reveal(Seq::filter);
        assert(links_view(links@.take(0)) =~= Seq::<LinkView>::empty());
        assert(links_view(out@) =~= Seq::<LinkView>::empty());
    }
    for i in 0..n
        invariant
            n == links@.len(),
            links_view(out@) == filter_links(links_view(links@.take(i as int)), rels@),
    {
        let lk = &links[i];
        let ghost prior = out@;
        if matches_any(&lk.rel, rels) {
            assert(link_matched(links@[i as int]@, rels@));
            out.push(lk.clone());
            proof {
                assert(links_view(out@) =~= links_view(prior).push(links@[i as int]@));
            }
        } else {
            assert(!link_matched(links@[i as int]@, rels@));
        }
        proof {
            assert(links_view(links@.take(i + 1)) =~= links_view(links@.take(i as int)).push(
                links@[i as int]@,
            ));
            lemma_filter_links_push(links_view(links@.take(i as int)), links@[i as int]@, rels@);
        }
    }
    proof {
        assert(links_view(links@.take(n as int)) =~= links_view(links@));
    }
    out
}

impl Jrd {
    /// Builds the descriptor that answers a query with one or more requested
    /// relation types: same subject, aliases and properties, and only the
    /// links whose relation type is matched by at least one requested
    /// relation, in their original order.
    pub fn filter(&self, rels: &Vec<String>) -> (r: Jrd)
        ensures
            filtered_from(self@, r@, rels@),
    {
        Jrd {
            subject: self.subject.clone(),
            aliases: clone_opt_strings(&self.aliases),
            properties: clone_opt_pairs(&self.properties),
            links: match &self.links {
                Option::None => Option::None,
                Option::Some(lks) => Option::Some(filter_links_exec(lks, rels)),
            },
        }
    }
}

spec fn entries_map(es: Seq<(String, Jrd)>) -> Map<Seq<char>, JrdView>
    decreases es.len(),
{
    if es.len() == 0 {
        Map::empty()
    } else {
        entries_map(es.drop_last()).insert(es.last().0@, es.last().1@)
    }
}

/// An immutable, process-lifetime mapping from exact subject-URI string to
/// descriptor: populated once at startup, read by every request thereafter.
/// Inserting an already-present subject replaces its descriptor.
pub struct JrdMap {
    entries: Vec<(String, Jrd)>,
}

impl View for JrdMap {
    type V = Map<Seq<char>, JrdView>;

    closed spec fn view(&self) -> Map<Seq<char>, JrdView> {
        entries_map(self.entries@)
    }
}

proof fn lemma_entries_map_skip_tail(es: Seq<(String, Jrd)>, i: int, k: Seq<char>)
    requires
        0 <= i <= es.len(),
        forall|j: int| i <= j < es.len() ==> es[j].0@ != k,
    ensures
        entries_map(es).contains_key(k) == entries_map(es.take(i)).contains_key(k),
        entries_map(es).contains_key(k) ==> entries_map(es)[k] == entries_map(es.take(i))[k],
    decreases es.len(),
{
    if i == es.len() {
        assert(es.take(i) =~= es);
    } else {
        let prefix = es.drop_last();
        assert(es[es.len() - 1].0@ != k);
        assert forall|j: int| i <= j < prefix.len() implies prefix[j].0@ != k by {
            assert(prefix[j] == es[j]);
        }
        lemma_entries_map_skip_tail(prefix, i, k);
        assert(prefix.take(i) =~= es.take(i));
    }
}

proof fn lemma_entries_map_found(es: Seq<(String, Jrd)>, i: int, k: Seq<char>)
    requires
        0 <= i < es.len(),
        es[i].0@ == k,
        forall|j: int| i < j < es.len() ==> es[j].0@ != k,
    ensures
        entries_map(es).contains_key(k),
        entries_map(es)[k] == es[i].1@,
{
    lemma_entries_map_skip_tail(es, i + 1, k);
    let front = es.take(i + 1);
    assert(front.last() == es[i]);
    assert(entries_map(front) == entries_map(front.drop_last()).insert(es[i].0@, es[i].1@));
}

proof fn lemma_entries_map_absent(es: Seq<(String, Jrd)>, k: Seq<char>)
    requires
        forall|j: int| 0 <= j < es.len() ==> es[j].0@ != k,
    ensures
        !entries_map(es).contains_key(k),
{
    lemma_entries_map_skip_tail(es, 0, k);
    assert(es.take(0) =~= Seq::<(String, Jrd)>::empty());
}

impl JrdMap {
    /// An empty store.
    pub fn new() -> (r: JrdMap)
        ensures
            r@ == Map::<Seq<char>, JrdView>::empty(),
    {
        JrdMap { entries: Vec::new() }
    }

    /// Associates a descriptor with a subject-URI string, replacing any
    /// descriptor the subject was associated with before.
    pub fn insert(&mut self, subject: String, jrd: Jrd)
        ensures
            final(self)@ == old(self)@.insert(subject@, jrd@),
    {
        let ghost before = self.entries@;
        self.entries.push((subject, jrd));
        proof {
            assert(self.entries@.drop_last() =~= before);
        }
    }

    /// Looks a subject up by exact string equality of its URI, with no
    /// normalization: present subjects yield their descriptor, absent ones
    /// yield nothing.
    pub fn get(&self, subject: &String) -> (r: Option<&Jrd>)
        ensures
            r matches Option::Some(j) ==> self@.contains_key(subject@) && j@ == self@[subject@],
            r is None ==> !self@.contains_key(subject@),
    {
        let n = self.entries.len();
        let mut i: usize = n;
        while i > 0
            invariant
                i <= n,
                n == self.entries@.len(),
                forall|j: int| i <= j < n ==> self.entries@[j].0@ != subject@,
            decreases i,
        {
            i = i - 1;
            let entry = &self.entries[i];
            if entry.0 == *subject {
                proof {
                    lemma_entries_map_found(self.entries@, i as int, subject@);
                }
                return Option::Some(&self.entries[i].1);
            }
        }
        proof {
            lemma_entries_map_absent(self.entries@, subject@);
        }
        Option::None
    }
}

} // verus!
