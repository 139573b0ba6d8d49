//! Link-relation-type equality (RFC 5988 / RFC 8288).
//!
//! A relation type is either a registered token (`"me"`, `"self"`), compared
//! ASCII case-insensitively, or an extension relation type, which is a URI and
//! is compared by equality of its RFC 3986 normalized form.

use vstd::prelude::*;

verus! {

/// The Unicode scalar value of a character with an upper-case ASCII letter
/// folded to its lower-case counterpart; other characters are unchanged.
pub open spec fn fold_char(c: char) -> u32 {
    if 65 <= c as u32 && c as u32 <= 90 {
        (c as u32 + 32) as u32
    } else {
        c as u32
    }
}

/// ASCII case-insensitive equality of two character sequences.
pub open spec fn ascii_case_eq(a: Seq<char>, b: Seq<char>) -> bool {
    a.len() == b.len() && forall|i: int| 0 <= i < a.len() ==> fold_char(a[i]) == fold_char(b[i])
}

/// The RFC 3986 normalized form of a string that parses as a URI with a
/// scheme, or `None` for a string that does not. The form itself is
/// fluent_uri's business; the library only compares such forms for equality.
pub uninterp spec fn uri_normal_form(s: Seq<char>) -> Option<Seq<char>>;

/// Relies on fluent_uri::Uri::parse and Uri::normalize: a string matches the
/// RFC 3986 `URI` rule (so a scheme is present) or it does not, and the
/// syntax-based normalized form of one that does, both functions of the
/// characters alone.
#[verifier::external_body]
pub(crate) fn scheme_normal_form(s: &str) -> (r: Option<String>)
    ensures
        (r is Some) == (uri_normal_form(s@) is Some),
        r matches Some(n) ==> uri_normal_form(s@) == Some(n@),
{
    match fluent_uri::Uri::parse(s) {
        Ok(u) => Some(u.normalize().into_string()),
        Err(_) => None,
    }
}

/// Whether two relation-type strings denote the same link relation.
///
/// When both are URIs with a scheme (extension relation types), their
/// normalized forms are compared; otherwise both are treated as registered
/// tokens and compared ASCII case-insensitively.
pub open spec fn rel_strs_equal(a: Seq<char>, b: Seq<char>) -> bool {
    if uri_normal_form(a) is Some && uri_normal_form(b) is Some {
        uri_normal_form(a) == uri_normal_form(b)
    } else {
        ascii_case_eq(a, b)
    }
}

/// Decides equality of two relation-type strings, a total function: a string
/// that is no URI simply routes to the token comparison, never to an error.
pub fn rel_equal(a: &str, b: &str) -> (r: bool)
    ensures
        r == rel_strs_equal(a@, b@),
{
    let na = scheme_normal_form(a);
    let nb = scheme_normal_form(b);
    match (na, nb) {
        (Some(x), Some(y)) => x == y,
        _ => eq_ignore_ascii_case(a, b),
    }
}

fn fold_char_exec(c: char) -> (r: u32)
    ensures
        r == fold_char(c),
{
    let u = c as u32;
    if 65 <= u && u <= 90 {
        u + 32
    } else {
        u
    }
}

/// ASCII case-insensitive comparison of two strings, the rule for
/// registered relation-type tokens.
pub fn eq_ignore_ascii_case(a: &str, b: &str) -> (r: bool)
    ensures
        r == ascii_case_eq(a@, b@),
{
    let alen = a.unicode_len();
    let blen = b.unicode_len();
    if alen != blen {
        return false;
    }
    let mut i: usize = 0;
    while i < alen
        invariant
            i <= alen,
            alen == a@.len(),
            alen == b@.len(),
            forall|j: int| 0 <= j < i ==> fold_char(a@[j]) == fold_char(b@[j]),
        decreases alen - i,
    {
        if fold_char_exec(a.get_char(i)) != fold_char_exec(b.get_char(i)) {
            return false;
        }
        i = i + 1;
    }
    true
}

/// A link-relation type: either a registered token or an extension URI.
/// Its `==` is the dual-regime relation equality, which is reflexive and
/// symmetric but deliberately not transitive by construction.
#[derive(Debug)]
pub struct Rel {
    rel: String,
}

impl Clone for Rel {
    fn clone(&self) -> (r: Self)
        ensures
            r@ == self@,
    {
        Rel { rel: self.rel.clone() }
    }
}

impl View for Rel {
    type V = Seq<char>;

    closed spec fn view(&self) -> Seq<char> {
        self.rel@
    }
}

pub fn make_rel(v: String) -> (r: Rel)
    ensures
        r@ == v@,
{
    Rel { rel: v }
}

impl PartialEq for Rel {
    fn eq(&self, other: &Rel) -> (r: bool) {
        rel_equal(self.rel.as_str(), other.rel.as_str())
    }
}

impl vstd::std_specs::cmp::PartialEqSpecImpl for Rel {
    open spec fn obeys_eq_spec() -> bool {
        true
    }

    open spec fn eq_spec(&self, other: &Rel) -> bool {
        rel_strs_equal(self@, other@)
    }
}

/// Relation equality is reflexive: every relation-type string denotes the
/// same relation as itself.
pub proof fn lemma_rel_equal_reflexive(a: Seq<char>)
    ensures
        rel_strs_equal(a, a),
{
}

/// Relation equality is symmetric: which of the two strings comes first
/// does not matter.
pub proof fn lemma_rel_equal_symmetric(a: Seq<char>, b: Seq<char>)
    ensures
        rel_strs_equal(a, b) == rel_strs_equal(b, a),
{
}

} // verus!
