//! The lookup-and-filter pipeline (RFC 7033).
//!
//! A raw discovery request carries the repeated `resource` parameter values
//! and the repeated `rel` parameter values. The pipeline validates them in
//! order, resolves the subject in the descriptor store and produces a
//! filtered descriptor or a well-defined error outcome; it performs no I/O
//! and never panics.

use vstd::prelude::*;

use crate::jrdmap::{filtered_from, Jrd, JrdMap};

verus! {

/// Whether a string parses as a URI reference with a scheme component,
/// that is, matches the RFC 3986 `URI` rule; registered tokens and scheme-
/// less strings such as `other@example.com` do not.
pub open spec fn subject_wellformed(s: Seq<char>) -> bool {
    crate::rel::uri_normal_form(s) is Some
}

/// The outcome of a discovery query, mapped 1:1 onto a transport response
/// by the caller.
#[derive(Debug)]
pub enum LookupOutcome {
    /// The subject resolved; carries the (possibly filtered) descriptor.
    Found(Jrd),
    /// A well-formed subject with no corresponding descriptor.
    NotFound,
    /// A malformed or multiplicity-violating request; no lookup was
    /// attempted.
    BadRequest,
}

impl LookupOutcome {
    /// The HTTP status code that reports this outcome.
    pub fn status_code(&self) -> (c: u16)
        ensures
            self is Found ==> c == 200,
            self is NotFound ==> c == 404,
            self is BadRequest ==> c == 400,
    {
        match self {
            LookupOutcome::Found(_) => 200,
            LookupOutcome::NotFound => 404,
            LookupOutcome::BadRequest => 400,
        }
    }
}

/// Answers a discovery request.
///
/// The checks short-circuit in order: the `resource` parameter must appear
/// exactly once and parse as a URI with a scheme, else the request is bad;
/// the subject must be a key of the store, compared by exact string
/// equality, else it is not found. A resolved subject yields its descriptor:
/// verbatim when no `rel` parameter was supplied, otherwise with the links
/// filtered down to those matching some requested relation. Filtering every
/// link away still yields the descriptor, with its links empty, not a
/// not-found outcome.
pub fn handle(jm: &JrdMap, resources: &Vec<String>, rels: &Vec<String>) -> (r: LookupOutcome)
    ensures
        (r is BadRequest) == (resources@.len() != 1 || !subject_wellformed(resources@[0]@)),
        resources@.len() == 1 && subject_wellformed(resources@[0]@) ==> ((r is NotFound)
            == !jm@.contains_key(resources@[0]@)),
        resources@.len() == 1 && subject_wellformed(resources@[0]@) && jm@.contains_key(
            resources@[0]@,
        ) ==> (r matches LookupOutcome::Found(j) && {
            let stored = jm@[resources@[0]@];
            &&& rels@.len() == 0 ==> j@ == stored
            &&& rels@.len() > 0 ==> filtered_from(stored, j@, rels@)
        }),
{
    if resources.len() != 1 {
        return LookupOutcome::BadRequest;
    }
    let uri = &resources[0];
    if crate::rel::scheme_normal_form(uri.as_str()).is_none() {
        return LookupOutcome::BadRequest;
    }
    match jm.get(uri) {
        Option::Some(jrd) => {
            if rels.len() == 0 {
                LookupOutcome::Found(jrd.clone())
            } else {
                LookupOutcome::Found(jrd.filter(rels))
            }
        },
        Option::None => LookupOutcome::NotFound,
    }
}

} // verus!
