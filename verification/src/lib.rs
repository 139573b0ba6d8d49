//! A WebFinger (RFC 7033) resource-lookup and relation-filtering library.
//!
//! The crate decides, for an identity-discovery query, whether two
//! link-relation-type strings denote the same relation (`rel`), stores
//! JSON Resource Descriptors keyed by subject URI (`jrdmap`), and turns a
//! raw request into a filtered descriptor or a well-defined error
//! outcome (`query`).

pub mod jrdmap;
pub mod query;
pub mod rel;
