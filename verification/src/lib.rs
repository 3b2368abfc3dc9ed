//! A generic persistence and query gateway for families of REST resources.
//!
//! Every resource (catalog, customer, quote, ...) is stored as a record in a
//! named collection, wrapped in an envelope that pairs the item with its
//! collection-qualified key.  The gateway offers five operations — list,
//! get-by-id, create, patch and delete — built from a query translator, an
//! identity and timestamp policy and the record envelope.  After a successful
//! mutation a change notification can be handed to an external dispatcher.

use vstd::prelude::*;

pub mod api;
pub mod config;
pub mod error;
pub mod hub;
pub mod ids;
pub mod item;
pub mod laws;
pub mod persist;
pub mod query;
pub mod render;

verus! {

/// Caller-supplied filter, projection and pagination request.
///
/// `fields` is a comma-separated list of field names; an absent value means
/// "project everything", while an empty string or the literal `none` selects
/// the identity fields only.  `name` is an equality filter on the item's
/// `name` attribute.  `limit` and `offset` bound and shift the result window.
#[derive(Clone, Debug)]
pub struct QueryOptions {
    /// Specific set of fields, delimited by commas.
    pub fields: Option<String>,
    /// Take at most this many records.
    pub limit: Option<u16>,
    /// Skip this many records first.
    pub offset: Option<u16>,
    /// Equality filter on the `name` attribute.
    pub name: Option<String>,
    /// Expand references.
    pub expand: Option<bool>,
    /// Depth of expansion.
    pub depth: Option<u8>,
}

impl QueryOptions {
    /// An unrestricted query: no projection, no filter, no pagination.
    pub fn all() -> (r: QueryOptions)
        ensures
            r.fields is None,
            r.limit is None,
            r.offset is None,
            r.name is None,
    {
        QueryOptions {
            fields: None,
            limit: None,
            offset: None,
            name: None,
            expand: None,
            depth: None,
        }
    }
}

impl Default for QueryOptions {
    /// The unrestricted query.
    fn default() -> (r: QueryOptions)
        ensures
            r.fields is None,
            r.limit is None,
            r.offset is None,
            r.name is None,
    {
        QueryOptions::all()
    }
}

} // verus!
