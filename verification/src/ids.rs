//! The identity policy.
//!
//! On create, an item that arrives without an identifier is issued a fresh
//! random token, and its reference path is derived from its class and its
//! identifier.  No uniqueness check is made here: the store's own key
//! constraint is what rejects a collision, as a conflict, at insert time.

use vstd::prelude::*;
use vstd::string::StringExecFns;

use crate::item::DomainItem;

verus! {

/// The derived reference path of an item: its class-qualified API path.
pub open spec fn href_spec(class: Seq<char>, id: Seq<char>) -> Seq<char> {
    "/tmf-api/"@ + class + "/"@ + id
}

/// Relies on `uuid::Uuid::new_v4` and its `Display` form: a fresh random
/// version-4 identifier, rendered as the 36-character hyphenated form.
#[verifier::external_body]
pub(crate) fn fresh_token() -> (r: String)
    ensures
        r@.len() == 36,
{
    uuid::Uuid::new_v4().to_string()
}

/// Renders the derived reference path of an item.
pub fn href_for(class: &str, id: &str) -> (r: String)
    ensures
        r@ == href_spec(class@, id@),
{
    let mut s = String::from_str("/tmf-api/");
    s.append(class);
    s.append("/");
    s.append(id);
    s
}

/// Issues an identifier if the item arrived without one, and derives the
/// reference path from the class and the identifier.  A caller-supplied
/// identifier is honoured, never overwritten.
pub fn generate_id(item: &mut DomainItem)
    requires
        old(item).wf(),
    ensures
        final(item).wf(),
        final(item)@.class == old(item)@.class,
        final(item)@.fields == old(item)@.fields,
        final(item)@.last_update == old(item)@.last_update,
        match old(item)@.id {
            Some(i) => final(item)@.id == Some(i),
            None => final(item)@.id matches Some(t) && t.len() == 36,
        },
        final(item)@.id matches Some(i) && final(item)@.href == Some(
            href_spec(old(item)@.class, i),
        ),
{
    let id: String = match &item.id {
        Some(i) => i.clone(),
        None => fresh_token(),
    };
    let href = href_for(item.class.as_str(), id.as_str());
    item.id = Some(id);
    item.href = Some(href);
}

} // verus!
