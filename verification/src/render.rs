//! Response rendering decisions.
//!
//! The gateway produces outcome discriminants; what a controller sends back
//! is decided here, as data: a status code, the headers, and what the body
//! holds.  Turning a plan into an actual HTTP response, and a body into
//! bytes, is the surrounding server's affair.

use vstd::prelude::*;
use vstd::string::StringExecFns;

use crate::error::ErrorKind;
use crate::error::PlatypusError;
use crate::item::DomainItem;

verus! {

/// The language tag every response is served under.
pub const CONTENT_LANGUAGE: &'static str = "en_GB";

/// What a response body holds.
pub enum ResponseBody {
    /// A list of items.
    Items(Vec<DomainItem>),
    /// One item.
    Item(DomainItem),
    /// A failure, returned as data.
    Failure(PlatypusError),
    /// Nothing.
    Empty,
}

/// A response, as data: status code, headers, body.
pub struct ResponsePlan {
    /// The HTTP status code.
    pub status: u16,
    /// The headers to send, each a name and a value.
    pub headers: Vec<(String, String)>,
    /// What the body holds.
    pub body: ResponseBody,
}

/// The views of a header list.
pub open spec fn header_views(v: Seq<(String, String)>) -> Seq<(Seq<char>, Seq<char>)> {
    v.map_values(|p: (String, String)| (p.0@, p.1@))
}

/// The entity tag of a body, as `etag::EntityTag::from_data` renders it: a
/// function of the bytes alone.
pub uninterp spec fn etag_of(bytes: Seq<u8>) -> Seq<char>;

/// Relies on `etag::EntityTag::from_data` and its `Display` form: a strong
/// entity tag computed from the bytes alone, rendered between double quotes.
#[verifier::external_body]
pub(crate) fn etag_for(bytes: &[u8]) -> (r: String)
    ensures
        r@ == etag_of(bytes@),
        r@.len() >= 2,
{
    etag::EntityTag::from_data(bytes).to_string()
}

/// The HTTP status a failure travels under: absence is not-found, malformed
/// input a bad request, a taken key a conflict, anything else an internal
/// error.
pub open spec fn spec_failure_status(kind: ErrorKind) -> u16 {
    match kind {
        ErrorKind::NotFound => 404,
        ErrorKind::Validation => 400,
        ErrorKind::Conflict => 409,
        _ => 500,
    }
}

/// Maps a failure kind to its HTTP status: see [`spec_failure_status`].
pub fn failure_status(kind: ErrorKind) -> (r: u16)
    ensures
        r == spec_failure_status(kind),
{
    match kind {
        ErrorKind::NotFound => 404,
        ErrorKind::Validation => 400,
        ErrorKind::Conflict => 409,
        _ => 500,
    }
}

/// Renders a list outcome: a list is served whole with its count, a failure
/// under the status its kind maps to.
pub fn render_list_output(output: Result<Vec<DomainItem>, PlatypusError>) -> (r: ResponsePlan)
    ensures
        match output {
            Ok(v) => {
                &&& r.status == 200
                &&& header_views(r.headers@) == seq![
                    ("X-Total-Count"@, crate::query::dec_rep(v@.len() as nat)),
                    ("Content-Language"@, "en_GB"@),
                ]
                &&& r.body matches ResponseBody::Items(items) && items@ == v@
            },
            Err(e) => {
                &&& r.status == spec_failure_status(e.kind)
                &&& r.headers@.len() == 0
                &&& (r.body matches ResponseBody::Failure(f) && f.kind == e.kind && f.message@
                    == e.message@)
            },
        },
{
    match output {
        Ok(v) => {
            let count_text = crate::query::u64_to_string(v.len() as u64);
            let mut headers: Vec<(String, String)> = Vec::new();
            headers.push((String::from_str("X-Total-Count"), count_text));
            headers.push((String::from_str("Content-Language"), String::from_str("en_GB")));
            proof {
                assert(header_views(headers@) =~= seq![
                    ("X-Total-Count"@, crate::query::dec_rep(v@.len() as nat)),
                    ("Content-Language"@, "en_GB"@),
                ]);
            }
            ResponsePlan { status: 200, headers, body: ResponseBody::Items(v) }
        },
        Err(e) => {
            let status = failure_status(e.kind);
            ResponsePlan { status, headers: Vec::new(), body: ResponseBody::Failure(e) }
        },
    }
}

/// Renders a read-by-id outcome: one item is served with its entity tag
/// computed over its serialized form, absence is not-found, a failure
/// travels under the status its kind maps to.  The serialized form of the
/// first item is handed in by the caller, which owns serialization.
pub fn render_get_output(
    output: Result<Vec<DomainItem>, PlatypusError>,
    serialized: Option<Vec<u8>>,
) -> (r: ResponsePlan)
    ensures
        match output {
            Ok(v) => if v@.len() > 0 {
                &&& r.status == 200
                &&& (serialized matches Some(b) ==> header_views(r.headers@) == seq![
                    ("Content-Language"@, "en_GB"@),
                    ("ETag"@, etag_of(b@)),
                ])
                &&& (serialized is None ==> header_views(r.headers@) == seq![
                    ("Content-Language"@, "en_GB"@),
                ])
                &&& (r.body matches ResponseBody::Item(it) && it@ == v@[0]@)
            } else {
                &&& r.status == 404
                &&& (r.body matches ResponseBody::Failure(f) && f.message@ == "Object not found"@)
            },
            Err(e) => {
                &&& r.status == spec_failure_status(e.kind)
                &&& (r.body matches ResponseBody::Failure(f) && f.kind == e.kind && f.message@
                    == e.message@)
            },
        },
{
    match output {
        Ok(mut v) => {
            if v.len() > 0 {
                let mut headers: Vec<(String, String)> = Vec::new();
                headers.push((String::from_str("Content-Language"), String::from_str("en_GB")));
                match &serialized {
                    Some(b) => {
                        let tag = etag_for(b.as_slice());
                        headers.push((String::from_str("ETag"), tag));
                        proof {
                            assert(header_views(headers@) =~= seq![
                                ("Content-Language"@, "en_GB"@),
                                ("ETag"@, etag_of(serialized->0@)),
                            ]);
                        }
                    },
                    None => {
                        proof {
                            assert(header_views(headers@) =~= seq![
                                ("Content-Language"@, "en_GB"@),
                            ]);
                        }
                    },
                }
                let first = v.remove(0);
                ResponsePlan { status: 200, headers, body: ResponseBody::Item(first) }
            } else {
                ResponsePlan {
                    status: 404,
                    headers: Vec::new(),
                    body: ResponseBody::Failure(PlatypusError::from("Object not found")),
                }
            }
        },
        Err(e) => {
            let status = failure_status(e.kind);
            ResponsePlan { status, headers: Vec::new(), body: ResponseBody::Failure(e) }
        },
    }
}

/// Renders a patch outcome: the patched item is served, a missing record is
/// not-found, and any other failure travels under the status its kind maps
/// to.
pub fn render_patch_output(output: Result<Vec<DomainItem>, PlatypusError>) -> (r: ResponsePlan)
    ensures
        match output {
            Ok(v) => if v@.len() > 0 {
                &&& r.status == 200
                &&& header_views(r.headers@) == seq![("Content-Language"@, "en_GB"@)]
                &&& (r.body matches ResponseBody::Item(it) && it@ == v@[0]@)
            } else {
                &&& r.status == 404
                &&& (r.body matches ResponseBody::Failure(f) && f.message@ == "Object not found"@)
            },
            Err(e) => {
                &&& r.status == spec_failure_status(e.kind)
                &&& (e.kind == ErrorKind::NotFound ==> r.status == 404)
                &&& (r.body matches ResponseBody::Failure(f) && f.kind == e.kind && f.message@
                    == e.message@)
            },
        },
{
    match output {
        Ok(mut v) => {
            if v.len() > 0 {
                let mut headers: Vec<(String, String)> = Vec::new();
                headers.push((String::from_str("Content-Language"), String::from_str("en_GB")));
                proof {
                    assert(header_views(headers@) =~= seq![("Content-Language"@, "en_GB"@)]);
                }
                let first = v.remove(0);
                ResponsePlan { status: 200, headers, body: ResponseBody::Item(first) }
            } else {
                ResponsePlan {
                    status: 404,
                    headers: Vec::new(),
                    body: ResponseBody::Failure(PlatypusError::from("Object not found")),
                }
            }
        },
        Err(e) => {
            let status = failure_status(e.kind);
            ResponsePlan { status, headers: Vec::new(), body: ResponseBody::Failure(e) }
        },
    }
}

/// Renders a create outcome: the created item is served with its location,
/// a failure under the status its kind maps to.
pub fn render_post_output(output: Result<Vec<DomainItem>, PlatypusError>) -> (r: ResponsePlan)
    requires
        output matches Ok(v) ==> v@.len() >= 1,
    ensures
        match output {
            Ok(v) => {
                &&& r.status == 201
                &&& (v@[0]@.href matches Some(h) ==> header_views(r.headers@) == seq![
                    ("Location"@, h),
                    ("Content-Language"@, "en_GB"@),
                ])
                &&& (v@[0]@.href is None ==> header_views(r.headers@) == seq![
                    ("Location"@, Seq::<char>::empty()),
                    ("Content-Language"@, "en_GB"@),
                ])
                &&& (r.body matches ResponseBody::Item(it) && it@ == v@[0]@)
            },
            Err(e) => {
                &&& r.status == spec_failure_status(e.kind)
                &&& (r.body matches ResponseBody::Failure(f) && f.kind == e.kind && f.message@
                    == e.message@)
            },
        },
{
    match output {
        Ok(mut v) => {
            let first = v.remove(0);
            let location: String = match &first.href {
                Some(h) => h.clone(),
                None => String::new(),
            };
            let mut headers: Vec<(String, String)> = Vec::new();
            headers.push((String::from_str("Location"), location));
            headers.push((String::from_str("Content-Language"), String::from_str("en_GB")));
            proof {
                if first@.href is Some {
                    assert(header_views(headers@) =~= seq![
                        ("Location"@, first@.href->0),
                        ("Content-Language"@, "en_GB"@),
                    ]);
                } else {
                    assert(header_views(headers@) =~= seq![
                        ("Location"@, Seq::<char>::empty()),
                        ("Content-Language"@, "en_GB"@),
                    ]);
                }
            }
            ResponsePlan { status: 201, headers, body: ResponseBody::Item(first) }
        },
        Err(e) => {
            let status = failure_status(e.kind);
            ResponsePlan { status, headers: Vec::new(), body: ResponseBody::Failure(e) }
        },
    }
}

/// Renders a delete outcome: success has no content; a failed delete
/// travels under the status its kind maps to, not-found as 404.
pub fn render_delete_output(output: &Result<DomainItem, PlatypusError>) -> (r: u16)
    ensures
        r == 204 <==> output is Ok,
        output matches Err(e) ==> r == spec_failure_status(e.kind),
        (output matches Err(e) && e.kind == ErrorKind::NotFound) ==> r == 404,
{
    match output {
        Ok(_) => 204,
        Err(e) => failure_status(e.kind),
    }
}

} // verus!
