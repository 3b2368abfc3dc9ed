//! The API families and their dispatch.
//!
//! Each API family exposes a fixed set of object names under its path; a
//! request names one of them, and the handler dispatches to the gateway with
//! the object name as the collection.  An unknown object is rejected as
//! validation failure; a few reserved names are recognised but not
//! implemented.  Families differ in one capability: whether their types keep
//! a last-update timestamp.

use vstd::prelude::*;
use vstd::string::StringExecFns;

use crate::QueryOptions;
use crate::error::ErrorKind;
use crate::error::PlatypusError;
use crate::item::DomainItem;
use crate::item::names_contains;
use crate::item::view_opt;
use crate::persist::Persistence;
use crate::persist::create_outcome_owed;
use crate::persist::create_post;
use crate::persist::delete_post;
use crate::persist::get_result_models;
use crate::persist::has_key;
use crate::persist::item_views;
use crate::persist::items_wf;
use crate::persist::KeyModel;
use crate::persist::list_result_models;
use crate::persist::patch_post;
use crate::persist::with_stamp;
use crate::query::fields_selection_spec;
use crate::query::str_views;

verus! {

/// The object names an API family serves.
pub open spec fn api_objects_spec(api: Seq<char>) -> Seq<Seq<char>> {
    if api == "tmf620"@ {
        seq![
            "catalog"@,
            "category"@,
            "productSpecification"@,
            "productOffering"@,
            "productOfferingPrice"@,
        ]
    } else if api == "tmf622"@ {
        seq!["productOrder"@]
    } else if api == "tmf629"@ {
        seq!["customer"@]
    } else if api == "tmf632"@ {
        seq!["individual"@, "organization"@]
    } else if api == "tmf633"@ {
        seq!["serviceCandidate"@, "serviceCatalog"@, "serviceCategory"@, "serviceSpecification"@]
    } else if api == "tmf637"@ {
        seq!["product"@]
    } else if api == "tmf638"@ {
        seq!["service"@]
    } else if api == "tmf639"@ {
        seq!["resource"@]
    } else if api == "tmf645"@ {
        seq!["checkServiceQualification"@]
    } else if api == "tmf648"@ {
        seq!["quote"@]
    } else if api == "tmf663"@ {
        seq!["shoppingCart"@]
    } else if api == "tmf674"@ {
        seq!["geographicSite"@]
    } else {
        Seq::<Seq<char>>::empty()
    }
}

/// The reserved object names that are recognised but not implemented.
pub open spec fn unimplemented_objects_spec() -> Seq<Seq<char>> {
    seq!["importJob"@, "exportJob"@, "hub"@, "listener"@]
}

/// Whether an API family's types keep a last-update timestamp on create.
pub open spec fn api_stamps_create_spec(api: Seq<char>) -> bool {
    api == "tmf620"@ || api == "tmf622"@
}

/// Whether an API family's types refresh the timestamp on patch.
pub open spec fn api_stamps_patch_spec(api: Seq<char>) -> bool {
    api == "tmf620"@
}

/// The object names an API family serves: see [`api_objects_spec`].
pub fn known_objects(api: &str) -> (r: Vec<String>)
    ensures
        str_views(r@) == api_objects_spec(api@),
{
    let api_owned: String = api.to_owned();
    if api_owned == String::from_str("tmf620") {
        let v = vec![
            String::from_str("catalog"),
            String::from_str("category"),
            String::from_str("productSpecification"),
            String::from_str("productOffering"),
            String::from_str("productOfferingPrice"),
        ];
        proof {
            assert(str_views(v@) =~= api_objects_spec(api@));
        }
        v
    } else if api_owned == String::from_str("tmf622") {
        let v = vec![String::from_str("productOrder")];
        proof {
            assert(str_views(v@) =~= api_objects_spec(api@));
        }
        v
    } else if api_owned == String::from_str("tmf629") {
        let v = vec![String::from_str("customer")];
        proof {
            assert(str_views(v@) =~= api_objects_spec(api@));
        }
        v
    } else if api_owned == String::from_str("tmf632") {
        let v = vec![String::from_str("individual"), String::from_str("organization")];
        proof {
            assert(str_views(v@) =~= api_objects_spec(api@));
        }
        v
    } else if api_owned == String::from_str("tmf633") {
        let v = vec![
            String::from_str("serviceCandidate"),
            String::from_str("serviceCatalog"),
            String::from_str("serviceCategory"),
            String::from_str("serviceSpecification"),
        ];
        proof {
            assert(str_views(v@) =~= api_objects_spec(api@));
        }
        v
    } else if api_owned == String::from_str("tmf637") {
        let v = vec![String::from_str("product")];
        proof {
            assert(str_views(v@) =~= api_objects_spec(api@));
        }
        v
    } else if api_owned == String::from_str("tmf638") {
        let v = vec![String::from_str("service")];
        proof {
            assert(str_views(v@) =~= api_objects_spec(api@));
        }
        v
    } else if api_owned == String::from_str("tmf639") {
        let v = vec![String::from_str("resource")];
        proof {
            assert(str_views(v@) =~= api_objects_spec(api@));
        }
        v
    } else if api_owned == String::from_str("tmf645") {
        let v = vec![String::from_str("checkServiceQualification")];
        proof {
            assert(str_views(v@) =~= api_objects_spec(api@));
        }
        v
    } else if api_owned == String::from_str("tmf648") {
        let v = vec![String::from_str("quote")];
        proof {
            assert(str_views(v@) =~= api_objects_spec(api@));
        }
        v
    } else if api_owned == String::from_str("tmf663") {
        let v = vec![String::from_str("shoppingCart")];
        proof {
            assert(str_views(v@) =~= api_objects_spec(api@));
        }
        v
    } else if api_owned == String::from_str("tmf674") {
        let v = vec![String::from_str("geographicSite")];
        proof {
            assert(str_views(v@) =~= api_objects_spec(api@));
        }
        v
    } else {
        let v: Vec<String> = Vec::new();
        proof {
            assert(str_views(v@) =~= api_objects_spec(api@));
        }
        v
    }
}

/// Whether an API family serves the given object.
pub fn resolve_object(api: &str, object: &str) -> (r: bool)
    ensures
        r == api_objects_spec(api@).contains(object@),
{
    let objects = known_objects(api);
    names_contains(&objects, object)
}

/// Whether the object name is reserved but not implemented.
pub fn is_unimplemented_object(object: &str) -> (r: bool)
    ensures
        r == unimplemented_objects_spec().contains(object@),
{
    let names = vec![
        String::from_str("importJob"),
        String::from_str("exportJob"),
        String::from_str("hub"),
        String::from_str("listener"),
    ];
    proof {
        assert(str_views(names@) =~= unimplemented_objects_spec());
    }
    names_contains(&names, object)
}

/// The failure an unknown object draws.
fn bad_object(message: &str) -> (r: PlatypusError)
    ensures
        r.kind == ErrorKind::Validation,
        r.message@ == message@,
{
    PlatypusError::with_kind(ErrorKind::Validation, message)
}

/// The failure a reserved but unimplemented object draws: the object's own
/// name, marked not implemented.
fn not_implemented_object(object: &str) -> (r: PlatypusError)
    ensures
        r.kind == ErrorKind::Validation,
        r.message@ == object@ + ": Not implemented"@,
{
    let mut message: String = object.to_owned();
    message.append(": Not implemented");
    PlatypusError::with_kind(ErrorKind::Validation, message.as_str())
}

/// Lists the objects of one collection of an API family.  A reserved object
/// name is recognised but answered as not implemented; any other object the
/// family does not serve is rejected as a validation failure.
pub fn dispatch_list(
    persist: &Persistence,
    api: &str,
    object: &str,
    query_opts: &QueryOptions,
) -> (r: Result<Vec<DomainItem>, PlatypusError>)
    requires
        persist.wf(),
    ensures
        api_objects_spec(api@).contains(object@) ==> (r matches Ok(v) && items_wf(v@)
            && item_views(v@) == list_result_models(
            persist.db@,
            object@,
            view_opt(query_opts.name),
            query_opts.limit,
            query_opts.offset,
            fields_selection_spec(view_opt(query_opts.fields)),
        )),
        !api_objects_spec(api@).contains(object@) ==> (r matches Err(e) && e.kind
            == ErrorKind::Validation),
        !api_objects_spec(api@).contains(object@) && unimplemented_objects_spec().contains(object@)
            ==> (r matches Err(e) && e.message@ == object@ + ": Not implemented"@),
        !api_objects_spec(api@).contains(object@) && !unimplemented_objects_spec().contains(
            object@,
        ) ==> (r matches Err(e) && e.message@ == "Bad Object: {object}"@),
{
    if resolve_object(api, object) {
        persist.get_items(object, query_opts)
    } else if is_unimplemented_object(object) {
        Err(not_implemented_object(object))
    } else {
        Err(bad_object("Bad Object: {object}"))
    }
}

/// Reads one object of an API family by identifier.  A reserved object name
/// is recognised but answered as not implemented; any other object the
/// family does not serve is rejected as a validation failure.
pub fn dispatch_get(
    persist: &Persistence,
    api: &str,
    object: &str,
    id: &str,
    query_opts: &QueryOptions,
) -> (r: Result<Vec<DomainItem>, PlatypusError>)
    requires
        persist.wf(),
    ensures
        api_objects_spec(api@).contains(object@) ==> (r matches Ok(v) && items_wf(v@)
            && item_views(v@) == get_result_models(
            persist.db@,
            object@,
            id@,
            fields_selection_spec(view_opt(query_opts.fields)),
        )),
        !api_objects_spec(api@).contains(object@) ==> (r matches Err(e) && e.kind
            == ErrorKind::Validation),
        !api_objects_spec(api@).contains(object@) && unimplemented_objects_spec().contains(object@)
            ==> (r matches Err(e) && e.message@ == object@ + ": Not implemented"@),
        !api_objects_spec(api@).contains(object@) && !unimplemented_objects_spec().contains(
            object@,
        ) ==> (r matches Err(e) && e.message@ == "Invalid Object: {object}"@),
{
    if resolve_object(api, object) {
        persist.get_item(object, id, query_opts)
    } else if is_unimplemented_object(object) {
        Err(not_implemented_object(object))
    } else {
        Err(bad_object("Invalid Object: {object}"))
    }
}

/// Creates one object of an API family: the path object is the collection,
/// and families whose types keep a timestamp have it set to `now`.  An
/// object the family does not serve is rejected as a validation failure.
pub fn dispatch_post(
    persist: &mut Persistence,
    api: &str,
    object: &str,
    item: DomainItem,
    now: u64,
) -> (r: Result<Vec<DomainItem>, PlatypusError>)
    requires
        old(persist).wf(),
        item.wf(),
        item@.class == object@,
    ensures
        final(persist).wf(),
        api_objects_spec(api@).contains(object@) && api_stamps_create_spec(api@) ==> (create_post(
            old(persist).db@,
            with_stamp(item@, now),
            final(persist).db@,
            r,
        ) && create_outcome_owed(old(persist).db@, with_stamp(item@, now), r)),
        api_objects_spec(api@).contains(object@) && !api_stamps_create_spec(api@) ==> (create_post(
            old(persist).db@,
            item@,
            final(persist).db@,
            r,
        ) && create_outcome_owed(old(persist).db@, item@, r)),
        !api_objects_spec(api@).contains(object@) ==> (r matches Err(e) && e.kind
            == ErrorKind::Validation && final(persist).db@ == old(persist).db@),
{
    if resolve_object(api, object) {
        let api_owned: String = api.to_owned();
        if api_owned == String::from_str("tmf620") || api_owned == String::from_str("tmf622") {
            persist.create_tmf_item_lastupdate(item, now)
        } else {
            persist.create_tmf_item(item)
        }
    } else {
        Err(bad_object("Invalid Object: {object}"))
    }
}

/// Patches one object of an API family: the path identifier is
/// authoritative, and families whose types keep a timestamp have it
/// refreshed to `now`.  An object the family does not serve is rejected as a
/// validation failure.
pub fn dispatch_patch(
    persist: &mut Persistence,
    api: &str,
    object: &str,
    id: &str,
    patch: DomainItem,
    now: u64,
) -> (r: Result<Vec<DomainItem>, PlatypusError>)
    requires
        old(persist).wf(),
        patch.wf(),
    ensures
        final(persist).wf(),
        api_objects_spec(api@).contains(object@) && api_stamps_patch_spec(api@) ==> (patch_post(
            old(persist).db@,
            object@,
            id@,
            with_stamp(patch@, now),
            final(persist).db@,
            r,
        ) && (r is Ok <==> has_key(old(persist).db@, KeyModel { class: object@, id: id@ }))),
        api_objects_spec(api@).contains(object@) && !api_stamps_patch_spec(api@) ==> (patch_post(
            old(persist).db@,
            object@,
            id@,
            patch@,
            final(persist).db@,
            r,
        ) && (r is Ok <==> has_key(old(persist).db@, KeyModel { class: object@, id: id@ }))),
        !api_objects_spec(api@).contains(object@) ==> (r matches Err(e) && e.kind
            == ErrorKind::Validation && final(persist).db@ == old(persist).db@),
{
    if resolve_object(api, object) {
        let api_owned: String = api.to_owned();
        if api_owned == String::from_str("tmf620") {
            persist.patch_tmf_item_lastupdate(object, id, patch, now)
        } else {
            persist.patch_tmf_item(object, id, patch)
        }
    } else {
        Err(bad_object("PATCH: Bad object: {object}"))
    }
}

/// Deletes one object of an API family by identifier.  An object the family
/// does not serve is rejected as a validation failure.
pub fn dispatch_delete(persist: &mut Persistence, api: &str, object: &str, id: &str) -> (r: Result<
    DomainItem,
    PlatypusError,
>)
    requires
        old(persist).wf(),
    ensures
        final(persist).wf(),
        api_objects_spec(api@).contains(object@) ==> (delete_post(
            old(persist).db@,
            object@,
            id@,
            final(persist).db@,
            r,
            "Issue Deleting object"@,
        ) && (r is Ok <==> has_key(old(persist).db@, KeyModel { class: object@, id: id@ }))),
        !api_objects_spec(api@).contains(object@) ==> (r matches Err(e) && e.kind
            == ErrorKind::Validation && final(persist).db@ == old(persist).db@),
{
    if resolve_object(api, object) {
        persist.delete_tmf_item(object, id)
    } else {
        Err(bad_object("Invalid Object: {object}"))
    }
}

} // verus!
