//! Laws of the gateway.
//!
//! Each proof function here states a property of the gateway's operations
//! over the store model, quantified over every store and item the operations
//! admit, and is checked against the operations' own contracts.

use vstd::prelude::*;

use crate::error::ErrorKind;
use crate::error::PlatypusError;
use crate::item::DomainItem;
use crate::item::ItemModel;
use crate::persist::EnvModel;
use crate::persist::KeyModel;
use crate::persist::create_post;
use crate::persist::delete_post;
use crate::persist::get_result_models;
use crate::persist::has_key;
use crate::persist::item_views;
use crate::persist::key_index;
use crate::persist::keys_distinct;
use crate::persist::list_result_models;
use crate::persist::patch_post;
use crate::persist::spec_lookup;
use crate::persist::with_stamp;

verus! {

/// A key is looked up at the record that carries it, provided no earlier
/// record does.
proof fn lemma_lookup_at(s: Seq<EnvModel>, i: int)
    requires
        0 <= i < s.len(),
        forall|j: int| 0 <= j < s.len() && j != i ==> s[j].key != s[i].key,
    ensures
        spec_lookup(s, s[i].key.class, s[i].key.id) == Some(s[i].item),
{
    let k = KeyModel { class: s[i].key.class, id: s[i].key.id };
    assert(k == s[i].key);
    assert(has_key(s, k));
    let w = key_index(s, k);
    assert(0 <= w < s.len() && s[w].key == k);
    assert(w == i);
}

/// A key carried by no record is not found.
proof fn lemma_lookup_absent(s: Seq<EnvModel>, class: Seq<char>, id: Seq<char>)
    requires
        forall|j: int| 0 <= j < s.len() ==> s[j].key != (KeyModel { class, id }),
    ensures
        spec_lookup(s, class, id) is None,
{
    let k = KeyModel { class, id };
    if has_key(s, k) {
        let w = key_index(s, k);
        assert(0 <= w < s.len() && s[w].key == k);
    }
}

/// Round trip.  For any store and any item created with no identifier set,
/// a successful create makes the item retrievable by the identifier it
/// returned, and what is retrieved carries the caller's fields, class and
/// timestamp slot unchanged; only the identifier and the reference path were
/// filled in.
pub proof fn law_create_round_trip(
    pre: Seq<EnvModel>,
    item: ItemModel,
    post: Seq<EnvModel>,
    v: Vec<DomainItem>,
)
    requires
        keys_distinct(pre),
        item.id is None,
        create_post(pre, item, post, Ok(v)),
    ensures
        v@[0]@.id is Some,
        spec_lookup(post, item.class, v@[0]@.id->0) == Some(v@[0]@),
        v@[0]@.fields == item.fields,
        v@[0]@.class == item.class,
        v@[0]@.last_update == item.last_update,
{
    let idv = v@[0]@.id->0;
    let k = KeyModel { class: item.class, id: idv };
    let n = pre.len() as int;
    assert(post[n].key == k);
    assert forall|j: int| 0 <= j < post.len() && j != n implies post[j].key != k by {
        assert(post[j] == pre[j]);
    }
    lemma_lookup_at(post, n);
}

/// Read idempotence.  Reading by key is a function of the store alone: two
/// reads of the same key against the same store, under the same field
/// selection, return the same items.
pub proof fn law_read_idempotent(
    s: Seq<EnvModel>,
    class: Seq<char>,
    id: Seq<char>,
    fsel: Option<Seq<Seq<char>>>,
    v1: Vec<DomainItem>,
    v2: Vec<DomainItem>,
)
    requires
        item_views(v1@) == get_result_models(s, class, id, fsel),
        item_views(v2@) == get_result_models(s, class, id, fsel),
    ensures
        item_views(v1@) == item_views(v2@),
{
}

/// Patch merge.  After a successful patch, the record read back under the
/// path key is the returned item: every field the patch named carries the
/// patch's value, every other field carries the stored item's value, and the
/// timestamp was refreshed to `now` — strictly past the stored timestamp
/// whenever `now` lies past it.
pub proof fn law_patch_then_get(
    pre: Seq<EnvModel>,
    class: Seq<char>,
    id: Seq<char>,
    patch: ItemModel,
    now: u64,
    post: Seq<EnvModel>,
    v: Vec<DomainItem>,
)
    requires
        keys_distinct(pre),
        patch_post(pre, class, id, with_stamp(patch, now), post, Ok(v)),
    ensures
        spec_lookup(pre, class, id) is Some,
        spec_lookup(post, class, id) == Some(v@[0]@),
        forall|n: Seq<char>| patch.fields.contains_key(n) ==> v@[0]@.fields.contains_key(n)
            && v@[0]@.fields[n] == patch.fields[n],
        forall|n: Seq<char>|
            !patch.fields.contains_key(n) ==> (v@[0]@.fields.contains_key(n)
                == spec_lookup(pre, class, id)->0.fields.contains_key(n) && (v@[0]@.fields.contains_key(
                n,
            ) ==> v@[0]@.fields[n] == spec_lookup(pre, class, id)->0.fields[n])),
        v@[0]@.last_update == Some(now),
        spec_lookup(pre, class, id)->0.last_update is Some && spec_lookup(
            pre,
            class,
            id,
        )->0.last_update->0 < now ==> v@[0]@.last_update->0 > spec_lookup(
            pre,
            class,
            id,
        )->0.last_update->0,
{
    let k = KeyModel { class, id };
    assert(has_key(pre, k));
    let i = key_index(pre, k);
    assert(0 <= i < pre.len() && pre[i].key == k);
    lemma_key_index_is(pre, i);
    assert(post == pre.update(i, EnvModel { key: k, item: v@[0]@ }));
    assert(post[i].key == k);
    assert forall|j: int| 0 <= j < post.len() && j != i implies post[j].key != k by {
        assert(post[j] == pre[j]);
    }
    lemma_lookup_at(post, i);
}

/// Under distinct keys, `key_index` finds exactly the record's position.
proof fn lemma_key_index_is(s: Seq<EnvModel>, i: int)
    requires
        keys_distinct(s),
        0 <= i < s.len(),
    ensures
        key_index(s, s[i].key) == i,
{
    crate::persist::lemma_key_index_unique(s, i);
}

/// Delete finality.  After a successful delete, the key is no longer found,
/// and a second delete of the same key fails as not-found while leaving the
/// store unchanged.
pub proof fn law_delete_finality(
    pre: Seq<EnvModel>,
    class: Seq<char>,
    id: Seq<char>,
    mid: Seq<EnvModel>,
    it: DomainItem,
    post: Seq<EnvModel>,
    r2: Result<DomainItem, PlatypusError>,
    msg: Seq<char>,
)
    requires
        keys_distinct(pre),
        delete_post(pre, class, id, mid, Ok(it), msg),
        delete_post(mid, class, id, post, r2, msg),
    ensures
        spec_lookup(mid, class, id) is None,
        r2 matches Err(e) && e.kind == ErrorKind::NotFound,
        post == mid,
{
    let k = KeyModel { class, id };
    assert(has_key(pre, k));
    let i = key_index(pre, k);
    assert(0 <= i < pre.len() && pre[i].key == k);
    lemma_key_index_is(pre, i);
    assert(mid == pre.remove(i));
    assert forall|j: int| 0 <= j < mid.len() implies mid[j].key != k by {
        if j < i {
            assert(mid[j] == pre[j]);
        } else {
            assert(mid[j] == pre[j + 1]);
        }
    }
    lemma_lookup_absent(mid, class, id);
}

/// Projection.  Every item of a list under an explicit field selection
/// keeps its identity — class, identifier, reference path — and the selected
/// fields with their stored values, and carries no field beyond the selected
/// names: projection can only narrow.
pub proof fn law_projection(
    s: Seq<EnvModel>,
    class: Seq<char>,
    name: Option<Seq<char>>,
    limit: Option<u16>,
    offset: Option<u16>,
    ns: Seq<Seq<char>>,
    v: Vec<DomainItem>,
)
    requires
        item_views(v@) == list_result_models(s, class, name, limit, offset, Some(ns)),
    ensures
        v@.len() == crate::persist::paged(
            crate::persist::select_models(s, class, name),
            limit,
            offset,
        ).len(),
        forall|i: int, n: Seq<char>|
            0 <= i < v@.len() && (#[trigger] v@[i]@.fields.contains_key(n)) ==> ns.contains(n),
        forall|i: int|
            0 <= i < v@.len() ==> {
                let full = crate::persist::paged(
                    crate::persist::select_models(s, class, name),
                    limit,
                    offset,
                )[i];
                &&& (#[trigger] v@[i]@).class == full.class
                &&& v@[i]@.id == full.id
                &&& v@[i]@.href == full.href
                &&& forall|n: Seq<char>| #[trigger]
                    ns.contains(n) ==> (v@[i]@.fields.contains_key(n) == full.fields.contains_key(
                        n,
                    ) && (full.fields.contains_key(n) ==> v@[i]@.fields[n] == full.fields[n]))
            },
{
    let base = crate::persist::paged(crate::persist::select_models(s, class, name), limit, offset);
    assert(item_views(v@).len() == base.len());
    assert(v@.len() == base.len());
    assert forall|i: int, n: Seq<char>|
        0 <= i < v@.len() && (#[trigger] v@[i]@.fields.contains_key(n)) implies ns.contains(
        n,
    ) by {
        assert(item_views(v@).len() == base.len());
        assert(item_views(v@)[i] == v@[i]@);
        assert(item_views(v@)[i] == crate::persist::project_all(base, ns)[i]);
        assert(v@[i]@ == crate::item::projected_model(base[i], ns));
        assert(v@[i]@.fields == base[i].fields.restrict(ns.to_set()));
        assert(ns.to_set().contains(n));
    }
    assert forall|i: int| 0 <= i < v@.len() implies {
        let full = base[i];
        &&& (#[trigger] v@[i]@).class == full.class
        &&& v@[i]@.id == full.id
        &&& v@[i]@.href == full.href
        &&& forall|n: Seq<char>| #[trigger]
            ns.contains(n) ==> (v@[i]@.fields.contains_key(n) == full.fields.contains_key(n) && (
            full.fields.contains_key(n) ==> v@[i]@.fields[n] == full.fields[n]))
    } by {
        assert(item_views(v@)[i] == crate::persist::project_all(base, ns)[i]);
        assert(v@[i]@ == crate::item::projected_model(base[i], ns));
        assert(v@[i]@.fields == base[i].fields.restrict(ns.to_set()));
        assert forall|n: Seq<char>| #[trigger] ns.contains(n) implies (v@[i]@.fields.contains_key(
            n,
        ) == base[i].fields.contains_key(n) && (base[i].fields.contains_key(n)
            ==> v@[i]@.fields[n] == base[i].fields[n])) by {
            assert(ns.to_set().contains(n));
        }
    }
}

/// Pagination bound.  A list asked for at most `limit` items never returns
/// more than `limit` items.
pub proof fn law_pagination_bound(
    s: Seq<EnvModel>,
    class: Seq<char>,
    name: Option<Seq<char>>,
    limit: u16,
    offset: Option<u16>,
    fsel: Option<Seq<Seq<char>>>,
    v: Vec<DomainItem>,
)
    requires
        item_views(v@) == list_result_models(s, class, name, Some(limit), offset, fsel),
    ensures
        v@.len() <= limit,
{
    let picked = crate::persist::select_models(s, class, name);
    let base = crate::persist::paged(picked, Some(limit), offset);
    assert(base.len() <= limit);
    match fsel {
        None => {
            assert(item_views(v@) == base);
        },
        Some(ns) => {
            assert(item_views(v@) == crate::persist::project_all(base, ns));
        },
    }
    assert(v@.len() == item_views(v@).len());
}

/// Create independence.  Two consecutive successful creates leave both items
/// retrievable, each under its own identifier, with no cross-write
/// corruption: the second create never disturbs what the first stored.
pub proof fn law_create_independent(
    s0: Seq<EnvModel>,
    item_a: ItemModel,
    s1: Seq<EnvModel>,
    va: Vec<DomainItem>,
    item_b: ItemModel,
    s2: Seq<EnvModel>,
    vb: Vec<DomainItem>,
)
    requires
        keys_distinct(s0),
        create_post(s0, item_a, s1, Ok(va)),
        create_post(s1, item_b, s2, Ok(vb)),
    ensures
        spec_lookup(s2, item_a.class, va@[0]@.id->0) == Some(va@[0]@),
        spec_lookup(s2, item_b.class, vb@[0]@.id->0) == Some(vb@[0]@),
{
    let ka = KeyModel { class: item_a.class, id: va@[0]@.id->0 };
    let kb = KeyModel { class: item_b.class, id: vb@[0]@.id->0 };
    let na = s0.len() as int;
    let nb = s1.len() as int;
    assert(s1[na].key == ka);
    assert(has_key(s1, ka));
    assert(ka != kb);
    assert(s2[nb].key == kb);
    assert forall|j: int| 0 <= j < s2.len() && j != nb implies s2[j].key != kb by {
        assert(s2[j] == s1[j]);
        if j < na {
            assert(s1[j] == s0[j]);
        }
    }
    lemma_lookup_at(s2, nb);
    assert(s2[na].key == ka);
    assert forall|j: int| 0 <= j < s2.len() && j != na implies s2[j].key != ka by {
        if j < na {
            assert(s2[j] == s1[j] && s1[j] == s0[j]);
        } else if j < nb {
            assert(s2[j] == s1[j]);
        }
    }
    lemma_lookup_at(s2, na);
}

} // verus!
