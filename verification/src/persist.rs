//! The persistence gateway.
//!
//! The sole choke point for store access.  Every record pairs a domain item
//! with its collection-qualified key; the store holds the records of all
//! collections, keyed by class and identifier.  The gateway exposes list,
//! get-by-id, create, patch and delete, built on the query translator, the
//! identity policy and the record envelope.

use vstd::prelude::*;
use vstd::string::StringExecFns;

use crate::QueryOptions;
use crate::config::Config;
use crate::config::spec_config_get;
use crate::error::ErrorKind;
use crate::error::PlatypusError;
use crate::ids::generate_id;
use crate::ids::href_spec;
use crate::item::DomainItem;
use crate::item::ItemModel;
use crate::item::merged;
use crate::item::merged_model;
use crate::item::project;
use crate::item::projected_model;
use crate::item::view_opt;
use crate::query::fields_selection_spec;
use crate::query::query_to_fields;
use crate::query::str_views;

verus! {

/// The mathematical model of a record key.
pub ghost struct KeyModel {
    /// The collection the record lives in.
    pub class: Seq<char>,
    /// The record's identifier within its collection.
    pub id: Seq<char>,
}

/// The mathematical model of a stored record.
pub ghost struct EnvModel {
    /// The record's collection-qualified key.
    pub key: KeyModel,
    /// The wrapped domain item.
    pub item: ItemModel,
}

/// A record's collection-qualified key: items of different classes never
/// collide on an identifier, because the class is part of the key.
pub struct RecordKey {
    /// The collection the record lives in.
    pub class: String,
    /// The record's identifier within its collection.
    pub id: String,
}

impl View for RecordKey {
    type V = KeyModel;

    open spec fn view(&self) -> KeyModel {
        KeyModel { class: self.class@, id: self.id@ }
    }
}

/// The record envelope: a domain item together with its storage key.
pub struct TMF {
    /// The collection-qualified key.
    pub id: RecordKey,
    /// The wrapped domain item.
    pub item: DomainItem,
}

impl View for TMF {
    type V = EnvModel;

    open spec fn view(&self) -> EnvModel {
        EnvModel { key: self.id@, item: self.item@ }
    }
}

impl TMF {
    /// The key mirrors the item: its id component equals the item's
    /// identifier, its class component the item's class, and the identifier
    /// is never missing or empty.
    pub open spec fn wf(&self) -> bool {
        &&& self.item.wf()
        &&& self.item@.id == Some(self.id@.id)
        &&& self.item@.class == self.id@.class
        &&& self.id@.id.len() > 0
    }
}

/// Wraps an item for storage: the key is computed from the item's class and
/// its already-assigned identifier; unwrapping is the `item` field itself.
pub fn tmf_payload(item: DomainItem) -> (r: TMF)
    requires
        item.wf(),
        item@.id matches Some(i) && i.len() > 0,
    ensures
        r.wf(),
        r@.item == item@,
        r@.key == (KeyModel { class: item@.class, id: item@.id->0 }),
{
    let id: String = match &item.id {
        Some(i) => i.clone(),
        None => String::new(),
    };
    let class = item.class.clone();
    TMF { id: RecordKey { class, id }, item }
}

/// A record set holds a record for a key exactly when some record carries it.
pub open spec fn has_key(s: Seq<EnvModel>, k: KeyModel) -> bool {
    exists|i: int| 0 <= i < s.len() && s[i].key == k
}

/// The position of the record carrying `k`; meaningful under distinct keys.
pub open spec fn key_index(s: Seq<EnvModel>, k: KeyModel) -> int {
    choose|i: int| 0 <= i < s.len() && s[i].key == k
}

/// The item stored under the class-qualified key, if any.
pub open spec fn spec_lookup(s: Seq<EnvModel>, class: Seq<char>, id: Seq<char>) -> Option<
    ItemModel,
> {
    let k = KeyModel { class, id };
    if has_key(s, k) {
        Some(s[key_index(s, k)].item)
    } else {
        None
    }
}

/// The keys of a record set are pairwise distinct.
pub open spec fn keys_distinct(s: Seq<EnvModel>) -> bool {
    forall|i: int, j: int| 0 <= i < j < s.len() ==> s[i].key != s[j].key
}

/// Under distinct keys, a record's position is the position of its key.
pub proof fn lemma_key_index_unique(s: Seq<EnvModel>, i: int)
    requires
        keys_distinct(s),
        0 <= i < s.len(),
    ensures
        key_index(s, s[i].key) == i,
{
    let k = s[i].key;
    assert(has_key(s, k));
    let j = key_index(s, k);
    assert(0 <= j < s.len() && s[j].key == k);
    if i < j {
        assert(s[i].key != s[j].key);
    } else if j < i {
        assert(s[j].key != s[i].key);
    }
}

/// The store of records, one for each class-qualified key.
pub struct Store {
    records: Vec<TMF>,
}

impl View for Store {
    type V = Seq<EnvModel>;

    closed spec fn view(&self) -> Seq<EnvModel> {
        self.records@.map_values(|t: TMF| t@)
    }
}

/// The storage invariant of one record: the key's id component equals the
/// item's identifier, the key's class component the item's class, and no
/// record is stored with a missing or empty identifier.
pub open spec fn env_wf(e: EnvModel) -> bool {
    &&& e.item.id == Some(e.key.id)
    &&& e.item.class == e.key.class
    &&& e.key.id.len() > 0
}

impl Store {
    /// Every held record satisfies the representation invariant.
    pub closed spec fn inv(&self) -> bool {
        forall|i: int| 0 <= i < self.records@.len() ==> (#[trigger] self.records@[i]).wf()
    }

    /// Every record is well-formed and the keys are pairwise distinct.
    pub open spec fn wf(&self) -> bool {
        &&& keys_distinct(self@)
        &&& forall|i: int| 0 <= i < self@.len() ==> env_wf(#[trigger] self@[i])
        &&& self.inv()
    }

    /// An empty store.
    pub fn new() -> (r: Store)
        ensures
            r.wf(),
            r@ == Seq::<EnvModel>::empty(),
    {
        let r = Store { records: Vec::new() };
        proof {
            assert(r@ =~= Seq::<EnvModel>::empty());
        }
        r
    }

    /// The position of the record keyed by `class` and `id`, if one exists.
    fn find(&self, class: &str, id: &str) -> (r: Option<usize>)
        ensures
            match r {
                Some(i) => i < self@.len() && self@[i as int].key == (KeyModel {
                    class: class@,
                    id: id@,
                }),
                None => !has_key(self@, KeyModel { class: class@, id: id@ }),
            },
    {
        let class_owned: String = class.to_owned();
        let id_owned: String = id.to_owned();
        let n = self.records.len();
        let mut i: usize = 0;
        while i < n
            invariant
                0 <= i <= n,
                n == self.records@.len(),
                class_owned@ == class@,
                id_owned@ == id@,
                self@.len() == self.records@.len(),
                forall|j: int| 0 <= j < i ==> self@[j].key != (KeyModel {
                    class: class@,
                    id: id@,
                }),
            decreases n - i,
        {
            if self.records[i].id.class == class_owned && self.records[i].id.id == id_owned {
                proof {
                    assert(self@[i as int] == self.records@[i as int]@);
                }
                return Some(i);
            }
            proof {
                assert(self@[i as int] == self.records@[i as int]@);
            }
            i = i + 1;
        }
        None
    }
}

/// The views of a sequence of domain items.
pub open spec fn item_views(v: Seq<DomainItem>) -> Seq<ItemModel> {
    v.map_values(|d: DomainItem| d@)
}

/// Every item of a sequence is well-formed.
pub open spec fn items_wf(v: Seq<DomainItem>) -> bool {
    forall|i: int| 0 <= i < v.len() ==> (#[trigger] v[i]).wf()
}

/// An item stamped with a last-update timestamp.
pub open spec fn with_stamp(m: ItemModel, now: u64) -> ItemModel {
    ItemModel { last_update: Some(now), ..m }
}

/// What a created item looks like: the caller's class and fields, the
/// assigned identifier, and the reference path derived from both.
pub open spec fn create_result_model(item: ItemModel, idv: Seq<char>) -> ItemModel {
    ItemModel {
        class: item.class,
        id: Some(idv),
        href: Some(href_spec(item.class, idv)),
        last_update: item.last_update,
        fields: item.fields,
    }
}

/// What a create has done, whatever identifier was issued.
///
/// On success the one returned item carries the caller's fields under a
/// non-empty identifier — the caller's own when it supplied one — and the
/// store gained exactly that record, whose key was previously free.  On
/// failure the store is unchanged: a conflict when the key was taken, a
/// validation error when the supplied identifier was empty.
pub open spec fn create_post(
    pre: Seq<EnvModel>,
    item: ItemModel,
    post: Seq<EnvModel>,
    r: Result<Vec<DomainItem>, PlatypusError>,
) -> bool {
    match r {
        Ok(v) => {
            &&& v@.len() == 1
            &&& v@[0].wf()
            &&& v@[0]@.id matches Some(idv) && idv.len() > 0 && v@[0]@ == create_result_model(
                item,
                idv,
            )
            &&& (item.id matches Some(i0) ==> v@[0]@.id == Some(i0))
            &&& (item.id is None ==> (v@[0]@.id matches Some(idv) && idv.len() == 36))
            &&& !has_key(pre, KeyModel { class: item.class, id: v@[0]@.id->0 })
            &&& post == pre.push(
                EnvModel {
                    key: KeyModel { class: item.class, id: v@[0]@.id->0 },
                    item: v@[0]@,
                },
            )
        },
        Err(e) => {
            &&& post == pre
            &&& (e.kind == ErrorKind::Validation <==> item.id == Some(Seq::<char>::empty()))
            &&& (e.kind == ErrorKind::Validation || e.kind == ErrorKind::Conflict)
            &&& (e.kind == ErrorKind::Conflict ==> e.message@ == "Could not create object"@)
            &&& (item.id is Some && item.id->0.len() > 0 ==> e.kind == ErrorKind::Conflict
                && has_key(pre, KeyModel { class: item.class, id: item.id->0 }))
            &&& (item.id is None ==> (e.kind == ErrorKind::Conflict && exists|t: Seq<char>|
                #![auto]
                t.len() == 36 && has_key(pre, KeyModel { class: item.class, id: t })))
        },
    }
}

/// Success is owed exactly on a well-formed identifier situation: a create
/// with a supplied, non-empty, free identifier returns `Ok`; one with an
/// empty or taken identifier returns `Err`.
pub open spec fn create_outcome_owed(
    pre: Seq<EnvModel>,
    item: ItemModel,
    r: Result<Vec<DomainItem>, PlatypusError>,
) -> bool {
    &&& (item.id matches Some(i0) && i0.len() > 0 && !has_key(
        pre,
        KeyModel { class: item.class, id: i0 },
    ) ==> r is Ok)
    &&& (item.id matches Some(i0) && (i0.len() == 0 || has_key(
        pre,
        KeyModel { class: item.class, id: i0 },
    )) ==> r is Err)
}

/// The zero-or-one items a read by key returns.
pub open spec fn get_models(s: Seq<EnvModel>, class: Seq<char>, id: Seq<char>) -> Seq<ItemModel> {
    match spec_lookup(s, class, id) {
        Some(m) => seq![m],
        None => Seq::<ItemModel>::empty(),
    }
}

/// Each item of a sequence projected onto the same explicit field list.
pub open spec fn project_all(items: Seq<ItemModel>, ns: Seq<Seq<char>>) -> Seq<ItemModel> {
    items.map_values(|m: ItemModel| projected_model(m, ns))
}

/// The zero-or-one items a read by key returns under a field selection.
pub open spec fn get_result_models(
    s: Seq<EnvModel>,
    class: Seq<char>,
    id: Seq<char>,
    fsel: Option<Seq<Seq<char>>>,
) -> Seq<ItemModel> {
    match fsel {
        None => get_models(s, class, id),
        Some(ns) => project_all(get_models(s, class, id), ns),
    }
}

/// Whether an item passes the name filter: no filter admits everything; a
/// filter admits exactly the items whose `name` field equals the value.
pub open spec fn name_matches(m: ItemModel, name: Option<Seq<char>>) -> bool {
    match name {
        None => true,
        Some(n) => m.fields.contains_key("name"@) && m.fields["name"@] == n,
    }
}

/// The items of one collection that pass the name filter, in store order.
pub open spec fn select_models(
    s: Seq<EnvModel>,
    class: Seq<char>,
    name: Option<Seq<char>>,
) -> Seq<ItemModel>
    decreases s.len(),
{
    if s.len() == 0 {
        Seq::<ItemModel>::empty()
    } else {
        let rest = select_models(s.drop_last(), class, name);
        if s.last().key.class == class && name_matches(s.last().item, name) {
            rest.push(s.last().item)
        } else {
            rest
        }
    }
}

/// The pagination window: skip `offset` items, then take at most `limit`.
pub open spec fn paged(items: Seq<ItemModel>, limit: Option<u16>, offset: Option<u16>) -> Seq<
    ItemModel,
> {
    let off = match offset {
        Some(o) => if o as int <= items.len() {
            o as int
        } else {
            items.len() as int
        },
        None => 0,
    };
    let rest = items.skip(off);
    let lim = match limit {
        Some(l) => if l as int <= rest.len() {
            l as int
        } else {
            rest.len() as int
        },
        None => rest.len() as int,
    };
    rest.take(lim)
}

/// An explicit field selection, or the empty one when none was asked for.
pub open spec fn selection_or_empty(fsel: Option<Seq<Seq<char>>>) -> Seq<Seq<char>> {
    match fsel {
        Some(ns) => ns,
        None => Seq::<Seq<char>>::empty(),
    }
}

/// The items a list returns: filter by name, skip, take, then project when a
/// field selection was asked for.
pub open spec fn list_result_models(
    s: Seq<EnvModel>,
    class: Seq<char>,
    name: Option<Seq<char>>,
    limit: Option<u16>,
    offset: Option<u16>,
    fsel: Option<Seq<Seq<char>>>,
) -> Seq<ItemModel> {
    let base = paged(select_models(s, class, name), limit, offset);
    match fsel {
        None => base,
        Some(ns) => project_all(base, ns),
    }
}

/// What a patch has done.  When a record exists for the key, the one
/// returned item is the shallow merge of the patch over the stored item —
/// the path identifier stays authoritative — and the store holds it in the
/// record's place.  When none exists, the patch fails as not-found and the
/// store is unchanged.
pub open spec fn patch_post(
    pre: Seq<EnvModel>,
    class: Seq<char>,
    id: Seq<char>,
    patch: ItemModel,
    post: Seq<EnvModel>,
    r: Result<Vec<DomainItem>, PlatypusError>,
) -> bool {
    match spec_lookup(pre, class, id) {
        Some(existing) => {
            &&& r matches Ok(v) && v@.len() == 1 && v@[0].wf() && v@[0]@ == merged_model(
                existing,
                patch,
            )
            &&& post == pre.update(
                key_index(pre, KeyModel { class, id }),
                EnvModel { key: KeyModel { class, id }, item: merged_model(existing, patch) },
            )
        },
        None => {
            &&& r matches Err(e) && e.kind == ErrorKind::NotFound && e.message@
                == "Could not update object"@
            &&& post == pre
        },
    }
}

/// What a delete has done.  When a record exists for the key, the removed
/// item is returned and the store no longer holds its record.  When none
/// exists, the delete fails as not-found and the store is unchanged.
pub open spec fn delete_post(
    pre: Seq<EnvModel>,
    class: Seq<char>,
    id: Seq<char>,
    post: Seq<EnvModel>,
    r: Result<DomainItem, PlatypusError>,
    msg: Seq<char>,
) -> bool {
    match spec_lookup(pre, class, id) {
        Some(existing) => {
            &&& r matches Ok(it) && it.wf() && it@ == existing
            &&& post == pre.remove(key_index(pre, KeyModel { class, id }))
        },
        None => {
            &&& r matches Err(e) && e.kind == ErrorKind::NotFound && e.message@ == msg
            &&& post == pre
        },
    }
}

/// Whether an item passes the caller's name filter: see [`name_matches`].
fn name_ok(item: &DomainItem, name: &Option<String>) -> (r: bool)
    requires
        item.wf(),
    ensures
        r == name_matches(item@, view_opt(*name)),
{
    match name {
        Some(n) => match item.get_field("name") {
            Some(v) => v == *n,
            None => false,
        },
        None => true,
    }
}

/// The database connection settings, read from configuration at startup.
pub struct DbSettings {
    /// The store host or connection URI.
    pub host: String,
    /// The namespace to select.
    pub namespace: String,
    /// The user to authenticate as.
    pub username: String,
    /// The user's password.
    pub password: String,
}

/// The persistence gateway: the owner of the store for the process lifetime.
pub struct Persistence {
    /// The record store.
    pub db: Store,
    /// The settings the connection was opened with.
    pub settings: DbSettings,
}

impl Persistence {
    /// The store's invariant holds.
    pub open spec fn wf(&self) -> bool {
        self.db.wf()
    }

    /// Builds the gateway from configuration.  Every database setting is
    /// required: the first missing one is reported as a fatal configuration
    /// error, and nothing is retried here.
    pub fn new(config: &Config) -> (r: Result<Persistence, PlatypusError>)
        ensures
            match r {
                Ok(p) => {
                    &&& p.wf()
                    &&& p.db@ == Seq::<EnvModel>::empty()
                    &&& spec_config_get(config.entries(), "DB_HOST"@) == Some(p.settings.host@)
                    &&& spec_config_get(config.entries(), "DB_NS"@) == Some(p.settings.namespace@)
                    &&& spec_config_get(config.entries(), "DB_USER"@) == Some(p.settings.username@)
                    &&& spec_config_get(config.entries(), "DB_PASS"@) == Some(p.settings.password@)
                },
                Err(e) => {
                    &&& e.kind == ErrorKind::Configuration
                    &&& (spec_config_get(config.entries(), "DB_HOST"@) is None
                        || spec_config_get(config.entries(), "DB_NS"@) is None
                        || spec_config_get(config.entries(), "DB_USER"@) is None
                        || spec_config_get(config.entries(), "DB_PASS"@) is None)
                },
            },
    {
        let host = match config.get("DB_HOST") {
            Some(h) => h,
            None => {
                return Err(
                    PlatypusError::with_kind(ErrorKind::Configuration, "DB_HOST not defined"),
                );
            },
        };
        let namespace = match config.get("DB_NS") {
            Some(n) => n,
            None => {
                return Err(
                    PlatypusError::with_kind(
                        ErrorKind::Configuration,
                        "DB Namespace not configured",
                    ),
                );
            },
        };
        let username = match config.get("DB_USER") {
            Some(u) => u,
            None => {
                return Err(
                    PlatypusError::with_kind(ErrorKind::Configuration, "DB User not set"),
                );
            },
        };
        let password = match config.get("DB_PASS") {
            Some(p) => p,
            None => {
                return Err(
                    PlatypusError::with_kind(ErrorKind::Configuration, "DB Pass not set"),
                );
            },
        };
        Ok(
            Persistence {
                db: Store::new(),
                settings: DbSettings { host, namespace, username, password },
            },
        )
    }

    /// Stores a new item.  An item without an identifier is issued a fresh
    /// one; a supplied identifier is honoured.  The reference path is derived
    /// from the class and the identifier.  No uniqueness check precedes the
    /// insert: a taken key surfaces here as a conflict.
    pub fn create_tmf_item(&mut self, item: DomainItem) -> (r: Result<
        Vec<DomainItem>,
        PlatypusError,
    >)
        requires
            old(self).wf(),
            item.wf(),
        ensures
            final(self).wf(),
            final(self).settings == old(self).settings,
            create_post(old(self).db@, item@, final(self).db@, r),
            create_outcome_owed(old(self).db@, item@, r),
    {
        let mut item = item;
        let ghost orig = item@;
        if let Some(i) = &item.id {
            if i.unicode_len() == 0 {
                proof {
                    assert(i@ =~= Seq::<char>::empty());
                }
                return Err(PlatypusError::with_kind(ErrorKind::Validation, "Invalid identifier"));
            }
        }
        generate_id(&mut item);
        let payload = tmf_payload(item);
        match self.db.find(payload.id.class.as_str(), payload.id.id.as_str()) {
            Some(_) => {
                proof {
                    assert(has_key(self.db@, payload.id@));
                    if orig.id is None {
                        assert(payload.id@.id.len() == 36);
                        assert(payload.id@ == (KeyModel {
                            class: orig.class,
                            id: payload.id@.id,
                        }));
                    }
                }
                Err(PlatypusError::with_kind(ErrorKind::Conflict, "Could not create object"))
            },
            None => {
                let out = payload.item.clone();
                let ghost pre = self.db@;
                let ghost env = payload@;
                self.db.records.push(payload);
                proof {
                    assert(self.db@ =~= pre.push(env));
                    assert forall|a: int, b: int|
                        0 <= a < b < self.db@.len() implies self.db@[a].key
                        != self.db@[b].key by {
                        if b < self.db@.len() - 1 {
                        } else {
                            assert(self.db@[a] == pre[a]);
                            assert(!(pre[a].key == env.key));
                        }
                    }
                }
                Ok(vec![out])
            },
        }
    }

    /// Reads the zero-or-one record keyed by `class` and `id`.  Absence is an
    /// empty result, never an error.
    pub fn get_tmf_item(&self, class: &str, id: &str) -> (r: Result<Vec<DomainItem>, PlatypusError>)
        requires
            self.wf(),
        ensures
            r matches Ok(v) && items_wf(v@) && item_views(v@) == get_models(self.db@, class@, id@),
    {
        match self.db.find(class, id) {
            Some(i) => {
                proof {
                    lemma_key_index_unique(self.db@, i as int);
                }
                let it = self.db.records[i].item.clone();
                let out = vec![it];
                proof {
                    assert(item_views(out@) =~= get_models(self.db@, class@, id@));
                }
                Ok(out)
            },
            None => {
                let out: Vec<DomainItem> = Vec::new();
                proof {
                    assert(item_views(out@) =~= get_models(self.db@, class@, id@));
                }
                Ok(out)
            },
        }
    }

    /// Reads the zero-or-one record keyed by `class` and `id`, projected onto
    /// an explicit field list plus the identity fields.
    pub fn get_tmf_item_fields(&self, class: &str, id: &str, fields: Vec<String>) -> (r: Result<
        Vec<DomainItem>,
        PlatypusError,
    >)
        requires
            self.wf(),
        ensures
            r matches Ok(v) && items_wf(v@) && item_views(v@) == project_all(
                get_models(self.db@, class@, id@),
                str_views(fields@),
            ),
    {
        match self.db.find(class, id) {
            Some(i) => {
                proof {
                    lemma_key_index_unique(self.db@, i as int);
                }
                let it = project(&self.db.records[i].item, &fields);
                let out = vec![it];
                proof {
                    assert(item_views(out@) =~= project_all(
                        get_models(self.db@, class@, id@),
                        str_views(fields@),
                    ));
                }
                Ok(out)
            },
            None => {
                let out: Vec<DomainItem> = Vec::new();
                proof {
                    assert(item_views(out@) =~= project_all(
                        get_models(self.db@, class@, id@),
                        str_views(fields@),
                    ));
                }
                Ok(out)
            },
        }
    }

    /// Reads one record by key, applying the caller's field selection: every
    /// field when none is asked for, otherwise the named fields plus the
    /// identity fields.
    pub fn get_item(&self, class: &str, id: &str, query_opts: &QueryOptions) -> (r: Result<
        Vec<DomainItem>,
        PlatypusError,
    >)
        requires
            self.wf(),
        ensures
            r matches Ok(v) && items_wf(v@) && item_views(v@) == get_result_models(
                self.db@,
                class@,
                id@,
                fields_selection_spec(view_opt(query_opts.fields)),
            ),
    {
        match query_to_fields(query_opts) {
            Some(f) => self.get_tmf_item_fields(class, id, f),
            None => self.get_tmf_item(class, id),
        }
    }

    /// Lists the records of a collection with every field projected: the
    /// name filter, then the offset, then the limit.  No matches is an empty
    /// result, never an error.
    pub fn get_tmf_items(&self, class: &str, query_opts: &QueryOptions) -> (r: Result<
        Vec<DomainItem>,
        PlatypusError,
    >)
        requires
            self.wf(),
        ensures
            r matches Ok(v) && items_wf(v@) && item_views(v@) == paged(
                select_models(self.db@, class@, view_opt(query_opts.name)),
                query_opts.limit,
                query_opts.offset,
            ),
    {
        let ghost nview = view_opt(query_opts.name);
        let class_owned: String = class.to_owned();
        let mut selected: Vec<DomainItem> = Vec::new();
        let n = self.db.records.len();
        let mut i: usize = 0;
        proof {
            assert(self.db@.take(0) =~= Seq::<EnvModel>::empty());
            assert(item_views(selected@) =~= select_models(self.db@.take(0), class@, nview));
        }
        while i < n
            invariant
                0 <= i <= n,
                n == self.db@.len(),
                self.wf(),
                class_owned@ == class@,
                nview == view_opt(query_opts.name),
                items_wf(selected@),
                item_views(selected@) == select_models(self.db@.take(i as int), class@, nview),
            decreases n - i,
        {
            proof {
                assert(self.db@.take(i + 1).drop_last() =~= self.db@.take(i as int));
                assert(self.db@.take(i + 1).last() == self.db@[i as int]);
                assert(self.db@[i as int] == self.db.records@[i as int]@);
                assert(self.db.records@[i as int].wf());
            }
            let keep = self.db.records[i].id.class == class_owned && name_ok(
                &self.db.records[i].item,
                &query_opts.name,
            );
            if keep {
                let ghost prev = selected@;
                selected.push(self.db.records[i].item.clone());
                proof {
                    assert(item_views(selected@) =~= item_views(prev).push(
                        self.db@[i as int].item,
                    ));
                }
            }
            proof {
                assert(item_views(selected@) =~= select_models(
                    self.db@.take(i + 1),
                    class@,
                    nview,
                ));
            }
            i = i + 1;
        }
        proof {
            assert(self.db@.take(n as int) =~= self.db@);
        }
        let total = selected.len();
        let off: usize = match query_opts.offset {
            Some(o) => {
                let o_usize = o as usize;
                if o_usize > total {
                    total
                } else {
                    o_usize
                }
            },
            None => 0,
        };
        let count: usize = match query_opts.limit {
            Some(l) => {
                let l_usize = l as usize;
                if l_usize > total - off {
                    total - off
                } else {
                    l_usize
                }
            },
            None => total - off,
        };
        let ghost window = paged(
            select_models(self.db@, class@, nview),
            query_opts.limit,
            query_opts.offset,
        );
        proof {
            assert(window =~= item_views(selected@).skip(off as int).take(count as int));
        }
        let mut out: Vec<DomainItem> = Vec::new();
        let mut j: usize = 0;
        proof {
            assert(item_views(out@) =~= window.take(0));
        }
        while j < count
            invariant
                0 <= j <= count,
                off + count <= total,
                total == selected@.len(),
                items_wf(selected@),
                items_wf(out@),
                window == item_views(selected@).skip(off as int).take(count as int),
                item_views(out@) == window.take(j as int),
            decreases count - j,
        {
            let ghost prev = out@;
            out.push(selected[off + j].clone());
            proof {
                assert(window[j as int] == item_views(selected@)[off + j]);
                assert(window.len() == count as int);
                assert(item_views(prev).len() == j as int);
                assert(prev.len() == j as int);
                assert(out@ == prev.push(out@.last()));
                assert(out@.last()@ == selected@[off + j]@);
                assert forall|idx: int| 0 <= idx < j + 1 implies item_views(out@)[idx]
                    == window.take(j + 1)[idx] by {
                    if idx < j {
                        assert(out@[idx] == prev[idx]);
                        assert(item_views(prev)[idx] == window.take(j as int)[idx]);
                    } else {
                        assert(item_views(selected@)[off + j] == selected@[off + j]@);
                    }
                }
                assert(item_views(out@) =~= window.take(j + 1));
            }
            j = j + 1;
        }
        proof {
            assert(window.take(count as int) =~= window);
        }
        Ok(out)
    }

    /// Lists the records of a collection projected onto the caller's field
    /// selection plus the identity fields; an absent selection projects the
    /// identity fields alone.
    pub fn get_tmf_items_fields(&self, class: &str, query_opts: &QueryOptions) -> (r: Result<
        Vec<DomainItem>,
        PlatypusError,
    >)
        requires
            self.wf(),
        ensures
            r matches Ok(v) && items_wf(v@) && item_views(v@) == project_all(
                paged(
                    select_models(self.db@, class@, view_opt(query_opts.name)),
                    query_opts.limit,
                    query_opts.offset,
                ),
                selection_or_empty(fields_selection_spec(view_opt(query_opts.fields))),
            ),
    {
        let names: Vec<String> = match query_to_fields(query_opts) {
            Some(f) => f,
            None => Vec::new(),
        };
        proof {
            assert(str_views(names@) =~= selection_or_empty(
                fields_selection_spec(view_opt(query_opts.fields)),
            ));
        }
        let base = match self.get_tmf_items(class, query_opts) {
            Ok(v) => v,
            Err(e) => {
                return Err(e);
            },
        };
        let ghost window = item_views(base@);
        let mut out: Vec<DomainItem> = Vec::new();
        let n = base.len();
        let mut i: usize = 0;
        proof {
            assert(item_views(out@) =~= project_all(window.take(0), str_views(names@)));
        }
        while i < n
            invariant
                0 <= i <= n,
                n == base@.len(),
                window == item_views(base@),
                items_wf(base@),
                items_wf(out@),
                item_views(out@) == project_all(window.take(i as int), str_views(names@)),
            decreases n - i,
        {
            let ghost prev = out@;
            out.push(project(&base[i], &names));
            proof {
                let ghost ns = str_views(names@);
                assert(window.len() == n as int);
                assert(item_views(prev).len() == i as int);
                assert(prev.len() == i as int);
                assert(out@ == prev.push(out@.last()));
                assert(out@.last()@ == projected_model(base@[i as int]@, ns));
                assert forall|idx: int| 0 <= idx < i + 1 implies item_views(out@)[idx]
                    == project_all(window.take(i + 1), ns)[idx] by {
                    assert(project_all(window.take(i + 1), ns)[idx] == projected_model(
                        window.take(i + 1)[idx],
                        ns,
                    ));
                    if idx < i {
                        assert(out@[idx] == prev[idx]);
                        assert(item_views(prev)[idx] == project_all(window.take(i as int), ns)[idx]);
                        assert(project_all(window.take(i as int), ns)[idx] == projected_model(
                            window.take(i as int)[idx],
                            ns,
                        ));
                    } else {
                        assert(window[i as int] == base@[i as int]@);
                    }
                }
                assert(item_views(out@) =~= project_all(window.take(i + 1), ns));
            }
            i = i + 1;
        }
        proof {
            assert(window.take(n as int) =~= window);
            assert(project_all(window.take(n as int), str_views(names@)) == project_all(
                window,
                str_views(names@),
            ));
        }
        Ok(out)
    }

    /// Lists the records of a collection, applying the caller's field
    /// selection: every field when none is asked for, otherwise the selected
    /// fields plus the identity fields.
    pub fn get_items(&self, class: &str, query_opts: &QueryOptions) -> (r: Result<
        Vec<DomainItem>,
        PlatypusError,
    >)
        requires
            self.wf(),
        ensures
            r matches Ok(v) && items_wf(v@) && item_views(v@) == list_result_models(
                self.db@,
                class@,
                view_opt(query_opts.name),
                query_opts.limit,
                query_opts.offset,
                fields_selection_spec(view_opt(query_opts.fields)),
            ),
    {
        match query_to_fields(query_opts) {
            Some(_f) => self.get_tmf_items_fields(class, query_opts),
            None => self.get_tmf_items(class, query_opts),
        }
    }

    /// Applies a shallow merge to the record keyed by `class` and `id`: the
    /// path identifier is authoritative, fields named by the patch replace
    /// the stored values, all other fields persist.  Fails as not-found when
    /// no record exists for the key.
    pub fn patch_tmf_item(&mut self, class: &str, id: &str, patch: DomainItem) -> (r: Result<
        Vec<DomainItem>,
        PlatypusError,
    >)
        requires
            old(self).wf(),
            patch.wf(),
        ensures
            final(self).wf(),
            final(self).settings == old(self).settings,
            patch_post(old(self).db@, class@, id@, patch@, final(self).db@, r),
            r is Ok <==> has_key(old(self).db@, KeyModel { class: class@, id: id@ }),
    {
        let ghost pre = self.db@;
        match self.db.find(class, id) {
            Some(i) => {
                proof {
                    lemma_key_index_unique(self.db@, i as int);
                    assert(self.db@[i as int] == self.db.records@[i as int]@);
                    assert(self.db.records@[i as int].wf());
                }
                let m = merged(&self.db.records[i].item, &patch);
                let out = m.clone();
                let payload = tmf_payload(m);
                let ghost env2 = payload@;
                self.db.records.remove(i);
                self.db.records.insert(i, payload);
                proof {
                    assert forall|j: int| 0 <= j < self.db@.len() implies self.db@[j]
                        == pre.update(i as int, env2)[j] by {
                        assert(self.db@[j] == self.db.records@[j]@);
                    }
                    assert(self.db@ =~= pre.update(i as int, env2));
                    assert(env2.key == pre[i as int].key);
                    assert forall|a: int, b: int|
                        0 <= a < b < self.db@.len() implies self.db@[a].key
                        != self.db@[b].key by {
                        assert(pre[a].key != pre[b].key);
                    }
                }
                Ok(vec![out])
            },
            None => Err(PlatypusError::with_kind(ErrorKind::NotFound, "Could not update object")),
        }
    }

    /// Applies a shallow merge and refreshes the last-update timestamp to
    /// `now`, whether or not any field value changed.
    pub fn patch_tmf_item_lastupdate(
        &mut self,
        class: &str,
        id: &str,
        patch: DomainItem,
        now: u64,
    ) -> (r: Result<Vec<DomainItem>, PlatypusError>)
        requires
            old(self).wf(),
            patch.wf(),
        ensures
            final(self).wf(),
            final(self).settings == old(self).settings,
            patch_post(old(self).db@, class@, id@, with_stamp(patch@, now), final(self).db@, r),
            r is Ok <==> has_key(old(self).db@, KeyModel { class: class@, id: id@ }),
    {
        let mut patch = patch;
        patch.last_update = Some(now);
        self.patch_tmf_item(class, id, patch)
    }

    /// Removes the record keyed by `class` and `id` and returns the removed
    /// item, so a notification payload can still be built from it.  Fails as
    /// not-found when no record exists for the key.
    pub fn delete_tmf_item(&mut self, class: &str, id: &str) -> (r: Result<
        DomainItem,
        PlatypusError,
    >)
        requires
            old(self).wf(),
        ensures
            final(self).wf(),
            final(self).settings == old(self).settings,
            delete_post(
                old(self).db@,
                class@,
                id@,
                final(self).db@,
                r,
                "Issue Deleting object"@,
            ),
            r is Ok <==> has_key(old(self).db@, KeyModel { class: class@, id: id@ }),
    {
        let ghost pre = self.db@;
        match self.db.find(class, id) {
            Some(i) => {
                proof {
                    lemma_key_index_unique(self.db@, i as int);
                    assert(self.db@[i as int] == self.db.records@[i as int]@);
                    assert(self.db.records@[i as int].wf());
                }
                let out = self.db.records[i].item.clone();
                self.db.records.remove(i);
                proof {
                    assert forall|j: int| 0 <= j < self.db@.len() implies self.db@[j]
                        == pre.remove(i as int)[j] by {
                        assert(self.db@[j] == self.db.records@[j]@);
                        if j < i {
                            assert(pre.remove(i as int)[j] == pre[j]);
                        } else {
                            assert(pre.remove(i as int)[j] == pre[j + 1]);
                        }
                    }
                    assert(self.db@ =~= pre.remove(i as int));
                    assert forall|a: int, b: int|
                        0 <= a < b < self.db@.len() implies self.db@[a].key
                        != self.db@[b].key by {
                        if b < i {
                            assert(self.db@[a] == pre[a] && self.db@[b] == pre[b]);
                        } else if a < i <= b {
                            assert(self.db@[a] == pre[a] && self.db@[b] == pre[b + 1]);
                        } else {
                            assert(self.db@[a] == pre[a + 1] && self.db@[b] == pre[b + 1]);
                        }
                    }
                }
                Ok(out)
            },
            None => Err(PlatypusError::with_kind(ErrorKind::NotFound, "Issue Deleting object")),
        }
    }

    /// Stores a notification-registry record under its caller-assigned key,
    /// without issuing an identifier.
    pub fn create_hub_item(&mut self, item: DomainItem) -> (r: Result<DomainItem, PlatypusError>)
        requires
            old(self).wf(),
            item.wf(),
            item@.id matches Some(i) && i.len() > 0,
        ensures
            final(self).wf(),
            final(self).settings == old(self).settings,
            match r {
                Ok(it) => {
                    &&& it.wf()
                    &&& it@ == item@
                    &&& !has_key(
                        old(self).db@,
                        KeyModel { class: item@.class, id: item@.id->0 },
                    )
                    &&& final(self).db@ == old(self).db@.push(
                        EnvModel {
                            key: KeyModel { class: item@.class, id: item@.id->0 },
                            item: item@,
                        },
                    )
                },
                Err(e) => {
                    &&& final(self).db@ == old(self).db@
                    &&& e.kind == ErrorKind::Conflict
                    &&& e.message@ == "Could not create object"@
                    &&& has_key(old(self).db@, KeyModel { class: item@.class, id: item@.id->0 })
                },
            },
            r is Ok <==> !has_key(old(self).db@, KeyModel { class: item@.class, id: item@.id->0 }),
    {
        let payload = tmf_payload(item);
        match self.db.find(payload.id.class.as_str(), payload.id.id.as_str()) {
            Some(_) => {
                proof {
                    assert(has_key(self.db@, payload.id@));
                }
                Err(PlatypusError::with_kind(ErrorKind::Conflict, "Could not create object"))
            },
            None => {
                let out = payload.item.clone();
                let ghost pre = self.db@;
                let ghost env = payload@;
                self.db.records.push(payload);
                proof {
                    assert(self.db@ =~= pre.push(env));
                    assert forall|a: int, b: int|
                        0 <= a < b < self.db@.len() implies self.db@[a].key
                        != self.db@[b].key by {
                        if b == self.db@.len() - 1 {
                            assert(self.db@[a] == pre[a]);
                            assert(!(pre[a].key == env.key));
                        }
                    }
                }
                Ok(out)
            },
        }
    }

    /// Removes a notification-registry record by its identifier and returns
    /// it.  Fails as not-found when no record exists for the identifier.
    pub fn delete_hub_item(&mut self, id: &str) -> (r: Result<DomainItem, PlatypusError>)
        requires
            old(self).wf(),
        ensures
            final(self).wf(),
            final(self).settings == old(self).settings,
            delete_post(
                old(self).db@,
                "hub"@,
                id@,
                final(self).db@,
                r,
                "Could not delet hub entry"@,
            ),
            r is Ok <==> has_key(old(self).db@, KeyModel { class: "hub"@, id: id@ }),
    {
        match self.delete_tmf_item("hub", id) {
            Ok(x) => Ok(x),
            Err(_) => Err(
                PlatypusError::with_kind(ErrorKind::NotFound, "Could not delet hub entry"),
            ),
        }
    }

    /// Stores a new item whose type keeps a last-update timestamp: the
    /// timestamp is set to `now` before the insert.
    pub fn create_tmf_item_lastupdate(&mut self, item: DomainItem, now: u64) -> (r: Result<
        Vec<DomainItem>,
        PlatypusError,
    >)
        requires
            old(self).wf(),
            item.wf(),
        ensures
            final(self).wf(),
            final(self).settings == old(self).settings,
            create_post(old(self).db@, with_stamp(item@, now), final(self).db@, r),
            create_outcome_owed(old(self).db@, with_stamp(item@, now), r),
    {
        let mut item = item;
        item.last_update = Some(now);
        self.create_tmf_item(item)
    }
}

} // verus!
