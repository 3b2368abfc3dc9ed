//! The domain item model.
//!
//! A domain item is one typed resource: a class (its collection name), an
//! optional string identifier, an optional derived `href`, an optional
//! last-update timestamp, and a set of named fields.  The field set is held
//! as a vector of name/value pairs with pairwise-distinct names, and is
//! modelled as a map from name to value.

use vstd::prelude::*;

verus! {

/// The view of an optional string, for contracts.
pub open spec fn view_opt(o: Option<String>) -> Option<Seq<char>> {
    match o {
        Some(s) => Some(s@),
        None => None,
    }
}

/// Clones an optional string.
pub fn clone_opt(o: &Option<String>) -> (r: Option<String>)
    ensures
        view_opt(r) == view_opt(*o),
{
    match o {
        Some(s) => Some(s.clone()),
        None => None,
    }
}

/// One named field of a domain item.
pub struct Field {
    /// The field's name.
    pub name: String,
    /// The field's value.
    pub value: String,
}

impl View for Field {
    type V = (Seq<char>, Seq<char>);

    open spec fn view(&self) -> (Seq<char>, Seq<char>) {
        (self.name@, self.value@)
    }
}

impl Clone for Field {
    fn clone(&self) -> (r: Self)
        ensures
            r == *self,
    {
        Field { name: self.name.clone(), value: self.value.clone() }
    }
}

/// The names of a field list are pairwise distinct.
pub open spec fn fields_wf(fs: Seq<Field>) -> bool {
    forall|i: int, j: int| 0 <= i < j < fs.len() ==> fs[i].name@ != fs[j].name@
}

/// The map from field name to field value that a field list holds.
pub open spec fn fields_map(fs: Seq<Field>) -> Map<Seq<char>, Seq<char>>
    decreases fs.len(),
{
    if fs.len() == 0 {
        Map::empty()
    } else {
        fields_map(fs.drop_last()).insert(fs.last().name@, fs.last().value@)
    }
}

/// A name is in the field map exactly when some entry carries it.
pub proof fn lemma_fields_map_contains(fs: Seq<Field>, name: Seq<char>)
    ensures
        fields_map(fs).contains_key(name) <==> exists|i: int|
            0 <= i < fs.len() && fs[i].name@ == name,
    decreases fs.len(),
{
    if fs.len() > 0 {
        lemma_fields_map_contains(fs.drop_last(), name);
        if fs.last().name@ == name {
            assert(fs[fs.len() - 1].name@ == name);
        } else if exists|i: int| 0 <= i < fs.len() && fs[i].name@ == name {
            let i = choose|i: int| 0 <= i < fs.len() && fs[i].name@ == name;
            assert(fs.drop_last()[i] == fs[i]);
        }
    }
}

/// With distinct names, each entry gives its name's value in the field map.
pub proof fn lemma_fields_map_index(fs: Seq<Field>, i: int)
    requires
        fields_wf(fs),
        0 <= i < fs.len(),
    ensures
        fields_map(fs).contains_key(fs[i].name@),
        fields_map(fs)[fs[i].name@] == fs[i].value@,
    decreases fs.len(),
{
    if i < fs.len() - 1 {
        lemma_fields_map_index(fs.drop_last(), i);
        assert(fs.drop_last()[i] == fs[i]);
    }
}

/// Removing an entry removes exactly its name from the field map.
pub proof fn lemma_fields_map_remove(fs: Seq<Field>, i: int)
    requires
        fields_wf(fs),
        0 <= i < fs.len(),
    ensures
        fields_map(fs.remove(i)) == fields_map(fs).remove(fs[i].name@),
    decreases fs.len(),
{
    if i == fs.len() - 1 {
        lemma_fields_map_contains(fs.drop_last(), fs[i].name@);
        assert(fs.remove(i) =~= fs.drop_last());
        assert(fields_map(fs.drop_last()) =~= fields_map(fs).remove(fs[i].name@));
    } else {
        lemma_fields_map_remove(fs.drop_last(), i);
        assert(fs.remove(i).drop_last() =~= fs.drop_last().remove(i));
        assert(fs.remove(i).last() == fs.last());
        assert(fields_map(fs.remove(i)) == fields_map(fs.drop_last().remove(i)).insert(
            fs.last().name@,
            fs.last().value@,
        ));
        assert(fields_map(fs.remove(i)) =~= fields_map(fs).remove(fs[i].name@));
    }
}

/// The mathematical model of a domain item.
pub ghost struct ItemModel {
    /// The collection the item belongs to.
    pub class: Seq<char>,
    /// The item's identifier, once assigned.
    pub id: Option<Seq<char>>,
    /// The item's derived reference path.
    pub href: Option<Seq<char>>,
    /// The item's last-update timestamp, for types that keep one.
    pub last_update: Option<u64>,
    /// The item's named fields.
    pub fields: Map<Seq<char>, Seq<char>>,
}

/// One typed resource, as the gateway stores and returns it.
pub struct DomainItem {
    /// The collection the item belongs to.
    pub class: String,
    /// The item's identifier, once assigned.
    pub id: Option<String>,
    /// The item's derived reference path.
    pub href: Option<String>,
    /// The item's last-update timestamp, for types that keep one.
    pub last_update: Option<u64>,
    /// The item's named fields.
    pub fields: Vec<Field>,
}

impl View for DomainItem {
    type V = ItemModel;

    open spec fn view(&self) -> ItemModel {
        ItemModel {
            class: self.class@,
            id: view_opt(self.id),
            href: view_opt(self.href),
            last_update: self.last_update,
            fields: fields_map(self.fields@),
        }
    }
}

impl Clone for DomainItem {
    fn clone(&self) -> (r: Self)
        ensures
            r@ == self@,
            r.wf() == self.wf(),
    {
        let mut fields: Vec<Field> = Vec::new();
        let n = self.fields.len();
        let mut i: usize = 0;
        while i < n
            invariant
                0 <= i <= n,
                n == self.fields.len(),
                fields@ =~= self.fields@.take(i as int),
            decreases n - i,
        {
            fields.push(self.fields[i].clone());
            proof {
                assert(fields@ =~= self.fields@.take(i + 1));
            }
            i = i + 1;
        }
        proof {
            assert(fields@ =~= self.fields@);
        }
        DomainItem {
            class: self.class.clone(),
            id: clone_opt(&self.id),
            href: clone_opt(&self.href),
            last_update: self.last_update,
            fields,
        }
    }
}

impl DomainItem {
    /// The field names are pairwise distinct.
    pub open spec fn wf(&self) -> bool {
        fields_wf(self.fields@)
    }

    /// A fresh item of the given class: no id, no fields.
    pub fn new(class: String) -> (r: DomainItem)
        ensures
            r.wf(),
            r@ == (ItemModel {
                class: class@,
                id: None,
                href: None,
                last_update: None,
                fields: Map::<Seq<char>, Seq<char>>::empty(),
            }),
    {
        let r = DomainItem { class, id: None, href: None, last_update: None, fields: Vec::new() };
        proof {
            assert(r@.fields =~= Map::<Seq<char>, Seq<char>>::empty());
        }
        r
    }

    /// The position of the entry named `name`, if one exists.
    fn find_field(&self, name: &str) -> (r: Option<usize>)
        ensures
            match r {
                Some(i) => i < self.fields@.len() && self.fields@[i as int].name@ == name@,
                None => forall|i: int| 0 <= i < self.fields@.len() ==> self.fields@[i].name@
                    != name@,
            },
    {
        let name_owned: String = name.to_owned();
        let n = self.fields.len();
        let mut i: usize = 0;
        while i < n
            invariant
                0 <= i <= n,
                n == self.fields@.len(),
                name_owned@ == name@,
                forall|j: int| 0 <= j < i ==> self.fields@[j].name@ != name@,
            decreases n - i,
        {
            if self.fields[i].name == name_owned {
                return Some(i);
            }
            i = i + 1;
        }
        None
    }

    /// The value of the field named `name`, if the item carries it.
    pub fn get_field(&self, name: &str) -> (r: Option<String>)
        requires
            self.wf(),
        ensures
            view_opt(r) == if self@.fields.contains_key(name@) {
                Some(self@.fields[name@])
            } else {
                None::<Seq<char>>
            },
    {
        proof {
            lemma_fields_map_contains(self.fields@, name@);
        }
        match self.find_field(name) {
            Some(i) => {
                proof {
                    lemma_fields_map_index(self.fields@, i as int);
                }
                Some(self.fields[i].value.clone())
            },
            None => None,
        }
    }

    /// Sets the field named `name` to `value`, replacing any earlier value.
    pub fn set_field(&mut self, name: String, value: String)
        requires
            old(self).wf(),
        ensures
            final(self).wf(),
            final(self)@ == (ItemModel {
                fields: old(self)@.fields.insert(name@, value@),
                ..old(self)@
            }),
    {
        let ghost before = self.fields@;
        match self.find_field(name.as_str()) {
            Some(i) => {
                proof {
                    lemma_fields_map_remove(before, i as int);
                }
                self.fields.remove(i);
                proof {
                    assert(self.fields@ == before.remove(i as int));
                    assert forall|j: int| 0 <= j < self.fields@.len() implies self.fields@[j].name@
                        != name@ by {
                        if j < i {
                            assert(self.fields@[j] == before[j]);
                        } else {
                            assert(self.fields@[j] == before[j + 1]);
                        }
                    }
                    assert forall|a: int, b: int|
                        0 <= a < b < self.fields@.len() implies self.fields@[a].name@
                        != self.fields@[b].name@ by {
                        if b < i {
                            assert(self.fields@[a] == before[a] && self.fields@[b] == before[b]);
                        } else if a < i <= b {
                            assert(self.fields@[a] == before[a] && self.fields@[b] == before[b
                                + 1]);
                        } else {
                            assert(self.fields@[a] == before[a + 1] && self.fields@[b] == before[b
                                + 1]);
                        }
                    }
                }
                let ghost removed = self.fields@;
                self.fields.push(Field { name, value });
                proof {
                    assert(self.fields@.drop_last() =~= removed);
                    assert(self.fields@.last().name@ == name@);
                    assert(fields_map(self.fields@) == fields_map(removed).insert(name@, value@));
                    assert(fields_map(self.fields@) =~= fields_map(before).insert(name@, value@));
                }
            },
            None => {
                self.fields.push(Field { name, value });
                proof {
                    assert(self.fields@.drop_last() =~= before);
                    assert(fields_map(self.fields@) == fields_map(before).insert(name@, value@));
                    assert forall|a: int, b: int|
                        0 <= a < b < self.fields@.len() implies self.fields@[a].name@
                        != self.fields@[b].name@ by {
                        if b < self.fields@.len() - 1 {
                            assert(self.fields@[a] == before[a] && self.fields@[b] == before[b]);
                        } else {
                            assert(self.fields@[a] == before[a]);
                        }
                    }
                }
            },
        }
    }
}

/// The shallow overwrite merge of a patch over an existing item: fields named
/// by the patch replace the existing values, all other fields persist; the
/// identifier and the class stay those of the existing item.
pub open spec fn merged_model(base: ItemModel, patch: ItemModel) -> ItemModel {
    ItemModel {
        class: base.class,
        id: base.id,
        href: if patch.href is Some {
            patch.href
        } else {
            base.href
        },
        last_update: if patch.last_update is Some {
            patch.last_update
        } else {
            base.last_update
        },
        fields: base.fields.union_prefer_right(patch.fields),
    }
}

/// Whether a name list carries the given name.
pub fn names_contains(names: &Vec<String>, name: &str) -> (r: bool)
    ensures
        r == crate::query::str_views(names@).contains(name@),
{
    let name_owned: String = name.to_owned();
    let n = names.len();
    let mut i: usize = 0;
    while i < n
        invariant
            0 <= i <= n,
            n == names@.len(),
            name_owned@ == name@,
            forall|j: int| 0 <= j < i ==> crate::query::str_views(names@)[j] != name@,
        decreases n - i,
    {
        if names[i] == name_owned {
            proof {
                assert(crate::query::str_views(names@)[i as int] == name@);
            }
            return true;
        }
        i = i + 1;
    }
    false
}

/// The projection of an item onto an explicit field list: the identity
/// fields (class, id, href) are always kept, the named fields are kept, all
/// other fields are dropped.  The last-update slot is a field like any other:
/// it survives only when the list names `lastUpdate`.
pub open spec fn projected_model(m: ItemModel, names: Seq<Seq<char>>) -> ItemModel {
    ItemModel {
        class: m.class,
        id: m.id,
        href: m.href,
        last_update: if names.contains("lastUpdate"@) {
            m.last_update
        } else {
            None
        },
        fields: m.fields.restrict(names.to_set()),
    }
}

/// Projects an item onto an explicit field list: see [`projected_model`].
pub fn project(item: &DomainItem, names: &Vec<String>) -> (r: DomainItem)
    requires
        item.wf(),
    ensures
        r.wf(),
        r@ == projected_model(item@, crate::query::str_views(names@)),
{
    let ghost nviews = crate::query::str_views(names@);
    let mut fields: Vec<Field> = Vec::new();
    let n = item.fields.len();
    let mut i: usize = 0;
    proof {
        assert(item.fields@.take(0) =~= Seq::<Field>::empty());
        assert(fields_map(fields@) =~= fields_map(item.fields@.take(0)).restrict(nviews.to_set()));
    }
    while i < n
        invariant
            0 <= i <= n,
            n == item.fields@.len(),
            item.wf(),
            nviews == crate::query::str_views(names@),
            fields_wf(fields@),
            fields_map(fields@) == fields_map(item.fields@.take(i as int)).restrict(
                nviews.to_set(),
            ),
            forall|j: int| 0 <= j < fields@.len() ==> exists|k: int|
                0 <= k < i && (#[trigger] fields@[j]).name@ == item.fields@[k].name@,
        decreases n - i,
    {
        proof {
            assert(item.fields@.take(i + 1).drop_last() =~= item.fields@.take(i as int));
            assert(item.fields@.take(i + 1).last() == item.fields@[i as int]);
        }
        let keep = names_contains(names, item.fields[i].name.as_str());
        if keep {
            let ghost prev = fields@;
            fields.push(item.fields[i].clone());
            proof {
                assert(fields@.drop_last() =~= prev);
                assert(fields_map(fields@) == fields_map(prev).insert(
                    item.fields@[i as int].name@,
                    item.fields@[i as int].value@,
                ));
                assert(fields_map(fields@) =~= fields_map(item.fields@.take(i + 1)).restrict(
                    nviews.to_set(),
                ));
                assert forall|a: int, b: int|
                    0 <= a < b < fields@.len() implies fields@[a].name@ != fields@[b].name@ by {
                    if b < fields@.len() - 1 {
                        assert(fields@[a] == prev[a] && fields@[b] == prev[b]);
                    } else {
                        assert(fields@[a] == prev[a]);
                        let k = choose|k: int|
                            0 <= k < i && prev[a].name@ == item.fields@[k].name@;
                        assert(item.fields@[k].name@ != item.fields@[i as int].name@);
                    }
                }
                assert forall|j: int| 0 <= j < fields@.len() implies exists|k: int|
                    0 <= k < i + 1 && (#[trigger] fields@[j]).name@ == item.fields@[k].name@ by {
                    if j < fields@.len() - 1 {
                        assert(fields@[j] == prev[j]);
                        let k = choose|k: int|
                            0 <= k < i && prev[j].name@ == item.fields@[k].name@;
                        assert(0 <= k < i + 1 && fields@[j].name@ == item.fields@[k].name@);
                    } else {
                        assert(fields@[j].name@ == item.fields@[i as int].name@);
                    }
                }
            }
        } else {
            proof {
                assert(fields_map(fields@) =~= fields_map(item.fields@.take(i + 1)).restrict(
                    nviews.to_set(),
                ));
            }
        }
        i = i + 1;
    }
    proof {
        assert(item.fields@.take(n as int) =~= item.fields@);
    }
    let last_update: Option<u64> = if names_contains(names, "lastUpdate") {
        item.last_update
    } else {
        None
    };
    DomainItem {
        class: item.class.clone(),
        id: clone_opt(&item.id),
        href: clone_opt(&item.href),
        last_update,
        fields,
    }
}

/// Merges `patch` over `base`, shallowly: see [`merged_model`].
pub fn merged(base: &DomainItem, patch: &DomainItem) -> (r: DomainItem)
    requires
        base.wf(),
        patch.wf(),
    ensures
        r.wf(),
        r@ == merged_model(base@, patch@),
{
    let mut out = base.clone();
    match &patch.href {
        Some(h) => {
            out.href = Some(h.clone());
        },
        None => {},
    }
    match patch.last_update {
        Some(t) => {
            out.last_update = Some(t);
        },
        None => {},
    }
    proof {
        assert(patch.fields@.take(0) =~= Seq::<Field>::empty());
        assert(out@.fields =~= base@.fields.union_prefer_right(
            fields_map(patch.fields@.take(0)),
        ));
    }
    let n = patch.fields.len();
    let mut i: usize = 0;
    while i < n
        invariant
            0 <= i <= n,
            n == patch.fields@.len(),
            patch.wf(),
            out.wf(),
            out@.class == base@.class,
            out@.id == base@.id,
            out@.href == merged_model(base@, patch@).href,
            out@.last_update == merged_model(base@, patch@).last_update,
            out@.fields == base@.fields.union_prefer_right(
                fields_map(patch.fields@.take(i as int)),
            ),
        decreases n - i,
    {
        let name = patch.fields[i].name.clone();
        let value = patch.fields[i].value.clone();
        out.set_field(name, value);
        proof {
            assert(patch.fields@.take(i + 1).drop_last() =~= patch.fields@.take(i as int));
            assert(patch.fields@.take(i + 1).last() == patch.fields@[i as int]);
            assert(out@.fields =~= base@.fields.union_prefer_right(
                fields_map(patch.fields@.take(i + 1)),
            ));
        }
        i = i + 1;
    }
    proof {
        assert(patch.fields@.take(n as int) =~= patch.fields@);
    }
    out
}

} // verus!
