//! The resource cache: one store per resource kind (held as one table keyed
//! by kind and id) plus a single slot for the bridge resource itself.
use vstd::prelude::*;
use crate::json::{Json, JsonValue, member, members_of, merge, merge_patch};
use crate::reconcile::text_of;
use crate::resource::{ResourceType, ResourceIdentifier, is_stored_kind, kind_of_tag};

verus! {

/// Model of the cache: the bridge slot (id and document) and the stored
/// entries (kind, id, document) in the order they were first stored.
pub struct CacheModel {
    pub bridge: Option<(Seq<char>, Json)>,
    pub entries: Seq<(ResourceType, Seq<char>, Json)>,
}

/// Index of the last entry for (`k`, `id`), or -1.
pub open spec fn entry_index(e: Seq<(ResourceType, Seq<char>, Json)>, k: ResourceType, id: Seq<char>) -> int
    decreases e.len(),
{
    if e.len() == 0 {
        -1
    } else if e.last().0 == k && e.last().1 == id {
        e.len() - 1
    } else {
        entry_index(e.drop_last(), k, id)
    }
}

/// Stores `d` under (`k`, `id`): replaces the entry in place, or appends one.
pub open spec fn upsert(
    e: Seq<(ResourceType, Seq<char>, Json)>,
    k: ResourceType,
    id: Seq<char>,
    d: Json,
) -> Seq<(ResourceType, Seq<char>, Json)> {
    if entry_index(e, k, id) >= 0 {
        e.update(entry_index(e, k, id), (k, id, d))
    } else {
        e.push((k, id, d))
    }
}

/// The entries without those for (`k`, `id`).
pub open spec fn remove_entry(e: Seq<(ResourceType, Seq<char>, Json)>, k: ResourceType, id: Seq<char>) -> Seq<
    (ResourceType, Seq<char>, Json),
>
    decreases e.len(),
{
    if e.len() == 0 {
        e
    } else {
        let rest = remove_entry(e.drop_last(), k, id);
        if e.last().0 == k && e.last().1 == id {
            rest
        } else {
            rest.push(e.last())
        }
    }
}

/// Number of entries of kind `k`.
pub open spec fn count_of(e: Seq<(ResourceType, Seq<char>, Json)>, k: ResourceType) -> nat
    decreases e.len(),
{
    if e.len() == 0 {
        0
    } else {
        count_of(e.drop_last(), k) + if e.last().0 == k {
            1nat
        } else {
            0nat
        }
    }
}

/// The documents of kind `k`, in store order.
pub open spec fn all_of(e: Seq<(ResourceType, Seq<char>, Json)>, k: ResourceType) -> Seq<Json>
    decreases e.len(),
{
    if e.len() == 0 {
        Seq::empty()
    } else if e.last().0 == k {
        all_of(e.drop_last(), k).push(e.last().2)
    } else {
        all_of(e.drop_last(), k)
    }
}

/// No two entries share kind and id, and every entry is of a stored kind.
pub open spec fn entries_wf(e: Seq<(ResourceType, Seq<char>, Json)>) -> bool {
    &&& forall|i: int| 0 <= i < e.len() ==> is_stored_kind(#[trigger] e[i].0)
    &&& forall|i: int, j: int|
        0 <= i < j < e.len() ==> !(#[trigger] e[i].0 == #[trigger] e[j].0 && e[i].1 == e[j].1)
}

impl CacheModel {
    pub open spec fn wf(self) -> bool {
        entries_wf(self.entries)
    }

    /// The cache with nothing in it.
    pub open spec fn empty() -> CacheModel {
        CacheModel { bridge: None, entries: Seq::empty() }
    }

    /// The document stored for (`k`, `id`).
    pub open spec fn lookup(self, k: ResourceType, id: Seq<char>) -> Option<Json> {
        if k is Bridge {
            match self.bridge {
                Some(b) => if b.0 == id {
                    Some(b.1)
                } else {
                    None
                },
                None => None,
            }
        } else if is_stored_kind(k) && entry_index(self.entries, k, id) >= 0 {
            Some(self.entries[entry_index(self.entries, k, id)].2)
        } else {
            None
        }
    }

    /// Number of stored resources of kind `k`.
    pub open spec fn count(self, k: ResourceType) -> nat {
        count_of(self.entries, k)
    }

    /// Insert or replace: the whole document is stored, nothing is merged.
    /// Kinds that carry no data are ignored.
    pub open spec fn insert_one(self, k: ResourceType, id: Seq<char>, d: Json) -> CacheModel {
        if k is Bridge {
            CacheModel { bridge: Some((id, d)), entries: self.entries }
        } else if is_stored_kind(k) {
            CacheModel { bridge: self.bridge, entries: upsert(self.entries, k, id, d) }
        } else {
            self
        }
    }

    /// Merge a patch onto the stored document; with no stored document the
    /// patch is dropped.
    pub open spec fn update_one(self, k: ResourceType, id: Seq<char>, patch: Json) -> CacheModel {
        match self.lookup(k, id) {
            Some(d) => self.insert_one(k, id, merge_patch(d, patch)),
            None => self,
        }
    }

    /// Remove (`k`, `id`); deleting the bridge clears its slot, and kinds
    /// that carry no data are left alone.
    pub open spec fn delete_one(self, k: ResourceType, id: Seq<char>) -> CacheModel {
        if k is Bridge {
            CacheModel { bridge: None, entries: self.entries }
        } else if is_stored_kind(k) {
            CacheModel { bridge: self.bridge, entries: remove_entry(self.entries, k, id) }
        } else {
            self
        }
    }
}

/// `entry_index` finds a matching entry, or there is none.
pub proof fn lemma_entry_index(e: Seq<(ResourceType, Seq<char>, Json)>, k: ResourceType, id: Seq<char>)
    ensures
        -1 <= entry_index(e, k, id) < e.len(),
        entry_index(e, k, id) >= 0 ==> e[entry_index(e, k, id)].0 == k && e[entry_index(e, k, id)].1
            == id,
        entry_index(e, k, id) < 0 ==> forall|i: int|
            0 <= i < e.len() ==> !(#[trigger] e[i].0 == k && e[i].1 == id),
    decreases e.len(),
{
    if e.len() > 0 {
        lemma_entry_index(e.drop_last(), k, id);
        if !(e.last().0 == k && e.last().1 == id) {
            assert forall|i: int| 0 <= i < e.len() - 1 implies e[i] == e.drop_last()[i] by {}
        }
    }
}

/// Removing entries keeps the others and the well-formedness.
pub proof fn lemma_remove_entry(e: Seq<(ResourceType, Seq<char>, Json)>, k: ResourceType, id: Seq<char>)
    ensures
        forall|j: int|
            0 <= j < remove_entry(e, k, id).len() ==> e.contains(#[trigger] remove_entry(e, k, id)[j]),
        forall|j: int|
            0 <= j < remove_entry(e, k, id).len() ==> !(#[trigger] remove_entry(e, k, id)[j].0 == k
                && remove_entry(e, k, id)[j].1 == id),
        forall|p: int|
            0 <= p < e.len() && !(#[trigger] e[p].0 == k && e[p].1 == id) ==> remove_entry(
                e,
                k,
                id,
            ).contains(e[p]),
        entries_wf(e) ==> entries_wf(remove_entry(e, k, id)),
    decreases e.len(),
{
    if e.len() > 0 {
        let p = e.drop_last();
        lemma_remove_entry(p, k, id);
        let rest = remove_entry(p, k, id);
        assert forall|q: int| 0 <= q < e.len() && !(#[trigger] e[q].0 == k && e[q].1 == id) implies remove_entry(
            e,
            k,
            id,
        ).contains(e[q]) by {
            let r = remove_entry(e, k, id);
            if q < e.len() - 1 {
                assert(e[q] == p[q]);
                let j = choose|j: int| 0 <= j < rest.len() && rest[j] == p[q];
                assert(r[j] == rest[j]);
            } else {
                assert(r[r.len() - 1] == e[q]);
            }
        }
        assert forall|j: int| 0 <= j < rest.len() implies e.contains(#[trigger] rest[j]) by {
            let i = choose|i: int| 0 <= i < p.len() && p[i] == rest[j];
            assert(e[i] == rest[j]);
        }
        if entries_wf(e) {
            assert(entries_wf(p)) by {
                assert forall|i: int| 0 <= i < p.len() implies is_stored_kind(#[trigger] p[i].0) by {
                    assert(p[i] == e[i]);
                }
                assert forall|i: int, j: int| 0 <= i < j < p.len() implies !(#[trigger] p[i].0
                    == #[trigger] p[j].0 && p[i].1 == p[j].1) by {
                    assert(p[i] == e[i] && p[j] == e[j]);
                }
            }
            if !(e.last().0 == k && e.last().1 == id) {
                let r = rest.push(e.last());
                assert forall|j: int| 0 <= j < rest.len() implies !(rest[j].0 == e.last().0
                    && rest[j].1 == e.last().1) by {
                    let i = choose|i: int| 0 <= i < p.len() && p[i] == rest[j];
                    assert(p[i] == e[i]);
                }
                assert forall|a: int, b: int| 0 <= a < b < r.len() implies !(#[trigger] r[a].0
                    == #[trigger] r[b].0 && r[a].1 == r[b].1) by {
                    if b == r.len() - 1 {
                        assert(r[a] == rest[a]);
                    } else {
                        assert(r[a] == rest[a] && r[b] == rest[b]);
                    }
                }
                assert forall|a: int| 0 <= a < r.len() implies is_stored_kind(#[trigger] r[a].0) by {
                    if a < rest.len() {
                        assert(r[a] == rest[a]);
                        let i = choose|i: int| 0 <= i < p.len() && p[i] == rest[a];
                        assert(p[i] == e[i]);
                    }
                }
            }
        }
    }
}

/// Storing a document keeps the well-formedness.
pub proof fn lemma_upsert_wf(e: Seq<(ResourceType, Seq<char>, Json)>, k: ResourceType, id: Seq<char>, d: Json)
    requires
        entries_wf(e),
        is_stored_kind(k),
    ensures
        entries_wf(upsert(e, k, id, d)),
{
    lemma_entry_index(e, k, id);
    let r = upsert(e, k, id, d);
    if entry_index(e, k, id) >= 0 {
        let x = entry_index(e, k, id);
        assert forall|a: int, b: int| 0 <= a < b < r.len() implies !(#[trigger] r[a].0
            == #[trigger] r[b].0 && r[a].1 == r[b].1) by {
            assert(r[a].0 == e[a].0 && r[a].1 == e[a].1);
            assert(r[b].0 == e[b].0 && r[b].1 == e[b].1);
        }
        assert forall|a: int| 0 <= a < r.len() implies is_stored_kind(#[trigger] r[a].0) by {
            assert(r[a].0 == e[a].0);
        }
    } else {
        assert forall|a: int, b: int| 0 <= a < b < r.len() implies !(#[trigger] r[a].0
            == #[trigger] r[b].0 && r[a].1 == r[b].1) by {
            if b == r.len() - 1 {
                assert(r[a] == e[a]);
            } else {
                assert(r[a] == e[a] && r[b] == e[b]);
            }
        }
        assert forall|a: int| 0 <= a < r.len() implies is_stored_kind(#[trigger] r[a].0) by {
            if a < e.len() {
                assert(r[a] == e[a]);
            }
        }
    }
}

/// The name a document gives in `metadata.name`, if it is a string.
pub open spec fn name_of(doc: Json) -> Option<Seq<char>> {
    text_of(member(members_of(member(members_of(doc), "metadata"@)), "name"@))
}

/// The ids of the entries of kind `k` named `name`, in store order.
pub open spec fn ids_named(e: Seq<(ResourceType, Seq<char>, Json)>, k: ResourceType, name: Seq<char>) -> Seq<Seq<char>>
    decreases e.len(),
{
    if e.len() == 0 {
        Seq::empty()
    } else if e.last().0 == k && name_of(e.last().2) == Some(name) {
        ids_named(e.drop_last(), k, name).push(e.last().1)
    } else {
        ids_named(e.drop_last(), k, name)
    }
}

/// One stored resource.
pub struct CacheEntry {
    pub rtype: ResourceType,
    pub id: String,
    pub data: JsonValue,
}

/// The last known state of every resource seen.
pub struct BridgeCache {
    bridge: Option<(String, JsonValue)>,
    entries: Vec<CacheEntry>,
}

pub open spec fn entries_view(v: Seq<CacheEntry>) -> Seq<(ResourceType, Seq<char>, Json)> {
    Seq::new(v.len(), |i: int| (v[i].rtype, v[i].id@, v[i].data@))
}

/// The models of a sequence of documents.
pub open spec fn docs_view(v: Seq<JsonValue>) -> Seq<Json> {
    Seq::new(v.len(), |i: int| v[i]@)
}

impl BridgeCache {
    pub closed spec fn view(&self) -> CacheModel {
        CacheModel {
            bridge: match self.bridge {
                Some(b) => Some((b.0@, b.1@)),
                None => None,
            },
            entries: entries_view(self.entries@),
        }
    }

    pub open spec fn wf(&self) -> bool {
        self@.wf()
    }

    /// An empty cache.
    pub fn new() -> (r: BridgeCache)
        ensures
            r@ == CacheModel::empty(),
            r.wf(),
    {
        let r = BridgeCache { bridge: None, entries: Vec::new() };
        assert(r@.entries =~= Seq::empty());
        r
    }

    fn find(&self, k: ResourceType, id: &String) -> (r: Option<usize>)
        ensures
            entry_index(self@.entries, k, id@) == match r {
                Some(i) => i as int,
                None => -1,
            },
            r is Some ==> r.unwrap() < self.entries.len(),
    {
        let ghost full = self@.entries;
        let mut i: usize = self.entries.len();
        assert(full.take(i as int) =~= full);
        while i > 0
            invariant
                i <= self.entries.len(),
                full == self@.entries,
                entry_index(full, k, id@) == entry_index(full.take(i as int), k, id@),
            decreases i,
        {
            assert(full.take(i as int).drop_last() =~= full.take(i - 1));
            if self.entries[i - 1].rtype == k && self.entries[i - 1].id == *id {
                return Some(i - 1);
            }
            i -= 1;
        }
        None
    }

    /// A copy of the document stored for (`k`, `id`).
    pub fn get(&self, k: ResourceType, id: &String) -> (r: Option<JsonValue>)
        ensures
            match r {
                Some(d) => self@.lookup(k, id@) == Some(d@),
                None => self@.lookup(k, id@) is None,
            },
    {
        match k {
            ResourceType::Bridge => match &self.bridge {
                Some(b) => if b.0 == *id {
                    Some(b.1.deep_copy())
                } else {
                    None
                },
                None => None,
            },
            _ => {
                if !k.is_stored() {
                    return None;
                }
                match self.find(k, id) {
                    Some(i) => Some(self.entries[i].data.deep_copy()),
                    None => None,
                }
            },
        }
    }

    /// A copy of the bridge's own document, when it has been seen.
    pub fn data(&self) -> (r: Option<JsonValue>)
        ensures
            match r {
                Some(d) => self@.bridge is Some && self@.bridge.unwrap().1 == d@,
                None => self@.bridge is None,
            },
    {
        match &self.bridge {
            Some(b) => Some(b.1.deep_copy()),
            None => None,
        }
    }

    /// Number of stored resources of kind `k`.
    pub fn count(&self, k: ResourceType) -> (r: usize)
        ensures
            r == self@.count(k),
    {
        let ghost full = self@.entries;
        let mut n: usize = 0;
        let mut i: usize = 0;
        while i < self.entries.len()
            invariant
                i <= self.entries.len(),
                full == self@.entries,
                n == count_of(full.take(i as int), k),
                n <= i,
            decreases self.entries.len() - i,
        {
            assert(full.take(i + 1).drop_last() =~= full.take(i as int));
            if self.entries[i].rtype == k {
                n += 1;
            }
            i += 1;
        }
        assert(full.take(i as int) =~= full);
        n
    }

    /// Copies of all stored documents of kind `k`, in store order.
    pub fn get_all(&self, k: ResourceType) -> (r: Vec<JsonValue>)
        ensures
            docs_view(r@) == all_of(self@.entries, k),
    {
        let ghost full = self@.entries;
        let mut out: Vec<JsonValue> = Vec::new();
        let mut i: usize = 0;
        while i < self.entries.len()
            invariant
                i <= self.entries.len(),
                full == self@.entries,
                docs_view(out@) == all_of(full.take(i as int), k),
            decreases self.entries.len() - i,
        {
            assert(full.take(i + 1).drop_last() =~= full.take(i as int));
            if self.entries[i].rtype == k {
                let ghost before = out@;
                out.push(self.entries[i].data.deep_copy());
                assert(docs_view(out@) =~= docs_view(before).push(full[i as int].2));
            }
            i += 1;
        }
        assert(full.take(i as int) =~= full);
        out
    }
    /// The ids of the stored resources of kind `k` whose metadata names
    /// them `name`, in store order.
    pub fn ids_named(&self, k: ResourceType, name: &String) -> (r: Vec<String>)
        ensures
            Seq::new(r.len() as nat, |i: int| r[i]@) == ids_named(self@.entries, k, name@),
    {
        let ghost full = self@.entries;
        let meta_key = "metadata".to_owned();
        let name_key = "name".to_owned();
        let mut out: Vec<String> = Vec::new();
        let mut i: usize = 0;
        while i < self.entries.len()
            invariant
                i <= self.entries.len(),
                full == self@.entries,
                meta_key@ == "metadata"@,
                name_key@ == "name"@,
                Seq::new(out.len() as nat, |j: int| out[j]@) == ids_named(full.take(i as int), k, name@),
            decreases self.entries.len() - i,
        {
            assert(full.take(i + 1).drop_last() =~= full.take(i as int));
            let e = &self.entries[i];
            let named = if e.rtype == k {
                match e.data.get(&meta_key) {
                    Some(m) => match m.get(&name_key) {
                        Some(JsonValue::Str(n)) => *n == *name,
                        _ => false,
                    },
                    None => false,
                }
            } else {
                false
            };
            if named {
                let ghost before = out@;
                out.push(e.id.clone());
                assert(Seq::new(out.len() as nat, |j: int| out[j]@) =~= Seq::new(
                    before.len() as nat,
                    |j: int| before[j]@,
                ).push(full[i as int].1));
            }
            i += 1;
        }
        assert(full.take(i as int) =~= full);
        out
    }

    /// Insert or replace the whole document stored for (`k`, `id`).
    pub fn insert(&mut self, k: ResourceType, id: String, d: JsonValue)
        requires
            old(self).wf(),
        ensures
            final(self)@ == old(self)@.insert_one(k, id@, d@),
            final(self).wf(),
    {
        let ghost kid = (k, id@, d@);
        match k {
            ResourceType::Bridge => {
                self.bridge = Some((id, d));
            },
            _ => {
                if k.is_stored() {
                    proof {
                        lemma_upsert_wf(old(self)@.entries, k, id@, d@);
                    }
                    match self.find(k, &id) {
                        Some(i) => {
                            self.entries.set(i, CacheEntry { rtype: k, id, data: d });
                            assert(self@.entries =~= old(self)@.entries.update(i as int, kid));
                        },
                        None => {
                            self.entries.push(CacheEntry { rtype: k, id, data: d });
                            assert(self@.entries =~= old(self)@.entries.push(kid));
                        },
                    }
                }
            },
        }
    }

    /// Merge `patch` onto the document stored for (`k`, `id`); returns
    /// whether there was one (without it the patch is dropped).
    pub fn update(&mut self, k: ResourceType, id: &String, patch: &JsonValue) -> (found: bool)
        requires
            old(self).wf(),
        ensures
            final(self)@ == old(self)@.update_one(k, id@, patch@),
            found == old(self)@.lookup(k, id@) is Some,
            final(self).wf(),
    {
        match self.get(k, id) {
            Some(d) => {
                let nd = merge(&d, patch);
                self.insert(k, id.clone(), nd);
                true
            },
            None => false,
        }
    }

    /// Remove the resource (`k`, `id`); deleting the bridge clears its slot.
    pub fn remove(&mut self, k: ResourceType, id: &String)
        requires
            old(self).wf(),
        ensures
            final(self)@ == old(self)@.delete_one(k, id@),
            final(self).wf(),
    {
        match k {
            ResourceType::Bridge => {
                self.bridge = None;
            },
            _ => {
                if k.is_stored() {
                    let ghost full = self@.entries;
                    let mut out: Vec<CacheEntry> = Vec::new();
                    let mut i: usize = 0;
                    while i < self.entries.len()
                        invariant
                            i <= self.entries.len(),
                            full == self@.entries,
                            entries_view(out@) == remove_entry(full.take(i as int), k, id@),
                        decreases self.entries.len() - i,
                    {
                        assert(full.take(i + 1).drop_last() =~= full.take(i as int));
                        let e = &self.entries[i];
                        if !(e.rtype == k && e.id == *id) {
                            let ghost before = out@;
                            out.push(CacheEntry { rtype: e.rtype, id: e.id.clone(), data: e.data.deep_copy() });
                            assert(entries_view(out@) =~= entries_view(before).push(full[i as int]));
                        }
                        i += 1;
                    }
                    assert(full.take(i as int) =~= full);
                    proof {
                        lemma_remove_entry(full, k, id@);
                    }
                    self.entries = out;
                }
            },
        }
    }
}

} // verus!
