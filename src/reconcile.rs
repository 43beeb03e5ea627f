//! Applying snapshots, deletions and event batches to the cache.
use vstd::prelude::*;
use crate::cache::{BridgeCache, CacheModel};
use crate::event::{HueEvent, HueEventType};
use crate::json::{Json, JsonValue, member, members_of};
use crate::resource::{ResourceIdentifier, ResourceType, is_stored_kind, kind_of_tag};

verus! {

/// The text of a string document.
pub open spec fn text_of(j: Json) -> Option<Seq<char>> {
    match j {
        Json::Str(s) => Some(s),
        _ => None,
    }
}

/// The kind and id that a resource document declares in its `type` and
/// `id` members; `None` when either is missing or the kind is unknown.
pub open spec fn identify_spec(doc: Json) -> Option<(ResourceType, Seq<char>)> {
    match text_of(member(members_of(doc), "type"@)) {
        Some(t) => match kind_of_tag(t) {
            Some(k) => match text_of(member(members_of(doc), "id"@)) {
                Some(id) => Some((k, id)),
                None => None,
            },
            None => None,
        },
        None => None,
    }
}

/// The text held by member `name`, if it is a string.
pub(crate) fn text_member(doc: &JsonValue, name: &str) -> (r: Option<String>)
    ensures
        match r {
            Some(t) => text_of(member(members_of(doc@), name@)) == Some(t@),
            None => text_of(member(members_of(doc@), name@)) is None,
        },
{
    let key = name.to_owned();
    match doc.get(&key) {
        Some(JsonValue::Str(t)) => Some(t.clone()),
        _ => None,
    }
}

/// The identifier that a resource document declares.
pub fn identify(doc: &JsonValue) -> (r: Option<ResourceIdentifier>)
    ensures
        match r {
            Some(x) => identify_spec(doc@) == Some((x.rtype, x.rid@)),
            None => identify_spec(doc@) is None,
        },
{
    match text_member(doc, "type") {
        Some(t) => match ResourceType::from_tag(t.as_str()) {
            Some(k) => match text_member(doc, "id") {
                Some(id) => Some(ResourceIdentifier { rid: id, rtype: k }),
                None => None,
            },
            None => None,
        },
        None => None,
    }
}

/// A resource as a snapshot delivers it: its kind, its id and its whole
/// document.
pub struct Resource {
    pub rtype: ResourceType,
    pub id: String,
    pub data: JsonValue,
}

impl Resource {
    pub open spec fn model(&self) -> (ResourceType, Seq<char>, Json) {
        (self.rtype, self.id@, self.data@)
    }

    /// Reads kind and id from a self-describing document; `None` for a
    /// document of an unknown kind or without an id.
    pub fn from_json(doc: JsonValue) -> (r: Option<Resource>)
        ensures
            match r {
                Some(x) => identify_spec(doc@) == Some((x.rtype, x.id@)) && x.data@ == doc@,
                None => identify_spec(doc@) is None,
            },
    {
        match identify(&doc) {
            Some(rid) => Some(Resource { rtype: rid.rtype, id: rid.rid, data: doc }),
            None => None,
        }
    }

    /// The identifier of this resource.
    pub fn rid(&self) -> (r: ResourceIdentifier)
        ensures
            r.rid@ == self.id@,
            r.rtype == self.rtype,
    {
        ResourceIdentifier { rid: self.id.clone(), rtype: self.rtype }
    }
}

pub open spec fn resources_view(v: Seq<Resource>) -> Seq<(ResourceType, Seq<char>, Json)> {
    Seq::new(v.len(), |i: int| v[i].model())
}

pub open spec fn ids_view(v: Seq<ResourceIdentifier>) -> Seq<(ResourceType, Seq<char>)> {
    Seq::new(v.len(), |i: int| (v[i].rtype, v[i].rid@))
}

pub open spec fn events_view(v: Seq<HueEvent>) -> Seq<(HueEventType, Seq<Json>)> {
    Seq::new(v.len(), |i: int| v[i].model())
}

/// The cache after a snapshot was stored resource by resource. Resources
/// that the snapshot lacks are kept.
pub open spec fn apply_snapshot(c: CacheModel, rs: Seq<(ResourceType, Seq<char>, Json)>) -> CacheModel
    decreases rs.len(),
{
    if rs.len() == 0 {
        c
    } else {
        apply_snapshot(c, rs.drop_last()).insert_one(rs.last().0, rs.last().1, rs.last().2)
    }
}

/// The cache after each identified resource was deleted.
pub open spec fn apply_deletes(c: CacheModel, ids: Seq<(ResourceType, Seq<char>)>) -> CacheModel
    decreases ids.len(),
{
    if ids.len() == 0 {
        c
    } else {
        apply_deletes(c, ids.drop_last()).delete_one(ids.last().0, ids.last().1)
    }
}

/// One document of an event applied to the cache. Documents of unknown
/// kinds, and error events, leave it unchanged.
pub open spec fn apply_doc(c: CacheModel, t: HueEventType, doc: Json) -> CacheModel {
    match identify_spec(doc) {
        Some(kid) => match t {
            HueEventType::Add => c.insert_one(kid.0, kid.1, doc),
            HueEventType::Update => c.update_one(kid.0, kid.1, doc),
            HueEventType::Delete => c.delete_one(kid.0, kid.1),
            HueEventType::Error => c,
        },
        None => c,
    }
}

/// The resource that one document changed by an update, if it found one.
pub open spec fn doc_change(c: CacheModel, t: HueEventType, doc: Json) -> Seq<(ResourceType, Seq<char>)> {
    match identify_spec(doc) {
        Some(kid) => if t is Update && c.lookup(kid.0, kid.1) is Some {
            seq![kid]
        } else {
            Seq::empty()
        },
        None => Seq::empty(),
    }
}

pub open spec fn apply_docs(c: CacheModel, t: HueEventType, docs: Seq<Json>) -> CacheModel
    decreases docs.len(),
{
    if docs.len() == 0 {
        c
    } else {
        apply_doc(apply_docs(c, t, docs.drop_last()), t, docs.last())
    }
}

pub open spec fn docs_changes(c: CacheModel, t: HueEventType, docs: Seq<Json>) -> Seq<(ResourceType, Seq<char>)>
    decreases docs.len(),
{
    if docs.len() == 0 {
        Seq::empty()
    } else {
        docs_changes(c, t, docs.drop_last()) + doc_change(
            apply_docs(c, t, docs.drop_last()),
            t,
            docs.last(),
        )
    }
}

/// The cache after a batch of events, applied in order, one document at a time.
pub open spec fn apply_events(c: CacheModel, evs: Seq<(HueEventType, Seq<Json>)>) -> CacheModel
    decreases evs.len(),
{
    if evs.len() == 0 {
        c
    } else {
        apply_docs(apply_events(c, evs.drop_last()), evs.last().0, evs.last().1)
    }
}

/// The resources that a batch of events changed by updates, in order.
pub open spec fn events_changes(c: CacheModel, evs: Seq<(HueEventType, Seq<Json>)>) -> Seq<(ResourceType, Seq<char>)>
    decreases evs.len(),
{
    if evs.len() == 0 {
        Seq::empty()
    } else {
        events_changes(c, evs.drop_last()) + docs_changes(
            apply_events(c, evs.drop_last()),
            evs.last().0,
            evs.last().1,
        )
    }
}

/// What one document of an event could not act on: an update of a resource
/// that is not stored, or a deletion of a kind that has no store.
pub open spec fn doc_dropped(c: CacheModel, t: HueEventType, doc: Json) -> Seq<(ResourceType, Seq<char>)> {
    match identify_spec(doc) {
        Some(kid) => if (t is Update && c.lookup(kid.0, kid.1) is None) || (t is Delete && !is_stored_kind(kid.0)
            && !(kid.0 is Bridge)) {
            seq![kid]
        } else {
            Seq::empty()
        },
        None => Seq::empty(),
    }
}

pub open spec fn docs_dropped(c: CacheModel, t: HueEventType, docs: Seq<Json>) -> Seq<(ResourceType, Seq<char>)>
    decreases docs.len(),
{
    if docs.len() == 0 {
        Seq::empty()
    } else {
        docs_dropped(c, t, docs.drop_last()) + doc_dropped(apply_docs(c, t, docs.drop_last()), t, docs.last())
    }
}

pub open spec fn events_dropped(c: CacheModel, evs: Seq<(HueEventType, Seq<Json>)>) -> Seq<(ResourceType, Seq<char>)>
    decreases evs.len(),
{
    if evs.len() == 0 {
        Seq::empty()
    } else {
        events_dropped(c, evs.drop_last()) + docs_dropped(apply_events(c, evs.drop_last()), evs.last().0, evs.last().1)
    }
}

/// The identifiers whose kind has no store and is not the bridge.
pub open spec fn unsupported_of(ids: Seq<(ResourceType, Seq<char>)>) -> Seq<(ResourceType, Seq<char>)>
    decreases ids.len(),
{
    if ids.len() == 0 {
        Seq::empty()
    } else if !is_stored_kind(ids.last().0) && !(ids.last().0 is Bridge) {
        unsupported_of(ids.drop_last()).push(ids.last())
    } else {
        unsupported_of(ids.drop_last())
    }
}

impl BridgeCache {
    /// Stores every resource of a snapshot, replacing what was stored under
    /// the same kind and id; nothing is evicted.
    pub fn insert_to_cache(&mut self, data: &Vec<Resource>)
        requires
            old(self).wf(),
        ensures
            final(self)@ == apply_snapshot(old(self)@, resources_view(data@)),
            final(self).wf(),
    {
        let ghost rs = resources_view(data@);
        let mut i: usize = 0;
        while i < data.len()
            invariant
                i <= data.len(),
                rs == resources_view(data@),
                self.wf(),
                self@ == apply_snapshot(old(self)@, rs.take(i as int)),
            decreases data.len() - i,
        {
            assert(rs.take(i + 1).drop_last() =~= rs.take(i as int));
            let r = &data[i];
            self.insert(r.rtype, r.id.clone(), r.data.deep_copy());
            i += 1;
        }
        assert(rs.take(i as int) =~= rs);
    }

    /// Deletes every identified resource.
    pub fn delete_from_cache(&mut self, ids: &Vec<ResourceIdentifier>)
        requires
            old(self).wf(),
        ensures
            final(self)@ == apply_deletes(old(self)@, ids_view(ids@)),
            final(self).wf(),
    {
        let ghost v = ids_view(ids@);
        let mut i: usize = 0;
        while i < ids.len()
            invariant
                i <= ids.len(),
                v == ids_view(ids@),
                self.wf(),
                self@ == apply_deletes(old(self)@, v.take(i as int)),
            decreases ids.len() - i,
        {
            assert(v.take(i + 1).drop_last() =~= v.take(i as int));
            self.remove(ids[i].rtype, &ids[i].rid);
            i += 1;
        }
        assert(v.take(i as int) =~= v);
    }

    /// Applies the documents of one event, and appends to `changes` the
    /// resources that its updates changed.
    pub fn apply_event(&mut self, ev: &HueEvent, changes: &mut Vec<ResourceIdentifier>)
        requires
            old(self).wf(),
        ensures
            final(self).wf(),
            final(self)@ == apply_docs(old(self)@, ev.model().0, ev.model().1),
            ids_view(final(changes)@) == ids_view(old(changes)@) + docs_changes(
                old(self)@,
                ev.model().0,
                ev.model().1,
            ),
    {
        let mut unused: Vec<ResourceIdentifier> = Vec::new();
        self.apply_event_reporting(ev, changes, &mut unused);
    }

    /// Applies the documents of one event; appends to `changes` the
    /// resources that its updates changed, and to `dropped` those it could
    /// not act on: updates of resources that are not stored, deletions of
    /// kinds that have no store.
    pub fn apply_event_reporting(
        &mut self,
        ev: &HueEvent,
        changes: &mut Vec<ResourceIdentifier>,
        dropped: &mut Vec<ResourceIdentifier>,
    )
        requires
            old(self).wf(),
        ensures
            final(self).wf(),
            final(self)@ == apply_docs(old(self)@, ev.model().0, ev.model().1),
            ids_view(final(changes)@) == ids_view(old(changes)@) + docs_changes(
                old(self)@,
                ev.model().0,
                ev.model().1,
            ),
            ids_view(final(dropped)@) == ids_view(old(dropped)@) + docs_dropped(
                old(self)@,
                ev.model().0,
                ev.model().1,
            ),
    {
        let ghost docs = ev.model().1;
        let ghost t = ev.etype;
        let mut i: usize = 0;
        while i < ev.data.len()
            invariant
                i <= ev.data.len(),
                docs == ev.model().1,
                t == ev.etype,
                self.wf(),
                self@ == apply_docs(old(self)@, t, docs.take(i as int)),
                ids_view(changes@) == ids_view(old(changes)@) + docs_changes(
                    old(self)@,
                    t,
                    docs.take(i as int),
                ),
                ids_view(dropped@) == ids_view(old(dropped)@) + docs_dropped(
                    old(self)@,
                    t,
                    docs.take(i as int),
                ),
            decreases ev.data.len() - i,
        {
            assert(docs.take(i + 1).drop_last() =~= docs.take(i as int));
            let doc = &ev.data[i];
            let ghost before = changes@;
            let ghost dbefore = dropped@;
            match identify(doc) {
                Some(rid) => match ev.etype {
                    HueEventType::Add => {
                        self.insert(rid.rtype, rid.rid, doc.deep_copy());
                        assert(ids_view(changes@) =~= ids_view(before) + Seq::empty());
                        assert(ids_view(dropped@) =~= ids_view(dbefore) + Seq::empty());
                    },
                    HueEventType::Update => {
                        let found = self.update(rid.rtype, &rid.rid, doc);
                        if found {
                            changes.push(rid);
                            assert(ids_view(changes@) =~= ids_view(before) + seq![
                                (rid.rtype, rid.rid@),
                            ]);
                            assert(ids_view(dropped@) =~= ids_view(dbefore) + Seq::empty());
                        } else {
                            dropped.push(rid);
                            assert(ids_view(changes@) =~= ids_view(before) + Seq::empty());
                            assert(ids_view(dropped@) =~= ids_view(dbefore) + seq![
                                (rid.rtype, rid.rid@),
                            ]);
                        }
                    },
                    HueEventType::Delete => {
                        let unsupported = !rid.rtype.is_stored() && !matches!(rid.rtype, ResourceType::Bridge);
                        self.remove(rid.rtype, &rid.rid);
                        assert(ids_view(changes@) =~= ids_view(before) + Seq::empty());
                        if unsupported {
                            dropped.push(rid);
                            assert(ids_view(dropped@) =~= ids_view(dbefore) + seq![
                                (rid.rtype, rid.rid@),
                            ]);
                        } else {
                            assert(ids_view(dropped@) =~= ids_view(dbefore) + Seq::empty());
                        }
                    },
                    HueEventType::Error => {
                        assert(ids_view(changes@) =~= ids_view(before) + Seq::empty());
                        assert(ids_view(dropped@) =~= ids_view(dbefore) + Seq::empty());
                    },
                },
                None => {
                    assert(ids_view(changes@) =~= ids_view(before) + Seq::empty());
                    assert(ids_view(dropped@) =~= ids_view(dbefore) + Seq::empty());
                },
            }
            i += 1;
        }
        assert(docs.take(i as int) =~= docs);
    }

    /// Applies a batch of events in order and returns the resources that
    /// its updates changed.
    pub fn upsert_to_cache(&mut self, data: &Vec<HueEvent>) -> (changes: Vec<ResourceIdentifier>)
        requires
            old(self).wf(),
        ensures
            final(self).wf(),
            final(self)@ == apply_events(old(self)@, events_view(data@)),
            ids_view(changes@) == events_changes(old(self)@, events_view(data@)),
    {
        let (changes, _dropped) = self.upsert_to_cache_reporting(data);
        changes
    }

    /// Applies a batch of events in order; returns the resources that its
    /// updates changed, and those it could not act on (updates of resources
    /// that are not stored, deletions of kinds that have no store).
    pub fn upsert_to_cache_reporting(&mut self, data: &Vec<HueEvent>) -> (r: (
        Vec<ResourceIdentifier>,
        Vec<ResourceIdentifier>,
    ))
        requires
            old(self).wf(),
        ensures
            final(self).wf(),
            final(self)@ == apply_events(old(self)@, events_view(data@)),
            ids_view(r.0@) == events_changes(old(self)@, events_view(data@)),
            ids_view(r.1@) == events_dropped(old(self)@, events_view(data@)),
    {
        let ghost evs = events_view(data@);
        let mut changes: Vec<ResourceIdentifier> = Vec::new();
        let mut dropped: Vec<ResourceIdentifier> = Vec::new();
        let mut i: usize = 0;
        assert(ids_view(changes@) =~= Seq::empty());
        assert(ids_view(dropped@) =~= Seq::empty());
        while i < data.len()
            invariant
                i <= data.len(),
                evs == events_view(data@),
                self.wf(),
                self@ == apply_events(old(self)@, evs.take(i as int)),
                ids_view(changes@) == events_changes(old(self)@, evs.take(i as int)),
                ids_view(dropped@) == events_dropped(old(self)@, evs.take(i as int)),
            decreases data.len() - i,
        {
            assert(evs.take(i + 1).drop_last() =~= evs.take(i as int));
            self.apply_event_reporting(&data[i], &mut changes, &mut dropped);
            i += 1;
        }
        assert(evs.take(i as int) =~= evs);
        (changes, dropped)
    }

    /// The identifiers of a deletion list whose kind has no store (and is not
    /// the bridge): deleting them does nothing.
    pub fn unsupported_deletions(ids: &Vec<ResourceIdentifier>) -> (r: Vec<ResourceIdentifier>)
        ensures
            ids_view(r@) == unsupported_of(ids_view(ids@)),
    {
        let ghost v = ids_view(ids@);
        let mut out: Vec<ResourceIdentifier> = Vec::new();
        let mut i: usize = 0;
        assert(ids_view(out@) =~= Seq::empty());
        while i < ids.len()
            invariant
                i <= ids.len(),
                v == ids_view(ids@),
                ids_view(out@) == unsupported_of(v.take(i as int)),
            decreases ids.len() - i,
        {
            assert(v.take(i + 1).drop_last() =~= v.take(i as int));
            let k = ids[i].rtype;
            if !k.is_stored() && !matches!(k, ResourceType::Bridge) {
                let ghost before = out@;
                out.push(ids[i].clone());
                assert(ids_view(out@) =~= ids_view(before).push(v[i as int]));
            }
            i += 1;
        }
        assert(v.take(i as int) =~= v);
        out
    }
}

/// The resources of a snapshot's documents: those of a known kind with an
/// id, in order; the others are skipped.
pub open spec fn snapshot_of(docs: Seq<Json>) -> Seq<(ResourceType, Seq<char>, Json)>
    decreases docs.len(),
{
    if docs.len() == 0 {
        Seq::empty()
    } else {
        let rest = snapshot_of(docs.drop_last());
        match identify_spec(docs.last()) {
            Some(kid) => rest.push((kid.0, kid.1, docs.last())),
            None => rest,
        }
    }
}

/// Reads a snapshot: the documents of a JSON array, each kept when it names
/// a known kind and an id. `None` when `data` is not an array.
pub fn snapshot_from_json(data: &JsonValue) -> (r: Option<Vec<Resource>>)
    ensures
        match data@ {
            Json::Array(items) => r is Some && resources_view(r.unwrap()@) == snapshot_of(items),
            _ => r is None,
        },
{
    match data {
        JsonValue::Array(items) => {
            proof {
                crate::json::lemma_array_view(*items);
            }
            let ghost docs = Seq::new(items.len() as nat, |i: int| items[i]@);
            let mut out: Vec<Resource> = Vec::new();
            let mut i: usize = 0;
            while i < items.len()
                invariant
                    i <= items.len(),
                    docs == Seq::new(items.len() as nat, |j: int| items[j]@),
                    resources_view(out@) == snapshot_of(docs.take(i as int)),
                decreases items.len() - i,
            {
                assert(docs.take(i + 1).drop_last() =~= docs.take(i as int));
                let ghost before = out@;
                match Resource::from_json(items[i].deep_copy()) {
                    Some(res) => {
                        out.push(res);
                        assert(resources_view(out@) =~= resources_view(before).push(out@.last().model()));
                    },
                    None => {},
                }
                i += 1;
            }
            assert(docs.take(i as int) =~= docs);
            Some(out)
        },
        _ => None,
    }
}

} // verus!
