//! Facts about the cache's synchronisation, proved over the models.
use vstd::prelude::*;
use crate::cache::{CacheModel, count_of, entries_wf, entry_index, lemma_entry_index, lemma_remove_entry, lemma_upsert_wf, remove_entry, upsert};
use crate::event::HueEventType;
use crate::json::{Json, lemma_remove_other_member, lemma_set_other_member, lemma_set_same_member, member, members_of, merge_members, merge_patch};
use crate::reconcile::{apply_doc, apply_docs, apply_events, apply_snapshot, doc_change, docs_changes, docs_dropped, events_changes, events_dropped, identify_spec};
use crate::resource::{ResourceType, is_stored_kind};

verus! {

/// Whether some entry is stored under (`k`, `id`).
pub open spec fn has_key(e: Seq<(ResourceType, Seq<char>, Json)>, k: ResourceType, id: Seq<char>) -> bool {
    exists|p: int| 0 <= p < e.len() && e[p].0 == k && e[p].1 == id
}

/// The document that the last resource of `rs` under (`k`, `id`) carries.
pub open spec fn last_value(rs: Seq<(ResourceType, Seq<char>, Json)>, k: ResourceType, id: Seq<char>) -> Option<Json>
    decreases rs.len(),
{
    if rs.len() == 0 {
        None
    } else if rs.last().0 == k && rs.last().1 == id {
        Some(rs.last().2)
    } else {
        last_value(rs.drop_last(), k, id)
    }
}

/// The last bridge resource of `rs`.
pub open spec fn last_bridge(rs: Seq<(ResourceType, Seq<char>, Json)>) -> Option<(Seq<char>, Json)>
    decreases rs.len(),
{
    if rs.len() == 0 {
        None
    } else if rs.last().0 is Bridge {
        Some((rs.last().1, rs.last().2))
    } else {
        last_bridge(rs.drop_last())
    }
}

/// In well-formed entries, the entry found for a key is the only one with it.
proof fn lemma_index_unique(e: Seq<(ResourceType, Seq<char>, Json)>, k: ResourceType, id: Seq<char>, p: int)
    requires
        entries_wf(e),
        0 <= p < e.len(),
        e[p].0 == k,
        e[p].1 == id,
    ensures
        entry_index(e, k, id) == p,
{
    lemma_entry_index(e, k, id);
}

proof fn lemma_has_key(e: Seq<(ResourceType, Seq<char>, Json)>, k: ResourceType, id: Seq<char>)
    ensures
        has_key(e, k, id) <==> entry_index(e, k, id) >= 0,
{
    lemma_entry_index(e, k, id);
}

/// What a snapshot leaves behind: a well-formed cache holding every stored
/// resource of the snapshot with the last document given for it.
proof fn lemma_snapshot_result(c: CacheModel, rs: Seq<(ResourceType, Seq<char>, Json)>)
    requires
        c.wf(),
    ensures
        apply_snapshot(c, rs).wf(),
        forall|p: int|
            0 <= p < apply_snapshot(c, rs).entries.len() ==> match last_value(
                rs,
                #[trigger] apply_snapshot(c, rs).entries[p].0,
                apply_snapshot(c, rs).entries[p].1,
            ) {
                Some(d) => apply_snapshot(c, rs).entries[p].2 == d,
                None => true,
            },
        forall|i: int|
            0 <= i < rs.len() && is_stored_kind(#[trigger] rs[i].0) ==> has_key(
                apply_snapshot(c, rs).entries,
                rs[i].0,
                rs[i].1,
            ),
        last_bridge(rs) is Some ==> apply_snapshot(c, rs).bridge == last_bridge(rs),
    decreases rs.len(),
{
    if rs.len() > 0 {
        let prefix = rs.drop_last();
        let t0 = apply_snapshot(c, prefix);
        let x = rs.last();
        let t = apply_snapshot(c, rs);
        lemma_snapshot_result(c, prefix);
        if x.0 is Bridge || !is_stored_kind(x.0) {
            assert(t.entries == t0.entries);
            assert forall|i: int| 0 <= i < rs.len() && is_stored_kind(#[trigger] rs[i].0) implies has_key(
                t.entries,
                rs[i].0,
                rs[i].1,
            ) by {
                assert(rs[i] == prefix[i]);
            }
        } else {
            lemma_upsert_wf(t0.entries, x.0, x.1, x.2);
            lemma_entry_index(t0.entries, x.0, x.1);
            let idx = entry_index(t0.entries, x.0, x.1);
            assert(t.entries == upsert(t0.entries, x.0, x.1, x.2));
            assert forall|p: int| 0 <= p < t.entries.len() implies match last_value(
                rs,
                #[trigger] t.entries[p].0,
                t.entries[p].1,
            ) {
                Some(d) => t.entries[p].2 == d,
                None => true,
            } by {
                if t.entries[p].0 == x.0 && t.entries[p].1 == x.1 {
                    if idx >= 0 && p != idx && p < t0.entries.len() {
                        lemma_index_unique(t0.entries, x.0, x.1, p);
                    }
                } else {
                    assert(t.entries[p] == t0.entries[p]);
                }
            }
            assert forall|i: int| 0 <= i < rs.len() && is_stored_kind(#[trigger] rs[i].0) implies has_key(
                t.entries,
                rs[i].0,
                rs[i].1,
            ) by {
                if i == rs.len() - 1 {
                    if idx >= 0 {
                        assert(t.entries[idx].0 == x.0 && t.entries[idx].1 == x.1);
                    } else {
                        assert(t.entries[t0.entries.len() as int] == x);
                    }
                } else {
                    assert(rs[i] == prefix[i]);
                    let q = choose|q: int|
                        0 <= q < t0.entries.len() && t0.entries[q].0 == rs[i].0 && t0.entries[q].1
                            == rs[i].1;
                    assert(t.entries[q].0 == t0.entries[q].0 && t.entries[q].1 == t0.entries[q].1);
                }
            }
        }
    }
}

/// A snapshot applied to a cache that already holds every stored resource
/// it names only rewrites documents in place.
proof fn lemma_snapshot_in_place(s: CacheModel, rs: Seq<(ResourceType, Seq<char>, Json)>)
    requires
        s.wf(),
        forall|i: int|
            0 <= i < rs.len() && is_stored_kind(#[trigger] rs[i].0) ==> has_key(s.entries, rs[i].0, rs[i].1),
    ensures
        apply_snapshot(s, rs).wf(),
        apply_snapshot(s, rs).entries.len() == s.entries.len(),
        forall|p: int|
            0 <= p < s.entries.len() ==> #[trigger] apply_snapshot(s, rs).entries[p] == (
                s.entries[p].0,
                s.entries[p].1,
                match last_value(rs, s.entries[p].0, s.entries[p].1) {
                    Some(d) => d,
                    None => s.entries[p].2,
                },
            ),
        apply_snapshot(s, rs).bridge == match last_bridge(rs) {
            Some(b) => Some(b),
            None => s.bridge,
        },
    decreases rs.len(),
{
    if rs.len() > 0 {
        let prefix = rs.drop_last();
        assert forall|i: int| 0 <= i < prefix.len() && is_stored_kind(#[trigger] prefix[i].0) implies has_key(
            s.entries,
            prefix[i].0,
            prefix[i].1,
        ) by {
            assert(prefix[i] == rs[i]);
        }
        lemma_snapshot_in_place(s, prefix);
        let u = apply_snapshot(s, prefix);
        let x = rs.last();
        let t = apply_snapshot(s, rs);
        if !(x.0 is Bridge) && is_stored_kind(x.0) {
            assert(has_key(s.entries, rs[rs.len() - 1].0, rs[rs.len() - 1].1));
            let q = choose|q: int| 0 <= q < s.entries.len() && s.entries[q].0 == x.0 && s.entries[q].1 == x.1;
            assert(u.entries[q].0 == x.0 && u.entries[q].1 == x.1);
            lemma_index_unique(u.entries, x.0, x.1, q);
            lemma_upsert_wf(u.entries, x.0, x.1, x.2);
            assert(t.entries == u.entries.update(q, (x.0, x.1, x.2)));
            assert forall|p: int| 0 <= p < s.entries.len() implies #[trigger] t.entries[p] == (
                s.entries[p].0,
                s.entries[p].1,
                match last_value(rs, s.entries[p].0, s.entries[p].1) {
                    Some(d) => d,
                    None => s.entries[p].2,
                },
            ) by {
                if p != q {
                    assert(u.entries[p] == (
                        s.entries[p].0,
                        s.entries[p].1,
                        match last_value(prefix, s.entries[p].0, s.entries[p].1) {
                            Some(d) => d,
                            None => s.entries[p].2,
                        },
                    ));
                    assert(!(s.entries[p].0 == x.0 && s.entries[p].1 == x.1));
                }
            }
        } else {
            assert forall|p: int| 0 <= p < s.entries.len() implies #[trigger] t.entries[p] == (
                s.entries[p].0,
                s.entries[p].1,
                match last_value(rs, s.entries[p].0, s.entries[p].1) {
                    Some(d) => d,
                    None => s.entries[p].2,
                },
            ) by {
                assert(u.entries[p] == (
                    s.entries[p].0,
                    s.entries[p].1,
                    match last_value(prefix, s.entries[p].0, s.entries[p].1) {
                        Some(d) => d,
                        None => s.entries[p].2,
                    },
                ));
                assert(is_stored_kind(s.entries[p].0));
            }
        }
    }
}

/// Applying the same full snapshot twice leaves the cache as applying it once.
pub proof fn snapshot_idempotent(c: CacheModel, rs: Seq<(ResourceType, Seq<char>, Json)>)
    requires
        c.wf(),
    ensures
        apply_snapshot(apply_snapshot(c, rs), rs) == apply_snapshot(c, rs),
{
    let f = apply_snapshot(c, rs);
    lemma_snapshot_result(c, rs);
    lemma_snapshot_in_place(f, rs);
    let g = apply_snapshot(f, rs);
    assert forall|p: int| 0 <= p < f.entries.len() implies g.entries[p] == f.entries[p] by {
        assert(g.entries[p] == (
            f.entries[p].0,
            f.entries[p].1,
            match last_value(rs, f.entries[p].0, f.entries[p].1) {
                Some(d) => d,
                None => f.entries[p].2,
            },
        ));
    }
    assert(g.entries =~= f.entries);
}

/// Rewriting an entry without changing its kind keeps every count.
proof fn lemma_count_update(e: Seq<(ResourceType, Seq<char>, Json)>, i: int, x: (ResourceType, Seq<char>, Json), k: ResourceType)
    requires
        0 <= i < e.len(),
        e[i].0 == x.0,
    ensures
        count_of(e.update(i, x), k) == count_of(e, k),
    decreases e.len(),
{
    let u = e.update(i, x);
    if i == e.len() - 1 {
        assert(u.drop_last() =~= e.drop_last());
    } else {
        assert(u.drop_last() =~= e.drop_last().update(i, x));
        lemma_count_update(e.drop_last(), i, x, k);
    }
}

/// Storing a document never lowers a count nor loses a key.
proof fn lemma_upsert_keeps(e: Seq<(ResourceType, Seq<char>, Json)>, k: ResourceType, id: Seq<char>, d: Json)
    ensures
        forall|k2: ResourceType| count_of(#[trigger] upsert(e, k, id, d), k2) >= count_of(e, k2),
        forall|k2: ResourceType, id2: Seq<char>|
            has_key(e, k2, id2) ==> #[trigger] has_key(upsert(e, k, id, d), k2, id2),
{
    lemma_entry_index(e, k, id);
    let idx = entry_index(e, k, id);
    let u = upsert(e, k, id, d);
    assert forall|k2: ResourceType| count_of(#[trigger] upsert(e, k, id, d), k2) >= count_of(e, k2) by {
        if idx >= 0 {
            lemma_count_update(e, idx, (k, id, d), k2);
        } else {
            assert(u.drop_last() =~= e);
        }
    }
    assert forall|k2: ResourceType, id2: Seq<char>| has_key(e, k2, id2) implies #[trigger] has_key(
        upsert(e, k, id, d),
        k2,
        id2,
    ) by {
        let q = choose|q: int| 0 <= q < e.len() && e[q].0 == k2 && e[q].1 == id2;
        assert(u[q].0 == k2 && u[q].1 == id2);
    }
}

/// A full snapshot never evicts: every resource stored before is still
/// stored after it, no per-kind count goes down, and the bridge slot stays
/// filled, whether or not the snapshot still lists them.
pub proof fn snapshot_never_evicts(c: CacheModel, rs: Seq<(ResourceType, Seq<char>, Json)>)
    requires
        c.wf(),
    ensures
        forall|k: ResourceType, id: Seq<char>|
            is_stored_kind(k) && c.lookup(k, id) is Some ==> (#[trigger] apply_snapshot(c, rs).lookup(
                k,
                id,
            )) is Some,
        forall|k: ResourceType| #[trigger] apply_snapshot(c, rs).count(k) >= c.count(k),
        c.bridge is Some ==> apply_snapshot(c, rs).bridge is Some,
    decreases rs.len(),
{
    if rs.len() > 0 {
        let prefix = rs.drop_last();
        snapshot_never_evicts(c, prefix);
        let t0 = apply_snapshot(c, prefix);
        let x = rs.last();
        lemma_upsert_keeps(t0.entries, x.0, x.1, x.2);
        assert forall|k: ResourceType, id: Seq<char>|
            is_stored_kind(k) && c.lookup(k, id) is Some implies (#[trigger] apply_snapshot(
            c,
            rs,
        ).lookup(k, id)) is Some by {
            assert(t0.lookup(k, id) is Some);
            lemma_has_key(t0.entries, k, id);
            lemma_has_key(apply_snapshot(c, rs).entries, k, id);
        }
        assert forall|k: ResourceType| #[trigger] apply_snapshot(c, rs).count(k) >= c.count(k) by {
            assert(t0.count(k) >= c.count(k));
        }
    }
}

/// Deleting (`k`, `id`) removes exactly that resource: any resource of
/// another kind or id, even one that shares the id, is left as it was.
pub proof fn delete_is_precise(c: CacheModel, k: ResourceType, id: Seq<char>, k2: ResourceType, id2: Seq<char>)
    requires
        c.wf(),
        is_stored_kind(k),
        !(k2 == k && id2 == id),
    ensures
        c.delete_one(k, id).lookup(k, id) is None,
        c.delete_one(k, id).lookup(k2, id2) == c.lookup(k2, id2),
        c.delete_one(k, id).wf(),
{
    let e = c.entries;
    let r = remove_entry(e, k, id);
    lemma_remove_entry(e, k, id);
    lemma_entry_index(r, k, id);
    lemma_entry_index(e, k2, id2);
    lemma_entry_index(r, k2, id2);
    if is_stored_kind(k2) && !(k2 is Bridge) {
        let i = entry_index(e, k2, id2);
        if i >= 0 {
            assert(r.contains(e[i]));
            let q = choose|q: int| 0 <= q < r.len() && r[q] == e[i];
            lemma_index_unique(r, k2, id2, q);
        } else if entry_index(r, k2, id2) >= 0 {
            let j = entry_index(r, k2, id2);
            assert(e.contains(r[j]));
        }
    }
}

/// An update for a resource that is not stored changes nothing.
pub proof fn update_without_base_is_noop(c: CacheModel, doc: Json)
    requires
        identify_spec(doc) is Some,
        c.lookup(identify_spec(doc).unwrap().0, identify_spec(doc).unwrap().1) is None,
    ensures
        apply_doc(c, HueEventType::Update, doc) == c,
        doc_change(c, HueEventType::Update, doc) == Seq::<(ResourceType, Seq<char>)>::empty(),
        forall|k: ResourceType| #[trigger] apply_doc(c, HueEventType::Update, doc).count(k) == c.count(k),
{
}

/// A document of a kind that is not known is skipped: appending it to an
/// event changes neither the resulting cache nor the reported changes.
pub proof fn unknown_kind_is_ignored(c: CacheModel, t: HueEventType, docs: Seq<Json>, doc: Json)
    requires
        identify_spec(doc) is None,
    ensures
        apply_docs(c, t, docs.push(doc)) == apply_docs(c, t, docs),
        docs_changes(c, t, docs.push(doc)) == docs_changes(c, t, docs),
{
    assert(docs.push(doc).drop_last() =~= docs);
    assert(docs_changes(c, t, docs) + Seq::<(ResourceType, Seq<char>)>::empty() =~= docs_changes(c, t, docs));
}

/// Merging a patch onto an object keeps every member that the patch does
/// not name: fields left unspecified survive an update.
pub proof fn merge_keeps_unpatched_members(tm: Seq<(Seq<char>, Json)>, pm: Seq<(Seq<char>, Json)>, k: Seq<char>)
    requires
        forall|i: int| 0 <= i < pm.len() ==> #[trigger] pm[i].0 != k,
    ensures
        member(members_of(merge_patch(Json::Object(tm), Json::Object(pm))), k) == member(tm, k),
{
    lemma_prefix_keeps(tm, pm, k, pm.len());
}

/// A member that the patch names once, with a value other than `null`, is
/// merged from that value: a later command overrides an earlier one on the
/// fields they share (and a value that is not an object replaces the old).
pub proof fn merge_sets_patched_member(tm: Seq<(Seq<char>, Json)>, pm: Seq<(Seq<char>, Json)>, i: int)
    requires
        0 <= i < pm.len(),
        !(pm[i].1 is Null),
        forall|j: int| 0 <= j < pm.len() && j != i ==> #[trigger] pm[j].0 != pm[i].0,
    ensures
        member(members_of(merge_patch(Json::Object(tm), Json::Object(pm))), pm[i].0) == merge_patch(
            member(tm, pm[i].0),
            pm[i].1,
        ),
{
    lemma_merge_members_sets(tm, pm, i, pm.len());
}

proof fn lemma_merge_members_sets(tm: Seq<(Seq<char>, Json)>, pm: Seq<(Seq<char>, Json)>, i: int, n: nat)
    requires
        0 <= i < n <= pm.len(),
        !(pm[i].1 is Null),
        forall|j: int| 0 <= j < pm.len() && j != i ==> #[trigger] pm[j].0 != pm[i].0,
    ensures
        member(merge_members(tm, pm, n), pm[i].0) == merge_patch(member(tm, pm[i].0), pm[i].1),
    decreases n,
{
    let k = pm[i].0;
    let rest = merge_members(tm, pm, (n - 1) as nat);
    if n - 1 == i {
        lemma_prefix_keeps(tm, pm, k, i as nat);
        lemma_set_same_member(rest, k, merge_patch(member(rest, k), pm[i].1));
    } else {
        lemma_merge_members_sets(tm, pm, i, (n - 1) as nat);
        let k2 = pm[n - 1].0;
        assert(k2 != k);
        if pm[n - 1].1 is Null {
            lemma_remove_other_member(rest, k2, k);
        } else {
            lemma_set_other_member(rest, k2, merge_patch(member(rest, k2), pm[n - 1].1), k);
        }
    }
}

/// Merging the first `n` members of a patch, none of them named `k`,
/// leaves member `k` as it was.
proof fn lemma_prefix_keeps(tm: Seq<(Seq<char>, Json)>, pm: Seq<(Seq<char>, Json)>, k: Seq<char>, n: nat)
    requires
        n <= pm.len(),
        forall|j: int| 0 <= j < n ==> #[trigger] pm[j].0 != k,
    ensures
        member(merge_members(tm, pm, n), k) == member(tm, k),
    decreases n,
{
    if n > 0 {
        lemma_prefix_keeps(tm, pm, k, (n - 1) as nat);
        let rest = merge_members(tm, pm, (n - 1) as nat);
        let k2 = pm[n - 1].0;
        if pm[n - 1].1 is Null {
            lemma_remove_other_member(rest, k2, k);
        } else {
            lemma_set_other_member(rest, k2, merge_patch(member(rest, k2), pm[n - 1].1), k);
        }
    }
}

/// Rewriting a stored document in place: the entry holds the new document,
/// every other lookup and every count stay as they were.
proof fn lemma_rewrite_in_place(c: CacheModel, k: ResourceType, id: Seq<char>, v: Json)
    requires
        c.wf(),
        is_stored_kind(k),
        c.lookup(k, id) is Some,
    ensures
        c.insert_one(k, id, v).wf(),
        c.insert_one(k, id, v).lookup(k, id) == Some(v),
        forall|k2: ResourceType, id2: Seq<char>|
            !(k2 == k && id2 == id) ==> #[trigger] c.insert_one(k, id, v).lookup(k2, id2) == c.lookup(k2, id2),
        forall|k2: ResourceType| #[trigger] c.insert_one(k, id, v).count(k2) == c.count(k2),
{
    let e = c.entries;
    lemma_entry_index(e, k, id);
    let idx = entry_index(e, k, id);
    let r = upsert(e, k, id, v);
    assert(r == e.update(idx, (k, id, v)));
    lemma_upsert_wf(e, k, id, v);
    lemma_index_unique(r, k, id, idx);
    assert forall|k2: ResourceType, id2: Seq<char>| !(k2 == k && id2 == id) implies #[trigger] c.insert_one(
        k,
        id,
        v,
    ).lookup(k2, id2) == c.lookup(k2, id2) by {
        lemma_entry_index(e, k2, id2);
        lemma_entry_index(r, k2, id2);
        let q = entry_index(e, k2, id2);
        if q >= 0 {
            assert(r[q] == e[q]);
            lemma_index_unique(r, k2, id2, q);
        } else if entry_index(r, k2, id2) >= 0 {
            let j = entry_index(r, k2, id2);
            assert(r[j] == e[j]);
        }
    }
    assert forall|k2: ResourceType| #[trigger] c.insert_one(k, id, v).count(k2) == c.count(k2) by {
        lemma_count_update(e, idx, (k, id, v), k2);
    }
}

/// An update of a stored resource stores the merge of the patch onto its
/// document and changes nothing else: every other resource and every count
/// stay as they were, and the members that the patch does not name keep
/// their values.
pub proof fn update_merges_stored_document(c: CacheModel, doc: Json, k: ResourceType, id: Seq<char>)
    requires
        c.wf(),
        identify_spec(doc) == Some((k, id)),
        is_stored_kind(k),
        c.lookup(k, id) is Some,
    ensures
        apply_doc(c, HueEventType::Update, doc).wf(),
        apply_doc(c, HueEventType::Update, doc).lookup(k, id) == Some(merge_patch(c.lookup(k, id).unwrap(), doc)),
        forall|k2: ResourceType, id2: Seq<char>|
            !(k2 == k && id2 == id) ==> #[trigger] apply_doc(c, HueEventType::Update, doc).lookup(k2, id2)
                == c.lookup(k2, id2),
        forall|k2: ResourceType| #[trigger] apply_doc(c, HueEventType::Update, doc).count(k2) == c.count(k2),
        forall|name: Seq<char>|
            c.lookup(k, id).unwrap() is Object && (forall|i: int|
                0 <= i < members_of(doc).len() ==> #[trigger] members_of(doc)[i].0 != name) ==> member(
                members_of(apply_doc(c, HueEventType::Update, doc).lookup(k, id).unwrap()),
                name,
            ) == member(members_of(c.lookup(k, id).unwrap()), name),
{
    let d = c.lookup(k, id).unwrap();
    lemma_rewrite_in_place(c, k, id, merge_patch(d, doc));
    assert forall|name: Seq<char>|
        d is Object && (forall|i: int| 0 <= i < members_of(doc).len() ==> #[trigger] members_of(doc)[i].0 != name)
        implies member(members_of(merge_patch(d, doc)), name) == member(members_of(d), name) by {
        if doc is Object {
            merge_keeps_unpatched_members(members_of(d), members_of(doc), name);
        }
    }
}

/// Entries with the same kinds, position by position, have the same counts.
proof fn lemma_count_same_kinds(e1: Seq<(ResourceType, Seq<char>, Json)>, e2: Seq<(ResourceType, Seq<char>, Json)>, k: ResourceType)
    requires
        e1.len() == e2.len(),
        forall|p: int| 0 <= p < e1.len() ==> #[trigger] e1[p].0 == e2[p].0,
    ensures
        count_of(e1, k) == count_of(e2, k),
    decreases e1.len(),
{
    if e1.len() > 0 {
        assert(e1.last().0 == e2[e2.len() - 1].0);
        lemma_count_same_kinds(e1.drop_last(), e2.drop_last(), k);
    }
}

/// A resource that `rs` does not list has no last value there.
proof fn lemma_last_value_absent(rs: Seq<(ResourceType, Seq<char>, Json)>, k: ResourceType, id: Seq<char>)
    requires
        forall|i: int| 0 <= i < rs.len() ==> !(#[trigger] rs[i].0 == k && rs[i].1 == id),
    ensures
        last_value(rs, k, id) is None,
    decreases rs.len(),
{
    if rs.len() > 0 {
        assert(rs.last() == rs[rs.len() - 1]);
        assert forall|i: int| 0 <= i < rs.drop_last().len() implies !(#[trigger] rs.drop_last()[i].0 == k
            && rs.drop_last()[i].1 == id) by {
            assert(rs.drop_last()[i] == rs[i]);
        }
        lemma_last_value_absent(rs.drop_last(), k, id);
    }
}

/// A snapshot that lists only resources already stored (as when a second
/// snapshot omits some of the first one's) keeps every count exactly, and
/// leaves each stored resource it omits as it was.
pub proof fn snapshot_of_stored_resources_keeps_counts(c: CacheModel, rs: Seq<(ResourceType, Seq<char>, Json)>)
    requires
        c.wf(),
        forall|i: int| 0 <= i < rs.len() && is_stored_kind(#[trigger] rs[i].0) ==> has_key(c.entries, rs[i].0, rs[i].1),
    ensures
        forall|k: ResourceType| #[trigger] apply_snapshot(c, rs).count(k) == c.count(k),
        forall|k: ResourceType, id: Seq<char>|
            is_stored_kind(k) && (forall|i: int| 0 <= i < rs.len() ==> !(#[trigger] rs[i].0 == k && rs[i].1 == id))
                ==> #[trigger] apply_snapshot(c, rs).lookup(k, id) == c.lookup(k, id),
{
    lemma_snapshot_in_place(c, rs);
    let t = apply_snapshot(c, rs);
    assert forall|k: ResourceType| #[trigger] apply_snapshot(c, rs).count(k) == c.count(k) by {
        assert forall|p: int| 0 <= p < t.entries.len() implies #[trigger] t.entries[p].0 == c.entries[p].0 by {
            assert(t.entries[p] == (
                c.entries[p].0,
                c.entries[p].1,
                match last_value(rs, c.entries[p].0, c.entries[p].1) {
                    Some(d) => d,
                    None => c.entries[p].2,
                },
            ));
        }
        lemma_count_same_kinds(t.entries, c.entries, k);
    }
    assert forall|k: ResourceType, id: Seq<char>|
        is_stored_kind(k) && (forall|i: int| 0 <= i < rs.len() ==> !(#[trigger] rs[i].0 == k && rs[i].1 == id))
        implies #[trigger] apply_snapshot(c, rs).lookup(k, id) == c.lookup(k, id) by {
        lemma_last_value_absent(rs, k, id);
        lemma_entry_index(c.entries, k, id);
        lemma_entry_index(t.entries, k, id);
        let q = entry_index(c.entries, k, id);
        if q >= 0 {
            assert(t.entries[q] == (
                c.entries[q].0,
                c.entries[q].1,
                match last_value(rs, c.entries[q].0, c.entries[q].1) {
                    Some(d) => d,
                    None => c.entries[q].2,
                },
            ));
            lemma_index_unique(t.entries, k, id, q);
        } else if entry_index(t.entries, k, id) >= 0 {
            let j = entry_index(t.entries, k, id);
            assert(t.entries[j] == (
                c.entries[j].0,
                c.entries[j].1,
                match last_value(rs, c.entries[j].0, c.entries[j].1) {
                    Some(d) => d,
                    None => c.entries[j].2,
                },
            ));
        }
    }
}

/// A second full snapshot that lists only resources of the first (some of
/// them may be missing) leaves every count as the first one left it.
pub proof fn second_snapshot_never_shrinks(c: CacheModel, first: Seq<(ResourceType, Seq<char>, Json)>, second: Seq<(ResourceType, Seq<char>, Json)>)
    requires
        c.wf(),
        forall|j: int|
            0 <= j < second.len() ==> exists|i: int|
                0 <= i < first.len() && first[i].0 == #[trigger] second[j].0 && first[i].1 == second[j].1,
    ensures
        forall|k: ResourceType| #[trigger] apply_snapshot(apply_snapshot(c, first), second).count(k) == apply_snapshot(
            c,
            first,
        ).count(k),
{
    lemma_snapshot_result(c, first);
    let f = apply_snapshot(c, first);
    assert forall|j: int| 0 <= j < second.len() && is_stored_kind(#[trigger] second[j].0) implies has_key(
        f.entries,
        second[j].0,
        second[j].1,
    ) by {
        let i = choose|i: int| 0 <= i < first.len() && first[i].0 == second[j].0 && first[i].1 == second[j].1;
        assert(is_stored_kind(first[i].0));
    }
    snapshot_of_stored_resources_keeps_counts(f, second);
}

/// The documents of a known kind with an id, in order.
pub open spec fn known_docs(docs: Seq<Json>) -> Seq<Json>
    decreases docs.len(),
{
    if docs.len() == 0 {
        docs
    } else if identify_spec(docs.last()) is Some {
        known_docs(docs.drop_last()).push(docs.last())
    } else {
        known_docs(docs.drop_last())
    }
}

/// Each event with only its documents of a known kind.
pub open spec fn known_events(evs: Seq<(HueEventType, Seq<Json>)>) -> Seq<(HueEventType, Seq<Json>)> {
    Seq::new(evs.len(), |i: int| (evs[i].0, known_docs(evs[i].1)))
}

proof fn lemma_known_docs(c: CacheModel, t: HueEventType, docs: Seq<Json>)
    ensures
        apply_docs(c, t, docs) == apply_docs(c, t, known_docs(docs)),
        docs_changes(c, t, docs) == docs_changes(c, t, known_docs(docs)),
        docs_dropped(c, t, docs) == docs_dropped(c, t, known_docs(docs)),
    decreases docs.len(),
{
    if docs.len() > 0 {
        let p = docs.drop_last();
        lemma_known_docs(c, t, p);
        let kp = known_docs(p);
        if identify_spec(docs.last()) is Some {
            assert(kp.push(docs.last()).drop_last() =~= kp);
        } else {
            assert(docs_changes(c, t, p) + Seq::<(ResourceType, Seq<char>)>::empty() =~= docs_changes(c, t, p));
            assert(docs_dropped(c, t, p) + Seq::<(ResourceType, Seq<char>)>::empty() =~= docs_dropped(c, t, p));
        }
    }
}

/// Documents of kinds that are not known, wherever they stand in a batch,
/// are skipped: the batch leaves the cache, the reported changes and the
/// dropped resources as the batch without them does.
pub proof fn unknown_kinds_anywhere_are_ignored(c: CacheModel, evs: Seq<(HueEventType, Seq<Json>)>)
    ensures
        apply_events(c, evs) == apply_events(c, known_events(evs)),
        events_changes(c, evs) == events_changes(c, known_events(evs)),
        events_dropped(c, evs) == events_dropped(c, known_events(evs)),
    decreases evs.len(),
{
    if evs.len() > 0 {
        let p = evs.drop_last();
        unknown_kinds_anywhere_are_ignored(c, p);
        assert(known_events(evs).drop_last() =~= known_events(p));
        let m = apply_events(c, p);
        lemma_known_docs(m, evs.last().0, evs.last().1);
    }
}

} // verus!
