//! JSON documents as the resource cache stores them, and the merge-patch
//! operation (RFC 7396) that update events apply to stored documents.
use vstd::prelude::*;
use vstd::string::StringExecFns;

verus! {

broadcast use vstd::std_specs::vec::axiom_vec_index_decreases, vstd::seq::axiom_seq_index_decreases;

/// Mathematical model of a JSON document. Numbers keep their literal text.
pub enum Json {
    Null,
    Bool(bool),
    Number(Seq<char>),
    Str(Seq<char>),
    Array(Seq<Json>),
    Object(Seq<(Seq<char>, Json)>),
}

/// Index of the last member named `k`, or -1 when there is none.
pub open spec fn key_index(m: Seq<(Seq<char>, Json)>, k: Seq<char>) -> int
    decreases m.len(),
{
    if m.len() == 0 {
        -1
    } else if m.last().0 == k {
        m.len() - 1
    } else {
        key_index(m.drop_last(), k)
    }
}

/// The value of member `k`, `null` when absent.
pub open spec fn member(m: Seq<(Seq<char>, Json)>, k: Seq<char>) -> Json {
    if key_index(m, k) >= 0 {
        m[key_index(m, k)].1
    } else {
        Json::Null
    }
}

/// Sets member `k` to `v`, in place when present, appended otherwise.
pub open spec fn set_member(m: Seq<(Seq<char>, Json)>, k: Seq<char>, v: Json) -> Seq<(Seq<char>, Json)> {
    if key_index(m, k) >= 0 {
        m.update(key_index(m, k), (k, v))
    } else {
        m.push((k, v))
    }
}

/// Drops every member named `k`, keeping the order of the others.
pub open spec fn remove_member(m: Seq<(Seq<char>, Json)>, k: Seq<char>) -> Seq<(Seq<char>, Json)>
    decreases m.len(),
{
    if m.len() == 0 {
        m
    } else {
        let rest = remove_member(m.drop_last(), k);
        if m.last().0 == k {
            rest
        } else {
            rest.push(m.last())
        }
    }
}

/// The members of an object; any other document has none.
pub open spec fn members_of(j: Json) -> Seq<(Seq<char>, Json)> {
    match j {
        Json::Object(m) => m,
        _ => Seq::empty(),
    }
}

/// RFC 7396 merge patch: a patch that is an object is merged key by key
/// (a `null` member removes the key, any other member is merged
/// recursively onto the old value); any other patch replaces the target.
pub open spec fn merge_patch(target: Json, patch: Json) -> Json
    decreases patch, 0nat,
{
    match patch {
        Json::Object(pm) => Json::Object(merge_members(members_of(target), pm, pm.len())),
        _ => patch,
    }
}

/// The members `tm` after the first `n` members of the patch `pm` were merged onto them.
pub open spec fn merge_members(
    tm: Seq<(Seq<char>, Json)>,
    pm: Seq<(Seq<char>, Json)>,
    n: nat,
) -> Seq<(Seq<char>, Json)>
    decreases pm, n,
{
    if n == 0 || n > pm.len() {
        tm
    } else {
        let rest = merge_members(tm, pm, (n - 1) as nat);
        let k = pm[n - 1].0;
        let v = pm[n - 1].1;
        if v is Null {
            remove_member(rest, k)
        } else {
            set_member(rest, k, merge_patch(member(rest, k), v))
        }
    }
}

/// A JSON document. Object members keep their order; numbers keep their
/// literal text, so that no value is rounded on its way through the cache.
#[derive(Debug)]
pub enum JsonValue {
    Null,
    Bool(bool),
    Number(String),
    Str(String),
    Array(Vec<JsonValue>),
    Object(Vec<(String, JsonValue)>),
}

/// The model of an object's member list.
pub open spec fn members_view(v: Seq<(String, JsonValue)>) -> Seq<(Seq<char>, Json)> {
    Seq::new(v.len(), |i: int| (v[i].0@, v[i].1@))
}

impl JsonValue {
    pub open spec fn view(&self) -> Json
        decreases self,
    {
        match self {
            JsonValue::Null => Json::Null,
            JsonValue::Bool(b) => Json::Bool(*b),
            JsonValue::Number(n) => Json::Number(n@),
            JsonValue::Str(s) => Json::Str(s@),
            JsonValue::Array(items) => Json::Array(
                Seq::new(
                    items.len() as nat,
                    |i: int|
                        if 0 <= i < items.len() {
                            items[i].view()
                        } else {
                            Json::Null
                        },
                ),
            ),
            JsonValue::Object(members) => Json::Object(
                Seq::new(
                    members.len() as nat,
                    |i: int|
                        if 0 <= i < members.len() {
                            (members[i].0@, members[i].1.view())
                        } else {
                            (Seq::empty(), Json::Null)
                        },
                ),
            ),
        }
    }

    /// An object without members.
    pub fn empty_object() -> (r: JsonValue)
        ensures
            r@ == Json::Object(Seq::empty()),
    {
        let v: Vec<(String, JsonValue)> = Vec::new();
        proof {
            lemma_object_view(v);
            assert(members_view(v@) =~= Seq::empty());
        }
        JsonValue::Object(v)
    }

    pub fn is_null(&self) -> (r: bool)
        ensures
            r == (self@ is Null),
    {
        match self {
            JsonValue::Null => true,
            _ => false,
        }
    }

    /// A copy of the whole document.
    pub fn deep_copy(&self) -> (r: JsonValue)
        ensures
            r@ == self@,
    {
        copy_of(self)
    }
}

/// A copy of the whole document `v`.
fn copy_of(v: &JsonValue) -> (r: JsonValue)
    ensures
        r@ == v@,
    decreases v,
{
        match v {
            JsonValue::Null => JsonValue::Null,
            JsonValue::Bool(b) => JsonValue::Bool(*b),
            JsonValue::Number(n) => JsonValue::Number(n.clone()),
            JsonValue::Str(s) => JsonValue::Str(s.clone()),
            JsonValue::Array(items) => {
                let mut out: Vec<JsonValue> = Vec::new();
                let mut i: usize = 0;
                proof {
                    lemma_array_view(*items);
                }
                while i < items.len()
                    invariant
                        i <= items.len(),
                        v@ == Json::Array(Seq::new(items.len() as nat, |j: int| items[j]@)),
                        *v == JsonValue::Array(*items),
                        out.len() == i,
                        forall|j: int| 0 <= j < i ==> #[trigger] out[j]@ == items[j]@,
                    decreases items.len() - i,
                {
                    proof {
                        assert(decreases_to!(*items => items[i as int]));
                    }
                    let it = &items[i];
                    let c = copy_of(it);
                    out.push(c);
                    i += 1;
                }
                proof {
                    lemma_array_view(out);
                    lemma_array_view(*items);
                    assert(Seq::new(out.len() as nat, |j: int| out[j]@) =~= Seq::new(
                        items.len() as nat,
                        |j: int| items[j]@,
                    ));
                }
                JsonValue::Array(out)
            },
            JsonValue::Object(members) => {
                let mut out: Vec<(String, JsonValue)> = Vec::new();
                let mut i: usize = 0;
                proof {
                    lemma_object_view(*members);
                }
                while i < members.len()
                    invariant
                        i <= members.len(),
                        v@ == Json::Object(members_view(members@)),
                        *v == JsonValue::Object(*members),
                        out.len() == i,
                        forall|j: int|
                            0 <= j < i ==> #[trigger] out[j].0@ == members[j].0@ && out[j].1@
                                == members[j].1@,
                    decreases members.len() - i,
                {
                    proof {
                        assert(decreases_to!(*members => members[i as int]));
                        assert(decreases_to!(members[i as int] => members[i as int].1));
                    }
                    let it = &members[i].1;
                    let c = copy_of(it);
                    let k = members[i].0.clone();
                    let ghost before = out@;
                    out.push((k, c));
                    assert forall|j: int| 0 <= j < i + 1 implies #[trigger] out[j].0@ == members[j].0@
                        && out[j].1@ == members[j].1@ by {
                        if j < i {
                            assert(out[j] == before[j]);
                        }
                    }
                    i += 1;
                }
                proof {
                    lemma_object_view(out);
                    lemma_object_view(*members);
                    assert(members_view(out@) =~= members_view(members@));
                }
                JsonValue::Object(out)
            },
        }
    }

impl JsonValue {
    /// The value of member `key` of an object; `None` for an absent member
    /// or a document that is not an object.
    pub fn get(&self, key: &String) -> (r: Option<&JsonValue>)
        ensures
            match r {
                Some(v) => self@ is Object && key_index(members_of(self@), key@) >= 0 && v@
                    == member(members_of(self@), key@),
                None => !(self@ is Object) || key_index(members_of(self@), key@) < 0,
            },
    {
        match self {
            JsonValue::Object(members) => {
                proof {
                    lemma_object_view(*members);
                }
                match find_member(members, key) {
                    Some(j) => Some(&members[j].1),
                    None => None,
                }
            },
            _ => None,
        }
    }
}

/// The view of an object is the model of its member list.
pub proof fn lemma_object_view(v: Vec<(String, JsonValue)>)
    ensures
        JsonValue::Object(v)@ == Json::Object(members_view(v@)),
{
    if let Json::Object(a) = JsonValue::Object(v)@ {
        assert(a =~= members_view(v@));
    }
}

/// The view of an array is the sequence of its items' views.
pub proof fn lemma_array_view(v: Vec<JsonValue>)
    ensures
        JsonValue::Array(v)@ == Json::Array(Seq::new(v.len() as nat, |i: int| v[i]@)),
{
    if let Json::Array(a) = JsonValue::Array(v)@ {
        assert(a =~= Seq::new(v.len() as nat, |i: int| v[i]@));
    }
}

/// Position of the last member named `k`.
pub fn find_member(m: &Vec<(String, JsonValue)>, k: &String) -> (r: Option<usize>)
    ensures
        key_index(members_view(m@), k@) == match r {
            Some(i) => i as int,
            None => -1,
        },
        r is Some ==> r.unwrap() < m.len(),
{
    let ghost full = members_view(m@);
    let mut i: usize = m.len();
    assert(full.take(i as int) =~= full);
    while i > 0
        invariant
            i <= m.len(),
            full == members_view(m@),
            key_index(full, k@) == key_index(full.take(i as int), k@),
        decreases i,
    {
        assert(full.take(i as int).drop_last() =~= full.take(i - 1));
        if m[i - 1].0 == *k {
            return Some(i - 1);
        }
        i -= 1;
    }
    None
}

/// `m` without the members named `k`.
pub fn remove_members(m: &Vec<(String, JsonValue)>, k: &String) -> (r: Vec<(String, JsonValue)>)
    ensures
        members_view(r@) == remove_member(members_view(m@), k@),
{
    let ghost full = members_view(m@);
    let mut out: Vec<(String, JsonValue)> = Vec::new();
    let mut i: usize = 0;
    while i < m.len()
        invariant
            i <= m.len(),
            full == members_view(m@),
            members_view(out@) == remove_member(full.take(i as int), k@),
        decreases m.len() - i,
    {
        assert(full.take(i + 1).drop_last() =~= full.take(i as int));
        if m[i].0 != *k {
            let ghost before = out@;
            out.push((m[i].0.clone(), m[i].1.deep_copy()));
            assert(members_view(out@) =~= members_view(before).push(full[i as int]));
        }
        i += 1;
    }
    assert(full.take(m.len() as int) =~= full);
    out
}

/// Sets member `k` of `m` to `v`.
pub fn put_member(m: &mut Vec<(String, JsonValue)>, k: String, v: JsonValue)
    ensures
        members_view(final(m)@) == set_member(members_view(old(m)@), k@, v@),
{
    let ghost kv = (k@, v@);
    match find_member(m, &k) {
        Some(i) => {
            m.set(i, (k, v));
            assert(members_view(m@) =~= members_view(old(m)@).update(i as int, kv));
        },
        None => {
            m.push((k, v));
            assert(members_view(m@) =~= members_view(old(m)@).push(kv));
        },
    }
}

/// The document `target` with `patch` merged onto it (RFC 7396).
pub fn merge(target: &JsonValue, patch: &JsonValue) -> (r: JsonValue)
    ensures
        r@ == merge_patch(target@, patch@),
    decreases patch,
{
    match patch {
        JsonValue::Object(pm) => {
            proof {
                lemma_object_view(*pm);
            }
            let ghost pms = members_view(pm@);
            let mut m: Vec<(String, JsonValue)> = match target.deep_copy() {
                JsonValue::Object(tm) => {
                    proof {
                        lemma_object_view(tm);
                    }
                    tm
                },
                _ => Vec::new(),
            };
            assert(members_view(m@) =~= merge_members(members_of(target@), pms, 0));
            let mut i: usize = 0;
            while i < pm.len()
                invariant
                    i <= pm.len(),
                    *patch == JsonValue::Object(*pm),
                    pms == members_view(pm@),
                    patch@ == Json::Object(pms),
                    members_view(m@) == merge_members(members_of(target@), pms, i as nat),
                decreases pm.len() - i,
            {
                let k = &pm[i].0;
                let v = &pm[i].1;
                if v.is_null() {
                    m = remove_members(&m, k);
                } else {
                    let cur = match find_member(&m, k) {
                        Some(j) => m[j].1.deep_copy(),
                        None => JsonValue::Null,
                    };
                    proof {
                        assert(decreases_to!(*pm => pm[i as int]));
                        assert(decreases_to!(pm[i as int] => pm[i as int].1));
                    }
                    let nv = merge(&cur, v);
                    put_member(&mut m, k.clone(), nv);
                }
                i += 1;
            }
            proof {
                lemma_object_view(m);
            }
            JsonValue::Object(m)
        },
        _ => patch.deep_copy(),
    }
}

/// An object with the given members, in order.
pub open spec fn obj(m: Seq<(Seq<char>, Json)>) -> Json {
    Json::Object(m)
}

/// The decimal digit `d` (below ten) as a character.
pub open spec fn digit_char(d: nat) -> char {
    if d == 0 { '0' } else if d == 1 { '1' } else if d == 2 { '2' } else if d == 3 { '3' }
    else if d == 4 { '4' } else if d == 5 { '5' } else if d == 6 { '6' } else if d == 7 { '7' }
    else if d == 8 { '8' } else { '9' }
}

/// The decimal text of `n`, without leading zeros.
pub open spec fn decimal_text(n: nat) -> Seq<char>
    decreases n,
{
    if n < 10 {
        seq![digit_char(n)]
    } else {
        decimal_text(n / 10).push(digit_char(n % 10))
    }
}

/// An optional string as a document: a string, or `null`.
pub open spec fn opt_string(s: Option<String>) -> Json {
    match s {
        Some(t) => Json::Str(t@),
        None => Json::Null,
    }
}

fn digit(d: u64) -> (r: &'static str)
    requires
        d < 10,
    ensures
        r@ == seq![digit_char(d as nat)],
{
    proof {
        reveal_strlit("0");
        reveal_strlit("1");
        reveal_strlit("2");
        reveal_strlit("3");
        reveal_strlit("4");
        reveal_strlit("5");
        reveal_strlit("6");
        reveal_strlit("7");
        reveal_strlit("8");
        reveal_strlit("9");
    }
    let r = if d == 0 { "0" } else if d == 1 { "1" } else if d == 2 { "2" } else if d == 3 { "3" }
    else if d == 4 { "4" } else if d == 5 { "5" } else if d == 6 { "6" } else if d == 7 { "7" }
    else if d == 8 { "8" } else { "9" };
    assert(r@ =~= seq![digit_char(d as nat)]);
    r
}

/// The decimal text of `n`.
pub fn decimal(n: u64) -> (r: String)
    ensures
        r@ == decimal_text(n as nat),
    decreases n,
{
    if n < 10 {
        digit(n).to_owned()
    } else {
        let mut s = decimal(n / 10);
        s.append(digit(n % 10));
        assert(s@ =~= decimal_text(n as nat));
        s
    }
}

impl JsonValue {
    /// The number `n`.
    pub fn number(n: u64) -> (r: JsonValue)
        ensures
            r@ == Json::Number(decimal_text(n as nat)),
    {
        JsonValue::Number(decimal(n))
    }

    /// The string `s`.
    pub fn text(s: &str) -> (r: JsonValue)
        ensures
            r@ == Json::Str(s@),
    {
        JsonValue::Str(s.to_owned())
    }

    /// The optional string `s`, `null` for `None`.
    pub fn opt_text(s: &Option<String>) -> (r: JsonValue)
        ensures
            r@ == opt_string(*s),
    {
        match s {
            Some(t) => JsonValue::Str(t.clone()),
            None => JsonValue::Null,
        }
    }

    /// An object of one member.
    pub fn object1(k: &str, v: JsonValue) -> (r: JsonValue)
        ensures
            r@ == obj(seq![(k@, v@)]),
    {
        let mut m: Vec<(String, JsonValue)> = Vec::new();
        m.push((k.to_owned(), v));
        proof {
            lemma_object_view(m);
            assert(members_view(m@) =~= seq![(k@, v@)]);
        }
        JsonValue::Object(m)
    }

    /// An object of two members.
    pub fn object2(k1: &str, v1: JsonValue, k2: &str, v2: JsonValue) -> (r: JsonValue)
        ensures
            r@ == obj(seq![(k1@, v1@), (k2@, v2@)]),
    {
        let ghost (a, b) = (v1@, v2@);
        let mut m: Vec<(String, JsonValue)> = Vec::new();
        m.push((k1.to_owned(), v1));
        m.push((k2.to_owned(), v2));
        proof {
            lemma_object_view(m);
            assert(members_view(m@) =~= seq![(k1@, a), (k2@, b)]);
        }
        JsonValue::Object(m)
    }

    /// An object of three members.
    pub fn object3(k1: &str, v1: JsonValue, k2: &str, v2: JsonValue, k3: &str, v3: JsonValue) -> (r: JsonValue)
        ensures
            r@ == obj(seq![(k1@, v1@), (k2@, v2@), (k3@, v3@)]),
    {
        let ghost (a, b, c) = (v1@, v2@, v3@);
        let mut m: Vec<(String, JsonValue)> = Vec::new();
        m.push((k1.to_owned(), v1));
        m.push((k2.to_owned(), v2));
        m.push((k3.to_owned(), v3));
        proof {
            lemma_object_view(m);
            assert(members_view(m@) =~= seq![(k1@, a), (k2@, b), (k3@, c)]);
        }
        JsonValue::Object(m)
    }

    /// An object with the given members, in order.
    pub fn object_of(members: Vec<(String, JsonValue)>) -> (r: JsonValue)
        ensures
            r@ == Json::Object(members_view(members@)),
    {
        proof {
            lemma_object_view(members);
        }
        JsonValue::Object(members)
    }

    /// An array of the given items.
    pub fn array(items: Vec<JsonValue>) -> (r: JsonValue)
        ensures
            r@ == Json::Array(Seq::new(items.len() as nat, |i: int| items[i]@)),
    {
        proof {
            lemma_array_view(items);
        }
        JsonValue::Array(items)
    }
}

/// `key_index` finds a member with the key, or there is none.
pub proof fn lemma_key_index(m: Seq<(Seq<char>, Json)>, k: Seq<char>)
    ensures
        -1 <= key_index(m, k) < m.len(),
        key_index(m, k) >= 0 ==> m[key_index(m, k)].0 == k,
        key_index(m, k) < 0 ==> forall|i: int| 0 <= i < m.len() ==> #[trigger] m[i].0 != k,
    decreases m.len(),
{
    if m.len() > 0 {
        lemma_key_index(m.drop_last(), k);
        if m.last().0 != k {
            assert forall|i: int| 0 <= i < m.len() - 1 implies m[i] == m.drop_last()[i] by {}
        }
    }
}

/// Setting another member leaves member `k` as it was.
pub proof fn lemma_set_other_member(m: Seq<(Seq<char>, Json)>, k2: Seq<char>, v: Json, k: Seq<char>)
    requires
        k2 != k,
    ensures
        member(set_member(m, k2, v), k) == member(m, k),
{
    lemma_key_index(m, k2);
    lemma_key_index(m, k);
    if key_index(m, k2) >= 0 {
        lemma_update_other_key(m, key_index(m, k2), (k2, v), k);
    } else {
        assert(m.push((k2, v)).drop_last() =~= m);
    }
}

proof fn lemma_update_other_key(m: Seq<(Seq<char>, Json)>, i: int, x: (Seq<char>, Json), k: Seq<char>)
    requires
        0 <= i < m.len(),
        m[i].0 != k,
        x.0 != k,
    ensures
        key_index(m.update(i, x), k) == key_index(m, k),
        member(m.update(i, x), k) == member(m, k),
    decreases m.len(),
{
    let u = m.update(i, x);
    lemma_key_index(m, k);
    if i == m.len() - 1 {
        assert(u.drop_last() =~= m.drop_last());
    } else {
        assert(u.drop_last() =~= m.drop_last().update(i, x));
        lemma_update_other_key(m.drop_last(), i, x, k);
    }
}

/// Removing another member leaves member `k` as it was.
pub proof fn lemma_remove_other_member(m: Seq<(Seq<char>, Json)>, k2: Seq<char>, k: Seq<char>)
    requires
        k2 != k,
    ensures
        member(remove_member(m, k2), k) == member(m, k),
    decreases m.len(),
{
    if m.len() > 0 {
        let p = m.drop_last();
        let rest = remove_member(p, k2);
        lemma_remove_other_member(p, k2, k);
        lemma_key_index(rest, k);
        lemma_key_index(p, k);
        if m.last().0 != k {
            assert(key_index(m, k) == key_index(p, k));
            if key_index(p, k) >= 0 {
                assert(m[key_index(p, k)] == p[key_index(p, k)]);
            }
            assert(member(m, k) == member(p, k));
        }
        if m.last().0 != k2 {
            let r = rest.push(m.last());
            assert(r.drop_last() =~= rest);
            if m.last().0 != k {
                assert(key_index(r, k) == key_index(rest, k));
                if key_index(rest, k) >= 0 {
                    assert(r[key_index(rest, k)] == rest[key_index(rest, k)]);
                }
            }
        }
    }
}

/// Setting member `k` makes `v` its value.
pub proof fn lemma_set_same_member(m: Seq<(Seq<char>, Json)>, k: Seq<char>, v: Json)
    ensures
        member(set_member(m, k, v), k) == v,
{
    lemma_key_index(m, k);
    if key_index(m, k) >= 0 {
        lemma_update_keeps_index(m, key_index(m, k), v);
    } else {
        assert(m.push((k, v)).last() == (k, v));
    }
}

proof fn lemma_update_keeps_index(m: Seq<(Seq<char>, Json)>, i: int, v: Json)
    requires
        0 <= i < m.len(),
        key_index(m, m[i].0) == i,
    ensures
        key_index(m.update(i, (m[i].0, v)), m[i].0) == i,
    decreases m.len(),
{
    let k = m[i].0;
    let u = m.update(i, (k, v));
    if i < m.len() - 1 {
        assert(m.last().0 != k);
        assert(u.drop_last() =~= m.drop_last().update(i, (k, v)));
        assert(m.drop_last()[i] == m[i]);
        lemma_update_keeps_index(m.drop_last(), i, v);
    }
}

} // verus!
