//! JSON-Schema fix-up for Kimi/Moonshot: where an object carries both a
//! `type` and `anyOf`/`oneOf` alternatives, the type moves into each
//! alternative that lacks one. Schemas are held as `Json` trees.

use vstd::prelude::*;
use crate::text;

verus! {

/// A JSON value. An object is its list of members; a JSON object never
/// holds a key twice.
#[derive(Debug)]
pub enum Json {
    Null,
    Bool(bool),
    /// A number, as written.
    Number(String),
    Str(String),
    Array(Vec<Json>),
    Object(Vec<(String, Json)>),
}

/// A JSON value as text and sequences.
pub enum JsonV {
    Null,
    Bool(bool),
    Number(Seq<char>),
    Str(Seq<char>),
    Array(Seq<JsonV>),
    Object(Seq<(Seq<char>, JsonV)>),
}

pub open spec fn json_view(j: Json) -> JsonV
    decreases j, 0nat,
{
    match j {
        Json::Null => JsonV::Null,
        Json::Bool(b) => JsonV::Bool(b),
        Json::Number(n) => JsonV::Number(n@),
        Json::Str(s) => JsonV::Str(s@),
        Json::Array(v) => JsonV::Array(items_view(v@)),
        Json::Object(v) => JsonV::Object(members_view(v@)),
    }
}

pub open spec fn items_view(s: Seq<Json>) -> Seq<JsonV>
    decreases s, 1nat,
{
    if s.len() == 0 {
        Seq::empty()
    } else {
        items_view(s.drop_last()).push(json_view(s.last()))
    }
}

pub open spec fn members_view(s: Seq<(String, Json)>) -> Seq<(Seq<char>, JsonV)>
    decreases s, 1nat,
{
    if s.len() == 0 {
        Seq::empty()
    } else {
        members_view(s.drop_last()).push((s.last().0@, json_view(s.last().1)))
    }
}

pub open spec fn has_member(m: Seq<(Seq<char>, JsonV)>, k: Seq<char>) -> bool {
    exists|i: int| 0 <= i < m.len() && (#[trigger] m[i]).0 == k
}

/// The value of the first member named `k` (`Null` where there is none).
pub open spec fn first_value(m: Seq<(Seq<char>, JsonV)>, k: Seq<char>) -> JsonV
    decreases m.len(),
{
    if m.len() == 0 {
        JsonV::Null
    } else if has_member(m.drop_last(), k) {
        first_value(m.drop_last(), k)
    } else if m.last().0 == k {
        m.last().1
    } else {
        JsonV::Null
    }
}

/// The members not named `k`.
pub open spec fn without(m: Seq<(Seq<char>, JsonV)>, k: Seq<char>) -> Seq<(Seq<char>, JsonV)> {
    m.filter(|p: (Seq<char>, JsonV)| p.0 != k)
}

/// An alternative gets type `t` when it is an object without a type.
pub open spec fn typed(item: JsonV, t: JsonV) -> JsonV {
    match item {
        JsonV::Object(o) => if has_member(o, "type"@) {
            item
        } else {
            JsonV::Object(o.push(("type"@, t)))
        },
        _ => item,
    }
}

/// A member whose alternatives (under `anyOf`/`oneOf`) are typed with `t`.
pub open spec fn alternatives_typed(p: (Seq<char>, JsonV), t: JsonV) -> (Seq<char>, JsonV) {
    if p.0 == "anyOf"@ || p.0 == "oneOf"@ {
        match p.1 {
            JsonV::Array(items) => (p.0, JsonV::Array(items.map_values(|x: JsonV| typed(x, t)))),
            _ => p,
        }
    } else {
        p
    }
}

/// Whether an object's members call for the push-down.
pub open spec fn pushes_down(m: Seq<(Seq<char>, JsonV)>) -> bool {
    has_member(m, "type"@) && (has_member(m, "anyOf"@) || has_member(m, "oneOf"@))
}

/// The push-down on one object's (already sanitized) members.
pub open spec fn pushed_down(m: Seq<(Seq<char>, JsonV)>) -> Seq<(Seq<char>, JsonV)> {
    if pushes_down(m) {
        without(m, "type"@).map_values(
            |p: (Seq<char>, JsonV)| alternatives_typed(p, first_value(m, "type"@)),
        )
    } else {
        m
    }
}

/// The sanitized schema: children first, then the push-down.
pub open spec fn kimi(j: JsonV) -> JsonV
    decreases j, 0nat,
{
    match j {
        JsonV::Array(items) => JsonV::Array(kimi_items(items)),
        JsonV::Object(m) => JsonV::Object(pushed_down(kimi_members(m))),
        _ => j,
    }
}

pub open spec fn kimi_items(s: Seq<JsonV>) -> Seq<JsonV>
    decreases s, 1nat,
{
    if s.len() == 0 {
        Seq::empty()
    } else {
        kimi_items(s.drop_last()).push(kimi(s.last()))
    }
}

pub open spec fn kimi_members(s: Seq<(Seq<char>, JsonV)>) -> Seq<(Seq<char>, JsonV)>
    decreases s, 1nat,
{
    if s.len() == 0 {
        Seq::empty()
    } else {
        kimi_members(s.drop_last()).push((s.last().0, kimi(s.last().1)))
    }
}

pub proof fn lemma_items_view(s: Seq<Json>)
    ensures
        items_view(s).len() == s.len(),
        forall|i: int| 0 <= i < s.len() ==> #[trigger] items_view(s)[i] == json_view(s[i]),
    decreases s.len(),
{
    if s.len() > 0 {
        lemma_items_view(s.drop_last());
    }
}

pub proof fn lemma_members_view(s: Seq<(String, Json)>)
    ensures
        members_view(s).len() == s.len(),
        forall|i: int|
            0 <= i < s.len() ==> #[trigger] members_view(s)[i] == (s[i].0@, json_view(s[i].1)),
    decreases s.len(),
{
    if s.len() > 0 {
        lemma_members_view(s.drop_last());
    }
}

/// Whether `k` is exactly `p`.
fn key_is(k: &String, p: &str) -> (r: bool)
    ensures
        r == (k@ == p@),
{
    let v = text::chars_of(k.as_str());
    text::vec_eq_str(&v, p)
}

/// Whether some member is named `p`.
fn has_key(m: &Vec<(String, Json)>, p: &str) -> (r: bool)
    ensures
        r == has_member(members_view(m@), p@),
{
    proof {
        lemma_members_view(m@);
    }
    let mut i: usize = 0;
    while i < m.len()
        invariant
            i <= m.len(),
            members_view(m@).len() == m@.len(),
            forall|j: int|
                0 <= j < m@.len() ==> #[trigger] members_view(m@)[j] == (m@[j].0@, json_view(m@[j].1)),
            forall|j: int| 0 <= j < i ==> (#[trigger] members_view(m@)[j]).0 != p@,
        decreases m.len() - i,
    {
        if key_is(&m[i].0, p) {
            assert(members_view(m@)[i as int].0 == p@);
            return true;
        }
        i = i + 1;
    }
    false
}

/// A copy of `j`.
fn copy(j: &Json) -> (r: Json)
    ensures
        json_view(r) == json_view(*j),
    decreases j,
{
    match j {
        Json::Null => Json::Null,
        Json::Bool(b) => Json::Bool(*b),
        Json::Number(n) => Json::Number(n.clone()),
        Json::Str(s) => Json::Str(s.clone()),
        Json::Array(v) => {
            let mut r: Vec<Json> = Vec::new();
            let mut i: usize = 0;
            while i < v.len()
                invariant
                    *j == Json::Array(*v),
                    i <= v.len(),
                    r@.len() == i,
                    forall|k: int| 0 <= k < i ==> json_view(#[trigger] r@[k]) == json_view(v@[k]),
                decreases v.len() - i,
            {
                proof {
                    assert(decreases_to!(*j => (*j)->Array_0));
                    assert(decreases_to!(*v => v@));
                    assert(decreases_to!(v@ => v@[i as int]));
                }
                let x = copy(&v[i]);
                r.push(x);
                i = i + 1;
            }
            proof {
                lemma_items_view(r@);
                lemma_items_view(v@);
                assert(items_view(r@) =~= items_view(v@));
            }
            Json::Array(r)
        },
        Json::Object(m) => {
            let mut r: Vec<(String, Json)> = Vec::new();
            let mut i: usize = 0;
            while i < m.len()
                invariant
                    *j == Json::Object(*m),
                    i <= m.len(),
                    r@.len() == i,
                    forall|k: int|
                        0 <= k < i ==> (#[trigger] r@[k]).0@ == m@[k].0@ && json_view(r@[k].1)
                            == json_view(m@[k].1),
                decreases m.len() - i,
            {
                let key = m[i].0.clone();
                proof {
                    assert(decreases_to!(*j => (*j)->Object_0));
                    assert(decreases_to!(*m => m@));
                    assert(decreases_to!(m@ => m@[i as int]));
                    assert(decreases_to!(m@[i as int] => m@[i as int].1));
                }
                let x = copy(&m[i].1);
                r.push((key, x));
                i = i + 1;
            }
            proof {
                lemma_members_view(r@);
                lemma_members_view(m@);
                assert(members_view(r@) =~= members_view(m@));
            }
            Json::Object(r)
        },
    }
}

/// The members of `m` not named `k`, and the value of the first one that is.
fn split_off(m: Vec<(String, Json)>, k: &str) -> (r: (Vec<(String, Json)>, Option<Json>))
    ensures
        members_view(r.0@) == without(members_view(m@), k@),
        match r.1 {
            Some(t) => has_member(members_view(m@), k@) && json_view(t) == first_value(
                members_view(m@),
                k@,
            ),
            None => !has_member(members_view(m@), k@),
        },
    decreases m@.len(),
{
    let mut m = m;
    let ghost s = m@;
    if m.len() == 0 {
        proof {
            reveal_with_fuel(Seq::filter, 1);
        }
        return (m, None);
    }
    let (key, val) = m.pop().unwrap();
    let (mut rest, found) = split_off(m, k);
    let is_k = key_is(&key, k);
    proof {
        reveal_with_fuel(Seq::filter, 1);
        let mv = members_view(s);
        assert(s.drop_last() =~= m@);
        assert(mv.drop_last() =~= members_view(m@));
        assert(mv.last() == (key@, json_view(val)));
        assert(has_member(mv, k@) == (has_member(members_view(m@), k@) || key@ == k@)) by {
            if has_member(mv, k@) {
                let i = choose|i: int| 0 <= i < mv.len() && (#[trigger] mv[i]).0 == k@;
                if i < mv.len() - 1 {
                    assert(members_view(m@)[i] == mv[i]);
                }
            }
            if has_member(members_view(m@), k@) {
                let i = choose|i: int|
                    0 <= i < members_view(m@).len() && (#[trigger] members_view(m@)[i]).0 == k@;
                assert(mv[i] == members_view(m@)[i]);
            }
        }
    }
    if is_k {
        match found {
            Some(t) => (rest, Some(t)),
            None => (rest, Some(val)),
        }
    } else {
        let ghost r0 = rest@;
        rest.push((key, val));
        proof {
            assert(rest@.drop_last() =~= r0);
        }
        (rest, found)
    }
}

/// `x` with type `t` added when it is an object without a type.
fn typed_one(x: Json, t: &Json) -> (r: Json)
    ensures
        json_view(r) == typed(json_view(x), json_view(*t)),
{
    match x {
        Json::Object(mut o) => {
            if !has_key(&o, "type") {
                let ghost o0 = o@;
                let mut key = String::new();
                text::push_str(&mut key, "type");
                let v = copy(t);
                o.push((key, v));
                proof {
                    assert(o@.drop_last() =~= o0);
                }
            }
            Json::Object(o)
        },
        other => other,
    }
}

/// The alternatives `items`, each typed with `t`.
fn typed_items(items: Vec<Json>, t: &Json) -> (r: Vec<Json>)
    ensures
        items_view(r@) == items_view(items@).map_values(|x: JsonV| typed(x, json_view(*t))),
    decreases items@.len(),
{
    let mut items = items;
    let ghost s = items@;
    if items.len() == 0 {
        proof {
            assert(items_view(s).map_values(|x: JsonV| typed(x, json_view(*t))) =~= Seq::empty());
        }
        return items;
    }
    let x = items.pop().unwrap();
    let mut r = typed_items(items, t);
    let y = typed_one(x, t);
    let ghost r0 = r@;
    r.push(y);
    proof {
        assert(s.drop_last() =~= items@);
        assert(r@.drop_last() =~= r0);
        let f = |x: JsonV| typed(x, json_view(*t));
        assert(items_view(s).map_values(f) =~= items_view(s.drop_last()).map_values(f).push(
            f(json_view(s.last())),
        ));
    }
    r
}

/// The members `m`, the alternatives under `anyOf`/`oneOf` typed with `t`.
fn typed_alternatives(m: Vec<(String, Json)>, t: &Json) -> (r: Vec<(String, Json)>)
    ensures
        members_view(r@) == members_view(m@).map_values(
            |p: (Seq<char>, JsonV)| alternatives_typed(p, json_view(*t)),
        ),
    decreases m@.len(),
{
    let mut m = m;
    let ghost s = m@;
    if m.len() == 0 {
        proof {
            assert(members_view(s).map_values(
                |p: (Seq<char>, JsonV)| alternatives_typed(p, json_view(*t)),
            ) =~= Seq::empty());
        }
        return m;
    }
    let (key, val) = m.pop().unwrap();
    let mut r = typed_alternatives(m, t);
    let alt = key_is(&key, "anyOf") || key_is(&key, "oneOf");
    let val2 = if alt {
        match val {
            Json::Array(items) => Json::Array(typed_items(items, t)),
            other => other,
        }
    } else {
        val
    };
    let ghost r0 = r@;
    r.push((key, val2));
    proof {
        assert(s.drop_last() =~= m@);
        assert(r@.drop_last() =~= r0);
        let f = |p: (Seq<char>, JsonV)| alternatives_typed(p, json_view(*t));
        assert(members_view(s).drop_last() =~= members_view(m@));
        assert(members_view(s).last() == (key@, json_view(val)));
        assert(f(members_view(s).last()) == (key@, json_view(val2)));
        assert(members_view(r@) == members_view(r0).push((key@, json_view(val2))));
        assert(members_view(s).map_values(f) =~= members_view(s.drop_last()).map_values(f).push(
            f(members_view(s).last()),
        ));
    }
    r
}

/// One object's members after the push-down.
fn push_down(m: Vec<(String, Json)>) -> (r: Vec<(String, Json)>)
    ensures
        members_view(r@) == pushed_down(members_view(m@)),
{
    let has_type = has_key(&m, "type");
    let has_alt = has_key(&m, "anyOf") || has_key(&m, "oneOf");
    if !(has_type && has_alt) {
        return m;
    }
    let (rest, ty) = split_off(m, "type");
    match ty {
        Some(t) => typed_alternatives(rest, &t),
        None => {
            proof {
                assert(false);
            }
            rest
        },
    }
}

/// The sanitized form of `j`.
fn sanitized(j: Json) -> (r: Json)
    ensures
        json_view(r) == kimi(json_view(j)),
    decreases j,
{
    match j {
        Json::Array(v) => {
            proof {
                assert(decreases_to!(j => j->Array_0));
                assert(decreases_to!(v => v@));
            }
            Json::Array(sanitized_items(v))
        },
        Json::Object(m) => {
            proof {
                assert(decreases_to!(j => j->Object_0));
                assert(decreases_to!(m => m@));
            }
            let m2 = sanitized_members(m);
            Json::Object(push_down(m2))
        },
        other => other,
    }
}

/// The sanitized forms of `v`'s items.
fn sanitized_items(v: Vec<Json>) -> (r: Vec<Json>)
    ensures
        items_view(r@) == kimi_items(items_view(v@)),
    decreases v@,
{
    let mut v = v;
    let ghost s = v@;
    if v.len() == 0 {
        return v;
    }
    let x = v.pop().unwrap();
    proof {
        assert(decreases_to!(s => s[s.len() - 1]));
        assert(decreases_to!(s => s.subrange(0, s.len() - 1)));
    }
    let mut r = sanitized_items(v);
    let y = sanitized(x);
    let ghost r0 = r@;
    r.push(y);
    proof {
        assert(s.drop_last() =~= v@);
        assert(r@.drop_last() =~= r0);
        let iv = items_view(s);
        assert(iv.drop_last() =~= items_view(s.drop_last()));
    }
    r
}

/// The members of `m` with sanitized values.
fn sanitized_members(m: Vec<(String, Json)>) -> (r: Vec<(String, Json)>)
    ensures
        members_view(r@) == kimi_members(members_view(m@)),
    decreases m@,
{
    let mut m = m;
    let ghost s = m@;
    if m.len() == 0 {
        return m;
    }
    let (key, val) = m.pop().unwrap();
    proof {
        assert(decreases_to!(s => s[s.len() - 1]));
        assert(decreases_to!(s[s.len() - 1] => s[s.len() - 1].1));
        assert(decreases_to!(s => s.subrange(0, s.len() - 1)));
    }
    let mut r = sanitized_members(m);
    let y = sanitized(val);
    let ghost r0 = r@;
    r.push((key, y));
    proof {
        assert(s.drop_last() =~= m@);
        assert(r@.drop_last() =~= r0);
        let mv = members_view(s);
        assert(mv.drop_last() =~= members_view(s.drop_last()));
    }
    r
}

/// Normalizes a tool's JSON schema for the Kimi/Moonshot API: in every object
/// that has a `type` and `anyOf` or `oneOf` alternatives (its children
/// normalized first), the `type` leaves the object and goes into each
/// alternative object that has none. Everything else stays as it was.
pub fn sanitize_for_kimi(schema: &mut Json)
    ensures
        json_view(*final(schema)) == kimi(json_view(*old(schema))),
{
    let mut j = Json::Null;
    std::mem::swap(&mut j, schema);
    *schema = sanitized(j);
}


/// Whether no object in `j` carries both a `type` and `anyOf`/`oneOf`.
pub open spec fn plain(j: JsonV) -> bool
    decreases j, 0nat,
{
    match j {
        JsonV::Array(items) => plain_items(items),
        JsonV::Object(m) => !pushes_down(m) && plain_members(m),
        _ => true,
    }
}

pub open spec fn plain_items(s: Seq<JsonV>) -> bool
    decreases s, 1nat,
{
    s.len() == 0 || (plain_items(s.drop_last()) && plain(s.last()))
}

pub open spec fn plain_members(s: Seq<(Seq<char>, JsonV)>) -> bool
    decreases s, 1nat,
{
    s.len() == 0 || (plain_members(s.drop_last()) && plain(s.last().1))
}

/// A schema in which no object has both a `type` and `anyOf`/`oneOf`
/// alternatives comes out of the fix-up unchanged.
pub proof fn lemma_plain_schema_unchanged(j: JsonV)
    requires
        plain(j),
    ensures
        kimi(j) == j,
    decreases j, 0nat,
{
    match j {
        JsonV::Array(items) => {
            lemma_plain_items_unchanged(items);
        },
        JsonV::Object(m) => {
            lemma_plain_members_unchanged(m);
        },
        _ => {},
    }
}

proof fn lemma_plain_items_unchanged(s: Seq<JsonV>)
    requires
        plain_items(s),
    ensures
        kimi_items(s) == s,
    decreases s, 1nat,
{
    if s.len() > 0 {
        lemma_plain_items_unchanged(s.drop_last());
        lemma_plain_schema_unchanged(s.last());
        assert(kimi_items(s) =~= s);
    }
}

proof fn lemma_plain_members_unchanged(s: Seq<(Seq<char>, JsonV)>)
    requires
        plain_members(s),
    ensures
        kimi_members(s) == s,
    decreases s, 1nat,
{
    if s.len() > 0 {
        lemma_plain_members_unchanged(s.drop_last());
        lemma_plain_schema_unchanged(s.last().1);
        assert(kimi_members(s) =~= s);
    }
}

} // verus!
