//! A closed JSON tree and association-list primitives.
//!
//! The daemon's serving configuration is an open, extensible JSON document.
//! This crate models such documents as `JsonValue` trees whose objects are
//! association lists in source order, so that fields the tool does not
//! interpret survive a read-modify-write cycle unchanged. Numbers keep their
//! literal text, which both avoids floating point and preserves them exactly.
use crate::strutil::str_eq;
use vstd::prelude::*;

verus! {

broadcast use vstd::std_specs::vec::axiom_vec_index_decreases;

/// A JSON document.
#[derive(Debug, PartialEq)]
pub enum JsonValue {
    Null,
    Bool(bool),
    /// A number, kept as its literal text so it is reproduced unchanged.
    Num(String),
    Str(String),
    Arr(Vec<JsonValue>),
    Obj(Vec<(String, JsonValue)>),
}

/// The content of a JSON document: the deep view of a `JsonValue`.
///
/// Two trees are compared by this view, so equality means equal content.
#[verifier::ext_equal]
pub enum JVal {
    Null,
    Bool(bool),
    Num(Seq<char>),
    Str(Seq<char>),
    Arr(Seq<JVal>),
    Obj(Seq<(Seq<char>, JVal)>),
}

/// The deep views of a sequence of JSON trees.
pub open spec fn items_view(items: Seq<JsonValue>) -> Seq<JVal>
    decreases items,
    via items_view_decreases
{
    Seq::new(
        items.len(),
        |i: int|
            if 0 <= i < items.len() {
                jval(items[i])
            } else {
                JVal::Null
            },
    )
}

/// The deep views of JSON object entries.
pub open spec fn entries_view(es: Seq<(String, JsonValue)>) -> Seq<(Seq<char>, JVal)>
    decreases es,
    via entries_view_decreases
{
    Seq::new(
        es.len(),
        |i: int|
            if 0 <= i < es.len() {
                (es[i].0@, jval(es[i].1))
            } else {
                (Seq::empty(), JVal::Null)
            },
    )
}

/// The deep view of a JSON tree.
pub open spec fn jval(v: JsonValue) -> JVal
    decreases v,
    via jval_decreases
{
    match v {
        JsonValue::Null => JVal::Null,
        JsonValue::Bool(b) => JVal::Bool(b),
        JsonValue::Num(s) => JVal::Num(s@),
        JsonValue::Str(s) => JVal::Str(s@),
        JsonValue::Arr(items) => JVal::Arr(items_view(items@)),
        JsonValue::Obj(es) => JVal::Obj(entries_view(es@)),
    }
}

#[via_fn]
proof fn items_view_decreases(items: Seq<JsonValue>) {
    assert forall|i: int| 0 <= i < items.len() implies decreases_to!(items => items[i]) by {
        assert(decreases_to!(items => items[i]));
    }
}

#[via_fn]
proof fn entries_view_decreases(es: Seq<(String, JsonValue)>) {
    assert forall|i: int| 0 <= i < es.len() implies decreases_to!(es => es[i].1) by {
        assert(decreases_to!(es => es[i]));
        assert(decreases_to!(es[i] => es[i].1));
    }
}

#[via_fn]
proof fn jval_decreases(v: JsonValue) {
    match v {
        JsonValue::Arr(items) => {
            assert(decreases_to!(v => items));
            assert(decreases_to!(items => items@));
        },
        JsonValue::Obj(es) => {
            assert(decreases_to!(v => es));
            assert(decreases_to!(es => es@));
        },
        _ => {},
    }
}

impl View for JsonValue {
    type V = JVal;

    open spec fn view(&self) -> JVal {
        jval(*self)
    }
}

/// The value under the first entry of `es` whose key reads `k`.
pub open spec fn assoc_get<V>(es: Seq<(String, V)>, k: Seq<char>) -> Option<V>
    decreases es.len(),
{
    if es.len() == 0 {
        None
    } else if es[0].0@ == k {
        Some(es[0].1)
    } else {
        assoc_get(es.drop_first(), k)
    }
}

/// Looks `k` up in the association list `es`.
pub fn assoc_find<'a, V>(es: &'a Vec<(String, V)>, k: &str) -> (r: Option<&'a V>)
    ensures
        match r {
            Some(v) => assoc_get(es@, k@) == Some(*v),
            None => assoc_get(es@, k@) is None,
        },
{
    let mut i: usize = 0;
    proof {
        assert(es@.skip(0) =~= es@);
    }
    while i < es.len()
        invariant
            i <= es@.len(),
            assoc_get(es@, k@) == assoc_get(es@.skip(i as int), k@),
        decreases es@.len() - i,
    {
        proof {
            assert(es@.skip(i as int)[0] == es@[i as int]);
        }
        if str_eq(es[i].0.as_str(), k) {
            return Some(&es[i].1);
        }
        proof {
            assert(es@.skip(i as int).drop_first() =~= es@.skip(i + 1));
        }
        i += 1;
    }
    None
}

/// The index of the first `k`-keyed entry of `es`, if any.
pub fn assoc_index_of<V>(es: &Vec<(String, V)>, k: &str) -> (r: Option<usize>)
    ensures
        match r {
            Some(i) => i < es@.len() && es@[i as int].0@ == k@ && forall|j: int|
                0 <= j < i ==> es@[j].0@ != k@,
            None => forall|j: int| 0 <= j < es@.len() ==> es@[j].0@ != k@,
        },
{
    let mut i: usize = 0;
    while i < es.len()
        invariant
            i <= es@.len(),
            forall|j: int| 0 <= j < i ==> es@[j].0@ != k@,
        decreases es@.len() - i,
    {
        if str_eq(es[i].0.as_str(), k) {
            return Some(i);
        }
        i += 1;
    }
    None
}

/// The value under the first entry whose key is `k`, on view-level lists.
///
/// Contracts state object contents over lists keyed by character sequences,
/// so that they are independent of which heap string happens to hold a key.
pub open spec fn vget<V>(es: Seq<(Seq<char>, V)>, k: Seq<char>) -> Option<V>
    decreases es.len(),
{
    if es.len() == 0 {
        None
    } else if es[0].0 == k {
        Some(es[0].1)
    } else {
        vget(es.drop_first(), k)
    }
}

/// Whether some view-level entry has key `k`.
pub open spec fn vhas<V>(es: Seq<(Seq<char>, V)>, k: Seq<char>) -> bool {
    vget(es, k) is Some
}

/// The view-level list with the first `k`-keyed entry's value replaced, or
/// with `(k, v)` appended when no entry has that key.
pub open spec fn vset<V>(es: Seq<(Seq<char>, V)>, k: Seq<char>, v: V) -> Seq<(Seq<char>, V)>
    decreases es.len(),
{
    if es.len() == 0 {
        seq![(k, v)]
    } else if es[0].0 == k {
        seq![(k, v)] + es.drop_first()
    } else {
        seq![es[0]] + vset(es.drop_first(), k, v)
    }
}

/// The view-level list without its first `k`-keyed entry.
pub open spec fn vremove<V>(es: Seq<(Seq<char>, V)>, k: Seq<char>) -> Seq<(Seq<char>, V)>
    decreases es.len(),
{
    if es.len() == 0 {
        es
    } else if es[0].0 == k {
        es.drop_first()
    } else {
        seq![es[0]] + vremove(es.drop_first(), k)
    }
}

/// A found value is some entry's value.
pub proof fn lemma_vget_elem<V>(es: Seq<(Seq<char>, V)>, k: Seq<char>)
    ensures
        vget(es, k) matches Some(v) ==> exists|j: int|
            0 <= j < es.len() && es[j] == (k, v),
    decreases es.len(),
{
    if es.len() > 0 {
        lemma_vget_elem(es.drop_first(), k);
        if es[0].0 == k {
            assert(es[0] == (k, vget(es, k).unwrap()));
        } else {
            match vget(es, k) {
                Some(v) => {
                    let j = choose|j: int|
                        0 <= j < es.drop_first().len() && es.drop_first()[j] == (k, v);
                    assert(es[j + 1] == (k, v));
                },
                None => {},
            }
        }
    }
}

/// Every entry after a set is an old entry or the set one.
pub proof fn lemma_vset_elems<V>(es: Seq<(Seq<char>, V)>, k: Seq<char>, v: V)
    ensures
        forall|i: int|
            0 <= i < vset(es, k, v).len() ==> (#[trigger] vset(es, k, v)[i] == (k, v) || exists|
                j: int,
            |
                0 <= j < es.len() && vset(es, k, v)[i] == es[j]),
    decreases es.len(),
{
    if es.len() > 0 && es[0].0 != k {
        lemma_vset_elems(es.drop_first(), k, v);
        assert forall|i: int| 0 <= i < vset(es, k, v).len() implies (#[trigger] vset(es, k, v)[i]
            == (k, v) || exists|j: int| 0 <= j < es.len() && vset(es, k, v)[i] == es[j]) by {
            if i == 0 {
                assert(vset(es, k, v)[0] == es[0]);
            } else {
                let tail = vset(es.drop_first(), k, v);
                assert(vset(es, k, v)[i] == tail[i - 1]);
                if tail[i - 1] == (k, v) {
                } else {
                    let j = choose|j: int|
                        0 <= j < es.drop_first().len() && tail[i - 1] == es.drop_first()[j];
                    assert(vset(es, k, v)[i] == es[j + 1]);
                }
            }
        }
    } else if es.len() > 0 {
        assert forall|i: int| 0 <= i < vset(es, k, v).len() implies (#[trigger] vset(es, k, v)[i]
            == (k, v) || exists|j: int| 0 <= j < es.len() && vset(es, k, v)[i] == es[j]) by {
            if i > 0 {
                assert(vset(es, k, v)[i] == es[i]);
            }
        }
    }
}

/// Every entry after a removal is an old entry.
pub proof fn lemma_vremove_elems<V>(es: Seq<(Seq<char>, V)>, k: Seq<char>)
    ensures
        forall|i: int|
            0 <= i < vremove(es, k).len() ==> exists|j: int|
                0 <= j < es.len() && #[trigger] vremove(es, k)[i] == es[j],
    decreases es.len(),
{
    if es.len() > 0 && es[0].0 != k {
        lemma_vremove_elems(es.drop_first(), k);
        assert forall|i: int| 0 <= i < vremove(es, k).len() implies exists|j: int|
            0 <= j < es.len() && #[trigger] vremove(es, k)[i] == es[j] by {
            if i == 0 {
                assert(vremove(es, k)[0] == es[0]);
            } else {
                let tail = vremove(es.drop_first(), k);
                assert(vremove(es, k)[i] == tail[i - 1]);
                let j = choose|j: int|
                    0 <= j < es.drop_first().len() && tail[i - 1] == es.drop_first()[j];
                assert(vremove(es, k)[i] == es[j + 1]);
            }
        }
    } else if es.len() > 0 {
        assert forall|i: int| 0 <= i < vremove(es, k).len() implies exists|j: int|
            0 <= j < es.len() && #[trigger] vremove(es, k)[i] == es[j] by {
            assert(vremove(es, k)[i] == es[i + 1]);
        }
    }
}

/// Copies a JSON tree; the copy has the same content.
pub fn clone_json(v: &JsonValue) -> (r: JsonValue)
    ensures
        jval(r) == jval(*v),
    decreases *v,
{
    match v {
        JsonValue::Null => JsonValue::Null,
        JsonValue::Bool(b) => JsonValue::Bool(*b),
        JsonValue::Num(s) => JsonValue::Num(s.clone()),
        JsonValue::Str(s) => JsonValue::Str(s.clone()),
        JsonValue::Arr(items) => {
            let mut out: Vec<JsonValue> = Vec::new();
            let n = items.len();
            let mut i: usize = 0;
            while i < n
                invariant
                    i <= n,
                    n == items@.len(),
                    out@.len() == i,
                    forall|j: int| 0 <= j < i ==> jval(#[trigger] out@[j]) == jval(items@[j]),
                decreases n - i,
            {
                out.push(clone_json(&items[i]));
                i += 1;
            }
            let result = JsonValue::Arr(out);
            proof {
                let s1 = items_view(out@);
                let s2 = items_view(items@);
                assert(s1.len() == s2.len());
                assert forall|j: int| 0 <= j < s1.len() implies s1[j] == s2[j] by {
                    assert(s1[j] == jval(out@[j]));
                    assert(s2[j] == jval(items@[j]));
                }
                assert(s1 =~= s2);
                assert(jval(result) == JVal::Arr(s1));
                assert(jval(*v) == JVal::Arr(s2));
            }
            result
        },
        JsonValue::Obj(es) => {
            let mut out: Vec<(String, JsonValue)> = Vec::new();
            let n = es.len();
            let mut i: usize = 0;
            while i < n
                invariant
                    i <= n,
                    n == es@.len(),
                    out@.len() == i,
                    forall|j: int|
                        0 <= j < i ==> (#[trigger] out@[j]).0@ == es@[j].0@ && jval(out@[j].1)
                            == jval(es@[j].1),
                decreases n - i,
            {
                let key = es[i].0.clone();
                let val = clone_json(&es[i].1);
                out.push((key, val));
                i += 1;
            }
            let result = JsonValue::Obj(out);
            proof {
                let s1 = entries_view(out@);
                let s2 = entries_view(es@);
                assert(s1.len() == s2.len());
                assert forall|j: int| 0 <= j < s1.len() implies s1[j] == s2[j] by {
                    assert(s1[j] == (out@[j].0@, jval(out@[j].1)));
                    assert(s2[j] == (es@[j].0@, jval(es@[j].1)));
                }
                assert(s1 =~= s2);
                assert(jval(result) == JVal::Obj(s1));
                assert(jval(*v) == JVal::Obj(s2));
            }
            result
        },
    }
}

/// Setting at the first `k`-keyed index is a pointwise update.
pub proof fn lemma_vset_at_index<V>(es: Seq<(Seq<char>, V)>, k: Seq<char>, v: V, i: int)
    requires
        0 <= i < es.len(),
        es[i].0 == k,
        forall|j: int| 0 <= j < i ==> es[j].0 != k,
    ensures
        vset(es, k, v) == es.update(i, (k, v)),
    decreases i,
{
    if i == 0 {
        assert(vset(es, k, v) =~= es.update(0, (k, v)));
    } else {
        lemma_vset_at_index(es.drop_first(), k, v, i - 1);
        assert(seq![es[0]] + es.drop_first().update(i - 1, (k, v)) =~= es.update(i, (k, v)));
    }
}

/// Setting an absent key appends the entry.
pub proof fn lemma_vset_absent<V>(es: Seq<(Seq<char>, V)>, k: Seq<char>, v: V)
    requires
        forall|j: int| 0 <= j < es.len() ==> es[j].0 != k,
    ensures
        vset(es, k, v) == es.push((k, v)),
    decreases es.len(),
{
    if es.len() == 0 {
        assert(vset(es, k, v) =~= es.push((k, v)));
    } else {
        lemma_vset_absent(es.drop_first(), k, v);
        assert(seq![es[0]] + es.drop_first().push((k, v)) =~= es.push((k, v)));
    }
}

/// Removing at the first `k`-keyed index drops that entry.
pub proof fn lemma_vremove_at_index<V>(es: Seq<(Seq<char>, V)>, k: Seq<char>, i: int)
    requires
        0 <= i < es.len(),
        es[i].0 == k,
        forall|j: int| 0 <= j < i ==> es[j].0 != k,
    ensures
        vremove(es, k) == es.remove(i),
    decreases i,
{
    if i == 0 {
        assert(vremove(es, k) =~= es.remove(0));
    } else {
        lemma_vremove_at_index(es.drop_first(), k, i - 1);
        assert(seq![es[0]] + es.drop_first().remove(i - 1) =~= es.remove(i));
    }
}

/// Removing an absent key changes nothing.
pub proof fn lemma_vremove_absent<V>(es: Seq<(Seq<char>, V)>, k: Seq<char>)
    requires
        forall|j: int| 0 <= j < es.len() ==> es[j].0 != k,
    ensures
        vremove(es, k) == es,
    decreases es.len(),
{
    if es.len() > 0 {
        lemma_vremove_absent(es.drop_first(), k);
        assert(seq![es[0]] + es.drop_first() =~= es);
    }
}

/// A set key is then found, with the set value.
pub proof fn lemma_vget_vset<V>(es: Seq<(Seq<char>, V)>, k: Seq<char>, v: V)
    ensures
        vget(vset(es, k, v), k) == Some(v),
    decreases es.len(),
{
    if es.len() > 0 && es[0].0 != k {
        lemma_vget_vset(es.drop_first(), k, v);
        assert((seq![es[0]] + vset(es.drop_first(), k, v)).drop_first() =~= vset(
            es.drop_first(),
            k,
            v,
        ));
    }
}

/// Setting then removing a key leaves what removing alone leaves.
pub proof fn lemma_vremove_vset<V>(es: Seq<(Seq<char>, V)>, k: Seq<char>, v: V)
    ensures
        vremove(vset(es, k, v), k) == vremove(es, k),
    decreases es.len(),
{
    if es.len() == 0 {
        assert(vremove(vset(es, k, v), k) =~= vremove(es, k));
    } else if es[0].0 == k {
        assert(vremove(vset(es, k, v), k) =~= es.drop_first());
    } else {
        lemma_vremove_vset(es.drop_first(), k, v);
        assert((seq![es[0]] + vset(es.drop_first(), k, v)).drop_first() =~= vset(
            es.drop_first(),
            k,
            v,
        ));
        assert(seq![es[0]] + vremove(vset(es.drop_first(), k, v), k) =~= vremove(
            vset(es, k, v),
            k,
        ));
        assert(seq![es[0]] + vremove(es.drop_first(), k) =~= vremove(es, k));
    }
}

/// A first match at index `i` determines the lookup.
pub proof fn lemma_vget_at_index<V>(es: Seq<(Seq<char>, V)>, k: Seq<char>, i: int)
    requires
        0 <= i < es.len(),
        es[i].0 == k,
        forall|j: int| 0 <= j < i ==> es[j].0 != k,
    ensures
        vget(es, k) == Some(es[i].1),
    decreases i,
{
    if i > 0 {
        lemma_vget_at_index(es.drop_first(), k, i - 1);
    }
}

/// An absent key is not found.
pub proof fn lemma_vget_absent<V>(es: Seq<(Seq<char>, V)>, k: Seq<char>)
    requires
        forall|j: int| 0 <= j < es.len() ==> es[j].0 != k,
    ensures
        vget(es, k) is None,
    decreases es.len(),
{
    if es.len() > 0 {
        lemma_vget_absent(es.drop_first(), k);
    }
}

/// The entry under `k` when `v` is an object.
pub open spec fn jobj_get(v: JVal, k: Seq<char>) -> Option<JVal> {
    match v {
        JVal::Obj(es) => vget(es, k),
        _ => None,
    }
}

/// The characters when `v` is a string.
pub open spec fn jstr(v: JVal) -> Option<Seq<char>> {
    match v {
        JVal::Str(s) => Some(s),
        _ => None,
    }
}

/// The boolean when `v` is a boolean.
pub open spec fn jbool(v: JVal) -> Option<bool> {
    match v {
        JVal::Bool(b) => Some(b),
        _ => None,
    }
}

/// The elements when `v` is an array.
pub open spec fn jarr(v: JVal) -> Option<Seq<JVal>> {
    match v {
        JVal::Arr(items) => Some(items),
        _ => None,
    }
}

proof fn lemma_vget_entries_view(es: Seq<(String, JsonValue)>, k: Seq<char>)
    ensures
        vget(entries_view(es), k) == match assoc_get(es, k) {
            Some(v) => Some(jval(v)),
            None => None::<JVal>,
        },
    decreases es.len(),
{
    if es.len() > 0 {
        lemma_vget_entries_view(es.drop_first(), k);
        assert(entries_view(es).drop_first() =~= entries_view(es.drop_first()));
    }
}

/// Looks `k` up in a JSON object, by content.
pub fn jv_obj_get<'a>(v: &'a JsonValue, k: &str) -> (r: Option<&'a JsonValue>)
    ensures
        match r {
            Some(x) => jobj_get(v@, k@) == Some(x@),
            None => jobj_get(v@, k@) is None,
        },
{
    match v {
        JsonValue::Obj(es) => {
            proof {
                lemma_vget_entries_view(es@, k@);
            }
            assoc_find(es, k)
        },
        _ => None,
    }
}

/// The string under `v`, by content.
pub fn jv_as_str<'a>(v: &'a JsonValue) -> (r: Option<&'a String>)
    ensures
        match r {
            Some(s) => jstr(v@) == Some(s@),
            None => jstr(v@) is None,
        },
{
    match v {
        JsonValue::Str(s) => Some(s),
        _ => None,
    }
}

/// The boolean under `v`, by content.
pub fn jv_as_bool(v: &JsonValue) -> (r: Option<bool>)
    ensures
        match r {
            Some(b) => jbool(v@) == Some(b),
            None => jbool(v@) is None,
        },
{
    match v {
        JsonValue::Bool(b) => Some(*b),
        _ => None,
    }
}

/// The array elements under `v`, by content.
pub fn jv_as_arr<'a>(v: &'a JsonValue) -> (r: Option<&'a Vec<JsonValue>>)
    ensures
        match r {
            Some(items) => jarr(v@) == Some(items_view(items@)),
            None => jarr(v@) is None,
        },
{
    match v {
        JsonValue::Arr(items) => Some(items),
        _ => None,
    }
}

} // verus!
