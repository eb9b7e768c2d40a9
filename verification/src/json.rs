//! A JSON document model for the payloads that the landing-page editor edits.
//!
//! `Json` holds what the editor reads and writes as plain values; its view
//! `JsonV` is the mathematical document that contracts speak of. Objects keep
//! their entries in a sequence; lookups find the first entry with a key, and
//! inserting a key that is present replaces that entry's value in place.
use vstd::prelude::*;
use crate::text::{owned, str_eq, opt_view};

verus! {

broadcast use vstd::std_specs::vec::axiom_vec_index_decreases;

/// A JSON number: an integer (signed, or unsigned above `i64::MAX`) or any
/// other number, kept as the text it was written with.
#[derive(Debug, PartialEq)]
pub enum JsonNumber {
    Int(i64),
    Unsigned(u64),
    Real(String),
}

#[derive(Debug, PartialEq)]
pub enum Json {
    Null,
    Bool(bool),
    Number(JsonNumber),
    Str(String),
    Array(Vec<Json>),
    Object(Vec<(String, Json)>),
}

/// The view of a JSON number.
pub enum NumV {
    Int(int),
    Real(Seq<char>),
}

/// The view of a JSON document.
#[verifier::ext_equal]
pub enum JsonV {
    Null,
    Bool(bool),
    Number(NumV),
    Str(Seq<char>),
    Array(Seq<JsonV>),
    Object(Seq<(Seq<char>, JsonV)>),
}

pub open spec fn num_view(n: JsonNumber) -> NumV {
    match n {
        JsonNumber::Int(i) => NumV::Int(i as int),
        JsonNumber::Unsigned(u) => NumV::Int(u as int),
        JsonNumber::Real(s) => NumV::Real(s@),
    }
}

pub open spec fn jv(j: Json) -> JsonV
    decreases j,
{
    match j {
        Json::Null => JsonV::Null,
        Json::Bool(b) => JsonV::Bool(b),
        Json::Number(n) => JsonV::Number(num_view(n)),
        Json::Str(s) => JsonV::Str(s@),
        Json::Array(items) => JsonV::Array(
            Seq::new(
                items@.len(),
                |i: int|
                    if 0 <= i < items.len() {
                        jv(items@[i])
                    } else {
                        JsonV::Null
                    },
            ),
        ),
        Json::Object(entries) => JsonV::Object(
            Seq::new(
                entries@.len(),
                |i: int|
                    if 0 <= i < entries.len() {
                        (entries@[i].0@, jv(entries@[i].1))
                    } else {
                        (Seq::empty(), JsonV::Null)
                    },
            ),
        ),
    }
}

impl View for Json {
    type V = JsonV;

    open spec fn view(&self) -> JsonV {
        jv(*self)
    }
}

/// The views of a sequence of documents.
pub open spec fn views(items: Seq<Json>) -> Seq<JsonV> {
    Seq::new(items.len(), |i: int| jv(items[i]))
}

/// The value of the first entry with key `key`.
pub open spec fn first_match(es: Seq<(Seq<char>, JsonV)>, key: Seq<char>) -> Option<JsonV>
    decreases es.len(),
{
    if es.len() == 0 {
        None
    } else if es[0].0 == key {
        Some(es[0].1)
    } else {
        first_match(es.drop_first(), key)
    }
}

/// `value.get(key)`: the member `key` of an object; nothing for other values.
pub open spec fn field(j: JsonV, key: Seq<char>) -> Option<JsonV> {
    match j {
        JsonV::Object(es) => first_match(es, key),
        _ => None,
    }
}

/// `value.as_str()` of an optional value.
pub open spec fn as_text(o: Option<JsonV>) -> Option<Seq<char>> {
    match o {
        Some(JsonV::Str(s)) => Some(s),
        _ => None,
    }
}

/// `value.as_array()` of an optional value.
pub open spec fn as_items(o: Option<JsonV>) -> Option<Seq<JsonV>> {
    match o {
        Some(JsonV::Array(items)) => Some(items),
        _ => None,
    }
}

/// `value.as_i64()` of an optional value.
pub open spec fn as_int(o: Option<JsonV>) -> Option<int> {
    match o {
        Some(JsonV::Number(NumV::Int(i))) => if i64::MIN <= i <= i64::MAX {
            Some(i)
        } else {
            None
        },
        _ => None,
    }
}

/// `value.as_bool()` of an optional value.
pub open spec fn as_flag(o: Option<JsonV>) -> Option<bool> {
    match o {
        Some(JsonV::Bool(b)) => Some(b),
        _ => None,
    }
}

/// The text of a member, or the empty text when it is missing or not a string.
pub open spec fn text_or_empty(j: JsonV, key: Seq<char>) -> Seq<char> {
    match as_text(field(j, key)) {
        Some(s) => s,
        None => Seq::empty(),
    }
}

/// No two entries share a key.
pub open spec fn keys_unique(es: Seq<(Seq<char>, JsonV)>) -> bool {
    forall|a: int, b: int| 0 <= a < b < es.len() ==> es[a].0 != es[b].0
}

/// An object whose keys are all distinct.
pub open spec fn is_object(j: JsonV) -> bool {
    j is Object
}

/// `map.insert(key, value)` on entries: the first entry with the key gets the
/// new value; without one, the entry is added at the end.
pub open spec fn entries_insert(es: Seq<(Seq<char>, JsonV)>, key: Seq<char>, v: JsonV) -> Seq<
    (Seq<char>, JsonV),
>
    decreases es.len(),
{
    if es.len() == 0 {
        seq![(key, v)]
    } else if es[0].0 == key {
        es.update(0, (key, v))
    } else {
        seq![es[0]] + entries_insert(es.drop_first(), key, v)
    }
}

/// An object with `key` set to `v`.
pub open spec fn with_member(j: JsonV, key: Seq<char>, v: JsonV) -> JsonV {
    match j {
        JsonV::Object(es) => JsonV::Object(entries_insert(es, key, v)),
        _ => JsonV::Object(seq![(key, v)]),
    }
}

/// After an insert, the key reads back the inserted value.
pub proof fn law_member_reads_back(es: Seq<(Seq<char>, JsonV)>, key: Seq<char>, v: JsonV)
    ensures
        first_match(entries_insert(es, key, v), key) == Some(v),
    decreases es.len(),
{
    if es.len() > 0 && es[0].0 != key {
        law_member_reads_back(es.drop_first(), key, v);
        let rest = entries_insert(es.drop_first(), key, v);
        assert((seq![es[0]] + rest).drop_first() =~= rest);
    }
}

/// Setting a key to the value it already reads as leaves the entries as they were.
pub proof fn law_member_rewrite_is_identity(es: Seq<(Seq<char>, JsonV)>, key: Seq<char>, v: JsonV)
    requires
        first_match(es, key) == Some(v),
    ensures
        entries_insert(es, key, v) == es,
    decreases es.len(),
{
    if es[0].0 == key {
        assert(es.update(0, (key, v)) =~= es);
    } else {
        law_member_rewrite_is_identity(es.drop_first(), key, v);
        assert(seq![es[0]] + es.drop_first() =~= es);
    }
}

/// An insert leaves every other key as it was.
pub proof fn law_member_keeps_others(
    es: Seq<(Seq<char>, JsonV)>,
    key: Seq<char>,
    v: JsonV,
    other: Seq<char>,
)
    requires
        other != key,
    ensures
        first_match(entries_insert(es, key, v), other) == first_match(es, other),
    decreases es.len(),
{
    if es.len() == 0 {
        let r = seq![(key, v)];
        assert(r.drop_first() =~= Seq::<(Seq<char>, JsonV)>::empty());
        assert(first_match(r, other) == first_match(r.drop_first(), other));
    } else {
        if es[0].0 == key {
            let u = es.update(0, (key, v));
            assert(entries_insert(es, key, v) == u);
            assert(u.drop_first() =~= es.drop_first());
            assert(u[0].0 == key);
            assert(first_match(u, other) == first_match(u.drop_first(), other));
            assert(first_match(es, other) == first_match(es.drop_first(), other));
        } else {
            law_member_keeps_others(es.drop_first(), key, v, other);
            let rest = entries_insert(es.drop_first(), key, v);
            let r = seq![es[0]] + rest;
            assert(entries_insert(es, key, v) == r);
            assert(r.drop_first() =~= rest);
            assert(r[0] == es[0]);
            if es[0].0 != other {
                assert(first_match(r, other) == first_match(rest, other));
            }
        }
    }
}

/// An insert keeps keys distinct.
pub proof fn law_member_keeps_keys_unique(es: Seq<(Seq<char>, JsonV)>, key: Seq<char>, v: JsonV)
    requires
        keys_unique(es),
    ensures
        keys_unique(entries_insert(es, key, v)),
        entries_insert(es, key, v).len() <= es.len() + 1,
        forall|i: int|
            0 <= i < entries_insert(es, key, v).len() ==> (#[trigger] entries_insert(
                es,
                key,
                v,
            )[i]).0 == key || exists|k: int| 0 <= k < es.len() && es[k].0 == entries_insert(
                es,
                key,
                v,
            )[i].0,
    decreases es.len(),
{
    let r = entries_insert(es, key, v);
    if es.len() == 0 {
    } else if es[0].0 == key {
        assert forall|i: int| 0 <= i < r.len() implies (#[trigger] r[i]).0 == key || exists|
            k: int,
        | 0 <= k < es.len() && es[k].0 == r[i].0 by {
            if i > 0 {
                assert(es[i].0 == r[i].0);
            }
        }
    } else {
        let t = es.drop_first();
        assert(keys_unique(t));
        law_member_keeps_keys_unique(t, key, v);
        let rest = entries_insert(t, key, v);
        assert(r =~= seq![es[0]] + rest);
        assert forall|i: int| 0 <= i < r.len() implies (#[trigger] r[i]).0 == key || exists|
            k: int,
        | 0 <= k < es.len() && es[k].0 == r[i].0 by {
            if i > 0 {
                assert(r[i] == rest[i - 1]);
                if rest[i - 1].0 != key {
                    let k = choose|k: int| 0 <= k < t.len() && t[k].0 == rest[i - 1].0;
                    assert(es[k + 1].0 == r[i].0);
                }
            } else {
                assert(es[0].0 == r[0].0);
            }
        }
        assert forall|a: int, b: int| 0 <= a < b < r.len() implies r[a].0 != r[b].0 by {
            if a == 0 {
                assert(r[b] == rest[b - 1]);
                if rest[b - 1].0 == key {
                } else {
                    let k = choose|k: int| 0 <= k < t.len() && t[k].0 == rest[b - 1].0;
                    assert(es[k + 1].0 == rest[b - 1].0);
                }
            } else {
                assert(r[a] == rest[a - 1] && r[b] == rest[b - 1]);
            }
        }
    }
}

impl JsonNumber {
    /// A copy of the number.
    pub fn duplicate(&self) -> (res: JsonNumber)
        ensures
            num_view(res) == num_view(*self),
    {
        match self {
            JsonNumber::Int(i) => JsonNumber::Int(*i),
            JsonNumber::Unsigned(u) => JsonNumber::Unsigned(*u),
            JsonNumber::Real(s) => JsonNumber::Real(s.clone()),
        }
    }
}

impl Json {
    /// A copy of the document.
    #[verifier::loop_isolation(false)]
    pub fn duplicate(&self) -> (res: Json)
        ensures
            res@ == self@,
        decreases self,
    {
        match self {
            Json::Null => Json::Null,
            Json::Bool(b) => Json::Bool(*b),
            Json::Number(n) => Json::Number(n.duplicate()),
            Json::Str(s) => Json::Str(s.clone()),
            Json::Array(items) => {
                let mut out: Vec<Json> = Vec::new();
                let mut i: usize = 0;
                while i < items.len()
                    invariant
                        i <= items.len(),
                        out@.len() == i,
                        forall|k: int| 0 <= k < i ==> jv(#[trigger] out@[k]) == jv(items@[k]),
                    decreases items.len() - i,
                {
                    proof {
                        assert(decreases_to!(*self => *items));
                        assert(decreases_to!(*items => items[i as int]));
                    }
                    let c = items[i].duplicate();
                    out.push(c);
                    i = i + 1;
                }
                let res = Json::Array(out);
                proof {
                    assert forall|k: int| 0 <= k < out.len() implies jv(res)->Array_0[k] == jv(
                        *self,
                    )->Array_0[k] by {
                        assert(jv(out@[k]) == jv(items@[k]));
                    }
                    assert(jv(res)->Array_0 =~= jv(*self)->Array_0);
                }
                res
            },
            Json::Object(entries) => {
                let mut out: Vec<(String, Json)> = Vec::new();
                let mut i: usize = 0;
                while i < entries.len()
                    invariant
                        i <= entries.len(),
                        out@.len() == i,
                        forall|k: int|
                            0 <= k < i ==> (#[trigger] out@[k]).0@ == entries@[k].0@ && jv(out@[k].1)
                                == jv(entries@[k].1),
                    decreases entries.len() - i,
                {
                    proof {
                        assert(decreases_to!(*self => *entries));
                        assert(decreases_to!(*entries => entries[i as int]));
                    }
                    let c = entries[i].1.duplicate();
                    out.push((entries[i].0.clone(), c));
                    i = i + 1;
                }
                let res = Json::Object(out);
                proof {
                    assert forall|k: int| 0 <= k < out.len() implies jv(res)->Object_0[k] == jv(
                        *self,
                    )->Object_0[k] by {
                        assert(out@[k].0@ == entries@[k].0@ && jv(out@[k].1) == jv(entries@[k].1));
                    }
                    assert(jv(res)->Object_0 =~= jv(*self)->Object_0);
                }
                res
            },
        }
    }

    /// `value.get(key)`.
    pub fn get(&self, key: &str) -> (res: Option<&Json>)
        ensures
            match res {
                Some(r) => field(self@, key@) == Some(r@),
                None => field(self@, key@) is None,
            },
    {
        match self {
            Json::Object(entries) => {
                let mut i: usize = 0;
                assert(jv(*self)->Object_0.skip(0) =~= jv(*self)->Object_0);
                while i < entries.len()
                    invariant
                        i <= entries.len(),
                        *self == Json::Object(*entries),
                        field(self@, key@) == first_match(jv(*self)->Object_0.skip(i as int), key@),
                    decreases entries.len() - i,
                {
                    let ghost es = jv(*self)->Object_0;
                    assert(es.skip(i as int)[0] == es[i as int]);
                    assert(es.skip(i as int).drop_first() =~= es.skip(i + 1));
                    if str_eq(entries[i].0.as_str(), key) {
                        return Some(&entries[i].1);
                    }
                    i = i + 1;
                }
                None
            },
            _ => None,
        }
    }

    /// `value.as_str()`.
    pub fn as_str(&self) -> (res: Option<&str>)
        ensures
            match res {
                Some(s) => as_text(Some(self@)) == Some(s@),
                None => as_text(Some(self@)) is None,
            },
    {
        match self {
            Json::Str(s) => Some(s.as_str()),
            _ => None,
        }
    }

    /// `value.as_array()`.
    pub fn as_array(&self) -> (res: Option<&Vec<Json>>)
        ensures
            match res {
                Some(items) => as_items(Some(self@)) == Some(views(items@)),
                None => as_items(Some(self@)) is None,
            },
    {
        match self {
            Json::Array(items) => {
                assert(views(items@) =~= jv(*self)->Array_0);
                Some(items)
            },
            _ => None,
        }
    }

    /// `value.as_i64()`.
    pub fn as_i64(&self) -> (res: Option<i64>)
        ensures
            match res {
                Some(i) => as_int(Some(self@)) == Some(i as int),
                None => as_int(Some(self@)) is None,
            },
    {
        match self {
            Json::Number(JsonNumber::Int(i)) => Some(*i),
            Json::Number(JsonNumber::Unsigned(u)) => if *u <= 9223372036854775807u64 {
                Some(*u as i64)
            } else {
                None
            },
            _ => None,
        }
    }

    /// `value.as_bool()`.
    pub fn as_bool(&self) -> (res: Option<bool>)
        ensures
            res == as_flag(Some(self@)),
    {
        match self {
            Json::Bool(b) => Some(*b),
            _ => None,
        }
    }

    /// `value.is_object()`.
    pub fn is_object(&self) -> (res: bool)
        ensures
            res == (self@ is Object),
    {
        match self {
            Json::Object(_) => true,
            _ => false,
        }
    }

    /// `value.is_array()`.
    pub fn is_array(&self) -> (res: bool)
        ensures
            res == (self@ is Array),
    {
        match self {
            Json::Array(_) => true,
            _ => false,
        }
    }

    /// An empty object.
    pub fn empty_object() -> (res: Json)
        ensures
            res@ == JsonV::Object(Seq::empty()),
    {
        let res = Json::Object(Vec::new());
        assert(jv(res)->Object_0 =~= Seq::<(Seq<char>, JsonV)>::empty());
        res
    }

    /// A string value.
    pub fn text(s: &str) -> (res: Json)
        ensures
            res@ == JsonV::Str(s@),
    {
        Json::Str(owned(s))
    }

    /// Turns a value that is not an object into an empty object.
    pub fn ensure_object(&mut self)
        ensures
            final(self)@ == (if old(self)@ is Object {
                old(self)@
            } else {
                JsonV::Object(Seq::empty())
            }),
    {
        if !self.is_object() {
            *self = Json::empty_object();
        }
    }

    /// `object.insert(key, value)`; a value that is not an object first becomes an
    /// empty object.
    #[verifier::loop_isolation(false)]
    pub fn set_member(&mut self, key: &str, value: Json)
        ensures
            final(self)@ == with_member(old(self)@, key@, value@),
    {
        self.ensure_object();
        let ghost before = self@;
        let ghost vv = jv(value);
        match self {
            Json::Object(entries) => {
                let ghost es0 = jv(Json::Object(*entries))->Object_0;
                let mut i: usize = 0;
                while i < entries.len()
                    invariant
                        i <= entries.len(),
                        es0 == jv(Json::Object(*entries))->Object_0,
                        forall|k: int| 0 <= k < i ==> es0[k].0 != key@,
                    decreases entries.len() - i,
                {
                    if str_eq(entries[i].0.as_str(), key) {
                        let k = entries[i].0.clone();
                        let ghost prev = *entries;
                        entries.set(i, (k, value));
                        proof {
                            lemma_insert_at(es0, key@, vv, i as int);
                            let now = jv(Json::Object(*entries))->Object_0;
                            assert(now.len() == es0.len());
                            assert forall|k2: int| 0 <= k2 < now.len() implies now[k2] == es0.update(
                                i as int,
                                (key@, vv),
                            )[k2] by {
                                assert(now[k2] == (entries@[k2].0@, jv(entries@[k2].1)));
                                assert(es0[k2] == (prev@[k2].0@, jv(prev@[k2].1)));
                                if k2 != i {
                                    assert(entries@[k2] == prev@[k2]);
                                } else {
                                    assert(entries@[k2].0@ == key@);
                                    assert(jv(entries@[k2].1) == vv);
                                }
                            }
                            assert(now =~= es0.update(i as int, (key@, vv)));
                        }
                        return;
                    }
                    i = i + 1;
                }
                let k = owned(key);
                let ghost prev = *entries;
                entries.push((k, value));
                proof {
                    lemma_insert_absent(es0, key@, vv);
                    let now = jv(Json::Object(*entries))->Object_0;
                    assert forall|k2: int| 0 <= k2 < now.len() implies now[k2] == es0.push((key@, vv))[k2] by {
                        assert(now[k2] == (entries@[k2].0@, jv(entries@[k2].1)));
                        if k2 < prev.len() {
                            assert(es0[k2] == (prev@[k2].0@, jv(prev@[k2].1)));
                            assert(entries@[k2] == prev@[k2]);
                        }
                    }
                    assert(now =~= es0.push((key@, vv)));
                }
            },
            _ => {},
        }
    }
}

/// Inserting a key whose first entry stands at `i` updates that entry.
proof fn lemma_insert_at(es: Seq<(Seq<char>, JsonV)>, key: Seq<char>, v: JsonV, i: int)
    requires
        0 <= i < es.len(),
        es[i].0 == key,
        forall|k: int| 0 <= k < i ==> es[k].0 != key,
    ensures
        entries_insert(es, key, v) == es.update(i, (key, v)),
    decreases i,
{
    if i > 0 {
        lemma_insert_at(es.drop_first(), key, v, i - 1);
        assert(seq![es[0]] + es.drop_first().update(i - 1, (key, v)) =~= es.update(i, (key, v)));
    }
}

/// Inserting an absent key adds an entry at the end.
proof fn lemma_insert_absent(es: Seq<(Seq<char>, JsonV)>, key: Seq<char>, v: JsonV)
    requires
        forall|k: int| 0 <= k < es.len() ==> es[k].0 != key,
    ensures
        entries_insert(es, key, v) == es.push((key, v)),
    decreases es.len(),
{
    if es.len() > 0 {
        lemma_insert_absent(es.drop_first(), key, v);
        assert(seq![es[0]] + es.drop_first().push((key, v)) =~= es.push((key, v)));
    } else {
        assert(seq![(key, v)] =~= es.push((key, v)));
    }
}

/// Copies of a sequence of documents.
pub fn duplicate_items(items: &Vec<Json>) -> (res: Vec<Json>)
    ensures
        views(res@) == views(items@),
{
    let mut out: Vec<Json> = Vec::new();
    let mut i: usize = 0;
    while i < items.len()
        invariant
            i <= items.len(),
            out@.len() == i,
            forall|k: int| 0 <= k < i ==> jv(#[trigger] out@[k]) == jv(items@[k]),
        decreases items.len() - i,
    {
        let c = items[i].duplicate();
        out.push(c);
        i = i + 1;
    }
    assert(views(out@) =~= views(items@));
    out
}

/// An object made of the given entries, in order.
pub fn object_of(entries: Vec<(String, Json)>) -> (res: Json)
    ensures
        res@ == JsonV::Object(Seq::new(entries@.len(), |i: int| (entries@[i].0@, jv(entries@[i].1)))),
{
    let res = Json::Object(entries);
    assert(jv(res)->Object_0 =~= Seq::new(entries@.len(), |i: int| (entries@[i].0@, jv(entries@[i].1))));
    res
}

/// An array made of the given items, in order.
pub fn array_of(items: Vec<Json>) -> (res: Json)
    ensures
        res@ == JsonV::Array(views(items@)),
{
    let res = Json::Array(items);
    assert(jv(res)->Array_0 =~= views(items@));
    res
}

// ── pretty printing ──────────────────────────────────────────────────────────

/// `serde_json::Value`, the parsed form that the pretty printer takes.
#[verifier::external_type_specification]
#[verifier::external_body]
pub struct ExJsonValue(serde_json::Value);

/// The text that `serde_json::to_string_pretty` gives for a JSON value, or
/// none when it reports an error. The printer's layout (two-space indent, one
/// member per line) is serde_json's own and depends on the value alone.
pub uninterp spec fn pretty_text(v: serde_json::Value) -> Option<Seq<char>>;

/// Calls `serde_json::to_string_pretty` on a JSON value and keeps its text, or
/// none when it reports an error: the result is `pretty_text` of the value.
#[verifier::external_body]
pub(crate) fn pretty_json(v: &serde_json::Value) -> (res: Option<String>)
    ensures
        opt_view(res) == pretty_text(*v),
{
    serde_json::to_string_pretty(v).ok()
}

} // verus!
