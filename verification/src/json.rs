//! The JSON values that requests carry and responses return.
//!
//! A `JsonValue` is the library's own JSON tree; `JsonView` is its model, in
//! which strings are character sequences and an object is the sequence of its
//! entries in order. Numbers keep the three kinds that JSON numbers have on the
//! wire: non-negative integers, negative integers and floats. A float is held
//! as a `Real`, which names an `f64` without computing with it.
use vstd::prelude::*;
use crate::text::{first_index, is_first, lemma_first_index, lemma_first_index_none, lemma_first_index_some, lemma_first_index_none_all, str_eq};

verus! {

broadcast use vstd::std_specs::vec::group_vec_axioms;

/// An `f64`, named rather than computed: the value with the given IEEE-754
/// bits, the nearest `f64` to an integer, or a volume conversion of another
/// value (`DecibelsOf(x)` is `20 * log10(max(x, 0.0001))`, `AmplitudeOf(x)` is
/// `10^(x / 20)`).
#[derive(Debug, PartialEq)]
pub enum Real {
    Bits(u64),
    OfU64(u64),
    OfI64(i64),
    DecibelsOf(Box<Real>),
    AmplitudeOf(Box<Real>),
}

/// A JSON number: a non-negative integer, a negative integer, or a float.
#[derive(Debug, PartialEq)]
pub enum JsonNumber {
    PosInt(u64),
    NegInt(i64),
    Float(Real),
}

/// A JSON value.
#[derive(Debug, PartialEq)]
pub enum JsonValue {
    Null,
    Bool(bool),
    Number(JsonNumber),
    String(String),
    Array(Vec<JsonValue>),
    Object(Vec<(String, JsonValue)>),
}

/// The model of a JSON value.
#[verifier::ext_equal]
pub enum JsonView {
    Null,
    Bool(bool),
    Number(JsonNumber),
    Str(Seq<char>),
    Array(Seq<JsonView>),
    Object(Seq<(Seq<char>, JsonView)>),
}

pub type Entries = Seq<(Seq<char>, JsonView)>;

impl Real {
    /// A copy of this value.
    pub fn duplicate(&self) -> (r: Real)
        ensures
            r == *self,
        decreases self,
    {
        match self {
            Real::Bits(b) => Real::Bits(*b),
            Real::OfU64(n) => Real::OfU64(*n),
            Real::OfI64(n) => Real::OfI64(*n),
            Real::DecibelsOf(x) => Real::DecibelsOf(Box::new((**x).duplicate())),
            Real::AmplitudeOf(x) => Real::AmplitudeOf(Box::new((**x).duplicate())),
        }
    }
}

impl JsonNumber {
    /// A copy of this number.
    pub fn duplicate(&self) -> (r: JsonNumber)
        ensures
            r == *self,
    {
        match self {
            JsonNumber::PosInt(n) => JsonNumber::PosInt(*n),
            JsonNumber::NegInt(n) => JsonNumber::NegInt(*n),
            JsonNumber::Float(x) => JsonNumber::Float(x.duplicate()),
        }
    }
}

impl JsonValue {
    pub open spec fn view_items(v: &Vec<JsonValue>, n: int) -> Seq<JsonView>
        decreases v, n,
    {
        if n <= 0 || n > v.len() {
            Seq::empty()
        } else {
            Self::view_items(v, n - 1).push(v[n - 1].deep())
        }
    }

    pub open spec fn view_entries(v: &Vec<(String, JsonValue)>, n: int) -> Entries
        decreases v, n,
    {
        if n <= 0 || n > v.len() {
            Seq::empty()
        } else {
            Self::view_entries(v, n - 1).push((v[n - 1].0@, v[n - 1].1.deep()))
        }
    }

    /// The model of this value.
    pub open spec fn deep(&self) -> JsonView
        decreases self, 0int,
    {
        match self {
            JsonValue::Null => JsonView::Null,
            JsonValue::Bool(b) => JsonView::Bool(*b),
            JsonValue::Number(n) => JsonView::Number(*n),
            JsonValue::String(s) => JsonView::Str(s@),
            JsonValue::Array(v) => JsonView::Array(Self::view_items(v, v.len() as int)),
            JsonValue::Object(v) => JsonView::Object(Self::view_entries(v, v.len() as int)),
        }
    }
}

/// The model of a vector of entries.
pub open spec fn entries_view(v: &Vec<(String, JsonValue)>) -> Entries {
    JsonValue::view_entries(v, v.len() as int)
}

/// The model of a vector of values.
pub open spec fn items_view(v: &Vec<JsonValue>) -> Seq<JsonView> {
    JsonValue::view_items(v, v.len() as int)
}

pub proof fn lemma_items(v: &Vec<JsonValue>, n: int)
    requires
        0 <= n <= v.len(),
    ensures
        JsonValue::view_items(v, n).len() == n,
        forall|i: int| 0 <= i < n ==> #[trigger] JsonValue::view_items(v, n)[i] == v[i].deep(),
    decreases n,
{
    if n > 0 {
        lemma_items(v, n - 1);
    }
}

pub proof fn lemma_entries(v: &Vec<(String, JsonValue)>, n: int)
    requires
        0 <= n <= v.len(),
    ensures
        JsonValue::view_entries(v, n).len() == n,
        forall|i: int|
            0 <= i < n ==> #[trigger] JsonValue::view_entries(v, n)[i] == (v[i].0@, v[i].1.deep()),
    decreases n,
{
    if n > 0 {
        lemma_entries(v, n - 1);
    }
}

/// The model of a vector of entries, entry by entry.
pub proof fn lemma_entries_view(v: &Vec<(String, JsonValue)>)
    ensures
        entries_view(v).len() == v.len(),
        forall|i: int| 0 <= i < v.len() ==> #[trigger] entries_view(v)[i] == (v[i].0@, v[i].1.deep()),
{
    lemma_entries(v, v.len() as int);
}

/// The model of a vector of values, item by item.
pub proof fn lemma_items_view(v: &Vec<JsonValue>)
    ensures
        items_view(v).len() == v.len(),
        forall|i: int| 0 <= i < v.len() ==> #[trigger] items_view(v)[i] == v[i].deep(),
{
    lemma_items(v, v.len() as int);
}

// ---------------------------------------------------------------------------
// Reading values
// ---------------------------------------------------------------------------

/// An entry whose key is `k`.
pub open spec fn key_is<V>(k: Seq<char>) -> spec_fn((Seq<char>, V)) -> bool {
    |e: (Seq<char>, V)| e.0 == k
}

/// The value of the first entry of `es` with key `k`.
pub open spec fn lookup<V>(es: Seq<(Seq<char>, V)>, k: Seq<char>) -> Option<V> {
    match first_index(es, key_is::<V>(k)) {
        Some(i) => Some(es[i].1),
        None => None,
    }
}

/// `es` with the value under `k` set to `v`: the first entry with that key
/// takes the new value in place; where there is none, the entry is appended.
pub open spec fn assign<V>(es: Seq<(Seq<char>, V)>, k: Seq<char>, v: V) -> Seq<(Seq<char>, V)> {
    match first_index(es, key_is::<V>(k)) {
        Some(i) => es.update(i, (k, v)),
        None => es.push((k, v)),
    }
}

/// `es` with every entry of `new`, in order, assigned into it.
pub open spec fn assign_all<V>(es: Seq<(Seq<char>, V)>, new: Seq<(Seq<char>, V)>) -> Seq<(Seq<char>, V)>
    decreases new.len(),
{
    if new.len() == 0 {
        es
    } else {
        assign(assign_all(es, new.drop_last()), new.last().0, new.last().1)
    }
}

/// After an assignment, a lookup of the assigned key gives the new value and
/// a lookup of any other key gives what it gave before.
pub proof fn lemma_assign_lookup<V>(es: Seq<(Seq<char>, V)>, k: Seq<char>, v: V, k2: Seq<char>)
    ensures
        lookup(assign(es, k, v), k2) == if k2 == k { Some(v) } else { lookup(es, k2) },
{
    let es2 = assign(es, k, v);
    let p = key_is::<V>(k);
    let p2 = key_is::<V>(k2);
    match first_index(es, p) {
        Some(i) => {
            lemma_first_index_some(es, p);
            assert forall|j: int| 0 <= j < es.len() implies p2(#[trigger] es2[j]) == p2(es[j]) by {}
            if k2 == k {
                assert(is_first(es2, p2, i));
                lemma_first_index(es2, p2, i);
            } else {
                match first_index(es, p2) {
                    Some(j) => {
                        lemma_first_index_some(es, p2);
                        assert(is_first(es2, p2, j));
                        lemma_first_index(es2, p2, j);
                    },
                    None => {
                        lemma_first_index_none_all(es, p2);
                        lemma_first_index_none(es2, p2);
                    },
                }
            }
        },
        None => {
            lemma_first_index_none_all(es, p);
            if k2 == k {
                assert(is_first(es2, p2, es.len() as int));
                lemma_first_index(es2, p2, es.len() as int);
            } else {
                match first_index(es, p2) {
                    Some(j) => {
                        lemma_first_index_some(es, p2);
                        assert(is_first(es2, p2, j));
                        lemma_first_index(es2, p2, j);
                    },
                    None => {
                        lemma_first_index_none_all(es, p2);
                        assert(!p2(es2[es.len() as int]));
                        lemma_first_index_none(es2, p2);
                    },
                }
            }
        },
    }
}

/// Assigning the entries of `new`, whose keys are distinct, over `es`: a key
/// of `new` gives its value there, any other key what it gave in `es`.
pub proof fn lemma_assign_all_lookup(es: Entries, new: Entries, k: Seq<char>)
    requires
        keys_unique(new),
    ensures
        lookup(assign_all(es, new), k) == match lookup(new, k) {
            Some(v) => Some(v),
            None => lookup(es, k),
        },
    decreases new.len(),
{
    if new.len() > 0 {
        let rest = new.drop_last();
        let last = new.last();
        let n = new.len() - 1;
        let p = key_is::<JsonView>(k);
        assert(keys_unique(rest)) by {
            assert forall|i: int, j: int| 0 <= i < rest.len() && 0 <= j < rest.len() && i != j implies #[trigger] rest[i].0
                != #[trigger] rest[j].0 by {
                assert(rest[i] == new[i] && rest[j] == new[j]);
            }
        }
        lemma_assign_all_lookup(es, rest, k);
        lemma_assign_lookup(assign_all(es, rest), last.0, last.1, k);
        if k == last.0 {
            assert forall|j: int| 0 <= j < n implies !p(#[trigger] new[j]) by {
                assert(new[j].0 != new[n].0);
            }
            lemma_first_index(new, p, n);
        } else {
            match first_index(rest, p) {
                Some(j) => {
                    lemma_first_index_some(rest, p);
                    assert forall|i: int| 0 <= i < j implies !p(#[trigger] new[i]) by {
                        assert(new[i] == rest[i]);
                    }
                    assert(new[j] == rest[j]);
                    lemma_first_index(new, p, j);
                },
                None => {
                    lemma_first_index_none_all(rest, p);
                    assert forall|i: int| 0 <= i < new.len() implies !p(#[trigger] new[i]) by {
                        if i < n {
                            assert(new[i] == rest[i]);
                        }
                    }
                    lemma_first_index_none(new, p);
                },
            }
        }
    }
}

/// The value under key `k` of an object: that of its first entry with that
/// key; nothing for a value that is not an object.
pub open spec fn get_field(d: JsonView, k: Seq<char>) -> Option<JsonView> {
    match d {
        JsonView::Object(es) => lookup(es, k),
        _ => None,
    }
}

pub open spec fn as_str(v: JsonView) -> Option<Seq<char>> {
    match v {
        JsonView::Str(s) => Some(s),
        _ => None,
    }
}

pub open spec fn as_bool(v: JsonView) -> Option<bool> {
    match v {
        JsonView::Bool(b) => Some(b),
        _ => None,
    }
}

/// A non-negative integer; a float or a negative number gives nothing.
pub open spec fn as_u64(v: JsonView) -> Option<u64> {
    match v {
        JsonView::Number(JsonNumber::PosInt(n)) => Some(n),
        _ => None,
    }
}

/// Any number, as an `f64`.
pub open spec fn as_f64(v: JsonView) -> Option<Real> {
    match v {
        JsonView::Number(JsonNumber::PosInt(n)) => Some(Real::OfU64(n)),
        JsonView::Number(JsonNumber::NegInt(n)) => Some(Real::OfI64(n)),
        JsonView::Number(JsonNumber::Float(x)) => Some(x),
        _ => None,
    }
}

pub open spec fn field_str(d: JsonView, k: Seq<char>) -> Option<Seq<char>> {
    match get_field(d, k) {
        Some(v) => as_str(v),
        None => None,
    }
}

pub open spec fn field_bool(d: JsonView, k: Seq<char>) -> Option<bool> {
    match get_field(d, k) {
        Some(v) => as_bool(v),
        None => None,
    }
}

pub open spec fn field_u64(d: JsonView, k: Seq<char>) -> Option<u64> {
    match get_field(d, k) {
        Some(v) => as_u64(v),
        None => None,
    }
}

pub open spec fn field_f64(d: JsonView, k: Seq<char>) -> Option<Real> {
    match get_field(d, k) {
        Some(v) => as_f64(v),
        None => None,
    }
}

/// No two entries of an object share a key, at every depth.
pub open spec fn keys_unique(es: Entries) -> bool {
    forall|i: int, j: int|
        0 <= i < es.len() && 0 <= j < es.len() && i != j ==> #[trigger] es[i].0 != #[trigger] es[j].0
}

impl JsonView {
    pub open spec fn wf(self) -> bool
        decreases self,
    {
        match self {
            JsonView::Array(items) => forall|i: int|
                0 <= i < items.len() ==> (#[trigger] items[i]).wf(),
            JsonView::Object(es) => keys_unique(es) && forall|i: int|
                0 <= i < es.len() ==> (#[trigger] es[i]).1.wf(),
            _ => true,
        }
    }
}

impl JsonValue {
    /// The value under `key`, where this is an object holding that key.
    #[verifier::loop_isolation(false)]
    pub fn get(&self, key: &str) -> (r: Option<&JsonValue>)
        ensures
            r is Some <==> get_field(self.deep(), key@) is Some,
            r matches Some(v) ==> get_field(self.deep(), key@) == Some(v.deep()),
    {
        match self {
            JsonValue::Object(es) => {
                proof {
                    lemma_entries_view(es);
                }
                let ghost s = entries_view(es);
                let mut i: usize = 0;
                while i < es.len()
                    invariant
                        i <= es.len(),
                        s == entries_view(es),
                        s.len() == es.len(),
                        forall|j: int| 0 <= j < es.len() ==> #[trigger] s[j] == (es[j].0@, es[j].1.deep()),
                        forall|j: int| 0 <= j < i ==> !key_is::<JsonView>(key@)(#[trigger] s[j]),
                    decreases es.len() - i,
                {
                    if str_eq(es[i].0.as_str(), key) {
                        proof {
                            lemma_first_index(s, key_is::<JsonView>(key@), i as int);
                        }
                        return Some(&es[i].1);
                    }
                    i = i + 1;
                }
                proof {
                    lemma_first_index_none(s, key_is::<JsonView>(key@));
                }
                None
            },
            _ => None,
        }
    }

    pub fn as_str(&self) -> (r: Option<&str>)
        ensures
            r is Some <==> as_str(self.deep()) is Some,
            r matches Some(s) ==> as_str(self.deep()) == Some(s@),
    {
        match self {
            JsonValue::String(s) => Some(s.as_str()),
            _ => None,
        }
    }

    pub fn as_bool(&self) -> (r: Option<bool>)
        ensures
            r == as_bool(self.deep()),
    {
        match self {
            JsonValue::Bool(b) => Some(*b),
            _ => None,
        }
    }

    pub fn as_u64(&self) -> (r: Option<u64>)
        ensures
            r == as_u64(self.deep()),
    {
        match self {
            JsonValue::Number(JsonNumber::PosInt(n)) => Some(*n),
            _ => None,
        }
    }

    pub fn as_f64(&self) -> (r: Option<Real>)
        ensures
            r == as_f64(self.deep()),
    {
        match self {
            JsonValue::Number(JsonNumber::PosInt(n)) => Some(Real::OfU64(*n)),
            JsonValue::Number(JsonNumber::NegInt(n)) => Some(Real::OfI64(*n)),
            JsonValue::Number(JsonNumber::Float(x)) => Some(x.duplicate()),
            _ => None,
        }
    }

    /// A copy of this value.
    #[verifier::loop_isolation(false)]
    pub fn duplicate(&self) -> (r: JsonValue)
        ensures
            r.deep() == self.deep(),
        decreases self,
    {
        match self {
            JsonValue::Null => JsonValue::Null,
            JsonValue::Bool(b) => JsonValue::Bool(*b),
            JsonValue::Number(n) => JsonValue::Number(n.duplicate()),
            JsonValue::String(s) => JsonValue::String(s.clone()),
            JsonValue::Array(v) => {
                let mut out: Vec<JsonValue> = Vec::new();
                let mut i: usize = 0;
                while i < v.len()
                    invariant
                        i <= v.len(),
                        out.len() == i,
                        forall|j: int| 0 <= j < i ==> (#[trigger] out[j]).deep() == v[j].deep(),
                    decreases v.len() - i,
                {
                    let d = v[i].duplicate();
                    out.push(d);
                    i = i + 1;
                }
                proof {
                    lemma_items_view(v);
                    lemma_items_view(&out);
                    assert(items_view(&out) =~= items_view(v));
                }
                JsonValue::Array(out)
            },
            JsonValue::Object(v) => {
                let mut out: Vec<(String, JsonValue)> = Vec::new();
                let mut i: usize = 0;
                while i < v.len()
                    invariant
                        i <= v.len(),
                        out.len() == i,
                        forall|j: int|
                            0 <= j < i ==> (#[trigger] out[j]).0@ == v[j].0@ && out[j].1.deep()
                                == v[j].1.deep(),
                    decreases v.len() - i,
                {
                    let d = v[i].1.duplicate();
                    out.push((v[i].0.clone(), d));
                    i = i + 1;
                }
                proof {
                    lemma_entries_view(v);
                    lemma_entries_view(&out);
                    assert(entries_view(&out) =~= entries_view(v));
                }
                JsonValue::Object(out)
            },
        }
    }
}

/// The string under `k` of an object.
pub fn get_str<'a>(d: &'a JsonValue, k: &str) -> (r: Option<&'a str>)
    ensures
        r is Some <==> field_str(d.deep(), k@) is Some,
        r matches Some(s) ==> field_str(d.deep(), k@) == Some(s@),
{
    match d.get(k) {
        Some(v) => v.as_str(),
        None => None,
    }
}

/// The boolean under `k` of an object.
pub fn get_bool(d: &JsonValue, k: &str) -> (r: Option<bool>)
    ensures
        r == field_bool(d.deep(), k@),
{
    match d.get(k) {
        Some(v) => v.as_bool(),
        None => None,
    }
}

/// The non-negative integer under `k` of an object.
pub fn get_u64(d: &JsonValue, k: &str) -> (r: Option<u64>)
    ensures
        r == field_u64(d.deep(), k@),
{
    match d.get(k) {
        Some(v) => v.as_u64(),
        None => None,
    }
}

/// The number under `k` of an object, as an `f64`.
pub fn get_f64(d: &JsonValue, k: &str) -> (r: Option<Real>)
    ensures
        r == field_f64(d.deep(), k@),
{
    match d.get(k) {
        Some(v) => v.as_f64(),
        None => None,
    }
}

/// A copy of the value under `k` of an object.
pub fn get_copy(d: &JsonValue, k: &str) -> (r: Option<JsonValue>)
    ensures
        r is Some <==> get_field(d.deep(), k@) is Some,
        r matches Some(v) ==> get_field(d.deep(), k@) == Some(v.deep()),
{
    match d.get(k) {
        Some(v) => Some(v.duplicate()),
        None => None,
    }
}

/// Sets the value under `k` in a list of entries, as `assign` says.
pub fn assign_entry(es: &mut Vec<(String, JsonValue)>, k: String, v: JsonValue)
    ensures
        entries_view(final(es)) == assign(entries_view(old(es)), k@, v.deep()),
{
    proof {
        lemma_entries_view(es);
    }
    let ghost s = entries_view(es);
    let ghost p = key_is::<JsonView>(k@);
    let mut i: usize = 0;
    while i < es.len()
        invariant
            i <= es.len(),
            es == old(es),
            p == key_is::<JsonView>(k@),
            s == entries_view(es),
            s.len() == es.len(),
            forall|j: int| 0 <= j < es.len() ==> #[trigger] s[j] == (es[j].0@, es[j].1.deep()),
            forall|j: int| 0 <= j < i ==> !p(#[trigger] s[j]),
        decreases es.len() - i,
    {
        if str_eq(es[i].0.as_str(), k.as_str()) {
            proof {
                lemma_first_index(s, p, i as int);
            }
            let ghost kv = k@;
            let ghost vv = v.deep();
            es.set(i, (k, v));
            proof {
                lemma_entries_view(es);
                assert(entries_view(es) =~= s.update(i as int, (kv, vv)));
            }
            return;
        }
        i = i + 1;
    }
    proof {
        lemma_first_index_none(s, p);
    }
    let ghost kv = k@;
    let ghost vv = v.deep();
    es.push((k, v));
    proof {
        lemma_entries_view(es);
        assert(entries_view(es) =~= s.push((kv, vv)));
    }
}

/// Assigns every entry of `new`, in order, into `es`.
pub fn assign_entries(es: &mut Vec<(String, JsonValue)>, new: &Vec<(String, JsonValue)>)
    ensures
        entries_view(final(es)) == assign_all(entries_view(old(es)), entries_view(new)),
{
    proof {
        lemma_entries_view(new);
    }
    let ghost n = entries_view(new);
    let mut i: usize = 0;
    while i < new.len()
        invariant
            i <= new.len(),
            n == entries_view(new),
            n.len() == new.len(),
            forall|j: int| 0 <= j < new.len() ==> #[trigger] n[j] == (new[j].0@, new[j].1.deep()),
            entries_view(es) == assign_all(entries_view(old(es)), n.take(i as int)),
        decreases new.len() - i,
    {
        let k = new[i].0.clone();
        let v = new[i].1.duplicate();
        assign_entry(es, k, v);
        proof {
            assert(n.take(i + 1).drop_last() =~= n.take(i as int));
        }
        i = i + 1;
    }
    assert(n.take(new.len() as int) =~= n);
}

// ---------------------------------------------------------------------------
// Building values
// ---------------------------------------------------------------------------

/// An entry of an object.
pub fn field(k: &str, v: JsonValue) -> (e: (String, JsonValue))
    ensures
        e.0@ == k@,
        e.1 == v,
{
    (k.to_string(), v)
}

pub fn text(s: &str) -> (j: JsonValue)
    ensures
        j.deep() == JsonView::Str(s@),
{
    JsonValue::String(s.to_string())
}

pub fn uint(n: u64) -> (j: JsonValue)
    ensures
        j.deep() == JsonView::Number(JsonNumber::PosInt(n)),
{
    JsonValue::Number(JsonNumber::PosInt(n))
}

pub fn float(x: Real) -> (j: JsonValue)
    ensures
        j.deep() == JsonView::Number(JsonNumber::Float(x)),
{
    JsonValue::Number(JsonNumber::Float(x))
}

pub fn object(v: Vec<(String, JsonValue)>) -> (j: JsonValue)
    ensures
        j.deep() == JsonView::Object(entries_view(&v)),
{
    JsonValue::Object(v)
}

pub fn array(v: Vec<JsonValue>) -> (j: JsonValue)
    ensures
        j.deep() == JsonView::Array(items_view(&v)),
{
    JsonValue::Array(v)
}

/// The empty object.
pub fn empty_object() -> (j: JsonValue)
    ensures
        j.deep() == jempty(),
{
    let v: Vec<(String, JsonValue)> = Vec::new();
    proof {
        lemma_entries_view(&v);
        assert(entries_view(&v) =~= Seq::empty());
    }
    JsonValue::Object(v)
}

/// A non-negative integer as JSON.
pub open spec fn juint(n: u64) -> JsonView {
    JsonView::Number(JsonNumber::PosInt(n))
}

/// A float as JSON.
pub open spec fn jfloat(x: Real) -> JsonView {
    JsonView::Number(JsonNumber::Float(x))
}

/// The empty object.
pub open spec fn jempty() -> JsonView {
    JsonView::Object(Seq::empty())
}

} // verus!
