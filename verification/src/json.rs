//! The JSON document model that the renderers and the request handling read.
use vstd::prelude::*;
use crate::text::str_eq;

verus! {

/// A JSON number: its value as an `i64` when it is an integer that fits,
/// the bits of its value as an `f64` (how a non-integral limit is taken), and
/// its JSON text, which is what is written back when the number is echoed.
pub struct JsonNumber {
    pub int: Option<i64>,
    pub bits: u64,
    pub text: String,
}

/// A JSON value. Object members are in the order the parser hands them over.
pub enum Json {
    Null,
    Bool(bool),
    Number(JsonNumber),
    Str(String),
    Array(Vec<Json>),
    Object(Vec<(String, Json)>),
}

/// The mathematical value of a [`Json`].
pub enum JsonView {
    Null,
    Bool(bool),
    Number(Option<i64>, u64, Seq<char>),
    Str(Seq<char>),
    Array(Seq<JsonView>),
    Object(Seq<(Seq<char>, JsonView)>),
}

impl Json {
    pub open spec fn view_rec(&self) -> JsonView
        decreases self,
    {
        match self {
            Json::Null => JsonView::Null,
            Json::Bool(b) => JsonView::Bool(*b),
            Json::Number(n) => JsonView::Number(n.int, n.bits, n.text@),
            Json::Str(s) => JsonView::Str(s@),
            Json::Array(a) => JsonView::Array(
                Seq::new(
                    a@.len(),
                    |i: int|
                        if 0 <= i < a@.len() {
                            a@[i].view_rec()
                        } else {
                            JsonView::Null
                        },
                ),
            ),
            Json::Object(es) => JsonView::Object(
                Seq::new(
                    es@.len(),
                    |i: int|
                        if 0 <= i < es@.len() {
                            (es@[i].0@, es@[i].1.view_rec())
                        } else {
                            (Seq::empty(), JsonView::Null)
                        },
                ),
            ),
        }
    }
}

impl View for Json {
    type V = JsonView;

    open spec fn view(&self) -> JsonView {
        self.view_rec()
    }
}

/// The value of the first member named `key`.
pub open spec fn spec_lookup(es: Seq<(Seq<char>, JsonView)>, key: Seq<char>) -> Option<JsonView>
    decreases es.len(),
{
    if es.len() == 0 {
        None
    } else if es[0].0 == key {
        Some(es[0].1)
    } else {
        spec_lookup(es.drop_first(), key)
    }
}

/// `v[key]` for an object `v`; `None` for any other value.
pub open spec fn spec_get(v: JsonView, key: Seq<char>) -> Option<JsonView> {
    match v {
        JsonView::Object(es) => spec_lookup(es, key),
        _ => None,
    }
}

pub open spec fn str_of(v: Option<JsonView>) -> Option<Seq<char>> {
    match v {
        Some(JsonView::Str(s)) => Some(s),
        _ => None,
    }
}

pub open spec fn i64_of(v: Option<JsonView>) -> Option<i64> {
    match v {
        Some(JsonView::Number(i, _, _)) => i,
        _ => None,
    }
}

pub open spec fn array_of(v: Option<JsonView>) -> Option<Seq<JsonView>> {
    match v {
        Some(JsonView::Array(a)) => Some(a),
        _ => None,
    }
}

pub open spec fn bool_of(v: Option<JsonView>) -> Option<bool> {
    match v {
        Some(JsonView::Bool(b)) => Some(b),
        _ => None,
    }
}

/// The string member `key` of `v`.
pub open spec fn field_str(v: JsonView, key: Seq<char>) -> Option<Seq<char>> {
    str_of(spec_get(v, key))
}

/// The integer member `key` of `v`.
pub open spec fn field_i64(v: JsonView, key: Seq<char>) -> Option<i64> {
    i64_of(spec_get(v, key))
}

/// The array member `key` of `v`.
pub open spec fn field_array(v: JsonView, key: Seq<char>) -> Option<Seq<JsonView>> {
    array_of(spec_get(v, key))
}

pub open spec fn str_or(o: Option<Seq<char>>, d: Seq<char>) -> Seq<char> {
    match o {
        Some(s) => s,
        None => d,
    }
}

pub open spec fn i64_or(o: Option<i64>, d: i64) -> i64 {
    match o {
        Some(i) => i,
        None => d,
    }
}

pub open spec fn ref_view(r: Option<&Json>) -> Option<JsonView> {
    match r {
        Some(x) => Some(x@),
        None => None,
    }
}

pub open spec fn str_view(r: Option<&str>) -> Option<Seq<char>> {
    match r {
        Some(x) => Some(x@),
        None => None,
    }
}

pub open spec fn views(a: Seq<Json>) -> Seq<JsonView> {
    Seq::new(a.len(), |i: int| a[i]@)
}

impl Json {
    /// The member named `key` of an object; `None` for other values.
    pub fn get(&self, key: &str) -> (r: Option<&Json>)
        ensures
            ref_view(r) == spec_get(self@, key@),
    {
        match self {
            Json::Object(es) => {
                let ghost vs = match self@ {
                    JsonView::Object(vs) => vs,
                    _ => Seq::empty(),
                };
                let mut i: usize = 0;
                assert(vs.skip(0) =~= vs);
                while i < es.len()
                    invariant
                        self@ == JsonView::Object(vs),
                        *self == Json::Object(*es),
                        vs.len() == es@.len(),
                        forall|j: int| 0 <= j < vs.len() ==> #[trigger] vs[j] == (es@[j].0@, es@[j].1@),
                        i <= es.len(),
                        spec_lookup(vs, key@) == spec_lookup(vs.skip(i as int), key@),
                    decreases es.len() - i,
                {
                    assert(vs.skip(i as int).drop_first() =~= vs.skip(i + 1));
                    assert(vs.skip(i as int)[0] == vs[i as int]);
                    if str_eq(es[i].0.as_str(), key) {
                        return Some(&es[i].1);
                    }
                    i += 1;
                }
                None
            },
            _ => None,
        }
    }

    pub fn as_str(&self) -> (r: Option<&str>)
        ensures
            str_view(r) == str_of(Some(self@)),
    {
        match self {
            Json::Str(s) => Some(s.as_str()),
            _ => None,
        }
    }

    pub fn as_i64(&self) -> (r: Option<i64>)
        ensures
            r == i64_of(Some(self@)),
    {
        match self {
            Json::Number(n) => n.int,
            _ => None,
        }
    }

    pub fn as_bool(&self) -> (r: Option<bool>)
        ensures
            r == bool_of(Some(self@)),
    {
        match self {
            Json::Bool(b) => Some(*b),
            _ => None,
        }
    }

    pub fn as_array(&self) -> (r: Option<&Vec<Json>>)
        ensures
            match r {
                Some(a) => array_of(Some(self@)) == Some(views(a@)),
                None => array_of(Some(self@)) is None,
            },
    {
        match self {
            Json::Array(a) => {
                proof {
                    assert(views(a@) =~= match self@ {
                        JsonView::Array(vs) => vs,
                        _ => Seq::empty(),
                    });
                }
                Some(a)
            },
            _ => None,
        }
    }

    pub fn is_object(&self) -> (r: bool)
        ensures
            r == (self@ is Object),
    {
        match self {
            Json::Object(_) => true,
            _ => false,
        }
    }
}

/// The views of the members of an object.
pub open spec fn members_view(es: Seq<(String, Json)>) -> Seq<(Seq<char>, JsonView)> {
    Seq::new(es.len(), |i: int| (es[i].0@, es[i].1@))
}

/// An owned copy of `s`.
pub fn text(s: &str) -> (r: String)
    ensures
        r@ == s@,
{
    let mut r = String::new();
    r.append(s);
    r
}

/// The JSON string `s`.
pub fn jstr(s: &str) -> (r: Json)
    ensures
        r@ == JsonView::Str(s@),
{
    Json::Str(text(s))
}

/// The member `key: value` of an object.
pub fn member(key: &str, value: Json) -> (r: (String, Json))
    ensures
        r.0@ == key@,
        r.1 == value,
{
    (text(key), value)
}

/// The object with the members `es`, in order.
pub fn object(es: Vec<(String, Json)>) -> (r: Json)
    ensures
        r@ == JsonView::Object(members_view(es@)),
{
    let r = Json::Object(es);
    proof {
        let vs = match r@ {
            JsonView::Object(vs) => vs,
            _ => Seq::empty(),
        };
        assert(vs =~= members_view(es@));
    }
    r
}

/// The array of `items`, in order.
pub fn array(items: Vec<Json>) -> (r: Json)
    ensures
        r@ == JsonView::Array(views(items@)),
{
    let r = Json::Array(items);
    proof {
        let vs = match r@ {
            JsonView::Array(vs) => vs,
            _ => Seq::empty(),
        };
        assert(vs =~= views(items@));
    }
    r
}

} // verus!
