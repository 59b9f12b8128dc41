use vstd::prelude::*;

verus! {

/// The mathematical model of a structured value.
pub enum Json {
    Null,
    Bool(bool),
    Number(Seq<char>),
    Str(Seq<char>),
    Array(Seq<Json>),
    Object(Seq<(Seq<char>, Json)>),
}

/// A structured value with heterogeneous content: the shape of a JSON document.
/// A number is held as its decimal text, so that it passes through unchanged.
/// An object keeps its members in the order in which they were written.
#[derive(Debug, PartialEq)]
pub enum JsonValue {
    Null,
    Bool(bool),
    Number(String),
    Str(String),
    Array(Vec<JsonValue>),
    Object(Vec<(String, JsonValue)>),
}

pub open spec fn json_view(v: JsonValue) -> Json
    decreases v,
{
    match v {
        JsonValue::Null => Json::Null,
        JsonValue::Bool(b) => Json::Bool(b),
        JsonValue::Number(n) => Json::Number(n@),
        JsonValue::Str(s) => Json::Str(s@),
        JsonValue::Array(items) => Json::Array(
            Seq::new(
                items.len() as nat,
                |i: int|
                    if 0 <= i < items.len() {
                        json_view(items[i])
                    } else {
                        Json::Null
                    },
            ),
        ),
        JsonValue::Object(ms) => Json::Object(
            Seq::new(
                ms.len() as nat,
                |i: int|
                    if 0 <= i < ms.len() {
                        (ms[i].0@, json_view(ms[i].1))
                    } else {
                        (Seq::empty(), Json::Null)
                    },
            ),
        ),
    }
}

impl View for JsonValue {
    type V = Json;

    open spec fn view(&self) -> Json {
        json_view(*self)
    }
}

/// The value of the first member named `key`, if there is one.
pub open spec fn lookup(ms: Seq<(Seq<char>, Json)>, key: Seq<char>) -> Option<Json>
    decreases ms.len(),
{
    if ms.len() == 0 {
        None
    } else if ms[0].0 == key {
        Some(ms[0].1)
    } else {
        lookup(ms.drop_first(), key)
    }
}

/// The member `key` of an object; nothing for a value of another shape.
pub open spec fn member(v: Json, key: Seq<char>) -> Option<Json> {
    match v {
        Json::Object(ms) => lookup(ms, key),
        _ => None,
    }
}

/// The text of a string value; nothing for a value of another shape.
pub open spec fn text_of(v: Option<Json>) -> Option<Seq<char>> {
    match v {
        Some(Json::Str(s)) => Some(s),
        _ => None,
    }
}

proof fn lemma_lookup_skip(ms: Seq<(Seq<char>, Json)>, key: Seq<char>, i: int)
    requires
        0 <= i < ms.len(),
        ms[i].0 != key,
    ensures
        lookup(ms.subrange(i, ms.len() as int), key) == lookup(
            ms.subrange(i + 1, ms.len() as int),
            key,
        ),
{
    let tail = ms.subrange(i, ms.len() as int);
    assert(tail.drop_first() =~= ms.subrange(i + 1, ms.len() as int));
}

/// Whether two texts hold the same characters.
pub fn same_text(a: &str, b: &str) -> (r: bool)
    ensures
        r == (a@ == b@),
{
    let n = a.unicode_len();
    if n != b.unicode_len() {
        return false;
    }
    let mut i: usize = 0;
    while i < n
        invariant
            n == a@.len(),
            n == b@.len(),
            i <= n,
            forall|j: int| 0 <= j < i ==> a@[j] == b@[j],
        decreases n - i,
    {
        if a.get_char(i) != b.get_char(i) {
            return false;
        }
        i = i + 1;
    }
    assert(a@ =~= b@);
    true
}

impl JsonValue {
    /// The member `key` of an object, as `get` on a JSON value reads it.
    pub fn get(&self, key: &str) -> (r: Option<&JsonValue>)
        ensures
            match r {
                Some(x) => member(self@, key@) == Some(x@),
                None => member(self@, key@) is None,
            },
    {
        match self {
            JsonValue::Object(ms) => {
                let ghost mv = self@->Object_0;
                assert(mv.subrange(0, mv.len() as int) =~= mv);
                let mut i: usize = 0;
                while i < ms.len()
                    invariant
                        mv == self@->Object_0,
                        *self == JsonValue::Object(*ms),
                        mv.len() == ms.len(),
                        i <= ms.len(),
                        lookup(mv, key@) == lookup(mv.subrange(i as int, mv.len() as int), key@),
                    decreases ms.len() - i,
                {
                    if same_text(ms[i].0.as_str(), key) {
                        return Some(&ms[i].1);
                    }
                    proof {
                        lemma_lookup_skip(mv, key@, i as int);
                    }
                    i = i + 1;
                }
                None
            },
            _ => None,
        }
    }

    /// The text of a string value, as `as_str` on a JSON value reads it.
    pub fn as_text(&self) -> (r: Option<&str>)
        ensures
            match r {
                Some(t) => text_of(Some(self@)) == Some(t@),
                None => text_of(Some(self@)) is None,
            },
    {
        match self {
            JsonValue::Str(s) => Some(s.as_str()),
            _ => None,
        }
    }

    /// A copy of the value, equal to it in every part.
    pub fn deep_copy(&self) -> (r: JsonValue)
        ensures
            r@ == self@,
        decreases self,
    {
        match self {
            JsonValue::Null => JsonValue::Null,
            JsonValue::Bool(b) => JsonValue::Bool(*b),
            JsonValue::Number(n) => JsonValue::Number(n.clone()),
            JsonValue::Str(s) => JsonValue::Str(s.clone()),
            JsonValue::Array(items) => {
                let mut out: Vec<JsonValue> = Vec::new();
                let mut i: usize = 0;
                while i < items.len()
                    invariant
                        i <= items.len(),
                        out.len() == i,
                        *self == JsonValue::Array(*items),
                        forall|j: int| 0 <= j < i ==> json_view(#[trigger] out[j]) == json_view(items[j]),
                    decreases items.len() - i,
                {
                    proof {
                        vstd::std_specs::vec::axiom_vec_index_decreases(*items, i as int);
                        assert(self->Array_0 == *items);
                        assert(decreases_to!(*self => self->Array_0));
                    }
                    let c = items[i].deep_copy();
                    out.push(c);
                    i = i + 1;
                }
                let r = JsonValue::Array(out);
                assert(r@->Array_0 =~= self@->Array_0);
                r
            },
            JsonValue::Object(ms) => {
                let mut out: Vec<(String, JsonValue)> = Vec::new();
                let mut i: usize = 0;
                while i < ms.len()
                    invariant
                        i <= ms.len(),
                        out.len() == i,
                        *self == JsonValue::Object(*ms),
                        forall|j: int|
                            0 <= j < i ==> (#[trigger] out[j]).0@ == ms[j].0@ && json_view(out[j].1)
                                == json_view(ms[j].1),
                    decreases ms.len() - i,
                {
                    proof {
                        vstd::std_specs::vec::axiom_vec_index_decreases(*ms, i as int);
                        assert(self->Object_0 == *ms);
                        assert(decreases_to!(*self => self->Object_0));
                        assert(decreases_to!(*self => ms[i as int].1));
                    }
                    let c = ms[i].1.deep_copy();
                    let k = ms[i].0.clone();
                    out.push((k, c));
                    i = i + 1;
                }
                let r = JsonValue::Object(out);
                assert(r@->Object_0 =~= self@->Object_0);
                r
            },
        }
    }
}

} // verus!
