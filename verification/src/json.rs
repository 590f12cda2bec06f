use vstd::prelude::*;
use crate::text::text_eq;

verus! {

/// A JSON value as the library reads and builds it.
///
/// Integers that fit `i64` are held as numbers; any other number (a float, or
/// an integer beyond `i64`) is held as its JSON text.
#[derive(Debug, PartialEq)]
pub enum Json {
    Null,
    Bool(bool),
    Int(i64),
    OtherNumber(String),
    Str(String),
    Array(Vec<Json>),
    Object(Vec<(String, Json)>),
}

/// The mathematical model of a JSON value.
#[verifier::ext_equal]
pub enum JsonV {
    Null,
    Bool(bool),
    Int(int),
    OtherNumber(Seq<char>),
    Str(Seq<char>),
    Array(Seq<JsonV>),
    Object(Seq<(Seq<char>, JsonV)>),
}

impl Json {
    pub open spec fn view(&self) -> JsonV
        decreases self,
    {
        match self {
            Json::Null => JsonV::Null,
            Json::Bool(b) => JsonV::Bool(*b),
            Json::Int(i) => JsonV::Int(*i as int),
            Json::OtherNumber(s) => JsonV::OtherNumber(s@),
            Json::Str(s) => JsonV::Str(s@),
            Json::Array(items) => JsonV::Array(
                Seq::new(items@.len(), |i: int| if 0 <= i < items@.len() { items@[i].view() } else { JsonV::Null }),
            ),
            Json::Object(fields) => JsonV::Object(
                Seq::new(fields@.len(), |i: int| if 0 <= i < fields@.len() { (fields@[i].0@, fields@[i].1.view()) } else { (Seq::empty(), JsonV::Null) }),
            ),
        }
    }
}


/// The value of the first field named `key`, if any.
pub open spec fn lookup(fields: Seq<(Seq<char>, JsonV)>, key: Seq<char>) -> Option<JsonV>
    decreases fields.len(),
{
    if fields.len() == 0 {
        None
    } else if fields[0].0 == key {
        Some(fields[0].1)
    } else {
        lookup(fields.drop_first(), key)
    }
}

/// `value.get(key)`: a field of an object; nothing for any other value.
pub open spec fn field(value: JsonV, key: Seq<char>) -> Option<JsonV> {
    match value {
        JsonV::Object(fields) => lookup(fields, key),
        _ => None,
    }
}

/// `.and_then(as_i64)`.
pub open spec fn as_int(value: Option<JsonV>) -> Option<int> {
    match value {
        Some(JsonV::Int(i)) => Some(i),
        _ => None,
    }
}

/// `.and_then(as_str)`.
pub open spec fn as_text(value: Option<JsonV>) -> Option<Seq<char>> {
    match value {
        Some(JsonV::Str(s)) => Some(s),
        _ => None,
    }
}

/// `.and_then(as_bool)`.
pub open spec fn as_flag(value: Option<JsonV>) -> Option<bool> {
    match value {
        Some(JsonV::Bool(b)) => Some(b),
        _ => None,
    }
}

/// `.and_then(as_array)`.
pub open spec fn as_items(value: Option<JsonV>) -> Option<Seq<JsonV>> {
    match value {
        Some(JsonV::Array(items)) => Some(items),
        _ => None,
    }
}

/// The model of an optional borrowed value.
pub open spec fn opt_view(value: Option<&Json>) -> Option<JsonV> {
    match value {
        Some(v) => Some(v@),
        None => None,
    }
}

/// The model of an optional text.
pub open spec fn opt_text(value: Option<&str>) -> Option<Seq<char>> {
    match value {
        Some(s) => Some(s@),
        None => None,
    }
}

/// Lemma: looking up from index `i` equals looking up in the tail.
proof fn lemma_lookup_step(fields: Seq<(Seq<char>, JsonV)>, key: Seq<char>, i: int)
    requires
        0 <= i < fields.len(),
    ensures
        fields.skip(i)[0] == fields[i],
        fields.skip(i).drop_first() == fields.skip(i + 1),
{
    assert(fields.skip(i).drop_first() =~= fields.skip(i + 1));
}

impl Json {
    /// A text value.
    pub fn text(s: &str) -> (res: Json)
        ensures
            res@ == JsonV::Str(s@),
    {
        Json::Str(s.to_owned())
    }

    /// A value equal in the model to `self`.
    pub fn deep_clone(&self) -> (res: Json)
        ensures
            res@ == self@,
        decreases self,
    {
        match self {
            Json::Null => Json::Null,
            Json::Bool(b) => Json::Bool(*b),
            Json::Int(i) => Json::Int(*i),
            Json::OtherNumber(s) => Json::OtherNumber(s.clone()),
            Json::Str(s) => Json::Str(s.clone()),
            Json::Array(items) => {
                let mut out: Vec<Json> = Vec::new();
                let mut i: usize = 0;
                while i < items.len()
                    invariant
                        *self == Json::Array(*items),
                        i <= items@.len(),
                        out@.len() == i,
                        forall|k: int| 0 <= k < i ==> (#[trigger] out@[k])@ == items@[k]@,
                    decreases items@.len() - i,
                {
                    proof {
                        assert(self->Array_0 == *items);
                        assert(decreases_to!(*self => self->Array_0));
                        assert(decreases_to!(*items => items@));
                        assert(decreases_to!(items@ => items@[i as int]));
                    }
                    out.push(items[i].deep_clone());
                    i = i + 1;
                }
                let res = Json::Array(out);
                assert(res@ == self@) by {
                    if let JsonV::Array(a) = res@ {
                        if let JsonV::Array(b) = self@ {
                            assert(a =~= b);
                        }
                    }
                }
                res
            },
            Json::Object(fields) => {
                let mut out: Vec<(String, Json)> = Vec::new();
                let mut i: usize = 0;
                while i < fields.len()
                    invariant
                        *self == Json::Object(*fields),
                        i <= fields@.len(),
                        out@.len() == i,
                        forall|k: int|
                            0 <= k < i ==> (#[trigger] out@[k]).0@ == fields@[k].0@ && out@[k].1@
                                == fields@[k].1@,
                    decreases fields@.len() - i,
                {
                    proof {
                        assert(self->Object_0 == *fields);
                        assert(decreases_to!(*self => self->Object_0));
                        assert(decreases_to!(*fields => fields@));
                        assert(decreases_to!(fields@ => fields@[i as int]));
                        assert(decreases_to!(fields@[i as int] => fields@[i as int].1));
                    }
                    out.push((fields[i].0.clone(), fields[i].1.deep_clone()));
                    i = i + 1;
                }
                let res = Json::Object(out);
                assert(res@ == self@) by {
                    if let JsonV::Object(a) = res@ {
                        if let JsonV::Object(b) = self@ {
                            assert(a =~= b);
                        }
                    }
                }
                res
            },
        }
    }

    /// `get(key)`: the first field named `key` of an object.
    pub fn get(&self, key: &str) -> (res: Option<&Json>)
        ensures
            opt_view(res) == field(self@, key@),
    {
        match self {
            Json::Object(fields) => {
                let ghost fs = match self@ {
                    JsonV::Object(f) => f,
                    _ => Seq::empty(),
                };
                assert(fs.skip(0) =~= fs);
                let mut i: usize = 0;
                while i < fields.len()
                    invariant
                        self@ == JsonV::Object(fs),
                        fs.len() == fields@.len(),
                        forall|k: int|
                            0 <= k < fs.len() ==> (#[trigger] fs[k]) == (
                            fields@[k].0@,
                            fields@[k].1@,
                        ),
                        i <= fields@.len(),
                        lookup(fs, key@) == lookup(fs.skip(i as int), key@),
                    decreases fields@.len() - i,
                {
                    proof {
                        lemma_lookup_step(fs, key@, i as int);
                    }
                    if text_eq(fields[i].0.as_str(), key) {
                        assert(fs[i as int] == (fields@[i as int].0@, fields@[i as int].1@));
                        return Some(&fields[i].1);
                    }
                    i = i + 1;
                }
                None
            },
            _ => None,
        }
    }

    /// `as_i64()`.
    pub fn as_i64(&self) -> (res: Option<i64>)
        ensures
            match res {
                Some(i) => self@ == JsonV::Int(i as int),
                None => !(self@ is Int),
            },
    {
        match self {
            Json::Int(i) => Some(*i),
            _ => None,
        }
    }

    /// `as_str()`.
    pub fn as_str(&self) -> (res: Option<&str>)
        ensures
            opt_text(res) == as_text(Some(self@)),
    {
        match self {
            Json::Str(s) => Some(s.as_str()),
            _ => None,
        }
    }

    /// `as_bool()`.
    pub fn as_bool(&self) -> (res: Option<bool>)
        ensures
            res == as_flag(Some(self@)),
    {
        match self {
            Json::Bool(b) => Some(*b),
            _ => None,
        }
    }
}

/// The model of a list of object fields.
pub open spec fn fields_view(fields: Seq<(String, Json)>) -> Seq<(Seq<char>, JsonV)> {
    Seq::new(fields.len(), |i: int| (fields[i].0@, fields[i].1@))
}

/// The model of a list of values.
pub open spec fn items_view(items: Seq<Json>) -> Seq<JsonV> {
    Seq::new(items.len(), |i: int| items[i]@)
}

/// An object with the given fields, in order.
pub fn object(fields: Vec<(String, Json)>) -> (res: Json)
    ensures
        res@ == JsonV::Object(fields_view(fields@)),
{
    let ghost fv = fields_view(fields@);
    let res = Json::Object(fields);
    assert(res@ == JsonV::Object(fv)) by {
        if let JsonV::Object(f) = res@ {
            assert(f =~= fv);
        }
    }
    res
}

/// An array with the given items, in order.
pub fn array(items: Vec<Json>) -> (res: Json)
    ensures
        res@ == JsonV::Array(items_view(items@)),
{
    let ghost iv = items_view(items@);
    let res = Json::Array(items);
    assert(res@ == JsonV::Array(iv)) by {
        if let JsonV::Array(a) = res@ {
            assert(a =~= iv);
        }
    }
    res
}

/// One object field.
pub fn entry(key: &str, value: Json) -> (res: (String, Json))
    ensures
        res.0@ == key@,
        res.1 == value,
{
    (key.to_owned(), value)
}

/// Pushing a value pushes its model.
pub proof fn lemma_items_view_push(items: Seq<Json>, x: Json)
    ensures
        items_view(items.push(x)) == items_view(items).push(x@),
{
    assert(items_view(items.push(x)) =~= items_view(items).push(x@));
}

/// Copies of a list of values.
pub fn clone_items(items: &Vec<Json>) -> (res: Vec<Json>)
    ensures
        items_view(res@) == items_view(items@),
{
    let mut out: Vec<Json> = Vec::new();
    let mut i: usize = 0;
    while i < items.len()
        invariant
            i <= items@.len(),
            items_view(out@) == items_view(items@).take(i as int),
        decreases items@.len() - i,
    {
        let c = items[i].deep_clone();
        proof {
            lemma_items_view_push(out@, c);
        }
        out.push(c);
        i = i + 1;
        assert(items_view(out@) =~= items_view(items@).take(i as int));
    }
    assert(items_view(items@).take(items@.len() as int) =~= items_view(items@));
    out
}

/// `i` is the first position of a field named `key`.
pub open spec fn first_key_at(fields: Seq<(Seq<char>, JsonV)>, key: Seq<char>, i: int) -> bool {
    &&& 0 <= i < fields.len()
    &&& fields[i].0 == key
    &&& forall|j: int| 0 <= j < i ==> fields[j].0 != key
}

/// The fields with `key` set to `value`: its first field replaced, or a new
/// field appended.
pub open spec fn set_field(fields: Seq<(Seq<char>, JsonV)>, key: Seq<char>, value: JsonV) -> Seq<(Seq<char>, JsonV)> {
    if exists|i: int| first_key_at(fields, key, i) {
        fields.update(choose|i: int| first_key_at(fields, key, i), (key, value))
    } else {
        fields.push((key, value))
    }
}

proof fn lemma_fields_view_push(fields: Seq<(String, Json)>, x: (String, Json))
    ensures
        fields_view(fields.push(x)) == fields_view(fields).push((x.0@, x.1@)),
{
    assert(fields_view(fields.push(x)) =~= fields_view(fields).push((x.0@, x.1@)));
}

/// The position of the first field named `key`.
fn first_key_position(fields: &Vec<(String, Json)>, key: &str) -> (res: Option<usize>)
    ensures
        match res {
            Some(p) => first_key_at(fields_view(fields@), key@, p as int),
            None => forall|j: int| 0 <= j < fields@.len() ==> (#[trigger] fields@[j]).0@ != key@,
        },
{
    let mut i: usize = 0;
    while i < fields.len()
        invariant
            i <= fields@.len(),
            forall|j: int| 0 <= j < i ==> (#[trigger] fields@[j]).0@ != key@,
        decreases fields@.len() - i,
    {
        if text_eq(fields[i].0.as_str(), key) {
            return Some(i);
        }
        i = i + 1;
    }
    None
}

/// The fields with `key` set to `value`: the first field of that name
/// replaced, or a new field appended.
pub fn fields_with(fields: &Vec<(String, Json)>, key: &str, value: Json) -> (res: Vec<(String, Json)>)
    ensures
        fields_view(res@) == set_field(fields_view(fields@), key@, value@),
{
    let ghost fs = fields_view(fields@);
    let pos = first_key_position(fields, key);
    let ghost vv = value@;
    let ghost expected = match pos {
        Some(p) => fs.update(p as int, (key@, vv)),
        None => fs,
    };
    let mut out: Vec<(String, Json)> = Vec::new();
    let mut value = Some(value);
    let mut k: usize = 0;
    assert(fields_view(out@) =~= expected.take(0));
    while k < fields.len()
        invariant
            fs == fields_view(fields@),
            k <= fields@.len(),
            expected.len() == fields@.len(),
            expected == match pos {
                Some(p) => fs.update(p as int, (key@, vv)),
                None => fs,
            },
            match pos {
                Some(p) => p < fields@.len() && first_key_at(fs, key@, p as int)
                    && (k <= p ==> value is Some && value->0@ == vv),
                None => value is Some && value->0@ == vv,
            },
            fields_view(out@) == expected.take(k as int),
        decreases fields@.len() - k,
    {
        let ghost before = out@;
        if pos == Some(k) {
            let v = value.take().unwrap();
            out.push((key.to_owned(), v));
        } else {
            out.push((fields[k].0.clone(), fields[k].1.deep_clone()));
        }
        proof {
            lemma_fields_view_push(before, out@.last());
            assert(out@ == before.push(out@.last()));
            assert(expected.take(k + 1) =~= expected.take(k as int).push(expected[k as int]));
        }
        k = k + 1;
    }
    assert(expected.take(fields@.len() as int) =~= expected);
    match pos {
        Some(p) => {
            proof {
                assert(exists|i: int| first_key_at(fs, key@, i));
                let c = choose|i: int| first_key_at(fs, key@, i);
                assert(c == p as int) by {
                    if c < p {
                        assert(fs[c].0 != key@);
                    } else if c > p {
                        assert(fs[p as int].0 != key@);
                    }
                }
            }
        },
        None => {
            let ghost before = out@;
            let v = value.take().unwrap();
            out.push((key.to_owned(), v));
            proof {
                lemma_fields_view_push(before, out@.last());
                assert(out@ == before.push(out@.last()));
                assert(!exists|i: int| first_key_at(fs, key@, i)) by {
                    if exists|i: int| first_key_at(fs, key@, i) {
                        let c = choose|i: int| first_key_at(fs, key@, i);
                        assert(fields@[c].0@ == key@);
                    }
                }
            }
        },
    }
    out
}

/// The model of no values is no values.
pub proof fn lemma_empty_items()
    ensures
        items_view(Seq::<Json>::empty()) == Seq::<JsonV>::empty(),
{
    assert(items_view(Seq::<Json>::empty()) =~= Seq::<JsonV>::empty());
}

} // verus!
