//! JSON values as the services send them, and how the library reads them.
use vstd::prelude::*;
use crate::strings::{copy_text, same_text};

verus! {

broadcast use vstd::seq_lib::group_seq_properties;

/// A JSON value.
pub enum Json {
    /// `null`.
    Null,
    /// A truth value.
    Bool(bool),
    /// A whole number that is not negative.
    Unsigned(u64),
    /// A negative whole number.
    Negative(i64),
    /// Any other number, as it is written.
    Decimal(String),
    /// A string.
    Text(String),
    /// An array.
    List(Vec<Json>),
    /// An object: its members in their order, each key once.
    Object(Vec<(String, Json)>),
}

/// What a JSON value means.
pub enum JsonV {
    /// `null`.
    Null,
    /// A truth value.
    Bool(bool),
    /// A whole number that is not negative.
    Unsigned(u64),
    /// A negative whole number.
    Negative(i64),
    /// Any other number, as it is written.
    Decimal(Seq<char>),
    /// A string.
    Text(Seq<char>),
    /// An array.
    List(Seq<JsonV>),
    /// An object.
    Object(Seq<(Seq<char>, JsonV)>),
}

/// What a JSON value means.
pub open spec fn meaning(j: Json) -> JsonV
    decreases j,
{
    match j {
        Json::Null => JsonV::Null,
        Json::Bool(b) => JsonV::Bool(b),
        Json::Unsigned(n) => JsonV::Unsigned(n),
        Json::Negative(n) => JsonV::Negative(n),
        Json::Decimal(s) => JsonV::Decimal(s@),
        Json::Text(s) => JsonV::Text(s@),
        Json::List(v) => JsonV::List(
            Seq::new(
                v@.len(),
                |i: int|
                    if 0 <= i < v@.len() {
                        meaning(v[i])
                    } else {
                        JsonV::Null
                    },
            ),
        ),
        Json::Object(v) => JsonV::Object(
            Seq::new(
                v@.len(),
                |i: int|
                    if 0 <= i < v@.len() {
                        (v[i].0@, meaning(v[i].1))
                    } else {
                        (Seq::empty(), JsonV::Null)
                    },
            ),
        ),
    }
}

impl View for Json {
    type V = JsonV;

    open spec fn view(&self) -> JsonV {
        meaning(*self)
    }
}

/// What a list of JSON values means.
pub open spec fn json_list(v: Seq<Json>) -> Seq<JsonV> {
    Seq::new(v.len(), |i: int| v[i]@)
}

/// What the members of an object mean.
pub open spec fn json_members(v: Seq<(String, Json)>) -> Seq<(Seq<char>, JsonV)> {
    Seq::new(v.len(), |i: int| (v[i].0@, v[i].1@))
}

/// What an optional JSON value means.
pub open spec fn json_opt(v: Option<Json>) -> Option<JsonV> {
    match v {
        Some(j) => Some(j@),
        None => None,
    }
}

/// What a reference to an optional JSON value means.
pub open spec fn json_ref(v: Option<&Json>) -> Option<JsonV> {
    match v {
        Some(j) => Some(j@),
        None => None,
    }
}

/// The value behind the first member with a key.
pub open spec fn member(v: Seq<(Seq<char>, JsonV)>, key: Seq<char>) -> Option<JsonV>
    decreases v.len(),
{
    if v.len() == 0 {
        None
    } else if v[0].0 == key {
        Some(v[0].1)
    } else {
        member(v.skip(1), key)
    }
}

impl JsonV {
    /// The member of an object.
    pub open spec fn get(self, key: Seq<char>) -> Option<JsonV> {
        match self {
            JsonV::Object(v) => member(v, key),
            _ => None,
        }
    }

    /// The text of a string.
    pub open spec fn text(self) -> Option<Seq<char>> {
        match self {
            JsonV::Text(s) => Some(s),
            _ => None,
        }
    }

    /// The elements of an array.
    pub open spec fn list(self) -> Option<Seq<JsonV>> {
        match self {
            JsonV::List(v) => Some(v),
            _ => None,
        }
    }

    /// A whole number that fits a signed 64-bit integer.
    pub open spec fn whole(self) -> Option<i64> {
        match self {
            JsonV::Unsigned(n) => if n <= i64::MAX {
                Some(n as i64)
            } else {
                None
            },
            JsonV::Negative(n) => Some(n),
            _ => None,
        }
    }

    /// A whole number that is not negative.
    pub open spec fn unsigned(self) -> Option<u64> {
        match self {
            JsonV::Unsigned(n) => Some(n),
            _ => None,
        }
    }

    /// A truth value.
    pub open spec fn truth(self) -> Option<bool> {
        match self {
            JsonV::Bool(b) => Some(b),
            _ => None,
        }
    }
}

/// The member of an optional value.
pub open spec fn get_in(j: Option<JsonV>, key: Seq<char>) -> Option<JsonV> {
    match j {
        Some(j) => j.get(key),
        None => None,
    }
}

/// The member under one key or, failing that, under another.
pub open spec fn get_either(j: Option<JsonV>, key: Seq<char>, other: Seq<char>) -> Option<JsonV> {
    match get_in(j, key) {
        Some(v) => Some(v),
        None => get_in(j, other),
    }
}

/// The text of an optional value.
pub open spec fn text_in(j: Option<JsonV>) -> Option<Seq<char>> {
    match j {
        Some(j) => j.text(),
        None => None,
    }
}

/// The whole number of an optional value.
pub open spec fn int_in(j: Option<JsonV>) -> Option<i64> {
    match j {
        Some(j) => j.whole(),
        None => None,
    }
}

/// The elements of an optional value.
pub open spec fn list_in(j: Option<JsonV>) -> Option<Seq<JsonV>> {
    match j {
        Some(j) => j.list(),
        None => None,
    }
}

/// The element of an optional list at an index.
pub open spec fn item_in(l: Option<Seq<JsonV>>, i: int) -> Option<JsonV> {
    match l {
        Some(v) => if 0 <= i < v.len() {
            Some(v[i])
        } else {
            None
        },
        None => None,
    }
}

/// Views of arrays and objects, element by element.
pub proof fn lemma_json_view(j: Json)
    ensures
        j matches Json::List(v) ==> j@ == JsonV::List(json_list(v@)),
        j matches Json::Object(v) ==> j@ == JsonV::Object(json_members(v@)),
{
    reveal_with_fuel(meaning, 2);
    match j {
        Json::List(v) => {
            assert(j@->List_0 =~= json_list(v@));
        },
        Json::Object(v) => {
            assert(j@->Object_0 =~= json_members(v@));
        },
        _ => {},
    }
}

impl Json {
    /// The member of an object.
    pub fn get(&self, key: &str) -> (r: Option<&Json>)
        ensures
            json_ref(r) == self@.get(key@),
    {
        proof {
            lemma_json_view(*self);
        }
        match self {
            Json::Object(v) => {
                let ghost m = json_members(v@);
                let mut i: usize = 0;
                assert(m.skip(0) =~= m);
                while i < v.len()
                    invariant
                        i <= v@.len(),
                        m == json_members(v@),
                        self@ == JsonV::Object(m),
                        member(m, key@) == member(m.skip(i as int), key@),
                    decreases v@.len() - i,
                {
                    proof {
                        assert(m.skip(i as int)[0] == (v@[i as int].0@, v@[i as int].1@));
                        assert(m.skip(i as int).skip(1) =~= m.skip(i + 1));
                    }
                    if same_text(v[i].0.as_str(), key) {
                        return Some(&v[i].1);
                    }
                    i = i + 1;
                }
                None
            },
            _ => None,
        }
    }

    /// The text of a string.
    pub fn as_text(&self) -> (r: Option<&String>)
        ensures
            match r {
                Some(s) => self@.text() == Some(s@),
                None => self@.text() is None,
            },
    {
        match self {
            Json::Text(s) => Some(s),
            _ => None,
        }
    }

    /// The elements of an array.
    pub fn as_list(&self) -> (r: Option<&Vec<Json>>)
        ensures
            match r {
                Some(v) => self@.list() == Some(json_list(v@)),
                None => self@.list() is None,
            },
    {
        proof {
            lemma_json_view(*self);
        }
        match self {
            Json::List(v) => Some(v),
            _ => None,
        }
    }

    /// A whole number that fits a signed 64-bit integer.
    pub fn as_int(&self) -> (r: Option<i64>)
        ensures
            r == self@.whole(),
    {
        match self {
            Json::Unsigned(n) => if *n <= 0x7fff_ffff_ffff_ffff {
                Some(*n as i64)
            } else {
                None
            },
            Json::Negative(n) => Some(*n),
            _ => None,
        }
    }

    /// A whole number that is not negative.
    pub fn as_unsigned(&self) -> (r: Option<u64>)
        ensures
            r == self@.unsigned(),
    {
        match self {
            Json::Unsigned(n) => Some(*n),
            _ => None,
        }
    }

    /// A truth value.
    pub fn as_truth(&self) -> (r: Option<bool>)
        ensures
            r == self@.truth(),
    {
        match self {
            Json::Bool(b) => Some(*b),
            _ => None,
        }
    }

    /// A copy of the value.
    pub fn copy(&self) -> (r: Json)
        ensures
            r@ == self@,
        decreases self,
    {
        let r = match self {
            Json::Null => Json::Null,
            Json::Bool(b) => Json::Bool(*b),
            Json::Unsigned(n) => Json::Unsigned(*n),
            Json::Negative(n) => Json::Negative(*n),
            Json::Decimal(s) => Json::Decimal(s.clone()),
            Json::Text(s) => Json::Text(s.clone()),
            Json::List(v) => {
                let mut out: Vec<Json> = Vec::new();
                let mut i: usize = 0;
                while i < v.len()
                    invariant
                        i <= v@.len(),
                        *self == Json::List(*v),
                        json_list(out@) =~= json_list(v@).take(i as int),
                    decreases v@.len() - i,
                {
                    let ghost done = json_list(out@);
                    assert(decreases_to!(*self => self->List_0));
                    assert(decreases_to!(*v => v[i as int]));
                    let j = v[i].copy();
                    out.push(j);
                    assert(json_list(out@) =~= done.push(j@));
                    i = i + 1;
                }
                assert(json_list(v@).take(v@.len() as int) =~= json_list(v@));
                Json::List(out)
            },
            Json::Object(v) => {
                let mut out: Vec<(String, Json)> = Vec::new();
                let mut i: usize = 0;
                while i < v.len()
                    invariant
                        i <= v@.len(),
                        *self == Json::Object(*v),
                        json_members(out@) =~= json_members(v@).take(i as int),
                    decreases v@.len() - i,
                {
                    let ghost done = json_members(out@);
                    assert(decreases_to!(*self => self->Object_0));
                    assert(decreases_to!(*v => v[i as int]));
                    assert(decreases_to!(v[i as int] => v[i as int].1));
                    let j = v[i].1.copy();
                    let k = v[i].0.clone();
                    out.push((k, j));
                    assert(json_members(out@) =~= done.push((k@, j@)));
                    i = i + 1;
                }
                assert(json_members(v@).take(v@.len() as int) =~= json_members(v@));
                Json::Object(out)
            },
        };
        proof {
            lemma_json_view(*self);
            lemma_json_view(r);
        }
        r
    }
}

/// A copy of a list of values.
pub fn copy_list(v: &Vec<Json>) -> (r: Vec<Json>)
    ensures
        json_list(r@) == json_list(v@),
{
    let mut out: Vec<Json> = Vec::new();
    let mut i: usize = 0;
    while i < v.len()
        invariant
            i <= v@.len(),
            json_list(out@) =~= json_list(v@).take(i as int),
        decreases v@.len() - i,
    {
        let ghost done = json_list(out@);
        let j = v[i].copy();
        out.push(j);
        assert(json_list(out@) =~= done.push(j@));
        i = i + 1;
    }
    assert(json_list(v@).take(v@.len() as int) =~= json_list(v@));
    out
}

/// The member of an optional value.
pub fn get_of<'a>(j: Option<&'a Json>, key: &str) -> (r: Option<&'a Json>)
    ensures
        json_ref(r) == get_in(json_ref(j), key@),
{
    match j {
        Some(j) => j.get(key),
        None => None,
    }
}

/// The member under one key or, failing that, under another.
pub fn either_of<'a>(j: Option<&'a Json>, key: &str, other: &str) -> (r: Option<&'a Json>)
    ensures
        json_ref(r) == get_either(json_ref(j), key@, other@),
{
    match get_of(j, key) {
        Some(v) => Some(v),
        None => get_of(j, other),
    }
}

/// The text of an optional value.
pub fn text_of_json(j: Option<&Json>) -> (r: Option<String>)
    ensures
        crate::strings::text_opt(r) == text_in(json_ref(j)),
{
    match j {
        Some(j) => match j.as_text() {
            Some(s) => Some(copy_text(s.as_str())),
            None => None,
        },
        None => None,
    }
}

/// The whole number of an optional value.
pub fn int_of(j: Option<&Json>) -> (r: Option<i64>)
    ensures
        r == int_in(json_ref(j)),
{
    match j {
        Some(j) => j.as_int(),
        None => None,
    }
}

/// The elements of an optional value.
pub fn list_of<'a>(j: Option<&'a Json>) -> (r: Option<&'a Vec<Json>>)
    ensures
        match r {
            Some(v) => list_in(json_ref(j)) == Some(json_list(v@)),
            None => list_in(json_ref(j)) is None,
        },
{
    match j {
        Some(j) => j.as_list(),
        None => None,
    }
}

/// The element of an optional array at an index.
pub fn item_of<'a>(j: Option<&'a Json>, i: usize) -> (r: Option<&'a Json>)
    ensures
        json_ref(r) == item_in(list_in(json_ref(j)), i as int),
{
    match list_of(j) {
        Some(v) => if i < v.len() {
            Some(&v[i])
        } else {
            None
        },
        None => None,
    }
}

} // verus!
