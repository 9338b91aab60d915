//! A JSON document tree held as plain values, and its mathematical model.

use serde_json::Value;
use vstd::prelude::*;
use vstd::string::*;

verus! {

/// A JSON number as the JSON reader classified it.
#[derive(Debug, Clone, PartialEq)]
pub enum JsonNumber {
    /// An integer in `0..=u64::MAX`.
    Unsigned(u64),
    /// An integer in `i64::MIN..=i64::MAX` (the reader uses it for negative ones).
    Negative(i64),
    /// Any other number, as the JSON reader read it.
    Float(FloatNumber),
}

/// A JSON number that is not an integer: the value `serde_json` read, and the text it prints
/// for that value. Only the JSON reader makes one.
#[derive(Debug, Clone, PartialEq)]
pub struct FloatNumber {
    text: String,
    number: serde_json::Number,
}

impl View for FloatNumber {
    type V = Seq<char>;

    /// The text the number prints as.
    closed spec fn view(&self) -> Seq<char> {
        self.text@
    }
}

impl FloatNumber {
    /// The text the number prints as.
    pub fn text(&self) -> (r: &str)
        ensures
            r@ == self@,
    {
        self.text.as_str()
    }

    /// A copy of this number.
    pub fn copy(&self) -> (r: FloatNumber)
        ensures
            r@ == self@,
    {
        FloatNumber { text: self.text.clone(), number: self.number.clone() }
    }
}

/// `serde_json::Number`, carried opaque inside a `FloatNumber`.
#[verifier::external_type_specification]
#[verifier::external_body]
pub struct ExSerdeJsonNumber(serde_json::Number);

/// `<serde_json::Number as Clone>::clone`, which serde_json derives: the copy is the same
/// number.
pub assume_specification[ <serde_json::Number as Clone>::clone ](n: &serde_json::Number) -> (r: serde_json::Number)
    ensures
        r == *n,
;

/// A JSON value.
#[derive(Debug, PartialEq)]
pub enum Json {
    Null,
    Bool(bool),
    Number(JsonNumber),
    Str(String),
    Array(Vec<Json>),
    /// Members in the order the JSON reader gives them (by name, as `serde_json`'s default
    /// map keeps them, the last value of a repeated name winning); a value built by hand
    /// keeps its own order. Lookups take the first member of a name.
    Object(Vec<(String, Json)>),
}

/// The mathematical model of a JSON value.
pub enum JsonModel {
    Null,
    Bool(bool),
    /// An integer number.
    Int(int),
    /// A non-integer number, by its printed text.
    Float(Seq<char>),
    Str(Seq<char>),
    Array(Seq<JsonModel>),
    Object(Seq<(Seq<char>, JsonModel)>),
}

impl View for JsonNumber {
    type V = JsonModel;

    open spec fn view(&self) -> JsonModel {
        match self {
            JsonNumber::Unsigned(u) => JsonModel::Int(*u as int),
            JsonNumber::Negative(i) => JsonModel::Int(*i as int),
            JsonNumber::Float(f) => JsonModel::Float(f@),
        }
    }
}

impl View for Json {
    type V = JsonModel;

    open spec fn view(&self) -> JsonModel
        decreases self, 0nat,
    {
        match self {
            Json::Null => JsonModel::Null,
            Json::Bool(b) => JsonModel::Bool(*b),
            Json::Number(n) => n@,
            Json::Str(s) => JsonModel::Str(s@),
            Json::Array(v) => JsonModel::Array(items_view(v@)),
            Json::Object(m) => JsonModel::Object(members_view(m@)),
        }
    }
}

/// The models of a list of values.
pub open spec fn items_view(v: Seq<Json>) -> Seq<JsonModel>
    decreases v, v.len(),
{
    if v.len() == 0 {
        Seq::empty()
    } else {
        items_view(v.subrange(0, v.len() - 1)).push(v[v.len() - 1].view())
    }
}

/// The model of a list of object members.
pub open spec fn members_view(m: Seq<(String, Json)>) -> Seq<(Seq<char>, JsonModel)>
    decreases m, m.len(),
{
    if m.len() == 0 {
        Seq::empty()
    } else {
        members_view(m.subrange(0, m.len() - 1)).push((m[m.len() - 1].0@, m[m.len() - 1].1.view()))
    }
}

/// The model of a member list is taken member by member.
pub proof fn lemma_members_view(m: Seq<(String, Json)>)
    ensures
        members_view(m).len() == m.len(),
        forall|i: int| 0 <= i < m.len() ==> #[trigger] members_view(m)[i] == (m[i].0@, m[i].1@),
    decreases m.len(),
{
    if m.len() > 0 {
        let sub = m.subrange(0, m.len() - 1);
        lemma_members_view(sub);
        assert(members_view(m) == members_view(sub).push((m[m.len() - 1].0@, m[m.len() - 1].1.view())));
    }
}

/// The model of an item list is taken item by item.
pub proof fn lemma_items_view(v: Seq<Json>)
    ensures
        items_view(v).len() == v.len(),
        forall|i: int| 0 <= i < v.len() ==> #[trigger] items_view(v)[i] == v[i]@,
    decreases v.len(),
{
    if v.len() > 0 {
        let sub = v.subrange(0, v.len() - 1);
        lemma_items_view(sub);
        assert(items_view(v) == items_view(sub).push(v[v.len() - 1].view()));
    }
}

/// The value of the first member named `key`, if any.
pub open spec fn member(m: Seq<(Seq<char>, JsonModel)>, key: Seq<char>) -> Option<JsonModel>
    decreases m.len(),
{
    if m.len() == 0 {
        None
    } else if m[0].0 == key {
        Some(m[0].1)
    } else {
        member(m.drop_first(), key)
    }
}

/// Index of the first member named `key`.
pub fn find_member(m: &Vec<(String, Json)>, key: &str) -> (r: Option<usize>)
    ensures
        match r {
            Some(i) => i < m.len() && member(members_view(m@), key@) == Some(m@[i as int].1@)
                && m@[i as int].0@ == key@,
            None => member(members_view(m@), key@) is None,
        },
{
    let k = String::from_str(key);
    let ghost mv = members_view(m@);
    proof {
        lemma_members_view(m@);
    }
    let mut i: usize = 0;
    assert(mv.skip(0) =~= mv);
    while i < m.len()
        invariant
            i <= m.len(),
            mv == members_view(m@),
            mv.len() == m.len(),
            forall|j: int| 0 <= j < m.len() ==> #[trigger] mv[j] == (m@[j].0@, m@[j].1@),
            k@ == key@,
            member(mv, key@) == member(mv.skip(i as int), key@),
        decreases m.len() - i,
    {
        assert(mv.skip(i as int)[0] == mv[i as int]);
        if m[i].0 == k {
            return Some(i);
        }
        assert(mv.skip(i as int).drop_first() =~= mv.skip(i + 1));
        i = i + 1;
    }
    None
}

/// The value of the first member named `key`, if any.
pub fn lookup<'a>(m: &'a Vec<(String, Json)>, key: &str) -> (r: Option<&'a Json>)
    ensures
        match r {
            Some(v) => member(members_view(m@), key@) == Some(v@),
            None => member(members_view(m@), key@) is None,
        },
{
    match find_member(m, key) {
        Some(i) => Some(&m[i].1),
        None => None,
    }
}

impl JsonNumber {
    /// A copy of this number.
    pub fn copy(&self) -> (r: JsonNumber)
        ensures
            r@ == self@,
    {
        match self {
            JsonNumber::Unsigned(u) => JsonNumber::Unsigned(*u),
            JsonNumber::Negative(i) => JsonNumber::Negative(*i),
            JsonNumber::Float(f) => JsonNumber::Float(f.copy()),
        }
    }
}

impl Clone for Json {
    /// A copy of this value, node by node.
    fn clone(&self) -> (r: Json)
        ensures
            r@ == self@,
    {
        self.deep_copy()
    }
}

impl Json {
    /// The value of the first member named `key` of an object.
    pub fn get(&self, key: &str) -> (r: Option<&Json>)
        ensures
            match r {
                Some(v) => self@ is Object && member(self@->Object_0, key@) == Some(v@),
                None => !(self@ is Object) || member(self@->Object_0, key@) is None,
            },
    {
        match self {
            Json::Object(m) => {
                lookup(m, key)
            },
            _ => None,
        }
    }

    /// A copy of this value, node by node.
    pub fn deep_copy(&self) -> (r: Json)
        ensures
            r@ == self@,
        decreases self,
    {
        match self {
            Json::Null => Json::Null,
            Json::Bool(b) => Json::Bool(*b),
            Json::Number(n) => Json::Number(n.copy()),
            Json::Str(s) => Json::Str(s.clone()),
            Json::Array(v) => {
                let mut out: Vec<Json> = Vec::new();
                let mut i: usize = 0;
                while i < v.len()
                    invariant
                        i <= v.len(),
                        out@.len() == i,
                        forall|t: int| 0 <= t < i ==> #[trigger] out@[t]@ == v@[t]@,
                        *self == Json::Array(*v),
                    decreases v.len() - i,
                {
                    proof {
                        vstd::std_specs::vec::axiom_vec_index_decreases(*v, i as int);
                        assert(decreases_to!(*self => (*self)->Array_0));
                        assert(decreases_to!(*v => v[i as int]));
                        assert(decreases_to!(*self => v[i as int]));
                    }
                    out.push(v[i].deep_copy());
                    i = i + 1;
                }
                proof {
                    lemma_items_view(v@);
                    lemma_items_view(out@);
                    assert(items_view(out@) =~= items_view(v@));
                }
                Json::Array(out)
            },
            Json::Object(m) => {
                let mut out: Vec<(String, Json)> = Vec::new();
                let mut i: usize = 0;
                while i < m.len()
                    invariant
                        i <= m.len(),
                        out@.len() == i,
                        forall|t: int| 0 <= t < i ==> #[trigger] out@[t].0@ == m@[t].0@ && out@[t].1@ == m@[t].1@,
                        *self == Json::Object(*m),
                    decreases m.len() - i,
                {
                    proof {
                        vstd::std_specs::vec::axiom_vec_index_decreases(*m, i as int);
                        assert(decreases_to!(*self => (*self)->Object_0));
                        assert(decreases_to!(*m => m[i as int]));
                        assert(decreases_to!(m[i as int] => m[i as int].1));
                        assert(decreases_to!(*self => m[i as int].1));
                    }
                    out.push((m[i].0.clone(), m[i].1.deep_copy()));
                    i = i + 1;
                }
                proof {
                    lemma_members_view(m@);
                    lemma_members_view(out@);
                    assert(members_view(out@) =~= members_view(m@));
                }
                Json::Object(out)
            },
        }
    }

    /// The text of a string value.
    pub fn as_str(&self) -> (r: Option<&str>)
        ensures
            match r {
                Some(s) => self@ == JsonModel::Str(s@),
                None => !(self@ is Str),
            },
    {
        match self {
            Json::Str(s) => Some(s.as_str()),
            _ => None,
        }
    }
}

/// `serde_json::Value`, which only the JSON wrappers below handle, as an opaque value.
#[verifier::external_type_specification]
#[verifier::external_body]
pub struct ExSerdeJsonValue(serde_json::Value);

/// What `serde_json::from_str::<serde_json::Value>` makes of a text: the document's model,
/// or the text of the error that it reports.
pub uninterp spec fn serde_json_read(text: Seq<char>) -> Result<JsonModel, Seq<char>>;

/// Reads `text` as one JSON document with `serde_json::from_str::<serde_json::Value>`, then
/// copies the value node by node into a `Json`.
/// Claims only that the outcome is a function of the text (named `serde_json_read`): the
/// document on success, the error's message otherwise. Nothing is claimed of which texts the
/// JSON grammar accepts.
#[verifier::external_body]
pub(crate) fn read_json(text: &str) -> (r: Result<Json, String>)
    ensures
        match r {
            Ok(j) => serde_json_read(text@) == Ok::<JsonModel, Seq<char>>(j@),
            Err(e) => serde_json_read(text@) == Err::<JsonModel, Seq<char>>(e@),
        },
{
    match serde_json::from_str::<Value>(text) {
        Ok(v) => Ok(json_from_serde(v)),
        Err(e) => Err(e.to_string()),
    }
}

/// Converts a `serde_json::Value` into a `Json`, variant for variant; a number is classified
/// with `serde_json::Number::as_u64` and `as_i64`, and otherwise kept with its printed text.
#[verifier::external_body]
fn json_from_serde(value: Value) -> Json {
    match value {
        Value::Null => Json::Null,
        Value::Bool(b) => Json::Bool(b),
        Value::Number(n) => Json::Number(match (n.as_u64(), n.as_i64()) {
            (Some(u), _) => JsonNumber::Unsigned(u),
            (None, Some(i)) => JsonNumber::Negative(i),
            (None, None) => JsonNumber::Float(FloatNumber { text: n.to_string(), number: n }),
        }),
        Value::String(s) => Json::Str(s),
        Value::Array(a) => Json::Array(a.into_iter().map(json_from_serde).collect()),
        Value::Object(m) => Json::Object(m.into_iter().map(|(k, v)| (k, json_from_serde(v))).collect()),
    }
}

/// The compact text that `serde_json::Value`'s `Display` (its `to_string`) prints for a value.
pub uninterp spec fn serde_json_compact(value: JsonModel) -> Seq<char>;

/// Prints `value` as compact JSON text: the value is copied node by node into a
/// `serde_json::Value`, which `to_string` prints.
/// Claims only that the text is a function of the value's model (named `serde_json_compact`);
/// a non-integer number's model is the text `serde_json` prints for it, which differs for
/// different numbers.
#[verifier::external_body]
pub(crate) fn compact_json(value: &Json) -> (r: String)
    ensures
        r@ == serde_json_compact(value@),
{
    json_to_serde(value).to_string()
}

/// Converts a `Json` into a `serde_json::Value`, variant for variant; a non-integer number
/// is the very number the reader read.
#[verifier::external_body]
fn json_to_serde(value: &Json) -> Value {
    match value {
        Json::Null => Value::Null,
        Json::Bool(b) => Value::Bool(*b),
        Json::Number(JsonNumber::Unsigned(u)) => Value::from(*u),
        Json::Number(JsonNumber::Negative(i)) => Value::from(*i),
        Json::Number(JsonNumber::Float(f)) => Value::Number(f.number.clone()),
        Json::Str(s) => Value::String(s.clone()),
        Json::Array(a) => Value::Array(a.iter().map(json_to_serde).collect()),
        Json::Object(m) => Value::Object(m.iter().map(|(k, v)| (k.clone(), json_to_serde(v))).collect()),
    }
}

} // verus!
