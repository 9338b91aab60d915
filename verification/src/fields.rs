//! Reading typed members out of a JSON object, with the messages that name what is wrong.

use crate::json::{find_member, member, members_view, Json, JsonModel, JsonNumber};
use crate::model::{opt_view, Members};
use vstd::prelude::*;
use vstd::string::*;

verus! {

pub const EXPECT_STRING: &'static str = "a string";

pub const EXPECT_STRING_OR_NULL: &'static str = "a string or null";

pub const EXPECT_U64: &'static str = "an unsigned 64-bit integer";

pub const EXPECT_U64_OR_NULL: &'static str = "an unsigned 64-bit integer or null";

pub const EXPECT_U16_OR_NULL: &'static str = "an unsigned 16-bit integer or null";

pub const EXPECT_I32_OR_NULL: &'static str = "a signed 32-bit integer or null";

pub const EXPECT_BOOL: &'static str = "a boolean";

pub const EXPECT_OBJECT: &'static str = "an object";

pub const EXPECT_OBJECT_OR_NULL: &'static str = "an object or null";

pub const EXPECT_ARRAY: &'static str = "an array";

pub const EXPECT_STRINGS: &'static str = "an array of strings";

/// The message for a required member that is absent.
pub open spec fn missing_msg(key: Seq<char>) -> Seq<char> {
    "missing field `"@ + key + "`"@
}

/// The message for a member whose value has the wrong shape.
pub open spec fn type_msg(key: Seq<char>, expected: Seq<char>) -> Seq<char> {
    "invalid type for field `"@ + key + "`: expected "@ + expected
}

/// `r` is the outcome `s`, its value taken through `f` and its error by its text.
pub open spec fn lifts<T, U>(r: Result<T, String>, s: Result<U, Seq<char>>, f: spec_fn(T) -> U) -> bool {
    match r {
        Ok(v) => s == Ok::<U, Seq<char>>(f(v)),
        Err(e) => s == Err::<U, Seq<char>>(e@),
    }
}

pub open spec fn in_u64(n: int) -> bool {
    0 <= n <= u64::MAX
}

pub open spec fn in_u16(n: int) -> bool {
    0 <= n <= u16::MAX
}

pub open spec fn in_i32(n: int) -> bool {
    i32::MIN <= n <= i32::MAX
}

/// A required string member.
pub open spec fn str_member(m: Members, key: Seq<char>) -> Result<Seq<char>, Seq<char>> {
    match member(m, key) {
        None => Err(missing_msg(key)),
        Some(JsonModel::Str(s)) => Ok(s),
        Some(_) => Err(type_msg(key, EXPECT_STRING@)),
    }
}

/// A string member that defaults to the empty string when absent.
pub open spec fn default_str_member(m: Members, key: Seq<char>) -> Result<Seq<char>, Seq<char>> {
    match member(m, key) {
        None => Ok(Seq::empty()),
        Some(JsonModel::Str(s)) => Ok(s),
        Some(_) => Err(type_msg(key, EXPECT_STRING@)),
    }
}

/// An optional string member: absent or `null` is `None`.
pub open spec fn opt_str_member(m: Members, key: Seq<char>) -> Result<Option<Seq<char>>, Seq<char>> {
    match member(m, key) {
        None => Ok(None),
        Some(JsonModel::Null) => Ok(None),
        Some(JsonModel::Str(s)) => Ok(Some(s)),
        Some(_) => Err(type_msg(key, EXPECT_STRING_OR_NULL@)),
    }
}

/// A required boolean member.
pub open spec fn bool_member(m: Members, key: Seq<char>) -> Result<bool, Seq<char>> {
    match member(m, key) {
        None => Err(missing_msg(key)),
        Some(JsonModel::Bool(b)) => Ok(b),
        Some(_) => Err(type_msg(key, EXPECT_BOOL@)),
    }
}

/// A required member holding an integer in the range of `u64`.
pub open spec fn u64_member(m: Members, key: Seq<char>) -> Result<u64, Seq<char>> {
    match member(m, key) {
        None => Err(missing_msg(key)),
        Some(JsonModel::Int(n)) => if in_u64(n) {
            Ok(n as u64)
        } else {
            Err(type_msg(key, EXPECT_U64@))
        },
        Some(_) => Err(type_msg(key, EXPECT_U64@)),
    }
}

/// An optional member holding an integer in the range of `u64`; absent or `null` is `None`.
pub open spec fn opt_u64_member(m: Members, key: Seq<char>) -> Result<Option<u64>, Seq<char>> {
    match member(m, key) {
        None => Ok(None),
        Some(JsonModel::Null) => Ok(None),
        Some(JsonModel::Int(n)) => if in_u64(n) {
            Ok(Some(n as u64))
        } else {
            Err(type_msg(key, EXPECT_U64_OR_NULL@))
        },
        Some(_) => Err(type_msg(key, EXPECT_U64_OR_NULL@)),
    }
}

/// An optional member holding an integer in the range of `u16`; absent or `null` is `None`.
pub open spec fn opt_u16_member(m: Members, key: Seq<char>) -> Result<Option<u16>, Seq<char>> {
    match member(m, key) {
        None => Ok(None),
        Some(JsonModel::Null) => Ok(None),
        Some(JsonModel::Int(n)) => if in_u16(n) {
            Ok(Some(n as u16))
        } else {
            Err(type_msg(key, EXPECT_U16_OR_NULL@))
        },
        Some(_) => Err(type_msg(key, EXPECT_U16_OR_NULL@)),
    }
}

/// An optional member holding an integer in the range of `i32`; absent or `null` is `None`.
pub open spec fn opt_i32_member(m: Members, key: Seq<char>) -> Result<Option<i32>, Seq<char>> {
    match member(m, key) {
        None => Ok(None),
        Some(JsonModel::Null) => Ok(None),
        Some(JsonModel::Int(n)) => if in_i32(n) {
            Ok(Some(n as i32))
        } else {
            Err(type_msg(key, EXPECT_I32_OR_NULL@))
        },
        Some(_) => Err(type_msg(key, EXPECT_I32_OR_NULL@)),
    }
}

/// Every item is a string.
pub open spec fn all_strings(items: Seq<JsonModel>) -> bool {
    forall|i: int| 0 <= i < items.len() ==> #[trigger] items[i] is Str
}

/// A required member holding an array of strings.
pub open spec fn strings_member(m: Members, key: Seq<char>) -> Result<Seq<Seq<char>>, Seq<char>> {
    match member(m, key) {
        None => Err(missing_msg(key)),
        Some(JsonModel::Array(items)) => if all_strings(items) {
            Ok(items.map_values(|x: JsonModel| x->Str_0))
        } else {
            Err(type_msg(key, EXPECT_STRINGS@))
        },
        Some(_) => Err(type_msg(key, EXPECT_STRINGS@)),
    }
}

/// Builds the message for a required member that is absent.
pub fn missing_message(key: &str) -> (r: String)
    ensures
        r@ == missing_msg(key@),
{
    let mut r = String::from_str("missing field `");
    r.append(key);
    r.append("`");
    r
}

/// Builds the message for a member whose value has the wrong shape.
pub fn type_message(key: &str, expected: &str) -> (r: String)
    ensures
        r@ == type_msg(key@, expected@),
{
    let mut r = String::from_str("invalid type for field `");
    r.append(key);
    r.append("`: expected ");
    r.append(expected);
    r
}

/// The integer a number holds, if it holds one in the range of `u64`.
fn number_as_u64(n: &JsonNumber) -> (r: Option<u64>)
    ensures
        match r {
            Some(v) => n@ == JsonModel::Int(v as int),
            None => !(n@ is Int && in_u64(n@->Int_0)),
        },
{
    match n {
        JsonNumber::Unsigned(u) => Some(*u),
        JsonNumber::Negative(i) => if *i >= 0 {
            Some(*i as u64)
        } else {
            None
        },
        JsonNumber::Float(_) => None,
    }
}

/// The integer a number holds, if it holds one in the range of `i64`.
fn number_as_i64(n: &JsonNumber) -> (r: Option<i64>)
    ensures
        match r {
            Some(v) => n@ == JsonModel::Int(v as int),
            None => !(n@ is Int && i64::MIN <= n@->Int_0 <= i64::MAX),
        },
{
    match n {
        JsonNumber::Unsigned(u) => if *u <= 0x7fff_ffff_ffff_ffffu64 {
            Some(*u as i64)
        } else {
            None
        },
        JsonNumber::Negative(i) => Some(*i),
        JsonNumber::Float(_) => None,
    }
}

/// A required string member.
pub fn get_str(m: &Vec<(String, Json)>, key: &str) -> (r: Result<String, String>)
    ensures
        lifts(r, str_member(members_view(m@), key@), |v: String| v@),
{
    match find_member(m, key) {
        None => Err(missing_message(key)),
        Some(i) => match &m[i].1 {
            Json::Str(s) => Ok(s.clone()),
            _ => Err(type_message(key, EXPECT_STRING)),
        },
    }
}

/// A string member that defaults to the empty string when absent.
pub fn get_default_str(m: &Vec<(String, Json)>, key: &str) -> (r: Result<String, String>)
    ensures
        lifts(r, default_str_member(members_view(m@), key@), |v: String| v@),
{
    match find_member(m, key) {
        None => Ok(String::new()),
        Some(i) => match &m[i].1 {
            Json::Str(s) => Ok(s.clone()),
            _ => Err(type_message(key, EXPECT_STRING)),
        },
    }
}

/// An optional string member: absent or `null` is `None`.
pub fn get_opt_str(m: &Vec<(String, Json)>, key: &str) -> (r: Result<Option<String>, String>)
    ensures
        lifts(r, opt_str_member(members_view(m@), key@), |v: Option<String>| opt_view(v)),
{
    match find_member(m, key) {
        None => Ok(None),
        Some(i) => match &m[i].1 {
            Json::Null => Ok(None),
            Json::Str(s) => Ok(Some(s.clone())),
            _ => Err(type_message(key, EXPECT_STRING_OR_NULL)),
        },
    }
}

/// A required boolean member.
pub fn get_bool(m: &Vec<(String, Json)>, key: &str) -> (r: Result<bool, String>)
    ensures
        lifts(r, bool_member(members_view(m@), key@), |v: bool| v),
{
    match find_member(m, key) {
        None => Err(missing_message(key)),
        Some(i) => match &m[i].1 {
            Json::Bool(b) => Ok(*b),
            _ => Err(type_message(key, EXPECT_BOOL)),
        },
    }
}

/// A required member holding an integer in the range of `u64`.
pub fn get_u64(m: &Vec<(String, Json)>, key: &str) -> (r: Result<u64, String>)
    ensures
        lifts(r, u64_member(members_view(m@), key@), |v: u64| v),
{
    match find_member(m, key) {
        None => Err(missing_message(key)),
        Some(i) => match &m[i].1 {
            Json::Number(n) => match number_as_u64(n) {
                Some(v) => Ok(v),
                None => Err(type_message(key, EXPECT_U64)),
            },
            _ => Err(type_message(key, EXPECT_U64)),
        },
    }
}

/// An optional member holding an integer in the range of `u64`.
pub fn get_opt_u64(m: &Vec<(String, Json)>, key: &str) -> (r: Result<Option<u64>, String>)
    ensures
        lifts(r, opt_u64_member(members_view(m@), key@), |v: Option<u64>| v),
{
    match find_member(m, key) {
        None => Ok(None),
        Some(i) => match &m[i].1 {
            Json::Null => Ok(None),
            Json::Number(n) => match number_as_u64(n) {
                Some(v) => Ok(Some(v)),
                None => Err(type_message(key, EXPECT_U64_OR_NULL)),
            },
            _ => Err(type_message(key, EXPECT_U64_OR_NULL)),
        },
    }
}

/// An optional member holding an integer in the range of `u16`.
pub fn get_opt_u16(m: &Vec<(String, Json)>, key: &str) -> (r: Result<Option<u16>, String>)
    ensures
        lifts(r, opt_u16_member(members_view(m@), key@), |v: Option<u16>| v),
{
    match find_member(m, key) {
        None => Ok(None),
        Some(i) => match &m[i].1 {
            Json::Null => Ok(None),
            Json::Number(n) => match number_as_u64(n) {
                Some(v) => if v <= 0xffffu64 {
                    Ok(Some(v as u16))
                } else {
                    Err(type_message(key, EXPECT_U16_OR_NULL))
                },
                None => Err(type_message(key, EXPECT_U16_OR_NULL)),
            },
            _ => Err(type_message(key, EXPECT_U16_OR_NULL)),
        },
    }
}

/// An optional member holding an integer in the range of `i32`.
pub fn get_opt_i32(m: &Vec<(String, Json)>, key: &str) -> (r: Result<Option<i32>, String>)
    ensures
        lifts(r, opt_i32_member(members_view(m@), key@), |v: Option<i32>| v),
{
    match find_member(m, key) {
        None => Ok(None),
        Some(i) => match &m[i].1 {
            Json::Null => Ok(None),
            Json::Number(n) => match number_as_i64(n) {
                Some(v) => if -0x8000_0000i64 <= v && v <= 0x7fff_ffffi64 {
                    Ok(Some(v as i32))
                } else {
                    Err(type_message(key, EXPECT_I32_OR_NULL))
                },
                None => Err(type_message(key, EXPECT_I32_OR_NULL)),
            },
            _ => Err(type_message(key, EXPECT_I32_OR_NULL)),
        },
    }
}

/// A required member holding an array of strings.
pub fn get_strings(m: &Vec<(String, Json)>, key: &str) -> (r: Result<Vec<String>, String>)
    ensures
        lifts(r, strings_member(members_view(m@), key@), |v: Vec<String>| v@.map_values(|s: String| s@)),
{
    match find_member(m, key) {
        None => Err(missing_message(key)),
        Some(i) => match &m[i].1 {
            Json::Array(items) => {
                proof {
                    crate::json::lemma_items_view(items@);
                }
                let ghost model = crate::json::items_view(items@);
                assert(m@[i as int].1@ == JsonModel::Array(model));
                let mut out: Vec<String> = Vec::new();
                let mut k: usize = 0;
                while k < items.len()
                    invariant
                        k <= items.len(),
                        model == crate::json::items_view(items@),
                        member(members_view(m@), key@) == Some(JsonModel::Array(model)),
                        model.len() == items.len(),
                        forall|t: int| 0 <= t < items.len() ==> #[trigger] model[t] == items@[t]@,
                        out@.len() == k,
                        forall|t: int| 0 <= t < k ==> model[t] == JsonModel::Str(#[trigger] out@[t]@),
                    decreases items.len() - k,
                {
                    match &items[k] {
                        Json::Str(s) => {
                            out.push(s.clone());
                        },
                        _ => {
                            assert(!(model[k as int] is Str));
                            assert(!all_strings(model));
                            return Err(type_message(key, EXPECT_STRINGS));
                        },
                    }
                    k = k + 1;
                }
                assert forall|t: int| 0 <= t < model.len() implies #[trigger] model[t] is Str by {
                    assert(model[t] == JsonModel::Str(out@[t]@));
                }
                assert(out@.map_values(|s: String| s@) =~= model.map_values(|x: JsonModel| x->Str_0));
                Ok(out)
            },
            _ => Err(type_message(key, EXPECT_STRINGS)),
        },
    }
}

/// The members whose names are not in `keys`, in order.
pub open spec fn without(m: Members, keys: Seq<Seq<char>>) -> Members
    decreases m.len(),
{
    if m.len() == 0 {
        Seq::empty()
    } else {
        let rest = without(m.drop_last(), keys);
        if keys.contains(m.last().0) {
            rest
        } else {
            rest.push(m.last())
        }
    }
}

/// Whether `s` is one of `keys`.
fn is_one_of(s: &String, keys: &[&str]) -> (r: bool)
    ensures
        r == keys@.map_values(|k: &str| k@).contains(s@),
{
    let ghost texts = keys@.map_values(|k: &str| k@);
    let mut i: usize = 0;
    while i < keys.len()
        invariant
            i <= keys.len(),
            texts == keys@.map_values(|k: &str| k@),
            forall|t: int| 0 <= t < i ==> texts[t] != s@,
        decreases keys.len() - i,
    {
        let k = String::from_str(keys[i]);
        if *s == k {
            assert(texts[i as int] == s@);
            return true;
        }
        i = i + 1;
    }
    false
}

/// A copy of the members whose names are not in `keys`, in order.
pub fn members_without(m: &Vec<(String, Json)>, keys: &[&str]) -> (r: Vec<(String, Json)>)
    ensures
        members_view(r@) == without(members_view(m@), keys@.map_values(|k: &str| k@)),
{
    let ghost texts = keys@.map_values(|k: &str| k@);
    let ghost mv = members_view(m@);
    proof {
        crate::json::lemma_members_view(m@);
    }
    let mut out: Vec<(String, Json)> = Vec::new();
    let mut i: usize = 0;
    assert(mv.take(0) =~= Seq::<(Seq<char>, JsonModel)>::empty());
    while i < m.len()
        invariant
            i <= m.len(),
            texts == keys@.map_values(|k: &str| k@),
            mv == members_view(m@),
            mv.len() == m.len(),
            forall|t: int| 0 <= t < m.len() ==> #[trigger] mv[t] == (m@[t].0@, m@[t].1@),
            members_view(out@) == without(mv.take(i as int), texts),
        decreases m.len() - i,
    {
        assert(mv.take(i + 1).drop_last() =~= mv.take(i as int));
        assert(mv.take(i + 1).last() == mv[i as int]);
        if !is_one_of(&m[i].0, keys) {
            let ghost before = out@;
            out.push((m[i].0.clone(), m[i].1.deep_copy()));
            proof {
                crate::json::lemma_members_view(before);
                crate::json::lemma_members_view(out@);
                assert(members_view(out@) =~= members_view(before).push(mv[i as int]));
            }
        }
        i = i + 1;
    }
    assert(mv.take(m.len() as int) =~= mv);
    out
}

/// Looking a name up after appending a member finds the earlier value, if any, else the
/// appended one.
pub proof fn lemma_member_push(m: Members, x: (Seq<char>, JsonModel), key: Seq<char>)
    ensures
        member(m.push(x), key) == if member(m, key) is Some {
            member(m, key)
        } else if x.0 == key {
            Some(x.1)
        } else {
            None
        },
    decreases m.len(),
{
    if m.len() > 0 {
        assert(m.push(x)[0] == m[0]);
        assert(m.push(x).drop_first() =~= m.drop_first().push(x));
        lemma_member_push(m.drop_first(), x, key);
    } else {
        assert(m.push(x)[0] == x);
        assert(m.push(x).drop_first() =~= Seq::<(Seq<char>, JsonModel)>::empty());
        assert(member(Seq::<(Seq<char>, JsonModel)>::empty(), key) is None);
    }
}

/// Leaving out some names keeps the value of every other name.
pub proof fn law_without_keeps_other_members(m: Members, keys: Seq<Seq<char>>, key: Seq<char>)
    requires
        !keys.contains(key),
    ensures
        member(without(m, keys), key) == member(m, key),
    decreases m.len(),
{
    if m.len() > 0 {
        let last = m.last();
        law_without_keeps_other_members(m.drop_last(), keys, key);
        lemma_member_push(m.drop_last(), last, key);
        assert(m.drop_last().push(last) =~= m);
        if !keys.contains(last.0) {
            lemma_member_push(without(m.drop_last(), keys), last, key);
        } else {
            assert(last.0 != key);
        }
    }
}

/// Leaving out some names leaves out every member with one of them.
pub proof fn law_without_drops_named_members(m: Members, keys: Seq<Seq<char>>, key: Seq<char>)
    requires
        keys.contains(key),
    ensures
        member(without(m, keys), key) is None,
    decreases m.len(),
{
    if m.len() > 0 {
        law_without_drops_named_members(m.drop_last(), keys, key);
        if !keys.contains(m.last().0) {
            lemma_member_push(without(m.drop_last(), keys), m.last(), key);
        }
    }
}

} // verus!
