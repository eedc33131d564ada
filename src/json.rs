//! A JSON document tree, as the gateway's answers are read.

use vstd::prelude::*;

verus! {

/// One node of a JSON document.
///
/// A number is kept as the unsigned 64-bit integer that it denotes, where it
/// denotes one; every other number (negative, fractional, too large) is kept
/// as `Number(None)`. The fields that this library reads are all unsigned.
#[derive(Debug)]
pub enum Json {
    Null,
    Bool(bool),
    Number(Option<u64>),
    Text(String),
    Array(Vec<Json>),
    Object(Vec<(String, Json)>),
}

/// The document tree of `serde_json`, carried through unread.
#[verifier::external_type_specification]
#[verifier::external_body]
pub struct ExValue(serde_json::Value);

/// What `serde_json` makes of the bytes `b`, carried over node for node; `None`
/// where the bytes are no JSON document.
pub uninterp spec fn parsed_json(b: Seq<u8>) -> Option<Json>;

/// Relies on `serde_json::from_slice` into a `serde_json::Value`: the whole
/// input is one JSON document, or the result is an error.
#[verifier::external_body]
pub(crate) fn parse_json(bytes: &[u8]) -> (r: Option<Json>)
    ensures
        r == parsed_json(bytes@),
{
    serde_json::from_slice::<serde_json::Value>(bytes).ok().map(json_from_value)
}

/// Carries a `serde_json::Value` over into a [`Json`], one variant for the
/// other; an object keeps the order in which `serde_json::Map` yields its
/// entries.
#[verifier::external_body]
fn json_from_value(v: serde_json::Value) -> Json {
    match v {
        serde_json::Value::Null => Json::Null,
        serde_json::Value::Bool(b) => Json::Bool(b),
        serde_json::Value::Number(n) => Json::Number(n.as_u64()),
        serde_json::Value::String(s) => Json::Text(s),
        serde_json::Value::Array(a) => Json::Array(a.into_iter().map(json_from_value).collect()),
        serde_json::Value::Object(m) => Json::Object(
            m.into_iter().map(|(k, x)| (k, json_from_value(x))).collect(),
        ),
    }
}

/// The value of the first entry of `e` whose key is `k`.
pub open spec fn lookup(e: Seq<(String, Json)>, k: Seq<char>) -> Option<Json>
    decreases e.len(),
{
    if e.len() == 0 {
        None
    } else if e[0].0@ == k {
        Some(e[0].1)
    } else {
        lookup(e.drop_first(), k)
    }
}

/// `a` and `b` hold the same characters.
pub fn str_eq(a: &str, b: &str) -> (r: bool)
    ensures
        r == (a@ == b@),
{
    let n = a.unicode_len();
    if n != b.unicode_len() {
        return false;
    }
    let mut i: usize = 0;
    while i < n
        invariant
            n == a@.len(),
            n == b@.len(),
            i <= n,
            a@.subrange(0, i as int) == b@.subrange(0, i as int),
        decreases n - i,
    {
        if a.get_char(i) != b.get_char(i) {
            assert(a@[i as int] != b@[i as int]);
            return false;
        }
        assert(a@.subrange(0, i + 1) == a@.subrange(0, i as int).push(a@[i as int]));
        assert(b@.subrange(0, i + 1) == b@.subrange(0, i as int).push(b@[i as int]));
        i = i + 1;
    }
    assert(a@ == a@.subrange(0, n as int));
    assert(b@ == b@.subrange(0, n as int));
    true
}

/// Index of the first entry of `e` whose key is `k`.
pub fn find_key(e: &Vec<(String, Json)>, k: &str) -> (r: Option<usize>)
    ensures
        match r {
            Some(i) => i < e@.len() && lookup(e@, k@) == Some(e@[i as int].1),
            None => lookup(e@, k@) is None,
        },
{
    let mut i: usize = 0;
    assert(e@.subrange(0, e@.len() as int) == e@);
    while i < e.len()
        invariant
            i <= e@.len(),
            lookup(e@, k@) == lookup(e@.subrange(i as int, e@.len() as int), k@),
        decreases e@.len() - i,
    {
        let rest = Ghost(e@.subrange(i as int, e@.len() as int));
        assert(rest@.drop_first() == e@.subrange(i + 1, e@.len() as int));
        if str_eq(e[i].0.as_str(), k) {
            return Some(i);
        }
        i = i + 1;
    }
    None
}

/// The text under key `k`, where there is one.
pub open spec fn text_field(e: Seq<(String, Json)>, k: Seq<char>) -> Option<String> {
    match lookup(e, k) {
        Some(Json::Text(s)) => Some(s),
        _ => None,
    }
}

/// The unsigned 32-bit number under key `k`, where there is one.
pub open spec fn u32_field(e: Seq<(String, Json)>, k: Seq<char>) -> Option<u32> {
    match lookup(e, k) {
        Some(Json::Number(Some(n))) => if n <= u32::MAX as u64 {
            Some(n as u32)
        } else {
            None
        },
        _ => None,
    }
}

/// The unsigned 64-bit number under key `k`, where there is one.
pub open spec fn u64_field(e: Seq<(String, Json)>, k: Seq<char>) -> Option<u64> {
    match lookup(e, k) {
        Some(Json::Number(Some(n))) => Some(n),
        _ => None,
    }
}

/// The boolean under key `k`, where there is one.
pub open spec fn bool_field(e: Seq<(String, Json)>, k: Seq<char>) -> Option<bool> {
    match lookup(e, k) {
        Some(Json::Bool(b)) => Some(b),
        _ => None,
    }
}

/// An optional text under key `k`: absent or `null` gives `Some(None)`, a
/// text gives `Some(Some(..))`, anything else `None`.
pub open spec fn opt_text_field(e: Seq<(String, Json)>, k: Seq<char>) -> Option<Option<String>> {
    match lookup(e, k) {
        None => Some(None),
        Some(Json::Null) => Some(None),
        Some(Json::Text(s)) => Some(Some(s)),
        _ => None,
    }
}

/// An optional unsigned 32-bit number under key `k`, read as
/// [`opt_text_field`] reads a text.
pub open spec fn opt_u32_field(e: Seq<(String, Json)>, k: Seq<char>) -> Option<Option<u32>> {
    match lookup(e, k) {
        None => Some(None),
        Some(Json::Null) => Some(None),
        Some(Json::Number(Some(n))) => if n <= u32::MAX as u64 {
            Some(Some(n as u32))
        } else {
            None
        },
        _ => None,
    }
}

/// The value under key `k` of an object; `None` for any other node.
pub open spec fn member(j: Json, k: Seq<char>) -> Option<Json> {
    match j {
        Json::Object(e) => lookup(e@, k),
        _ => None,
    }
}

pub fn get_text(e: &Vec<(String, Json)>, k: &str) -> (r: Option<String>)
    ensures
        r == text_field(e@, k@),
{
    match find_key(e, k) {
        Some(i) => match &e[i].1 {
            Json::Text(s) => Some(s.clone()),
            _ => None,
        },
        None => None,
    }
}

pub fn get_u32(e: &Vec<(String, Json)>, k: &str) -> (r: Option<u32>)
    ensures
        r == u32_field(e@, k@),
{
    match find_key(e, k) {
        Some(i) => match &e[i].1 {
            Json::Number(Some(n)) => if *n <= u32::MAX as u64 {
                Some(*n as u32)
            } else {
                None
            },
            _ => None,
        },
        None => None,
    }
}

pub fn get_u64(e: &Vec<(String, Json)>, k: &str) -> (r: Option<u64>)
    ensures
        r == u64_field(e@, k@),
{
    match find_key(e, k) {
        Some(i) => match &e[i].1 {
            Json::Number(Some(n)) => Some(*n),
            _ => None,
        },
        None => None,
    }
}

pub fn get_bool(e: &Vec<(String, Json)>, k: &str) -> (r: Option<bool>)
    ensures
        r == bool_field(e@, k@),
{
    match find_key(e, k) {
        Some(i) => match &e[i].1 {
            Json::Bool(b) => Some(*b),
            _ => None,
        },
        None => None,
    }
}

pub fn get_opt_text(e: &Vec<(String, Json)>, k: &str) -> (r: Option<Option<String>>)
    ensures
        r == opt_text_field(e@, k@),
{
    match find_key(e, k) {
        Some(i) => match &e[i].1 {
            Json::Null => Some(None),
            Json::Text(s) => Some(Some(s.clone())),
            _ => None,
        },
        None => Some(None),
    }
}

pub fn get_opt_u32(e: &Vec<(String, Json)>, k: &str) -> (r: Option<Option<u32>>)
    ensures
        r == opt_u32_field(e@, k@),
{
    match find_key(e, k) {
        Some(i) => match &e[i].1 {
            Json::Null => Some(None),
            Json::Number(Some(n)) => if *n <= u32::MAX as u64 {
                Some(Some(*n as u32))
            } else {
                None
            },
            _ => None,
        },
        None => Some(None),
    }
}

/// The value under key `k` of `j`, taken out of it, where `j` is an object
/// that has one.
pub fn take_member(j: Json, k: &str) -> (r: Option<Json>)
    ensures
        r == member(j, k@),
{
    match j {
        Json::Object(e) => {
            let mut e = e;
            match find_key(&e, k) {
                Some(i) => {
                    let p = e.remove(i);
                    Some(p.1)
                },
                None => None,
            }
        },
        _ => None,
    }
}

/// The value under key `k` of `j`, where `j` is an object that has one.
pub fn get_member<'a>(j: &'a Json, k: &str) -> (r: Option<&'a Json>)
    ensures
        match r {
            Some(v) => member(*j, k@) == Some(*v),
            None => member(*j, k@) is None,
        },
{
    match j {
        Json::Object(e) => match find_key(e, k) {
            Some(i) => Some(&e[i].1),
            None => None,
        },
        _ => None,
    }
}

} // verus!
