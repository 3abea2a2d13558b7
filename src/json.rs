//! JSON documents, read through `serde_json::Value`, and the field readers
//! that the object decoders are built from.
use crate::urls::strs_view;
use vstd::prelude::*;

verus! {

#[verifier::external_type_specification]
#[verifier::external_body]
pub struct ExValue(serde_json::Value);

/// The model of a JSON document. Integers keep their value; other numbers
/// are told apart from them only.
pub enum JsonTree {
    Null,
    Bool(bool),
    Int(int),
    OtherNumber,
    Str(Seq<char>),
    Array(Seq<JsonTree>),
    Object(Map<Seq<char>, JsonTree>),
}

/// A name for what a `serde_json::Value` holds.
pub uninterp spec fn json_tree(v: serde_json::Value) -> JsonTree;

/// A name for what `serde_json::from_slice` makes of the bytes `b`.
pub uninterp spec fn json_parse_of(b: Seq<u8>) -> Option<JsonTree>;

/// Relies on `serde_json::from_slice` into a `Value`: the document the
/// bytes hold, or `None` where they are not JSON.
#[verifier::external_body]
pub(crate) fn parse_json(b: &[u8]) -> (r: Option<serde_json::Value>)
    ensures
        match r {
            Some(v) => json_parse_of(b@) == Some(json_tree(v)),
            None => json_parse_of(b@) is None,
        },
{
    serde_json::from_slice::<serde_json::Value>(b).ok()
}

/// Relies on `serde_json::Value::get` with a string key: the member of an
/// object, and nothing for any other value.
#[verifier::external_body]
pub(crate) fn json_get<'a>(v: &'a serde_json::Value, key: &str) -> (r: Option<&'a serde_json::Value>)
    ensures
        match json_tree(*v) {
            JsonTree::Object(m) => (r is Some <==> m.contains_key(key@)) && (r matches Some(x)
                ==> json_tree(*x) == m[key@]),
            _ => r is None,
        },
{
    v.get(key)
}

/// Relies on `serde_json::Value::as_str`: the text of a string.
#[verifier::external_body]
pub(crate) fn json_as_str(v: &serde_json::Value) -> (r: Option<String>)
    ensures
        match json_tree(*v) {
            JsonTree::Str(s) => r matches Some(x) && x@ == s,
            _ => r is None,
        },
{
    v.as_str().map(|s| s.to_string())
}

/// Relies on `serde_json::Value::as_i64`: an integer that fits in `i64`.
#[verifier::external_body]
pub(crate) fn json_as_i64(v: &serde_json::Value) -> (r: Option<i64>)
    ensures
        match json_tree(*v) {
            JsonTree::Int(n) => if i64::MIN <= n <= i64::MAX {
                r == Some(n as i64)
            } else {
                r is None
            },
            _ => r is None,
        },
{
    v.as_i64()
}

/// Relies on `serde_json::Value::is_null`.
#[verifier::external_body]
pub(crate) fn json_is_null(v: &serde_json::Value) -> (r: bool)
    ensures
        r == (json_tree(*v) is Null),
{
    v.is_null()
}

/// Relies on `serde_json::Value::as_array`: the items of an array, in order.
#[verifier::external_body]
pub(crate) fn json_as_array(v: &serde_json::Value) -> (r: Option<&Vec<serde_json::Value>>)
    ensures
        match json_tree(*v) {
            JsonTree::Array(items) => r matches Some(a) && a@.len() == items.len() && forall|i: int|
                0 <= i < items.len() ==> json_tree(#[trigger] a@[i]) == items[i],
            _ => r is None,
        },
{
    v.as_array()
}

/// The member `key` of an object.
pub open spec fn field(t: JsonTree, key: Seq<char>) -> Option<JsonTree> {
    match t {
        JsonTree::Object(m) => if m.contains_key(key) {
            Some(m[key])
        } else {
            None
        },
        _ => None,
    }
}

/// A required string.
pub open spec fn dec_str(o: Option<JsonTree>) -> Option<Seq<char>> {
    match o {
        Some(JsonTree::Str(s)) => Some(s),
        _ => None,
    }
}

/// An optional string: missing and `null` are both absent.
pub open spec fn dec_opt_str(o: Option<JsonTree>) -> Option<Option<Seq<char>>> {
    match o {
        None => Some(None),
        Some(JsonTree::Null) => Some(None),
        Some(JsonTree::Str(s)) => Some(Some(s)),
        _ => None,
    }
}

/// A required integer that fits in `i64`.
pub open spec fn dec_i64(o: Option<JsonTree>) -> Option<i64> {
    match o {
        Some(JsonTree::Int(n)) => if i64::MIN <= n <= i64::MAX {
            Some(n as i64)
        } else {
            None
        },
        _ => None,
    }
}

/// Every item is a string.
pub open spec fn all_strs(items: Seq<JsonTree>) -> bool {
    forall|i: int| 0 <= i < items.len() ==> #[trigger] items[i] is Str
}

/// A list of strings.
pub open spec fn dec_str_list(t: JsonTree) -> Option<Seq<Seq<char>>> {
    match t {
        JsonTree::Array(items) => if all_strs(items) {
            Some(items.map_values(|x: JsonTree| x->Str_0))
        } else {
            None
        },
        _ => None,
    }
}

/// An optional list of strings.
pub open spec fn dec_opt_str_list(o: Option<JsonTree>) -> Option<Option<Seq<Seq<char>>>> {
    match o {
        None => Some(None),
        Some(JsonTree::Null) => Some(None),
        Some(t) => match dec_str_list(t) {
            Some(l) => Some(Some(l)),
            None => None,
        },
    }
}

pub open spec fn opt_opt_view(o: Option<Option<String>>) -> Option<Option<Seq<char>>> {
    match o {
        Some(Some(s)) => Some(Some(s@)),
        Some(None) => Some(None),
        None => None,
    }
}

pub open spec fn opt_list_view(o: Option<Option<Vec<String>>>) -> Option<
    Option<Seq<Seq<char>>>,
> {
    match o {
        Some(Some(v)) => Some(Some(strs_view(v@))),
        Some(None) => Some(None),
        None => None,
    }
}

/// Reads the required string member `key`.
pub fn get_str(v: &serde_json::Value, key: &str) -> (r: Option<String>)
    ensures
        match r {
            Some(s) => dec_str(field(json_tree(*v), key@)) == Some(s@),
            None => dec_str(field(json_tree(*v), key@)) is None,
        },
{
    match json_get(v, key) {
        Some(x) => json_as_str(x),
        None => None,
    }
}

/// Reads the optional string member `key`; `None` where it is of another type.
pub fn get_opt_str(v: &serde_json::Value, key: &str) -> (r: Option<Option<String>>)
    ensures
        opt_opt_view(r) == dec_opt_str(field(json_tree(*v), key@)),
{
    match json_get(v, key) {
        Some(x) => {
            if json_is_null(x) {
                Some(None)
            } else {
                match json_as_str(x) {
                    Some(s) => Some(Some(s)),
                    None => None,
                }
            }
        },
        None => Some(None),
    }
}

/// Reads the required integer member `key`.
pub fn get_i64(v: &serde_json::Value, key: &str) -> (r: Option<i64>)
    ensures
        r == dec_i64(field(json_tree(*v), key@)),
{
    match json_get(v, key) {
        Some(x) => json_as_i64(x),
        None => None,
    }
}

/// Reads a list of strings.
pub fn as_str_list(v: &serde_json::Value) -> (r: Option<Vec<String>>)
    ensures
        match r {
            Some(l) => dec_str_list(json_tree(*v)) == Some(strs_view(l@)),
            None => dec_str_list(json_tree(*v)) is None,
        },
{
    let items = match json_as_array(v) {
        Some(a) => a,
        None => {
            return None;
        },
    };
    let ghost t = json_tree(*v)->Array_0;
    let mut out: Vec<String> = Vec::new();
    let mut i: usize = 0;
    while i < items.len()
        invariant
            0 <= i <= items@.len(),
            json_tree(*v) is Array,
            t == json_tree(*v)->Array_0,
            items@.len() == t.len(),
            forall|k: int| 0 <= k < t.len() ==> json_tree(#[trigger] items@[k]) == t[k],
            out@.len() == i,
            forall|k: int| 0 <= k < i ==> (#[trigger] t[k] is Str) && out@[k]@ == t[k]->Str_0,
        decreases items.len() - i,
    {
        assert(json_tree(items@[i as int]) == t[i as int]);
        match json_as_str(&items[i]) {
            Some(s) => {
                out.push(s);
            },
            None => {
                return None;
            },
        }
        i = i + 1;
    }
    assert(strs_view(out@) =~= t.map_values(|x: JsonTree| x->Str_0));
    Some(out)
}

/// Reads the optional list of strings `key`.
pub fn get_opt_str_list(v: &serde_json::Value, key: &str) -> (r: Option<Option<Vec<String>>>)
    ensures
        opt_list_view(r) == dec_opt_str_list(field(json_tree(*v), key@)),
{
    match json_get(v, key) {
        Some(x) => {
            if json_is_null(x) {
                Some(None)
            } else {
                match as_str_list(x) {
                    Some(l) => Some(Some(l)),
                    None => None,
                }
            }
        },
        None => Some(None),
    }
}

} // verus!
