//! JSON as the configuration logic reads it: one level at a time.
use serde_json::Value;
use vstd::prelude::*;

verus! {

/// The top level of a JSON text, in plain values. The elements of an array and the
/// members of an object are kept as their own compact JSON text, to be read in turn.
pub enum JsonNode {
    Null,
    Bool(bool),
    Number(String),
    Str(String),
    Array(Vec<String>),
    Object(Vec<(String, String)>),
}

/// The mathematical form of a [`JsonNode`].
pub enum JsonNodeView {
    Null,
    Bool(bool),
    Number(Seq<char>),
    Str(Seq<char>),
    Array(Seq<Seq<char>>),
    Object(Seq<(Seq<char>, Seq<char>)>),
}

impl View for JsonNode {
    type V = JsonNodeView;

    open spec fn view(&self) -> JsonNodeView {
        match self {
            JsonNode::Null => JsonNodeView::Null,
            JsonNode::Bool(b) => JsonNodeView::Bool(*b),
            JsonNode::Number(n) => JsonNodeView::Number(n@),
            JsonNode::Str(s) => JsonNodeView::Str(s@),
            JsonNode::Array(items) => JsonNodeView::Array(texts_view(items@)),
            JsonNode::Object(members) => JsonNodeView::Object(
                members_view(members@),
            ),
        }
    }
}

/// The members of an object, as sequences of characters.
pub open spec fn members_view(members: Seq<(String, String)>) -> Seq<(Seq<char>, Seq<char>)> {
    members.map_values(|m: (String, String)| (m.0@, m.1@))
}

/// A sequence of texts, as sequences of characters.
pub open spec fn texts_view(texts: Seq<String>) -> Seq<Seq<char>> {
    texts.map_values(|t: String| t@)
}

/// What serde_json reads from a text, at the top level; `None` when the text is not JSON.
pub uninterp spec fn json_top(text: Seq<char>) -> Option<JsonNodeView>;

/// The JSON string literal that serde_json writes for a text.
pub uninterp spec fn json_quoted(s: Seq<char>) -> Seq<char>;

/// An optional node in its mathematical form.
pub open spec fn node_view(r: Option<JsonNode>) -> Option<JsonNodeView> {
    match r {
        Some(n) => Some(n@),
        None => None,
    }
}

/// Relies on serde_json::from_str::<serde_json::Value>: the value read depends on the
/// text alone, and there is none when the text is not JSON. Nested values are handed on
/// in the compact form of serde_json::Value's Display.
#[verifier::external_body]
pub(crate) fn parse_json(text: &str) -> (r: Option<JsonNode>)
    ensures
        node_view(r) == json_top(text@),
{
    match serde_json::from_str::<Value>(text) {
        Err(_) => None,
        Ok(Value::Null) => Some(JsonNode::Null),
        Ok(Value::Bool(b)) => Some(JsonNode::Bool(b)),
        Ok(Value::Number(n)) => Some(JsonNode::Number(n.to_string())),
        Ok(Value::String(s)) => Some(JsonNode::Str(s)),
        Ok(Value::Array(a)) => Some(JsonNode::Array(a.iter().map(|v| v.to_string()).collect())),
        Ok(Value::Object(m)) => Some(
            JsonNode::Object(m.iter().map(|(k, v)| (k.clone(), v.to_string())).collect()),
        ),
    }
}

/// Relies on serde_json::to_string on a `str`: the quoted and escaped JSON string, which
/// depends on the text alone. Writing a `str` to memory does not fail.
#[verifier::external_body]
pub(crate) fn quote_json(s: &str) -> (r: String)
    ensures
        r@ == json_quoted(s@),
{
    serde_json::to_string(s).unwrap_or_default()
}

/// The text of the first member named `key`.
pub open spec fn member_text(members: Seq<(Seq<char>, Seq<char>)>, key: Seq<char>) -> Option<
    Seq<char>,
>
    decreases members.len(),
{
    if members.len() == 0 {
        None
    } else if members[0].0 == key {
        Some(members[0].1)
    } else {
        member_text(members.drop_first(), key)
    }
}

/// The members of the object that a text holds; none when it holds no object.
pub open spec fn object_members(text: Seq<char>) -> Seq<(Seq<char>, Seq<char>)> {
    match json_top(text) {
        Some(JsonNodeView::Object(members)) => members,
        _ => Seq::empty(),
    }
}

/// The string that the member named `key` holds, if it is there and is a string.
pub open spec fn string_member(members: Seq<(Seq<char>, Seq<char>)>, key: Seq<char>) -> Option<
    Seq<char>,
> {
    match member_text(members, key) {
        Some(t) => match json_top(t) {
            Some(JsonNodeView::Str(s)) => Some(s),
            _ => None,
        },
        None => None,
    }
}

/// The text of the first member named `key`.
pub fn find_member(members: &Vec<(String, String)>, key: &str) -> (r: Option<String>)
    ensures
        match r {
            Some(t) => member_text(members_view(members@), key@)
                == Some(t@),
            None => member_text(members_view(members@), key@)
                is None,
        },
{
    let ghost ms = members_view(members@);
    let wanted = String::from_str(key);
    let mut i: usize = 0;
    assert(ms.skip(0) =~= ms);
    while i < members.len()
        invariant
            i <= members@.len(),
            ms == members_view(members@),
            wanted@ == key@,
            member_text(ms, key@) == member_text(ms.skip(i as int), key@),
        decreases members.len() - i,
    {
        assert(ms.skip(i as int).drop_first() =~= ms.skip(i + 1));
        if members[i].0 == wanted {
            return Some(members[i].1.clone());
        }
        i = i + 1;
    }
    None
}

/// The members of the object that `text` holds; none when it holds no object.
pub fn members_of(text: &str) -> (r: Vec<(String, String)>)
    ensures
        members_view(r@) == object_members(text@),
{
    match parse_json(text) {
        Some(JsonNode::Object(members)) => members,
        _ => {
            let r: Vec<(String, String)> = Vec::new();
            assert(members_view(r@) =~= Seq::empty());
            r
        },
    }
}

/// The string held by the member named `key`, if there is one and it is a string.
pub fn find_string_member(members: &Vec<(String, String)>, key: &str) -> (r: Option<String>)
    ensures
        match r {
            Some(s) => string_member(members_view(members@), key@)
                == Some(s@),
            None => string_member(members_view(members@), key@)
                is None,
        },
{
    match find_member(members, key) {
        Some(t) => match parse_json(t.as_str()) {
            Some(JsonNode::Str(s)) => Some(s),
            _ => None,
        },
        None => None,
    }
}


/// The 64-bit integer that serde_json reads from a text, if it holds one.
pub uninterp spec fn json_i64(text: Seq<char>) -> Option<i64>;

/// The 32-bit integer that serde_json reads from a text, if it holds one.
pub uninterp spec fn json_i32(text: Seq<char>) -> Option<i32>;

/// Relies on serde_json::from_str::<i64>: the integer read depends on the text alone, and
/// there is none when the text is not a JSON integer in range.
#[verifier::external_body]
pub(crate) fn parse_i64(text: &str) -> (r: Option<i64>)
    ensures
        r == json_i64(text@),
{
    serde_json::from_str::<i64>(text).ok()
}

/// Relies on serde_json::from_str::<i32>: the integer read depends on the text alone, and
/// there is none when the text is not a JSON integer in range.
#[verifier::external_body]
pub(crate) fn parse_i32(text: &str) -> (r: Option<i32>)
    ensures
        r == json_i32(text@),
{
    serde_json::from_str::<i32>(text).ok()
}

/// The elements of the array that the member named `key` holds, if it holds an array.
pub open spec fn array_member(members: Seq<(Seq<char>, Seq<char>)>, key: Seq<char>) -> Option<
    Seq<Seq<char>>,
> {
    match member_text(members, key) {
        Some(t) => match json_top(t) {
            Some(JsonNodeView::Array(items)) => Some(items),
            _ => None,
        },
        None => None,
    }
}

/// The elements of the array that the member named `key` holds, if it holds an array.
pub fn find_array_member(members: &Vec<(String, String)>, key: &str) -> (r: Option<Vec<String>>)
    ensures
        match r {
            Some(items) => array_member(members_view(members@), key@) == Some(
                texts_view(items@),
            ),
            None => array_member(members_view(members@), key@) is None,
        },
{
    match find_member(members, key) {
        Some(t) => match parse_json(t.as_str()) {
            Some(JsonNode::Array(items)) => Some(items),
            _ => None,
        },
        None => None,
    }
}

} // verus!
