//! JSON values as the library sees them, and field lookup in objects.
use vstd::prelude::*;

verus! {

#[verifier::external_type_specification]
#[verifier::external_body]
pub struct ExJsonValue(serde_json::Value);

/// A JSON number: an unsigned integer that fits in 64 bits, or any other
/// number kept in its textual form.
#[derive(Debug, PartialEq)]
pub enum JsonNumber {
    Unsigned(u64),
    Other(String),
}

/// A JSON document. Object members keep their order.
#[derive(Debug, PartialEq)]
pub enum JsonValue {
    Null,
    Bool(bool),
    Number(JsonNumber),
    Str(String),
    Array(Vec<JsonValue>),
    Object(Vec<(String, JsonValue)>),
}

/// The document that a JSON text denotes, if the text is well-formed.
pub uninterp spec fn json_parse(text: Seq<char>) -> Option<JsonValue>;

/// The compact JSON text of a document.
pub uninterp spec fn json_render(v: JsonValue) -> Seq<char>;

/// Moves a parsed serde_json document into the library's representation.
#[verifier::external_body]
fn from_serde(v: serde_json::Value) -> JsonValue {
    match v {
        serde_json::Value::Null => JsonValue::Null,
        serde_json::Value::Bool(b) => JsonValue::Bool(b),
        serde_json::Value::Number(n) => match n.as_u64() {
            Some(u) => JsonValue::Number(JsonNumber::Unsigned(u)),
            None => JsonValue::Number(JsonNumber::Other(n.to_string())),
        },
        serde_json::Value::String(s) => JsonValue::Str(s),
        serde_json::Value::Array(a) => JsonValue::Array(a.into_iter().map(from_serde).collect()),
        serde_json::Value::Object(m) => JsonValue::Object(m.into_iter().map(|(k, x)| (k, from_serde(x))).collect()),
    }
}

/// Builds the serde_json document of a library document.
#[verifier::external_body]
fn to_serde(v: &JsonValue) -> serde_json::Value {
    match v {
        JsonValue::Null => serde_json::Value::Null,
        JsonValue::Bool(b) => serde_json::Value::Bool(*b),
        JsonValue::Number(JsonNumber::Unsigned(u)) => serde_json::Value::from(*u),
        JsonValue::Number(JsonNumber::Other(s)) => serde_json::from_str::<serde_json::Number>(s).map(serde_json::Value::Number).unwrap_or(serde_json::Value::Null),
        JsonValue::Str(s) => serde_json::Value::String(s.clone()),
        JsonValue::Array(a) => serde_json::Value::Array(a.iter().map(to_serde).collect()),
        JsonValue::Object(m) => serde_json::Value::Object(m.iter().map(|(k, x)| (k.clone(), to_serde(x))).collect()),
    }
}

/// Relies on `serde_json::from_str::<serde_json::Value>`: the document is a
/// function of the text alone, and there is none for a malformed text.
#[verifier::external_body]
pub(crate) fn parse_json(text: &str) -> (r: Option<JsonValue>)
    ensures
        r == json_parse(text@),
{
    serde_json::from_str::<serde_json::Value>(text).ok().map(from_serde)
}

/// Relies on `serde_json::to_string` on a `serde_json::Value`: the compact
/// text is a function of the document alone (it cannot fail on a `Value`).
#[verifier::external_body]
pub(crate) fn render_json(v: &JsonValue) -> (r: String)
    ensures
        r@ == json_render(*v),
{
    serde_json::to_string(&to_serde(v)).unwrap_or_default()
}

/// The index of the last member named `key`, or -1 if there is none.
pub open spec fn last_index(fs: Seq<(String, JsonValue)>, key: Seq<char>) -> int
    decreases fs.len(),
{
    if fs.len() == 0 {
        -1
    } else if fs.last().0@ == key {
        fs.len() - 1
    } else {
        last_index(fs.drop_last(), key)
    }
}

/// The value of member `key` of an object; where a name repeats, the last
/// member wins.
pub open spec fn lookup(fs: Seq<(String, JsonValue)>, key: Seq<char>) -> Option<JsonValue> {
    let i = last_index(fs, key);
    if i >= 0 {
        Some(fs[i].1)
    } else {
        None
    }
}

/// Member `key` as a string, if it is one.
pub open spec fn str_at(fs: Seq<(String, JsonValue)>, key: Seq<char>) -> Option<String> {
    match lookup(fs, key) {
        Some(JsonValue::Str(s)) => Some(s),
        _ => None,
    }
}

/// Member `key` as an unsigned integer, if it is one.
pub open spec fn u64_at(fs: Seq<(String, JsonValue)>, key: Seq<char>) -> Option<u64> {
    match lookup(fs, key) {
        Some(JsonValue::Number(JsonNumber::Unsigned(n))) => Some(n),
        _ => None,
    }
}

pub proof fn lemma_last_index_bounds(fs: Seq<(String, JsonValue)>, key: Seq<char>)
    ensures
        -1 <= last_index(fs, key) < fs.len(),
        last_index(fs, key) >= 0 ==> fs[last_index(fs, key)].0@ == key,
    decreases fs.len(),
{
    if fs.len() > 0 && fs.last().0@ != key {
        lemma_last_index_bounds(fs.drop_last(), key);
    }
}

/// Finds the last member named `key`.
pub fn find_field(fs: &Vec<(String, JsonValue)>, key: &str) -> (r: Option<usize>)
    ensures
        match r {
            Some(i) => i as int == last_index(fs@, key@),
            None => last_index(fs@, key@) == -1,
        },
{
    let k = key.to_owned();
    let mut i: usize = fs.len();
    assert(fs@.subrange(0, i as int) =~= fs@);
    while i > 0
        invariant
            i <= fs.len(),
            k@ == key@,
            last_index(fs@, key@) == last_index(fs@.subrange(0, i as int), key@),
        decreases i,
    {
        let ghost pre = fs@.subrange(0, i as int);
        if fs[i - 1].0 == k {
            return Some(i - 1);
        }
        assert(pre.drop_last() =~= fs@.subrange(0, i - 1));
        i = i - 1;
    }
    None
}

/// The value of member `key`, borrowed.
pub fn get_field<'a>(fs: &'a Vec<(String, JsonValue)>, key: &str) -> (r: Option<&'a JsonValue>)
    ensures
        match r {
            Some(v) => lookup(fs@, key@) == Some(*v),
            None => lookup(fs@, key@) is None,
        },
{
    match find_field(fs, key) {
        Some(i) => {
            proof {
                lemma_last_index_bounds(fs@, key@);
            }
            Some(&fs[i].1)
        },
        None => None,
    }
}

/// Member `key` as a string.
pub fn str_field(fs: &Vec<(String, JsonValue)>, key: &str) -> (r: Option<String>)
    ensures
        r == str_at(fs@, key@),
{
    match get_field(fs, key) {
        Some(JsonValue::Str(s)) => Some(s.clone()),
        _ => None,
    }
}

/// Member `key` as an unsigned integer.
pub fn u64_field(fs: &Vec<(String, JsonValue)>, key: &str) -> (r: Option<u64>)
    ensures
        r == u64_at(fs@, key@),
{
    match get_field(fs, key) {
        Some(JsonValue::Number(JsonNumber::Unsigned(n))) => Some(*n),
        _ => None,
    }
}

/// Moves the value of member `key` out of the object.
pub fn take_field(fs: &mut Vec<(String, JsonValue)>, key: &str) -> (r: Option<JsonValue>)
    ensures
        r == lookup(old(fs)@, key@),
{
    match find_field(fs, key) {
        Some(i) => {
            proof {
                lemma_last_index_bounds(fs@, key@);
            }
            let (_, v) = fs.remove(i);
            Some(v)
        },
        None => None,
    }
}

/// Appends member `key` to an object under construction.
pub fn push_member(fs: &mut Vec<(String, JsonValue)>, key: &str, v: JsonValue)
    ensures
        final(fs)@.len() == old(fs)@.len() + 1,
        final(fs)@.drop_last() == old(fs)@,
        final(fs)@.last().0@ == key@,
        final(fs)@.last().1 == v,
        forall|k: Seq<char>|
            #![trigger lookup(final(fs)@, k)]
            lookup(final(fs)@, k) == if k == key@ {
                Some(v)
            } else {
                lookup(old(fs)@, k)
            },
{
    let ghost v0 = v;
    fs.push((key.to_owned(), v));
    assert(fs@.drop_last() =~= old(fs)@);
    assert forall|k: Seq<char>| #[trigger]
        lookup(fs@, k) == if k == key@ {
            Some(v0)
        } else {
            lookup(old(fs)@, k)
        } by {
        lemma_last_index_bounds(old(fs)@, k);
    }
}

} // verus!
