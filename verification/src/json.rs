//! JSON values as the library reads and writes them, decoded and encoded by
//! `serde_json`, with field accessors whose results are stated over the
//! value's structure.
use serde_json::Value;
use vstd::prelude::*;

verus! {

/// A decoded JSON value. Integral numbers keep their exact value;
/// non-integral numbers keep the decimal text `serde_json` renders them as.
#[derive(Debug)]
pub enum JsonValue {
    Null,
    Bool(bool),
    Int(i128),
    Float(String),
    Str(String),
    Array(Vec<JsonValue>),
    Object(Vec<JsonMember>),
}

/// One `"key": value` member of a JSON object. A decoded object lists its
/// members sorted by key, one member per key (the last value written for a
/// repeated key); an object is encoded with its members sorted by key, the
/// last member of a repeated key winning.
#[derive(Debug)]
pub struct JsonMember {
    pub key: String,
    pub value: JsonValue,
}

#[verifier::external_type_specification]
#[verifier::external_body]
pub struct ExSerdeJsonValue(Value);

/// What `serde_json::from_str::<serde_json::Value>` makes of `text`: the
/// decoded value, or the text of the decoding error.
pub uninterp spec fn json_decode(text: Seq<char>) -> Result<JsonValue, Seq<char>>;

/// What `serde_json::to_string` renders a value as.
pub uninterp spec fn json_encode(value: JsonValue) -> Seq<char>;

#[verifier::external_body]
fn from_serde(v: &Value) -> JsonValue {
    match v {
        Value::Null => JsonValue::Null,
        Value::Bool(b) => JsonValue::Bool(*b),
        Value::Number(n) => match (n.as_u64(), n.as_i64()) {
            (Some(u), _) => JsonValue::Int(u as i128),
            (None, Some(i)) => JsonValue::Int(i as i128),
            (None, None) => JsonValue::Float(n.to_string()),
        },
        Value::String(s) => JsonValue::Str(s.clone()),
        Value::Array(a) => JsonValue::Array(a.iter().map(from_serde).collect()),
        Value::Object(m) => JsonValue::Object(
            m.iter().map(|(k, v)| JsonMember { key: k.clone(), value: from_serde(v) }).collect(),
        ),
    }
}

#[verifier::external_body]
fn to_serde(v: &JsonValue) -> Value {
    match v {
        JsonValue::Null => Value::Null,
        JsonValue::Bool(b) => Value::Bool(*b),
        JsonValue::Int(i) => serde_json::Number::from_i128(*i).map(Value::Number).unwrap_or(Value::Null),
        JsonValue::Float(t) => t.parse().map(Value::Number).unwrap_or(Value::Null),
        JsonValue::Str(s) => Value::String(s.clone()),
        JsonValue::Array(a) => Value::Array(a.iter().map(to_serde).collect()),
        JsonValue::Object(m) => Value::Object(
            m.iter().map(|mem| (mem.key.clone(), to_serde(&mem.value))).collect(),
        ),
    }
}

/// Decodes JSON text with `serde_json::from_str`. Leading and trailing
/// whitespace is accepted, anything else after the value is an error.
#[verifier::external_body]
pub(crate) fn decode_json(text: &str) -> (r: Result<JsonValue, String>)
    ensures
        match (r, json_decode(text@)) {
            (Ok(v), Ok(w)) => v == w,
            (Err(e), Err(m)) => e@ == m,
            _ => false,
        },
{
    match serde_json::from_str::<Value>(text) {
        Ok(v) => Ok(from_serde(&v)),
        Err(e) => Err(e.to_string()),
    }
}

/// `a` comes before `b` when their characters are compared one by one by
/// code point, a proper prefix first (the order of `String` keys).
pub open spec fn text_less(a: Seq<char>, b: Seq<char>) -> bool
    decreases a.len(),
{
    if a.len() == 0 {
        b.len() > 0
    } else if b.len() == 0 {
        false
    } else if a[0] == b[0] {
        text_less(a.drop_first(), b.drop_first())
    } else {
        (a[0] as u32) < (b[0] as u32)
    }
}

/// A value that decoding its encoding gives back unchanged, nested at most
/// `depth` arrays or objects deep: no floating-point number, integers that
/// fit `i64` or `u64`, and object keys in strictly increasing order.
pub open spec fn json_canonical(v: JsonValue, depth: nat) -> bool
    decreases depth, 0nat,
{
    match v {
        JsonValue::Null => true,
        JsonValue::Bool(_) => true,
        JsonValue::Int(i) => i64::MIN <= i <= u64::MAX,
        JsonValue::Float(_) => false,
        JsonValue::Str(_) => true,
        JsonValue::Array(items) => depth > 0 && canonical_items(items@, (depth - 1) as nat),
        JsonValue::Object(ms) => depth > 0 && canonical_members(ms@, (depth - 1) as nat),
    }
}

/// Every item is canonical within `depth`.
pub open spec fn canonical_items(items: Seq<JsonValue>, depth: nat) -> bool
    decreases depth, items.len() + 1,
{
    if items.len() == 0 {
        true
    } else {
        canonical_items(items.drop_last(), depth) && json_canonical(items.last(), depth)
    }
}

/// Every member's value is canonical within `depth`, and the keys strictly
/// increase.
pub open spec fn canonical_members(ms: Seq<JsonMember>, depth: nat) -> bool
    decreases depth, ms.len() + 1,
{
    if ms.len() == 0 {
        true
    } else {
        &&& canonical_members(ms.drop_last(), depth)
        &&& json_canonical(ms.last().value, depth)
        &&& ms.len() >= 2 ==> text_less(ms[ms.len() - 2].key@, ms.last().key@)
    }
}

/// A successful decoding giving `v`.
pub open spec fn decoded_as(v: JsonValue) -> Result<JsonValue, Seq<char>> {
    Ok(v)
}

/// Renders a value as compact JSON text with `serde_json::to_string`. A
/// canonical value nested less deep than `serde_json`'s recursion limit of
/// 128 is read back unchanged by [`decode_json`]: integers are written in
/// decimal and read back as integers, strings are escaped and unescaped,
/// and object members come out in key order, which a canonical object
/// already has.
#[verifier::external_body]
pub(crate) fn encode_json(value: &JsonValue) -> (r: String)
    ensures
        r@ == json_encode(*value),
        json_canonical(*value, 100) ==> json_decode(r@) == decoded_as(*value),
{
    serde_json::to_string(&to_serde(value)).unwrap_or_default()
}

/// The value of the first member of `members` named `key`.
pub open spec fn member_value(members: Seq<JsonMember>, key: Seq<char>) -> Option<JsonValue>
    decreases members.len(),
{
    if members.len() == 0 {
        None
    } else if members[0].key@ == key {
        Some(members[0].value)
    } else {
        member_value(members.drop_first(), key)
    }
}

/// The value of member `key` of an object; `None` for a missing member or a
/// value that is not an object.
pub open spec fn field(v: JsonValue, key: Seq<char>) -> Option<JsonValue> {
    match v {
        JsonValue::Object(members) => member_value(members@, key),
        _ => None,
    }
}

pub open spec fn as_text(v: JsonValue) -> Option<Seq<char>> {
    match v {
        JsonValue::Str(s) => Some(s@),
        _ => None,
    }
}

pub open spec fn as_int(v: JsonValue) -> Option<int> {
    match v {
        JsonValue::Int(i) => Some(i as int),
        _ => None,
    }
}

/// The strings of a JSON array of strings.
pub open spec fn texts_of(items: Seq<JsonValue>) -> Option<Seq<Seq<char>>>
    decreases items.len(),
{
    if items.len() == 0 {
        Some(Seq::empty())
    } else {
        match (texts_of(items.drop_last()), as_text(items.last())) {
            (Some(init), Some(t)) => Some(init.push(t)),
            _ => None,
        }
    }
}

pub open spec fn as_text_list(v: JsonValue) -> Option<Seq<Seq<char>>> {
    match v {
        JsonValue::Array(items) => texts_of(items@),
        _ => None,
    }
}

/// The value of member `key` of an object (`Value::get`).
pub fn get_field<'a>(v: &'a JsonValue, key: &str) -> (r: Option<&'a JsonValue>)
    ensures
        match r {
            Some(x) => field(*v, key@) == Some(*x),
            None => field(*v, key@) is None,
        },
{
    match v {
        JsonValue::Object(members) => {
            let mut i: usize = 0;
            assert(members@.skip(0) =~= members@);
            while i < members.len()
                invariant
                    i <= members.len(),
                    field(*v, key@) == member_value(members@, key@),
                    member_value(members@, key@) == member_value(members@.skip(i as int), key@),
                decreases members.len() - i,
            {
                let ghost rest = members@.skip(i as int);
                assert(rest.drop_first() =~= members@.skip(i + 1));
                assert(rest[0] == members@[i as int]);
                if crate::text::str_eq(members[i].key.as_str(), key) {
                    assert(member_value(rest, key@) == Some(members@[i as int].value));
                    assert(field(*v, key@) == Some(members@[i as int].value));
                    return Some(&members[i].value);
                }
                i = i + 1;
            }
            None
        },
        _ => None,
    }
}

/// The string held by a JSON string value.
pub fn text_of(v: &JsonValue) -> (r: Option<String>)
    ensures
        match r {
            Some(s) => as_text(*v) == Some(s@),
            None => as_text(*v) is None,
        },
{
    match v {
        JsonValue::Str(s) => Some(s.clone()),
        _ => None,
    }
}

/// The integer held by a JSON number, when it is integral.
pub fn int_of(v: &JsonValue) -> (r: Option<i128>)
    ensures
        match r {
            Some(i) => as_int(*v) == Some(i as int),
            None => as_int(*v) is None,
        },
{
    match v {
        JsonValue::Int(i) => Some(*i),
        _ => None,
    }
}

/// The strings of a JSON array whose elements are all strings.
pub fn text_list_of(v: &JsonValue) -> (r: Option<Vec<String>>)
    ensures
        match r {
            Some(l) => as_text_list(*v) == Some(crate::records::string_views(l@)),
            None => as_text_list(*v) is None,
        },
{
    match v {
        JsonValue::Array(items) => {
            let mut out: Vec<String> = Vec::new();
            let mut i: usize = 0;
            while i < items.len()
                invariant
                    i <= items.len(),
                    as_text_list(*v) == texts_of(items@),
                    texts_of(items@.take(i as int)) == Some(crate::records::string_views(out@)),
                decreases items.len() - i,
            {
                assert(items@.take(i + 1).drop_last() =~= items@.take(i as int));
                match text_of(&items[i]) {
                    Some(s) => {
                        let ghost old_out = out@;
                        out.push(s);
                        assert(crate::records::string_views(out@) =~= crate::records::string_views(
                            old_out,
                        ).push(s@));
                    },
                    None => {
                        proof {
                            lemma_texts_of_prefix_none(items@.take(i + 1), i as int);
                            lemma_texts_of_extend_none(items@, i + 1);
                            assert(texts_of(items@) is None);
                            assert(as_text_list(*v) is None);
                        }
                        return None;
                    },
                }
                i = i + 1;
            }
            assert(items@.take(items.len() as int) =~= items@);
            Some(out)
        },
        _ => None,
    }
}

/// A failing prefix makes the whole list fail.
proof fn lemma_texts_of_extend_none(items: Seq<JsonValue>, n: int)
    requires
        0 <= n <= items.len(),
        texts_of(items.take(n)) is None,
    ensures
        texts_of(items) is None,
    decreases items.len() - n,
{
    if n == items.len() {
        assert(items.take(n) =~= items);
    } else {
        assert(items.take(n + 1).drop_last() =~= items.take(n));
        lemma_texts_of_extend_none(items, n + 1);
    }
}

/// A non-string element makes every longer prefix fail as a string list.
proof fn lemma_texts_of_prefix_none(items: Seq<JsonValue>, i: int)
    requires
        0 <= i < items.len(),
        as_text(items[i]) is None,
    ensures
        texts_of(items) is None,
    decreases items.len(),
{
    if i == items.len() - 1 {
    } else {
        assert(items.drop_last()[i] == items[i]);
        lemma_texts_of_prefix_none(items.drop_last(), i);
    }
}

} // verus!

verus! {

/// Every element of `items` parsed by `f`, or `None` when one fails.
pub open spec fn all_parsed<A, T>(items: Seq<A>, f: spec_fn(A) -> Option<T>) -> Option<Seq<T>>
    decreases items.len(),
{
    if items.len() == 0 {
        Some(Seq::empty())
    } else {
        match (all_parsed(items.drop_last(), f), f(items.last())) {
            (Some(init), Some(t)) => Some(init.push(t)),
            _ => None,
        }
    }
}

proof fn lemma_all_parsed_extend_none<A, T>(items: Seq<A>, f: spec_fn(A) -> Option<T>, n: int)
    requires
        0 <= n <= items.len(),
        all_parsed(items.take(n), f) is None,
    ensures
        all_parsed(items, f) is None,
    decreases items.len() - n,
{
    if n == items.len() {
        assert(items.take(n) =~= items);
    } else {
        assert(items.take(n + 1).drop_last() =~= items.take(n));
        lemma_all_parsed_extend_none(items, f, n + 1);
    }
}

/// Parses every element of `items` with `f`, failing as soon as one fails.
pub fn parse_all<A, T: View>(
    items: &Vec<A>,
    f: impl Fn(&A) -> Option<T>,
    Ghost(g): Ghost<spec_fn(A) -> Option<T::V>>,
) -> (r: Option<Vec<T>>)
    requires
        forall|x: &A| #[trigger] f.requires((x,)),
        forall|x: &A, o: Option<T>|
            f.ensures((x,), o) ==> match o {
                Some(t) => g(*x) == Some(t@),
                None => g(*x) is None,
            },
    ensures
        match r {
            Some(v) => all_parsed(items@, g) == Some(crate::records::views(v@)),
            None => all_parsed(items@, g) is None,
        },
{
    let mut out: Vec<T> = Vec::new();
    let mut i: usize = 0;
    while i < items.len()
        invariant
            i <= items.len(),
            forall|x: &A| #[trigger] f.requires((x,)),
            forall|x: &A, o: Option<T>|
                f.ensures((x,), o) ==> match o {
                    Some(t) => g(*x) == Some(t@),
                    None => g(*x) is None,
                },
            all_parsed(items@.take(i as int), g) == Some(crate::records::views(out@)),
        decreases items.len() - i,
    {
        assert(items@.take(i + 1).drop_last() =~= items@.take(i as int));
        assert(items@.take(i + 1).last() == items@[i as int]);
        match f(&items[i]) {
            Some(t) => {
                let ghost old_out = out@;
                let ghost tv = t@;
                out.push(t);
                assert(crate::records::views(out@) =~= crate::records::views(old_out).push(tv));
            },
            None => {
                proof {
                    lemma_all_parsed_extend_none(items@, g, i + 1);
                }
                return None;
            },
        }
        i = i + 1;
    }
    assert(items@.take(items.len() as int) =~= items@);
    Some(out)
}

pub open spec fn opt_text(f: Option<JsonValue>) -> Option<Seq<char>> {
    match f {
        Some(v) => as_text(v),
        None => None,
    }
}

/// A list of strings that defaults to empty when the member is missing.
pub open spec fn text_list_or_empty(f: Option<JsonValue>) -> Option<Seq<Seq<char>>> {
    match f {
        Some(v) => as_text_list(v),
        None => Some(Seq::empty()),
    }
}

/// An integer that fits `u32`, as `serde` reads a `u32` from a number.
pub open spec fn as_u32(v: JsonValue) -> Option<u32> {
    match v {
        JsonValue::Int(i) => if 0 <= i <= u32::MAX { Some(i as u32) } else { None },
        _ => None,
    }
}

/// Reads an optional member as a string.
pub fn opt_text_of(f: Option<&JsonValue>) -> (r: Option<String>)
    ensures
        match r {
            Some(s) => opt_text(match f { Some(x) => Some(*x), None => None }) == Some(s@),
            None => opt_text(match f { Some(x) => Some(*x), None => None }) is None,
        },
{
    match f {
        Some(x) => text_of(x),
        None => None,
    }
}

/// Reads an optional member as a list of strings, empty when missing.
pub fn text_list_or_empty_of(f: Option<&JsonValue>) -> (r: Option<Vec<String>>)
    ensures
        match r {
            Some(l) => text_list_or_empty(match f { Some(x) => Some(*x), None => None })
                == Some(crate::records::string_views(l@)),
            None => text_list_or_empty(match f { Some(x) => Some(*x), None => None }) is None,
        },
{
    match f {
        Some(x) => text_list_of(x),
        None => {
            let l: Vec<String> = Vec::new();
            assert(crate::records::string_views(l@) =~= Seq::<Seq<char>>::empty());
            Some(l)
        },
    }
}

/// Reads a number as a `u32`.
pub fn u32_of(v: &JsonValue) -> (r: Option<u32>)
    ensures
        r == as_u32(*v),
{
    match v {
        JsonValue::Int(i) => {
            if 0 <= *i && *i <= 4294967295 {
                Some(*i as u32)
            } else {
                None
            }
        },
        _ => None,
    }
}

} // verus!
