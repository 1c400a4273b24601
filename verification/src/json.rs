use vstd::prelude::*;

verus! {

// ---------------------------------------------------------------------------
// Reading the bridge's replies
// ---------------------------------------------------------------------------

/// A JSON document, as the bridge sends it. Numbers are kept as the text
/// that denotes them.
#[derive(Debug)]
pub enum JsonValue {
    Null,
    Bool(bool),
    Number(String),
    Str(String),
    Array(Vec<JsonValue>),
    Object(Vec<(String, JsonValue)>),
}

/// The element at position `i` of an array, or `Null` when `v` is not an
/// array or has no such element.
pub open spec fn json_at(v: JsonValue, i: int) -> JsonValue {
    match v {
        JsonValue::Array(items) => if 0 <= i < items@.len() {
            items@[i]
        } else {
            JsonValue::Null
        },
        _ => JsonValue::Null,
    }
}

/// Whether `j` is the first position of a member named `k`.
pub open spec fn is_first_key(m: Seq<(String, JsonValue)>, k: Seq<char>, j: int) -> bool {
    &&& 0 <= j < m.len()
    &&& m[j].0@ == k
    &&& forall|l: int| 0 <= l < j ==> #[trigger] m[l].0@ != k
}

/// The member named `k` of an object (the first one, should the name occur
/// twice), or `Null` when `v` is not an object or has no such member.
pub open spec fn json_get(v: JsonValue, k: Seq<char>) -> JsonValue {
    match v {
        JsonValue::Object(m) => if exists|j: int| is_first_key(m@, k, j) {
            m@[choose|j: int| is_first_key(m@, k, j)].1
        } else {
            JsonValue::Null
        },
        _ => JsonValue::Null,
    }
}

/// Whether an array `v` has an element at position `i`.
pub open spec fn json_has_index(v: JsonValue, i: int) -> bool {
    match v {
        JsonValue::Array(items) => 0 <= i < items@.len(),
        _ => false,
    }
}

/// Whether an object `v` has a member named `k`.
pub open spec fn json_has_key(v: JsonValue, k: Seq<char>) -> bool {
    match v {
        JsonValue::Object(m) => exists|j: int| 0 <= j < m@.len() && #[trigger] m@[j].0@ == k,
        _ => false,
    }
}

/// The value a lookup found, `Null` standing for "nothing there".
pub open spec fn found(r: Option<&JsonValue>) -> JsonValue {
    match r {
        Some(v) => *v,
        None => JsonValue::Null,
    }
}

/// The text of a JSON string, if `v` is one.
pub open spec fn json_str(v: JsonValue) -> Option<Seq<char>> {
    match v {
        JsonValue::Str(s) => Some(s@),
        _ => None,
    }
}

impl JsonValue {
    /// Looks up the element at position `i`; `None` when there is none.
    pub fn at(&self, i: usize) -> (r: Option<&JsonValue>)
        ensures
            found(r) == json_at(*self, i as int),
            r is None <==> !json_has_index(*self, i as int),
    {
        match self {
            JsonValue::Array(items) => {
                if i < items.len() {
                    Some(&items[i])
                } else {
                    None
                }
            },
            _ => None,
        }
    }

    /// Looks up the member named `key`; `None` when there is none.
    pub fn get(&self, key: &str) -> (r: Option<&JsonValue>)
        ensures
            found(r) == json_get(*self, key@),
            r is None <==> !json_has_key(*self, key@),
    {
        match self {
            JsonValue::Object(members) => {
                let key_string = String::from_str(key);
                let n = members.len();
                let mut j: usize = 0;
                while j < n
                    invariant
                        n == members@.len(),
                        j <= n,
                        key_string@ == key@,
                        *self == JsonValue::Object(*members),
                        forall|l: int| 0 <= l < j ==> #[trigger] members@[l].0@ != key@,
                    decreases n - j,
                {
                    if members[j].0 == key_string {
                        proof {
                            assert(is_first_key(members@, key@, j as int));
                            let c = choose|c: int| is_first_key(members@, key@, c);
                            assert(c == j as int) by {
                                if c < j as int {
                                    assert(members@[c].0@ != key@);
                                } else if c > j as int {
                                    assert(members@[j as int].0@ != key@);
                                }
                            }
                        }
                        return Some(&members[j].1);
                    }
                    j = j + 1;
                }
                proof {
                    assert forall|c: int| !is_first_key(members@, key@, c) by {
                        if 0 <= c < members@.len() {
                            assert(members@[c].0@ != key@);
                        }
                    }
                    assert(!json_has_key(*self, key@));
                }
                None
            },
            _ => None,
        }
    }

    /// Whether this is `Null`.
    pub fn is_null(&self) -> (b: bool)
        ensures
            b <==> *self is Null,
    {
        match self {
            JsonValue::Null => true,
            _ => false,
        }
    }

    /// The text of this value if it is a JSON string.
    pub fn as_str(&self) -> (r: Option<&String>)
        ensures
            match r {
                Some(s) => json_str(*self) == Some(s@),
                None => json_str(*self) is None,
            },
    {
        match self {
            JsonValue::Str(s) => Some(s),
            _ => None,
        }
    }
}

#[verifier::external_type_specification]
#[verifier::external_body]
pub struct ExJsonDocument(serde_json::Value);

/// The document `serde_json::from_str::<serde_json::Value>` reads from
/// `text`, in the library's model; `None` when the text is not JSON.
pub uninterp spec fn json_parse(text: Seq<char>) -> Option<JsonValue>;

/// Converts a `serde_json::Value` into the library's model, node for node
/// (numbers by their text, object members in the map's order).
#[verifier::external_body]
fn document_to_json(v: &serde_json::Value) -> JsonValue {
    match v {
        serde_json::Value::Bool(b) => JsonValue::Bool(*b),
        serde_json::Value::Number(n) => JsonValue::Number(n.to_string()),
        serde_json::Value::String(s) => JsonValue::Str(s.clone()),
        serde_json::Value::Array(items) => {
            let mut out: Vec<JsonValue> = Vec::new();
            for item in items { out.push(document_to_json(item)); }
            JsonValue::Array(out) },
        serde_json::Value::Object(members) => {
            let mut out: Vec<(String, JsonValue)> = Vec::new();
            for (k, x) in members { out.push((k.clone(), document_to_json(x))); }
            JsonValue::Object(out) },
        serde_json::Value::Null => JsonValue::Null,
    }
}

/// Calls `serde_json::from_str::<serde_json::Value>` on `text` and converts
/// the document into the library's model.
///
/// Claimed of the outside code: the outcome depends on the text alone
/// (`json_parse`); nothing is claimed of which texts parse or what they
/// give.
#[verifier::external_body]
pub fn parse_json(text: &str) -> (r: Option<JsonValue>)
    ensures
        r == json_parse(text@),
{
    match serde_json::from_str::<serde_json::Value>(text) {
        Ok(v) => Some(document_to_json(&v)),
        Err(_) => None,
    }
}

// ---------------------------------------------------------------------------
// Writing request bodies
// ---------------------------------------------------------------------------

/// A value that a member of a request body can hold.
#[derive(Clone, Debug)]
pub enum JsonScalar {
    Bool(bool),
    UInt(u64),
    Str(String),
}

/// The decimal digit for `d` (`d < 10`).
pub open spec fn digit_char(d: nat) -> char {
    ((d + 48) as u32) as char
}

/// The decimal representation of `n`, without leading zeros.
pub open spec fn decimal(n: nat) -> Seq<char>
    decreases n,
{
    if n < 10 {
        seq![digit_char(n)]
    } else {
        decimal(n / 10) + seq![digit_char(n % 10)]
    }
}

/// `true` or `false`.
pub open spec fn bool_text(b: bool) -> Seq<char> {
    if b {
        seq!['t', 'r', 'u', 'e']
    } else {
        seq!['f', 'a', 'l', 's', 'e']
    }
}

/// A JSON string literal whose text needs no escape.
pub open spec fn quoted(s: Seq<char>) -> Seq<char> {
    seq!['"'] + s + seq!['"']
}

/// The JSON text of a member's value.
pub open spec fn scalar_text(v: JsonScalar) -> Seq<char> {
    match v {
        JsonScalar::Bool(b) => bool_text(b),
        JsonScalar::UInt(n) => decimal(n as nat),
        JsonScalar::Str(s) => quoted(s@),
    }
}

/// The JSON text of one member: `"name":value`.
pub open spec fn member_text(name: Seq<char>, v: JsonScalar) -> Seq<char> {
    quoted(name) + seq![':'] + scalar_text(v)
}

/// The members of an object, separated by commas.
pub open spec fn members_text(fields: Seq<(String, JsonScalar)>) -> Seq<char>
    decreases fields.len(),
{
    if fields.len() == 0 {
        Seq::empty()
    } else if fields.len() == 1 {
        member_text(fields[0].0@, fields[0].1)
    } else {
        members_text(fields.drop_last()) + seq![','] + member_text(fields.last().0@, fields.last().1)
    }
}

/// The compact JSON text of an object with these members, in this order.
pub open spec fn object_text(fields: Seq<(String, JsonScalar)>) -> Seq<char> {
    seq!['{'] + members_text(fields) + seq!['}']
}

/// Text that a JSON string holds verbatim: no quote, backslash or control
/// character.
pub open spec fn plain_text(s: Seq<char>) -> bool {
    forall|i: int|
        0 <= i < s.len() ==> #[trigger] s[i] != '"' && s[i] != '\\' && (s[i] as u32) >= 0x20
}

/// Lexicographic order of texts by code point (the order of their UTF-8
/// bytes).
pub open spec fn text_less(a: Seq<char>, b: Seq<char>) -> bool
    decreases a.len(),
{
    if b.len() == 0 {
        false
    } else if a.len() == 0 {
        true
    } else if (a[0] as u32) < (b[0] as u32) {
        true
    } else if a[0] == b[0] {
        text_less(a.drop_first(), b.drop_first())
    } else {
        false
    }
}

/// Members whose text `object_text` gives exactly: names in strictly
/// increasing order, names and string values needing no escape.
pub open spec fn writes_verbatim(fields: Seq<(String, JsonScalar)>) -> bool {
    &&& forall|i: int| 0 <= i < fields.len() ==> plain_text(#[trigger] fields[i].0@)
    &&& forall|i: int|
        0 <= i < fields.len() ==> (#[trigger] fields[i].1 matches JsonScalar::Str(s) ==> plain_text(
            s@,
        ))
    &&& forall|i: int, j: int|
        0 <= i < j < fields.len() ==> text_less(#[trigger] fields[i].0@, #[trigger] fields[j].0@)
}

#[verifier::external_type_specification]
#[verifier::external_body]
pub struct ExJsonError(serde_json::Error);

/// Calls `serde_json::to_string` on the `serde_json::Value` object whose
/// members are `fields` (inserted in order into a `serde_json::Map`).
///
/// Claimed of the outside code: serialising a `Value` does not fail (its
/// `Serialize` impl has no failing path and the writer is a `Vec<u8>`); and
/// when the names are strictly increasing and neither names nor string
/// values need escaping, the text is the compact form `{"name":value,...}`,
/// numbers in decimal, members in the order of the map (sorted by name).
/// Nothing is claimed of the text for other members (duplicate or unsorted
/// names, characters that need escaping).
#[verifier::external_body]
fn serde_object_to_string(fields: &Vec<(String, JsonScalar)>) -> (r: Result<String, serde_json::Error>)
    ensures
        r is Ok,
        r matches Ok(s) ==> (writes_verbatim(fields@) ==> s@ == object_text(fields@)),
{
    let mut map = serde_json::Map::new();
    for (name, scalar) in fields.iter() {
        let value = match scalar {
            JsonScalar::Bool(b) => serde_json::Value::Bool(*b),
            JsonScalar::UInt(n) => serde_json::Value::from(*n),
            JsonScalar::Str(s) => serde_json::Value::String(s.clone()),
        };
        map.insert(name.clone(), value);
    }
    serde_json::to_string(&serde_json::Value::Object(map))
}

/// The compact JSON text of the object with members `fields`, as
/// `serde_json` writes it.
pub fn object_to_json(fields: &Vec<(String, JsonScalar)>) -> (s: String)
    ensures
        writes_verbatim(fields@) ==> s@ == object_text(fields@),
{
    match serde_object_to_string(fields) {
        Ok(s) => s,
        Err(_) => {
            proof {
                assert(false);
            }
            String::new()
        },
    }
}

} // verus!
