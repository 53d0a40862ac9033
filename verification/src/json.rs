//! JSON values as the library reads them, and the JSON text of strings.
use vstd::prelude::*;

use crate::text::{push_char, spec_join, views};

verus! {

/// A JSON value. A number keeps its value when it is a non-negative
/// integer that fits `u64`, and always its text, as `serde_json` writes it,
/// so that it can be sent again as it came. The members of a parsed object
/// come in the order of their keys (`serde_json`'s map is sorted), and a
/// key occurs at most once.
#[derive(Debug)]
pub enum JsonValue {
    Null,
    Bool(bool),
    Number(Option<u64>, String),
    Str(String),
    Array(Vec<JsonValue>),
    Object(Vec<(String, JsonValue)>),
}

#[verifier::external_type_specification]
#[verifier::external_body]
pub struct ExSerdeJsonValue(serde_json::Value);

/// What `serde_json` parses `text` to, in the library's form (see
/// [`parse_json`]): none when `text` is not a JSON document.
pub uninterp spec fn serde_json_parse(text: Seq<char>) -> Option<JsonValue>;

/// The JSON document `text` as `serde_json::from_str` parses it into a
/// `serde_json::Value`, converted to the library's form; none when the text
/// is not JSON. The contract names the result and says no more of it: the
/// parse is `serde_json`'s.
#[verifier::external_body]
pub(crate) fn parse_json(text: &str) -> (r: Option<JsonValue>)
    ensures
        r == serde_json_parse(text@),
{
    serde_json::from_str::<serde_json::Value>(text).ok().map(from_serde_json)
}

/// A `serde_json::Value` in the library's form, value for value; a number
/// keeps its value when `as_u64` gives one, and its text.
#[verifier::external_body]
fn from_serde_json(v: serde_json::Value) -> JsonValue {
    match v {
        serde_json::Value::Null => JsonValue::Null,
        serde_json::Value::Bool(b) => JsonValue::Bool(b),
        serde_json::Value::Number(n) => JsonValue::Number(n.as_u64(), n.to_string()),
        serde_json::Value::String(s) => JsonValue::Str(s),
        serde_json::Value::Array(a) => JsonValue::Array(a.into_iter().map(from_serde_json).collect()),
        serde_json::Value::Object(o) => {
            JsonValue::Object(o.into_iter().map(|(k, v)| (k, from_serde_json(v))).collect())
        },
    }
}

/// Index of the first member named `key`, or -1.
pub open spec fn member_index(m: Seq<(String, JsonValue)>, key: Seq<char>) -> int
    decreases m.len(),
{
    if m.len() == 0 {
        -1
    } else if m[0].0@ == key {
        0
    } else {
        let r = member_index(m.drop_first(), key);
        if r < 0 {
            -1
        } else {
            r + 1
        }
    }
}

proof fn lemma_member_index_bounds(m: Seq<(String, JsonValue)>, key: Seq<char>)
    ensures
        -1 <= member_index(m, key) < m.len(),
        member_index(m, key) >= 0 ==> m[member_index(m, key)].0@ == key,
        member_index(m, key) < 0 ==> forall|i: int| 0 <= i < m.len() ==> m[i].0@ != key,
        forall|i: int| 0 <= i < member_index(m, key) ==> m[i].0@ != key,
    decreases m.len(),
{
    if m.len() > 0 {
        lemma_member_index_bounds(m.drop_first(), key);
        assert forall|i: int| 1 <= i < m.len() implies m[i] == m.drop_first()[i - 1] by {}
    }
}

/// The member `key` of an object (`Value::get` with a `&str` index).
pub open spec fn spec_get(v: JsonValue, key: Seq<char>) -> Option<JsonValue> {
    match v {
        JsonValue::Object(m) => {
            let k = member_index(m@, key);
            if k >= 0 {
                Some(m@[k].1)
            } else {
                None
            }
        },
        _ => None,
    }
}

/// The string of a string value (`Value::as_str`).
pub open spec fn spec_as_str(v: JsonValue) -> Option<Seq<char>> {
    match v {
        JsonValue::Str(s) => Some(s@),
        _ => None,
    }
}

/// `v[key].as_str()`: the string member `key` of an object.
pub open spec fn spec_str_member(v: JsonValue, key: Seq<char>) -> Option<Seq<char>> {
    match spec_get(v, key) {
        Some(m) => spec_as_str(m),
        None => None,
    }
}

/// `v[key].as_u64()`: the unsigned integer member `key` of an object.
pub open spec fn spec_u64_member(v: JsonValue, key: Seq<char>) -> Option<u64> {
    match spec_get(v, key) {
        Some(JsonValue::Number(n, _)) => n,
        _ => None,
    }
}

/// Whether `v[key]` is null: the member is absent, or its value is null.
pub open spec fn spec_member_is_null(v: JsonValue, key: Seq<char>) -> bool {
    match spec_get(v, key) {
        Some(JsonValue::Null) => true,
        None => true,
        _ => false,
    }
}

/// The strings among `items`, in order (`filter_map(Value::as_str)`).
pub open spec fn spec_strings(items: Seq<JsonValue>) -> Seq<Seq<char>>
    decreases items.len(),
{
    if items.len() == 0 {
        seq![]
    } else {
        let rest = spec_strings(items.drop_last());
        match spec_as_str(items.last()) {
            Some(s) => rest.push(s),
            None => rest,
        }
    }
}

/// The strings of an array value, or `None` when `v` is not an array.
pub open spec fn spec_string_array(v: JsonValue) -> Option<Seq<Seq<char>>> {
    match v {
        JsonValue::Array(a) => Some(spec_strings(a@)),
        _ => None,
    }
}

impl JsonValue {
    /// The member `key` of an object.
    pub fn get(&self, key: &str) -> (res: Option<&JsonValue>)
        ensures
            match res {
                Some(r) => spec_get(*self, key@) == Some(*r),
                None => spec_get(*self, key@) is None,
            },
    {
        match self {
            JsonValue::Object(m) => {
                proof {
                    lemma_member_index_bounds(m@, key@);
                }
                let key_s = key.to_string();
                proof {
                    vstd::string::to_string_from_display_ensures_for_str(key, key_s);
                }
                let mut i: usize = 0;
                while i < m.len()
                    invariant
                        0 <= i <= m.len(),
                        key_s@ == key@,
                        *self == JsonValue::Object(*m),
                        forall|j: int| 0 <= j < i ==> m@[j].0@ != key@,
                        -1 <= member_index(m@, key@) < m@.len(),
                        member_index(m@, key@) >= 0 ==> m@[member_index(m@, key@)].0@ == key@,
                        member_index(m@, key@) < 0 ==> forall|j: int|
                            0 <= j < m@.len() ==> m@[j].0@ != key@,
                        forall|j: int| 0 <= j < member_index(m@, key@) ==> m@[j].0@ != key@,
                    decreases m.len() - i,
                {
                    if m[i].0 == key_s {
                        assert(member_index(m@, key@) == i);
                        return Some(&m[i].1);
                    }
                    i += 1;
                }
                None
            },
            _ => None,
        }
    }

    /// The string of a string value.
    pub fn as_str(&self) -> (res: Option<&String>)
        ensures
            match res {
                Some(s) => spec_as_str(*self) == Some(s@),
                None => spec_as_str(*self) is None,
            },
    {
        match self {
            JsonValue::Str(s) => Some(s),
            _ => None,
        }
    }

    /// The string member `key` of an object, copied.
    pub fn str_member(&self, key: &str) -> (res: Option<String>)
        ensures
            match res {
                Some(s) => spec_str_member(*self, key@) == Some(s@),
                None => spec_str_member(*self, key@) is None,
            },
    {
        match self.get(key) {
            Some(v) => match v.as_str() {
                Some(s) => Some(s.clone()),
                None => None,
            },
            None => None,
        }
    }

    /// The unsigned integer member `key` of an object.
    pub fn u64_member(&self, key: &str) -> (res: Option<u64>)
        ensures
            res == spec_u64_member(*self, key@),
    {
        match self.get(key) {
            Some(JsonValue::Number(n, _)) => *n,
            _ => None,
        }
    }

    /// Whether the member `key` is absent or null.
    pub fn member_is_null(&self, key: &str) -> (res: bool)
        ensures
            res == spec_member_is_null(*self, key@),
    {
        match self.get(key) {
            Some(JsonValue::Null) => true,
            None => true,
            _ => false,
        }
    }

    /// The strings of an array value, or `None` when this is not an array.
    pub fn string_array(&self) -> (res: Option<Vec<String>>)
        ensures
            match res {
                Some(v) => spec_string_array(*self) == Some(views(v@)),
                None => spec_string_array(*self) is None,
            },
    {
        match self {
            JsonValue::Array(a) => {
                let mut out: Vec<String> = Vec::new();
                let mut i: usize = 0;
                while i < a.len()
                    invariant
                        0 <= i <= a.len(),
                        views(out@) == spec_strings(a@.take(i as int)),
                    decreases a.len() - i,
                {
                    assert(a@.take(i + 1).drop_last() == a@.take(i as int));
                    let ghost before = out@;
                    match a[i].as_str() {
                        Some(s) => {
                            out.push(s.clone());
                            assert(views(out@) == views(before).push(s@));
                        },
                        None => {},
                    }
                    i += 1;
                }
                assert(a@.take(a.len() as int) == a@);
                Some(out)
            },
            _ => None,
        }
    }

    /// The string-array member `key` of an object.
    pub fn string_array_member(&self, key: &str) -> (res: Option<Vec<String>>)
        ensures
            match res {
                Some(v) => spec_get(*self, key@) matches Some(m) && spec_string_array(m) == Some(
                    views(v@),
                ),
                None => spec_get(*self, key@) matches Some(m) ==> spec_string_array(m) is None,
            },
    {
        match self.get(key) {
            Some(v) => v.string_array(),
            None => None,
        }
    }
}

// ---------------------------------------------------------------------------
// JSON text of strings
// ---------------------------------------------------------------------------

/// The lower-case hexadecimal digit for `d` (below 16).
pub open spec fn hex_digit(d: nat) -> char {
    if d < 10 {
        crate::text::digit_char(d)
    } else if d == 10 {
        'a'
    } else if d == 11 {
        'b'
    } else if d == 12 {
        'c'
    } else if d == 13 {
        'd'
    } else if d == 14 {
        'e'
    } else {
        'f'
    }
}

/// How `serde_json` writes `c` inside a string literal: `"` and `\` and the
/// control characters below U+0020 are escaped, the latter as `\b`, `\t`,
/// `\n`, `\f`, `\r` or `\u00XX`; every other character stands as it is.
pub open spec fn escape_char(c: char) -> Seq<char> {
    if c == '"' {
        seq!['\\', '"']
    } else if c == '\\' {
        seq!['\\', '\\']
    } else if c == '\u{8}' {
        seq!['\\', 'b']
    } else if c == '\t' {
        seq!['\\', 't']
    } else if c == '\n' {
        seq!['\\', 'n']
    } else if c == '\u{c}' {
        seq!['\\', 'f']
    } else if c == '\r' {
        seq!['\\', 'r']
    } else if (c as u32) < 0x20 {
        seq!['\\', 'u', '0', '0', hex_digit((c as u32 / 16) as nat), hex_digit((c as u32 % 16) as nat)]
    } else {
        seq![c]
    }
}

/// The escaped characters of `s`.
pub open spec fn escape_str(s: Seq<char>) -> Seq<char>
    decreases s.len(),
{
    if s.len() == 0 {
        seq![]
    } else {
        escape_str(s.drop_last()) + escape_char(s.last())
    }
}

/// The JSON text of the string `s` (`serde_json::to_string` of a string).
pub open spec fn spec_json_string(s: Seq<char>) -> Seq<char> {
    seq!['"'] + escape_str(s) + seq!['"']
}

/// The JSON text of a list of strings (`serde_json::to_string` of a
/// `Vec<String>`): the string texts between `[` and `]`, separated by `,`.
pub open spec fn spec_json_string_array(items: Seq<Seq<char>>) -> Seq<char> {
    seq!['['] + spec_join(items.map_values(|s: Seq<char>| spec_json_string(s)), seq![',']) + seq![
        ']',
    ]
}

fn hex(d: u32) -> (c: char)
    requires
        d < 16,
    ensures
        c == hex_digit(d as nat),
{
    if d < 10 {
        if d == 0 {
            '0'
        } else if d == 1 {
            '1'
        } else if d == 2 {
            '2'
        } else if d == 3 {
            '3'
        } else if d == 4 {
            '4'
        } else if d == 5 {
            '5'
        } else if d == 6 {
            '6'
        } else if d == 7 {
            '7'
        } else if d == 8 {
            '8'
        } else {
            '9'
        }
    } else if d == 10 {
        'a'
    } else if d == 11 {
        'b'
    } else if d == 12 {
        'c'
    } else if d == 13 {
        'd'
    } else if d == 14 {
        'e'
    } else {
        'f'
    }
}

fn push_escaped(out: &mut String, c: char)
    ensures
        final(out)@ == old(out)@ + escape_char(c),
{
    if c == '"' {
        push_char(out, '\\');
        push_char(out, '"');
    } else if c == '\\' {
        push_char(out, '\\');
        push_char(out, '\\');
    } else if c == '\u{8}' {
        push_char(out, '\\');
        push_char(out, 'b');
    } else if c == '\t' {
        push_char(out, '\\');
        push_char(out, 't');
    } else if c == '\n' {
        push_char(out, '\\');
        push_char(out, 'n');
    } else if c == '\u{c}' {
        push_char(out, '\\');
        push_char(out, 'f');
    } else if c == '\r' {
        push_char(out, '\\');
        push_char(out, 'r');
    } else if (c as u32) < 0x20 {
        let v = c as u32;
        push_char(out, '\\');
        push_char(out, 'u');
        push_char(out, '0');
        push_char(out, '0');
        push_char(out, hex(v / 16));
        push_char(out, hex(v % 16));
    } else {
        push_char(out, c);
    }
}

/// The JSON text of the string `s`.
pub fn json_string(s: &str) -> (res: String)
    ensures
        res@ == spec_json_string(s@),
{
    let cs = crate::text::chars_of(s);
    let mut out = String::new();
    push_char(&mut out, '"');
    let mut i: usize = 0;
    while i < cs.len()
        invariant
            0 <= i <= cs.len(),
            cs@ == s@,
            out@ == seq!['"'] + escape_str(s@.take(i as int)),
        decreases cs.len() - i,
    {
        assert(s@.take(i + 1).drop_last() == s@.take(i as int));
        push_escaped(&mut out, cs[i]);
        i += 1;
    }
    assert(s@.take(cs.len() as int) == s@);
    push_char(&mut out, '"');
    out
}

/// The JSON text of a list of strings.
pub fn json_string_array(items: &Vec<String>) -> (res: String)
    ensures
        res@ == spec_json_string_array(views(items@)),
{
    let ghost all = views(items@).map_values(|s: Seq<char>| spec_json_string(s));
    let mut out = String::new();
    push_char(&mut out, '[');
    let mut i: usize = 0;
    while i < items.len()
        invariant
            0 <= i <= items.len(),
            all == views(items@).map_values(|s: Seq<char>| spec_json_string(s)),
            out@ == seq!['['] + spec_join(all.take(i as int), seq![',']),
        decreases items.len() - i,
    {
        assert(all.take(i + 1).drop_last() == all.take(i as int));
        if i != 0 {
            push_char(&mut out, ',');
        } else {
            assert(spec_join(all.take(1), seq![',']) == all[0]);
        }
        let item = json_string(items[i].as_str());
        out.append(item.as_str());
        i += 1;
    }
    assert(all.take(items.len() as int) == all);
    push_char(&mut out, ']');
    out
}

/// The JSON text of the unit value.
pub fn json_null() -> (res: String)
    ensures
        res@ == seq!['n', 'u', 'l', 'l'],
{
    let mut out = String::new();
    push_char(&mut out, 'n');
    push_char(&mut out, 'u');
    push_char(&mut out, 'l');
    push_char(&mut out, 'l');
    out
}

} // verus!
