//! A JSON document model for Kubernetes manifests, with path lookup and the
//! compact text rendering used to show non-string values.
use vstd::prelude::*;
use crate::text::{decimal, push_char, push_decimal, push_signed_decimal, push_str, signed_decimal};

verus! {

/// A JSON number as a manifest holds it: a non-negative integer, a negative
/// integer, or any other number kept as its text.
#[derive(Clone, Debug, PartialEq)]
pub enum JsonNumber {
    PosInt(u64),
    NegInt(i64),
    Float(String),
}

/// A JSON value.  Objects keep their members in document order.
#[derive(Debug, PartialEq)]
pub enum JsonValue {
    Null,
    Bool(bool),
    Number(JsonNumber),
    String(String),
    Array(Vec<JsonValue>),
    Object(Vec<(String, JsonValue)>),
}

/// The value of the first member named `key`.
pub open spec fn entries_get(entries: Seq<(String, JsonValue)>, key: Seq<char>) -> Option<JsonValue>
    decreases entries.len(),
{
    if entries.len() == 0 {
        None
    } else if entries[0].0@ == key {
        Some(entries[0].1)
    } else {
        entries_get(entries.drop_first(), key)
    }
}

/// Member lookup (`serde_json::Value::get` with a string key): only objects
/// have members.
pub open spec fn json_get(v: JsonValue, key: Seq<char>) -> Option<JsonValue> {
    match v {
        JsonValue::Object(entries) => entries_get(entries@, key),
        _ => None,
    }
}

/// The value reached by following member names in order.
pub open spec fn json_at(v: JsonValue, path: Seq<Seq<char>>) -> Option<JsonValue>
    decreases path.len(),
{
    if path.len() == 0 {
        Some(v)
    } else {
        match json_get(v, path[0]) {
            Some(next) => json_at(next, path.drop_first()),
            None => None,
        }
    }
}

/// The views of a path of member names.
pub open spec fn path_view(path: Seq<&str>) -> Seq<Seq<char>> {
    path.map_values(|p: &str| p@)
}

/// The text of a string value.
pub open spec fn json_as_str(v: Option<JsonValue>) -> Option<Seq<char>> {
    match v {
        Some(JsonValue::String(s)) => Some(s@),
        _ => None,
    }
}

/// A non-negative integer value (`serde_json::Value::as_u64`).
pub open spec fn json_as_u64(v: Option<JsonValue>) -> Option<u64> {
    match v {
        Some(JsonValue::Number(JsonNumber::PosInt(n))) => Some(n),
        _ => None,
    }
}

/// An integer value that fits in `i64` (`serde_json::Value::as_i64`).
pub open spec fn json_as_i64(v: Option<JsonValue>) -> Option<i64> {
    match v {
        Some(JsonValue::Number(JsonNumber::PosInt(n))) => if n <= i64::MAX {
            Some(n as i64)
        } else {
            None
        },
        Some(JsonValue::Number(JsonNumber::NegInt(n))) => Some(n),
        _ => None,
    }
}

/// A boolean value.
pub open spec fn json_as_bool(v: Option<JsonValue>) -> Option<bool> {
    match v {
        Some(JsonValue::Bool(b)) => Some(b),
        _ => None,
    }
}

/// The items of an array value.
pub open spec fn json_as_array(v: Option<JsonValue>) -> Option<Seq<JsonValue>> {
    match v {
        Some(JsonValue::Array(items)) => Some(items@),
        _ => None,
    }
}

/// The members of an object value.
pub open spec fn json_as_object(v: Option<JsonValue>) -> Option<Seq<(String, JsonValue)>> {
    match v {
        Some(JsonValue::Object(entries)) => Some(entries@),
        _ => None,
    }
}

/// The lowercase hexadecimal digit of `d` (0..=15).
pub open spec fn hex_char(d: int) -> char {
    if d < 10 {
        crate::text::digit_char(d as nat)
    } else if d == 10 {
        'a'
    } else if d == 11 {
        'b'
    } else if d == 12 {
        'c'
    } else if d == 13 {
        'd'
    } else if d == 14 {
        'e'
    } else {
        'f'
    }
}

/// One character inside a JSON string literal: quote, backslash and control
/// characters are escaped as `serde_json` escapes them.
pub open spec fn escape_char(c: char) -> Seq<char> {
    if c == '"' {
        seq!['\\', '"']
    } else if c == '\\' {
        seq!['\\', '\\']
    } else if c == '\x08' {
        seq!['\\', 'b']
    } else if c == '\t' {
        seq!['\\', 't']
    } else if c == '\n' {
        seq!['\\', 'n']
    } else if c == '\x0C' {
        seq!['\\', 'f']
    } else if c == '\r' {
        seq!['\\', 'r']
    } else if (c as int) < 0x20 {
        seq!['\\', 'u', '0', '0', hex_char((c as int) / 16), hex_char((c as int) % 16)]
    } else {
        seq![c]
    }
}

/// The characters of a text escaped for a JSON string literal.
pub open spec fn escape_seq(s: Seq<char>) -> Seq<char>
    decreases s.len(),
{
    if s.len() == 0 {
        Seq::empty()
    } else {
        escape_seq(s.drop_last()) + escape_char(s.last())
    }
}

/// A JSON string literal.
pub open spec fn quoted(s: Seq<char>) -> Seq<char> {
    seq!['"'] + escape_seq(s) + seq!['"']
}

/// The compact text of a number.
pub open spec fn number_text(n: JsonNumber) -> Seq<char> {
    match n {
        JsonNumber::PosInt(u) => decimal(u as nat),
        JsonNumber::NegInt(i) => signed_decimal(i as int),
        JsonNumber::Float(text) => text@,
    }
}

/// Compact JSON text of a value, as `serde_json::Value`'s `Display` renders it.
pub open spec fn json_text(v: JsonValue) -> Seq<char>
    decreases v,
{
    match v {
        JsonValue::Null => "null"@,
        JsonValue::Bool(b) => if b { "true"@ } else { "false"@ },
        JsonValue::Number(n) => number_text(n),
        JsonValue::String(s) => quoted(s@),
        JsonValue::Array(items) => seq!['['] + items_text(items@) + seq![']'],
        JsonValue::Object(entries) => seq!['{'] + entries_text(entries@) + seq!['}'],
    }
}

/// Comma-separated compact texts of array items.
pub open spec fn items_text(items: Seq<JsonValue>) -> Seq<char>
    decreases items,
{
    if items.len() == 0 {
        Seq::empty()
    } else if items.len() == 1 {
        json_text(items[0])
    } else {
        items_text(items.subrange(0, items.len() - 1)) + seq![','] + json_text(
            items[items.len() - 1],
        )
    }
}

/// Comma-separated `"key":value` texts of object members.
pub open spec fn entries_text(entries: Seq<(String, JsonValue)>) -> Seq<char>
    decreases entries,
{
    if entries.len() == 0 {
        Seq::empty()
    } else if entries.len() == 1 {
        quoted(entries[0].0@) + seq![':'] + json_text(entries[0].1)
    } else {
        entries_text(entries.subrange(0, entries.len() - 1)) + seq![','] + quoted(
            entries[entries.len() - 1].0@,
        ) + seq![':'] + json_text(entries[entries.len() - 1].1)
    }
}

/// The text shown for a value: a string as itself, anything else as its
/// compact JSON text.
pub open spec fn display_text(v: JsonValue) -> Seq<char> {
    match v {
        JsonValue::String(s) => s@,
        _ => json_text(v),
    }
}


/// The view of an optional text.
pub open spec fn opt_text(o: Option<&str>) -> Option<Seq<char>> {
    match o {
        Some(t) => Some(t@),
        None => None,
    }
}

/// The view of an optional borrowed value.
pub open spec fn opt_value(o: Option<&JsonValue>) -> Option<JsonValue> {
    match o {
        Some(v) => Some(*v),
        None => None,
    }
}

impl JsonValue {
    /// Member lookup by name (`serde_json::Value::get`).
    pub fn get(&self, key: &str) -> (r: Option<&JsonValue>)
        ensures
            opt_value(r) == json_get(*self, key@),
    {
        match self {
            JsonValue::Object(entries) => {
                let mut i: usize = 0;
                assert(entries@.skip(0) =~= entries@);
                while i < entries.len()
                    invariant
                        *self == JsonValue::Object(*entries),
                        i <= entries@.len(),
                        entries_get(entries@, key@) == entries_get(entries@.skip(i as int), key@),
                    decreases entries@.len() - i,
                {
                    assert(entries@.skip(i as int)[0] == entries@[i as int]);
                    if crate::text::str_eq(entries[i].0.as_str(), key) {
                        assert(entries@.skip(i as int).len() > 0);
                        assert(entries_get(entries@.skip(i as int), key@) == Some(entries@[i as int].1));
                        return Some(&entries[i].1);
                    }
                    assert(entries@.skip(i as int).drop_first() =~= entries@.skip(i + 1));
                    i = i + 1;
                }
                None
            },
            _ => None,
        }
    }

    /// The value reached by following member names in order.
    pub fn at(&self, path: &[&str]) -> (r: Option<&JsonValue>)
        ensures
            opt_value(r) == json_at(*self, path_view(path@)),
    {
        let mut current: &JsonValue = self;
        let mut i: usize = 0;
        assert(path_view(path@).skip(0) =~= path_view(path@));
        while i < path.len()
            invariant
                i <= path@.len(),
                json_at(*self, path_view(path@)) == json_at(*current, path_view(path@).skip(i as int)),
            decreases path@.len() - i,
        {
            assert(path_view(path@).skip(i as int)[0] == path[i as int]@);
            assert(path_view(path@).skip(i as int).drop_first() =~= path_view(path@).skip(i + 1));
            match current.get(path[i]) {
                Some(next) => {
                    current = next;
                },
                None => {
                    return None;
                },
            }
            i = i + 1;
        }
        assert(path_view(path@).skip(i as int).len() == 0);
        Some(current)
    }

    /// The text of a string value (`serde_json::Value::as_str`).
    pub fn as_str(&self) -> (r: Option<&str>)
        ensures
            opt_text(r) == json_as_str(Some(*self)),
    {
        match self {
            JsonValue::String(s) => Some(s.as_str()),
            _ => None,
        }
    }

    /// A non-negative integer value (`serde_json::Value::as_u64`).
    pub fn as_u64(&self) -> (r: Option<u64>)
        ensures
            r == json_as_u64(Some(*self)),
    {
        match self {
            JsonValue::Number(JsonNumber::PosInt(n)) => Some(*n),
            _ => None,
        }
    }

    /// An integer value that fits in `i64` (`serde_json::Value::as_i64`).
    pub fn as_i64(&self) -> (r: Option<i64>)
        ensures
            r == json_as_i64(Some(*self)),
    {
        match self {
            JsonValue::Number(JsonNumber::PosInt(n)) => if *n <= 9223372036854775807u64 {
                Some(*n as i64)
            } else {
                None
            },
            JsonValue::Number(JsonNumber::NegInt(n)) => Some(*n),
            _ => None,
        }
    }

    /// A boolean value.
    pub fn as_bool(&self) -> (r: Option<bool>)
        ensures
            r == json_as_bool(Some(*self)),
    {
        match self {
            JsonValue::Bool(b) => Some(*b),
            _ => None,
        }
    }

    /// The items of an array value.
    pub fn as_array(&self) -> (r: Option<&Vec<JsonValue>>)
        ensures
            match json_as_array(Some(*self)) {
                Some(items) => r matches Some(v) && v@ == items,
                None => r is None,
            },
    {
        match self {
            JsonValue::Array(items) => Some(items),
            _ => None,
        }
    }

    /// The members of an object value.
    pub fn as_object(&self) -> (r: Option<&Vec<(String, JsonValue)>>)
        ensures
            match json_as_object(Some(*self)) {
                Some(entries) => r matches Some(v) && v@ == entries,
                None => r is None,
            },
    {
        match self {
            JsonValue::Object(entries) => Some(entries),
            _ => None,
        }
    }

    /// Compact JSON text (`serde_json::Value`'s `Display`).
    pub fn to_json_text(&self) -> (r: String)
        ensures
            r@ == json_text(*self),
    {
        let mut out = String::new();
        self.write_json_text(&mut out);
        assert(out@ =~= json_text(*self));
        out
    }

    fn write_json_text(&self, out: &mut String)
        ensures
            final(out)@ == old(out)@ + json_text(*self),
        decreases self,
    {
        match self {
            JsonValue::Null => {
                push_str(out, "null");
            },
            JsonValue::Bool(b) => {
                if *b {
                    push_str(out, "true");
                } else {
                    push_str(out, "false");
                }
            },
            JsonValue::Number(n) => {
                match n {
                    JsonNumber::PosInt(u) => push_decimal(out, *u),
                    JsonNumber::NegInt(i) => push_signed_decimal(out, *i),
                    JsonNumber::Float(t) => push_str(out, t.as_str()),
                }
            },
            JsonValue::String(s) => {
                write_quoted(out, s.as_str());
            },
            JsonValue::Array(items) => {
                let ghost start = out@;
                push_char(out, '[');
                let mut i: usize = 0;
                while i < items.len()
                    invariant
                        *self == JsonValue::Array(*items),
                        i <= items@.len(),
                        out@ == start + seq!['['] + items_text(items@.take(i as int)),
                    decreases items@.len() - i,
                {
                    if i > 0 {
                        push_char(out, ',');
                    }
                    proof {
                        assert(decreases_to!(*self => (*self)->Array_0));
                        assert(decreases_to!(*items => items@));
                        assert(decreases_to!(items@ => items@[i as int]));
                    }
                    items[i].write_json_text(out);
                    proof {
                        let t = items@.take(i + 1);
                        assert(t.subrange(0, t.len() - 1) =~= items@.take(i as int));
                        assert(t[t.len() - 1] == items@[i as int]);
                        if i == 0 {
                            assert(items@.take(0) =~= Seq::<JsonValue>::empty());
                        }
                    }
                    i = i + 1;
                    assert(out@ =~= start + seq!['['] + items_text(items@.take(i as int)));
                }
                push_char(out, ']');
                assert(items@.take(items@.len() as int) =~= items@);
            },
            JsonValue::Object(entries) => {
                let ghost start = out@;
                push_char(out, '{');
                let mut i: usize = 0;
                while i < entries.len()
                    invariant
                        *self == JsonValue::Object(*entries),
                        i <= entries@.len(),
                        out@ == start + seq!['{'] + entries_text(entries@.take(i as int)),
                    decreases entries@.len() - i,
                {
                    if i > 0 {
                        push_char(out, ',');
                    }
                    write_quoted(out, entries[i].0.as_str());
                    push_char(out, ':');
                    proof {
                        assert(decreases_to!(*self => (*self)->Object_0));
                        assert(decreases_to!(*entries => entries@));
                        assert(decreases_to!(entries@ => entries@[i as int]));
                        assert(decreases_to!(entries@[i as int] => entries@[i as int].1));
                    }
                    entries[i].1.write_json_text(out);
                    proof {
                        let t = entries@.take(i + 1);
                        assert(t.subrange(0, t.len() - 1) =~= entries@.take(i as int));
                        assert(t[t.len() - 1] == entries@[i as int]);
                        if i == 0 {
                            assert(entries@.take(0) =~= Seq::<(String, JsonValue)>::empty());
                        }
                    }
                    i = i + 1;
                    assert(out@ =~= start + seq!['{'] + entries_text(entries@.take(i as int)));
                }
                push_char(out, '}');
                assert(entries@.take(entries@.len() as int) =~= entries@);
            },
        }
    }

    /// The text shown for a value: strings as themselves, anything else as
    /// compact JSON.
    pub fn display_string(&self) -> (r: String)
        ensures
            r@ == display_text(*self),
    {
        match self {
            JsonValue::String(s) => s.clone(),
            _ => self.to_json_text(),
        }
    }
}

fn hex_digit(d: u32) -> (c: char)
    requires
        d < 16,
    ensures
        c == hex_char(d as int),
{
    if d == 0 { '0' }
    else if d == 1 { '1' }
    else if d == 2 { '2' }
    else if d == 3 { '3' }
    else if d == 4 { '4' }
    else if d == 5 { '5' }
    else if d == 6 { '6' }
    else if d == 7 { '7' }
    else if d == 8 { '8' }
    else if d == 9 { '9' }
    else if d == 10 { 'a' }
    else if d == 11 { 'b' }
    else if d == 12 { 'c' }
    else if d == 13 { 'd' }
    else if d == 14 { 'e' }
    else { 'f' }
}

fn write_escaped_char(out: &mut String, c: char)
    ensures
        final(out)@ == old(out)@ + escape_char(c),
{
    let ghost start = out@;
    if c == '"' {
        push_char(out, '\\');
        push_char(out, '"');
    } else if c == '\\' {
        push_char(out, '\\');
        push_char(out, '\\');
    } else if c == '\x08' {
        push_char(out, '\\');
        push_char(out, 'b');
    } else if c == '\t' {
        push_char(out, '\\');
        push_char(out, 't');
    } else if c == '\n' {
        push_char(out, '\\');
        push_char(out, 'n');
    } else if c == '\x0C' {
        push_char(out, '\\');
        push_char(out, 'f');
    } else if c == '\r' {
        push_char(out, '\\');
        push_char(out, 'r');
    } else if (c as u32) < 0x20 {
        let code = c as u32;
        push_char(out, '\\');
        push_char(out, 'u');
        push_char(out, '0');
        push_char(out, '0');
        push_char(out, hex_digit(code / 16));
        push_char(out, hex_digit(code % 16));
    } else {
        push_char(out, c);
    }
    assert(out@ =~= start + escape_char(c));
}

/// Appends `s` as a JSON string literal.
fn write_quoted(out: &mut String, s: &str)
    ensures
        final(out)@ == old(out)@ + quoted(s@),
{
    let chars = crate::text::chars_of(s);
    let ghost start = out@;
    push_char(out, '"');
    let mut i: usize = 0;
    while i < chars.len()
        invariant
            i <= chars@.len(),
            chars@ == s@,
            out@ == start + seq!['"'] + escape_seq(chars@.take(i as int)),
        decreases chars@.len() - i,
    {
        write_escaped_char(out, chars[i]);
        assert(chars@.take(i + 1).drop_last() =~= chars@.take(i as int));
        i = i + 1;
        assert(out@ =~= start + seq!['"'] + escape_seq(chars@.take(i as int)));
    }
    push_char(out, '"');
    assert(chars@.take(chars@.len() as int) =~= chars@);
    assert(out@ =~= start + quoted(s@));
}

/// The text at a path, when it is a string (`value_str`).
pub fn value_str<'a>(value: &'a JsonValue, path: &[&str]) -> (r: Option<&'a str>)
    ensures
        opt_text(r) == json_as_str(json_at(*value, path_view(path@))),
{
    match value.at(path) {
        Some(v) => v.as_str(),
        None => None,
    }
}

/// The non-negative integer at a path (`value_u64`).
pub fn value_u64(value: &JsonValue, path: &[&str]) -> (r: Option<u64>)
    ensures
        r == json_as_u64(json_at(*value, path_view(path@))),
{
    match value.at(path) {
        Some(v) => v.as_u64(),
        None => None,
    }
}

/// The integer at a path, when it fits in `i64` (`value_i64`).
pub fn value_i64(value: &JsonValue, path: &[&str]) -> (r: Option<i64>)
    ensures
        r == json_as_i64(json_at(*value, path_view(path@))),
{
    match value.at(path) {
        Some(v) => v.as_i64(),
        None => None,
    }
}

/// The boolean at a path (`value_bool`).
pub fn value_bool(value: &JsonValue, path: &[&str]) -> (r: Option<bool>)
    ensures
        r == json_as_bool(json_at(*value, path_view(path@))),
{
    match value.at(path) {
        Some(v) => v.as_bool(),
        None => None,
    }
}

/// The array at a path (`value_array`).
pub fn value_array<'a>(value: &'a JsonValue, path: &[&str]) -> (r: Option<&'a Vec<JsonValue>>)
    ensures
        match json_as_array(json_at(*value, path_view(path@))) {
            Some(items) => r matches Some(v) && v@ == items,
            None => r is None,
        },
{
    match value.at(path) {
        Some(v) => v.as_array(),
        None => None,
    }
}

} // verus!
