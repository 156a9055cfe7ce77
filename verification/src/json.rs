//! JSON values as the library reads them, and the few questions it asks of
//! them: a field, a value at a path, an integer, the first readable text,
//! and the compact text of a value.

use vstd::prelude::*;

use crate::digest::hex_digit;
use crate::orchestrator::events::{non_empty_text, opt_view};
use crate::orchestrator::order::{
    lemma_text_lt_irreflexive, lemma_text_lt_transitive, lemma_text_lt_trichotomy, text_less,
    text_lt,
};
use crate::text::{
    append_decimal, append_signed_decimal, decimal, normalize_whitespace, normalize_ws_spec,
    parse_unsigned, parse_unsigned_spec, push_char, signed_decimal, trim, trim_seq,
};

verus! {

/// A JSON value. An object keeps its entries in the order its map walks
/// them, each key once; a number keeps its JSON text and, when it is a
/// non-negative integer that fits, its value.
#[derive(Debug)]
pub enum JsonValue {
    Null,
    Bool(bool),
    Number { text: String, unsigned: Option<u64> },
    Str(String),
    Array(Vec<JsonValue>),
    Object(Vec<(String, JsonValue)>),
}

/// The value of the first entry with that key.
pub open spec fn entries_get(entries: Seq<(String, JsonValue)>, key: Seq<char>) -> Option<JsonValue>
    decreases entries.len(),
{
    if entries.len() == 0 {
        None
    } else if entries[0].0@ == key {
        Some(entries[0].1)
    } else {
        entries_get(entries.drop_first(), key)
    }
}

/// `Value::get` with a key: an object's field; nothing for other values.
pub open spec fn json_get(v: JsonValue, key: Seq<char>) -> Option<JsonValue> {
    match v {
        JsonValue::Object(entries) => entries_get(entries@, key),
        _ => None,
    }
}

/// The value reached by following the keys of a path from `v`.
pub open spec fn json_at_path(v: JsonValue, path: Seq<Seq<char>>) -> Option<JsonValue>
    decreases path.len(),
{
    if path.len() == 0 {
        Some(v)
    } else {
        match json_get(v, path[0]) {
            Some(next) => json_at_path(next, path.drop_first()),
            None => None,
        }
    }
}

/// `Value::as_str`.
pub open spec fn json_str(v: JsonValue) -> Option<Seq<char>> {
    match v {
        JsonValue::Str(s) => Some(s@),
        _ => None,
    }
}

/// An unsigned integer read from a value: a number's value, or a string
/// that parses as one once trimmed.
pub open spec fn integer_like_spec(v: JsonValue) -> Option<nat> {
    match v {
        JsonValue::Number { unsigned, .. } => match unsigned {
            Some(n) => Some(n as nat),
            None => None,
        },
        JsonValue::Str(s) => parse_unsigned_spec(trim_seq(s@), u64::MAX as nat),
        _ => None,
    }
}

fn entries_lookup<'a>(entries: &'a Vec<(String, JsonValue)>, key: &str) -> (res: Option<&'a JsonValue>)
    ensures
        match res {
            Some(r) => entries_get(entries@, key@) == Some(*r),
            None => entries_get(entries@, key@) is None,
        },
{
    let mut i: usize = 0;
    proof {
        assert(entries@.subrange(0, entries@.len() as int) =~= entries@);
    }
    while i < entries.len()
        invariant
            i <= entries@.len(),
            entries_get(entries@, key@) == entries_get(entries@.subrange(i as int, entries@.len() as int), key@),
        decreases entries@.len() - i,
    {
        proof {
            assert(entries@.subrange(i as int, entries@.len() as int).drop_first() =~= entries@.subrange(
                i + 1,
                entries@.len() as int,
            ));
        }
        if crate::text::str_eq(entries[i].0.as_str(), key) {
            return Some(&entries[i].1);
        }
        i = i + 1;
    }
    None
}

/// `Value::get` with a key.
pub fn get_field<'a>(v: &'a JsonValue, key: &str) -> (res: Option<&'a JsonValue>)
    ensures
        match res {
            Some(r) => json_get(*v, key@) == Some(*r),
            None => json_get(*v, key@) is None,
        },
{
    match v {
        JsonValue::Object(entries) => entries_lookup(entries, key),
        _ => None,
    }
}

/// The value at a path of keys, if every step finds its key.
pub fn value_at_path<'a>(v: &'a JsonValue, path: &[&str]) -> (res: Option<&'a JsonValue>)
    ensures
        match res {
            Some(r) => json_at_path(*v, path@.map_values(|s: &str| s@)) == Some(*r),
            None => json_at_path(*v, path@.map_values(|s: &str| s@)) is None,
        },
{
    let ghost keys = path@.map_values(|s: &str| s@);
    let mut current: &JsonValue = v;
    let mut i: usize = 0;
    proof {
        assert(keys.subrange(0, keys.len() as int) =~= keys);
    }
    while i < path.len()
        invariant
            i <= path@.len(),
            keys == path@.map_values(|s: &str| s@),
            json_at_path(*v, keys) == json_at_path(*current, keys.subrange(i as int, keys.len() as int)),
        decreases path@.len() - i,
    {
        let ghost rest = keys.subrange(i as int, keys.len() as int);
        proof {
            assert(rest[0] == path@[i as int]@);
            assert(rest.drop_first() =~= keys.subrange(i + 1, keys.len() as int));
        }
        match get_field(current, path[i]) {
            Some(next) => {
                current = next;
            },
            None => {
                return None;
            },
        }
        i = i + 1;
    }
    proof {
        assert(keys.subrange(keys.len() as int, keys.len() as int) =~= Seq::<Seq<char>>::empty());
    }
    Some(current)
}

/// A number's unsigned value, or a string that parses as one.
pub fn integer_like(v: &JsonValue) -> (res: Option<u64>)
    ensures
        match res {
            Some(n) => integer_like_spec(*v) == Some(n as nat),
            None => integer_like_spec(*v) is None,
        },
{
    match v {
        JsonValue::Number { unsigned, .. } => *unsigned,
        JsonValue::Str(s) => {
            let t = trim(s.as_str());
            parse_unsigned(t.as_str(), u64::MAX)
        },
        _ => None,
    }
}

/// A character as it stands inside a JSON string: quote and backslash
/// escaped, the control characters by their short escape or as `\u00XX`
/// in lowercase hex.
pub open spec fn escape_char(c: char) -> Seq<char> {
    let v = c as u32;
    if c == '"' {
        seq!['\\', '"']
    } else if c == '\\' {
        seq!['\\', '\\']
    } else if v == 8 {
        seq!['\\', 'b']
    } else if v == 9 {
        seq!['\\', 't']
    } else if v == 10 {
        seq!['\\', 'n']
    } else if v == 12 {
        seq!['\\', 'f']
    } else if v == 13 {
        seq!['\\', 'r']
    } else if v < 32 {
        seq!['\\', 'u', '0', '0', hex_digit((v / 16) as nat), hex_digit((v % 16) as nat)]
    } else {
        seq![c]
    }
}

pub open spec fn escape_text(s: Seq<char>) -> Seq<char>
    decreases s.len(),
{
    if s.len() == 0 {
        Seq::empty()
    } else {
        escape_text(s.drop_last()) + escape_char(s.last())
    }
}

/// A string as a JSON string literal.
pub open spec fn quoted(s: Seq<char>) -> Seq<char> {
    seq!['"'] + escape_text(s) + seq!['"']
}

/// The compact JSON text of a value: no white space, entries in the
/// object's order, numbers as their own text.
pub open spec fn json_text(v: JsonValue) -> Seq<char>
    decreases v,
{
    match v {
        JsonValue::Null => "null"@,
        JsonValue::Bool(b) => if b {
            "true"@
        } else {
            "false"@
        },
        JsonValue::Number { text, .. } => text@,
        JsonValue::Str(s) => quoted(s@),
        JsonValue::Array(items) => seq!['['] + items_text(items@) + seq![']'],
        JsonValue::Object(entries) => seq!['{'] + entries_text(entries@) + seq!['}'],
    }
}

/// Values' texts separated by commas.
pub open spec fn items_text(items: Seq<JsonValue>) -> Seq<char>
    decreases items,
{
    if items.len() == 0 {
        Seq::empty()
    } else if items.len() == 1 {
        json_text(items[0])
    } else {
        items_text(items.subrange(0, items.len() - 1)) + seq![','] + json_text(
            items[items.len() - 1],
        )
    }
}

/// Entries as `"key":value`, separated by commas.
pub open spec fn entries_text(entries: Seq<(String, JsonValue)>) -> Seq<char>
    decreases entries,
{
    if entries.len() == 0 {
        Seq::empty()
    } else if entries.len() == 1 {
        quoted(entries[0].0@) + seq![':'] + json_text(entries[0].1)
    } else {
        entries_text(entries.subrange(0, entries.len() - 1)) + seq![','] + quoted(
            entries[entries.len() - 1].0@,
        ) + seq![':'] + json_text(entries[entries.len() - 1].1)
    }
}

fn append_str(out: &mut String, s: &str)
    ensures
        final(out)@ == old(out)@ + s@,
{
    out.append(s);
}

fn write_escaped(out: &mut String, s: &str)
    ensures
        final(out)@ == old(out)@ + quoted(s@),
{
    let ghost start = out@;
    push_char(out, '"');
    let n: usize = s.unicode_len();
    let mut i: usize = 0;
    while i < n
        invariant
            n == s@.len(),
            i <= n,
            out@ == start + seq!['"'] + escape_text(s@.subrange(0, i as int)),
        decreases n - i,
    {
        let c = s.get_char(i);
        let v: u32 = c as u32;
        let ghost before = out@;
        if c == '"' {
            append_str(out, "\\\"");
        } else if c == '\\' {
            append_str(out, "\\\\");
        } else if v == 8 {
            append_str(out, "\\b");
        } else if v == 9 {
            append_str(out, "\\t");
        } else if v == 10 {
            append_str(out, "\\n");
        } else if v == 12 {
            append_str(out, "\\f");
        } else if v == 13 {
            append_str(out, "\\r");
        } else if v < 32 {
            append_str(out, "\\u00");
            let hi: u32 = v / 16;
            let lo: u32 = v % 16;
            push_char(out, hex_char(hi));
            push_char(out, hex_char(lo));
        } else {
            push_char(out, c);
        }
        proof {
            reveal_strlit("\\\"");
            reveal_strlit("\\\\");
            reveal_strlit("\\b");
            reveal_strlit("\\t");
            reveal_strlit("\\n");
            reveal_strlit("\\f");
            reveal_strlit("\\r");
            reveal_strlit("\\u00");
            assert(out@ =~= before + escape_char(c));
            assert(s@.subrange(0, i + 1).drop_last() =~= s@.subrange(0, i as int));
        }
        i = i + 1;
    }
    proof {
        assert(s@.subrange(0, n as int) =~= s@);
    }
    push_char(out, '"');
    proof {
        assert(out@ =~= start + quoted(s@));
    }
}

fn write_json(v: &JsonValue, out: &mut String)
    ensures
        final(out)@ == old(out)@ + json_text(*v),
    decreases v,
{
    match v {
        JsonValue::Null => {
            append_str(out, "null");
        },
        JsonValue::Bool(b) => {
            if *b {
                append_str(out, "true");
            } else {
                append_str(out, "false");
            }
        },
        JsonValue::Number { text, .. } => {
            append_str(out, text.as_str());
        },
        JsonValue::Str(s) => {
            write_escaped(out, s.as_str());
        },
        JsonValue::Array(items) => {
            let ghost start = out@;
            push_char(out, '[');
            let mut i: usize = 0;
            while i < items.len()
                invariant
                    i <= items@.len(),
                    *v == JsonValue::Array(*items),
                    out@ == start + seq!['['] + items_text(items@.subrange(0, i as int)),
                decreases items@.len() - i,
            {
                let ghost before = out@;
                if i > 0 {
                    push_char(out, ',');
                }
                proof {
                    assert(decreases_to!(*v => (*v)->Array_0));
                    assert(decreases_to!(items => items@));
                    assert(decreases_to!(items@ => items@[i as int]));
                }
                write_json(&items[i], out);
                proof {
                    let pre = items@.subrange(0, i + 1);
                    assert(pre.subrange(0, pre.len() - 1) =~= items@.subrange(0, i as int));
                    assert(pre[pre.len() - 1] == items@[i as int]);
                }
                i = i + 1;
            }
            proof {
                assert(items@.subrange(0, items@.len() as int) =~= items@);
            }
            push_char(out, ']');
        },
        JsonValue::Object(entries) => {
            let ghost start = out@;
            push_char(out, '{');
            let mut i: usize = 0;
            while i < entries.len()
                invariant
                    i <= entries@.len(),
                    *v == JsonValue::Object(*entries),
                    out@ == start + seq!['{'] + entries_text(entries@.subrange(0, i as int)),
                decreases entries@.len() - i,
            {
                if i > 0 {
                    push_char(out, ',');
                }
                write_escaped(out, entries[i].0.as_str());
                push_char(out, ':');
                proof {
                    assert(decreases_to!(*v => (*v)->Object_0));
                    assert(decreases_to!(entries => entries@));
                    assert(decreases_to!(entries@ => entries@[i as int]));
                    assert(decreases_to!(entries@[i as int] => entries@[i as int].1));
                }
                write_json(&entries[i].1, out);
                proof {
                    let pre = entries@.subrange(0, i + 1);
                    assert(pre.subrange(0, pre.len() - 1) =~= entries@.subrange(0, i as int));
                    assert(pre[pre.len() - 1] == entries@[i as int]);
                }
                i = i + 1;
            }
            proof {
                assert(entries@.subrange(0, entries@.len() as int) =~= entries@);
            }
            push_char(out, '}');
        },
    }
}

/// The compact JSON text of a value (`Value::to_string`).
pub fn to_json_text(v: &JsonValue) -> (res: String)
    ensures
        res@ == json_text(*v),
{
    let mut out = String::new();
    write_json(v, &mut out);
    proof {
        assert(out@ =~= json_text(*v));
    }
    out
}

/// The keys whose values are read first, in this order, when looking for a
/// readable text in an object.
pub open spec fn preferred_keys() -> Seq<Seq<char>> {
    seq![
        "summary"@,
        "message"@,
        "text"@,
        "title"@,
        "command"@,
        "tool_name"@,
        "toolName"@,
        "name"@,
    ]
}

/// How deep the search for a readable text goes.
pub const MAX_TEXT_SEARCH_DEPTH: usize = 5;

/// The first readable text in a value, searching at most `depth` levels: a
/// string that is not blank, whitespace-normalized; in an object, the
/// preferred keys first, then every value in order; in an array, each item
/// in order.
pub open spec fn preferred_text(v: JsonValue, depth: nat) -> Option<Seq<char>>
    decreases depth, 0nat,
{
    if depth == 0 {
        None
    } else {
        match v {
            JsonValue::Str(s) => non_empty_text(normalize_ws_spec(s@)),
            JsonValue::Object(entries) => match preferred_by_keys(
                entries@,
                preferred_keys(),
                (depth - 1) as nat,
            ) {
                Some(t) => Some(t),
                None => first_preferred_entry(entries@, (depth - 1) as nat),
            },
            JsonValue::Array(items) => first_preferred_item(items@, (depth - 1) as nat),
            _ => None,
        }
    }
}

pub open spec fn preferred_by_keys(
    entries: Seq<(String, JsonValue)>,
    keys: Seq<Seq<char>>,
    depth: nat,
) -> Option<Seq<char>>
    decreases depth, keys.len() + 1,
{
    if keys.len() == 0 {
        None
    } else {
        let found = match entries_get(entries, keys[0]) {
            Some(c) => preferred_text(c, depth),
            None => None,
        };
        match found {
            Some(t) => Some(t),
            None => preferred_by_keys(entries, keys.drop_first(), depth),
        }
    }
}

pub open spec fn first_preferred_entry(entries: Seq<(String, JsonValue)>, depth: nat) -> Option<
    Seq<char>,
>
    decreases depth, entries.len() + 1,
{
    if entries.len() == 0 {
        None
    } else {
        match preferred_text(entries[0].1, depth) {
            Some(t) => Some(t),
            None => first_preferred_entry(entries.drop_first(), depth),
        }
    }
}

pub open spec fn first_preferred_item(items: Seq<JsonValue>, depth: nat) -> Option<Seq<char>>
    decreases depth, items.len() + 1,
{
    if items.len() == 0 {
        None
    } else {
        match preferred_text(items[0], depth) {
            Some(t) => Some(t),
            None => first_preferred_item(items.drop_first(), depth),
        }
    }
}

fn text_by_keys(entries: &Vec<(String, JsonValue)>, keys: &[&str], depth: usize) -> (res: Option<
    String,
>)
    ensures
        opt_view(res) == preferred_by_keys(entries@, keys@.map_values(|s: &str| s@), depth as nat),
    decreases depth, 1nat,
{
    let ghost all = keys@.map_values(|s: &str| s@);
    let mut k: usize = 0;
    proof {
        assert(all.subrange(0, all.len() as int) =~= all);
    }
    while k < keys.len()
        invariant
            k <= keys@.len(),
            all == keys@.map_values(|s: &str| s@),
            preferred_by_keys(entries@, all, depth as nat) == preferred_by_keys(
                entries@,
                all.subrange(k as int, all.len() as int),
                depth as nat,
            ),
        decreases keys@.len() - k,
    {
        let ghost rest = all.subrange(k as int, all.len() as int);
        proof {
            assert(rest[0] == keys@[k as int]@);
            assert(rest.drop_first() =~= all.subrange(k + 1, all.len() as int));
        }
        match entries_lookup(entries, keys[k]) {
            Some(c) => {
                let found = find_preferred_text_with_depth(c, depth);
                if found.is_some() {
                    return found;
                }
            },
            None => {},
        }
        k = k + 1;
    }
    None
}

/// The first readable text in a value, at most `depth` levels down.
pub fn find_preferred_text_with_depth(v: &JsonValue, depth: usize) -> (res: Option<String>)
    ensures
        opt_view(res) == preferred_text(*v, depth as nat),
    decreases depth, 0nat,
{
    if depth == 0 {
        return None;
    }
    match v {
        JsonValue::Str(s) => {
            let t = normalize_whitespace(s.as_str());
            if t.unicode_len() > 0 {
                Some(t)
            } else {
                None
            }
        },
        JsonValue::Object(entries) => {
            let keys: [&str; 8] = [
                "summary",
                "message",
                "text",
                "title",
                "command",
                "tool_name",
                "toolName",
                "name",
            ];
            proof {
                assert(keys@.map_values(|s: &str| s@) =~= preferred_keys());
            }
            let by_key = text_by_keys(entries, keys.as_slice(), depth - 1);
            if by_key.is_some() {
                return by_key;
            }
            let mut i: usize = 0;
            proof {
                assert(entries@.subrange(0, entries@.len() as int) =~= entries@);
            }
            while i < entries.len()
                invariant
                    i <= entries@.len(),
                    depth >= 1,
                    *v == JsonValue::Object(*entries),
                    preferred_by_keys(entries@, preferred_keys(), (depth - 1) as nat) is None,
                    first_preferred_entry(entries@, (depth - 1) as nat) == first_preferred_entry(
                        entries@.subrange(i as int, entries@.len() as int),
                        (depth - 1) as nat,
                    ),
                decreases entries@.len() - i,
            {
                proof {
                    let rest = entries@.subrange(i as int, entries@.len() as int);
                    assert(rest[0] == entries@[i as int]);
                    assert(rest.drop_first() =~= entries@.subrange(i + 1, entries@.len() as int));
                }
                let found = find_preferred_text_with_depth(&entries[i].1, depth - 1);
                if found.is_some() {
                    return found;
                }
                i = i + 1;
            }
            None
        },
        JsonValue::Array(items) => {
            let mut i: usize = 0;
            proof {
                assert(items@.subrange(0, items@.len() as int) =~= items@);
            }
            while i < items.len()
                invariant
                    i <= items@.len(),
                    depth >= 1,
                    *v == JsonValue::Array(*items),
                    first_preferred_item(items@, (depth - 1) as nat) == first_preferred_item(
                        items@.subrange(i as int, items@.len() as int),
                        (depth - 1) as nat,
                    ),
                decreases items@.len() - i,
            {
                proof {
                    let rest = items@.subrange(i as int, items@.len() as int);
                    assert(rest[0] == items@[i as int]);
                    assert(rest.drop_first() =~= items@.subrange(i + 1, items@.len() as int));
                }
                let found = find_preferred_text_with_depth(&items[i], depth - 1);
                if found.is_some() {
                    return found;
                }
                i = i + 1;
            }
            None
        },
        _ => None,
    }
}

/// The first readable text in a value, at most five levels down.
pub fn find_preferred_text(v: &JsonValue) -> (res: Option<String>)
    ensures
        opt_view(res) == preferred_text(*v, MAX_TEXT_SEARCH_DEPTH as nat),
{
    find_preferred_text_with_depth(v, MAX_TEXT_SEARCH_DEPTH)
}

/// The keys of an object's entries are in strictly increasing order, as a
/// sorted map walks them.
pub open spec fn keys_sorted(entries: Seq<(String, JsonValue)>) -> bool {
    forall|i: int, j: int|
        0 <= i < j < entries.len() ==> text_lt(#[trigger] entries[i].0@, #[trigger] entries[j].0@)
}

proof fn lemma_entries_get_at(s: Seq<(String, JsonValue)>, k: Seq<char>, i: int)
    requires
        0 <= i < s.len(),
        s[i].0@ == k,
        forall|j: int| 0 <= j < i ==> #[trigger] s[j].0@ != k,
    ensures
        entries_get(s, k) == Some(s[i].1),
    decreases i,
{
    if i > 0 {
        assert(s[0].0@ != k);
        lemma_entries_get_at(s.drop_first(), k, i - 1);
    }
}

proof fn lemma_entries_get_absent(s: Seq<(String, JsonValue)>, k: Seq<char>)
    requires
        forall|j: int| 0 <= j < s.len() ==> #[trigger] s[j].0@ != k,
    ensures
        entries_get(s, k) is None,
    decreases s.len(),
{
    if s.len() > 0 {
        assert(s[0].0@ != k);
        lemma_entries_get_absent(s.drop_first(), k);
    }
}

proof fn lemma_entries_get_update(s: Seq<(String, JsonValue)>, i: int, x: (String, JsonValue), k: Seq<char>)
    requires
        0 <= i < s.len(),
        s[i].0@ == x.0@,
        x.0@ != k,
    ensures
        entries_get(s.update(i, x), k) == entries_get(s, k),
    decreases s.len(),
{
    if i > 0 {
        assert(s.update(i, x).drop_first() =~= s.drop_first().update(i - 1, x));
        lemma_entries_get_update(s.drop_first(), i - 1, x, k);
    } else {
        assert(s.update(i, x).drop_first() =~= s.drop_first());
    }
}

proof fn lemma_entries_get_insert(s: Seq<(String, JsonValue)>, i: int, x: (String, JsonValue), k: Seq<char>)
    requires
        0 <= i <= s.len(),
        x.0@ != k,
    ensures
        entries_get(s.insert(i, x), k) == entries_get(s, k),
    decreases s.len(),
{
    if i == 0 {
        assert(s.insert(i, x).drop_first() =~= s);
    } else {
        assert(s.insert(i, x)[0] == s[0]);
        assert(s.insert(i, x).drop_first() =~= s.drop_first().insert(i - 1, x));
        lemma_entries_get_insert(s.drop_first(), i - 1, x, k);
    }
}

/// `Map::insert` on an object's entries: the key now holds the value, in
/// place when it was there, else at its place in key order; every other
/// key keeps its value, and sorted entries stay sorted.
pub fn map_insert(entries: &mut Vec<(String, JsonValue)>, key: String, value: JsonValue)
    ensures
        entries_get(final(entries)@, key@) == Some(value),
        forall|k: Seq<char>|
            k != key@ ==> #[trigger] entries_get(final(entries)@, k) == entries_get(old(entries)@, k),
        keys_sorted(old(entries)@) ==> keys_sorted(final(entries)@),
{
    let ghost key_view = key@;
    let n = entries.len();
    let mut i: usize = 0;
    while i < n
        invariant
            n == entries@.len(),
            i <= n,
            key@ == key_view,
            entries@ == old(entries)@,
            forall|j: int| 0 <= j < i ==> #[trigger] entries@[j].0@ != key_view,
        decreases n - i,
    {
        if crate::text::str_eq(entries[i].0.as_str(), key.as_str()) {
            let ghost before = entries@;
            let x = (key, value);
            let _old = entries.remove(i);
            entries.insert(i, x);
            proof {
                assert(entries@ =~= before.update(i as int, x));
                lemma_entries_get_at(entries@, key_view, i as int);
                assert forall|k: Seq<char>| k != key_view implies #[trigger] entries_get(entries@, k)
                    == entries_get(before, k) by {
                    lemma_entries_get_update(before, i as int, x, k);
                }
                if keys_sorted(before) {
                    assert forall|a: int, b: int| 0 <= a < b < entries@.len() implies text_lt(
                        #[trigger] entries@[a].0@,
                        #[trigger] entries@[b].0@,
                    ) by {
                        assert(before[a].0@ == entries@[a].0@);
                        assert(before[b].0@ == entries@[b].0@);
                    }
                }
            }
            return;
        }
        i = i + 1;
    }
    let mut j: usize = 0;
    while j < n && !text_less(key.as_str(), entries[j].0.as_str())
        invariant
            n == entries@.len(),
            j <= n,
            key@ == key_view,
            entries@ == old(entries)@,
            forall|t: int| 0 <= t < n ==> #[trigger] entries@[t].0@ != key_view,
            forall|t: int| 0 <= t < j ==> !text_lt(key_view, #[trigger] entries@[t].0@),
        decreases n - j,
    {
        j = j + 1;
    }
    let ghost before = entries@;
    let x = (key, value);
    entries.insert(j, x);
    proof {
        assert(entries@[j as int] == x);
        assert forall|t: int| 0 <= t < j implies #[trigger] entries@[t].0@ != key_view by {
            assert(entries@[t] == before[t]);
        }
        lemma_entries_get_at(entries@, key_view, j as int);
        assert forall|k: Seq<char>| k != key_view implies #[trigger] entries_get(entries@, k)
            == entries_get(before, k) by {
            lemma_entries_get_insert(before, j as int, x, k);
        }
        if keys_sorted(before) {
            assert forall|a: int, b: int| 0 <= a < b < entries@.len() implies text_lt(
                #[trigger] entries@[a].0@,
                #[trigger] entries@[b].0@,
            ) by {
                if a < j && b < j {
                    assert(entries@[a] == before[a] && entries@[b] == before[b]);
                } else if a < j && b == j {
                    assert(entries@[a] == before[a]);
                    lemma_text_lt_trichotomy(key_view, before[a].0@);
                } else if a < j && b > j {
                    assert(entries@[a] == before[a] && entries@[b] == before[b - 1]);
                    if a < b - 1 {
                        assert(text_lt(before[a].0@, before[b - 1].0@));
                    } else {
                        lemma_text_lt_irreflexive(before[a].0@);
                    }
                } else if a == j {
                    assert(entries@[b] == before[b - 1]);
                    assert(j < n);
                    assert(text_lt(key_view, before[j as int].0@));
                    if b - 1 > j {
                        assert(text_lt(before[j as int].0@, before[b - 1].0@));
                        lemma_text_lt_transitive(key_view, before[j as int].0@, before[b - 1].0@);
                    }
                } else {
                    assert(entries@[a] == before[a - 1] && entries@[b] == before[b - 1]);
                }
            }
        }
    }
}

/// One entry as compact JSON: `"key":value`.
pub open spec fn entry_text(e: (String, JsonValue)) -> Seq<char> {
    quoted(e.0@) + seq![':'] + json_text(e.1)
}

/// Appending an entry appends its text after a comma (none for the first).
pub proof fn lemma_entries_text_push(s: Seq<(String, JsonValue)>, e: (String, JsonValue))
    ensures
        entries_text(s.push(e)) == if s.len() == 0 {
            entry_text(e)
        } else {
            entries_text(s) + seq![','] + entry_text(e)
        },
{
    let t = s.push(e);
    assert(t.subrange(0, t.len() - 1) =~= s);
    assert(t[t.len() - 1] == e);
    if s.len() == 0 {
        assert(t.len() == 1);
        assert(t[0] == e);
    }
}

/// Appending an item appends its text after a comma (none for the first).
pub proof fn lemma_items_text_push(s: Seq<JsonValue>, v: JsonValue)
    ensures
        items_text(s.push(v)) == if s.len() == 0 {
            json_text(v)
        } else {
            items_text(s) + seq![','] + json_text(v)
        },
{
    let t = s.push(v);
    assert(t.subrange(0, t.len() - 1) =~= s);
    assert(t[t.len() - 1] == v);
    if s.len() == 0 {
        assert(t.len() == 1);
        assert(t[0] == v);
    }
}

/// An unsigned number.
pub fn json_u64(n: u64) -> (res: JsonValue)
    ensures
        json_text(res) == decimal(n as nat),
{
    let mut text = String::new();
    append_decimal(&mut text, n);
    JsonValue::Number { text, unsigned: Some(n) }
}

/// A signed number.
pub fn json_i64(n: i64) -> (res: JsonValue)
    ensures
        json_text(res) == signed_decimal(n as int),
{
    let mut text = String::new();
    append_signed_decimal(&mut text, n);
    let unsigned: Option<u64> = if n >= 0 {
        Some(n as u64)
    } else {
        None
    };
    JsonValue::Number { text, unsigned }
}

/// A string.
pub fn json_string(s: &str) -> (res: JsonValue)
    ensures
        json_text(res) == quoted(s@),
{
    JsonValue::Str(s.to_owned())
}

/// A string, or `null` when there is none.
pub open spec fn opt_quoted(o: Option<Seq<char>>) -> Seq<char> {
    match o {
        Some(s) => quoted(s),
        None => "null"@,
    }
}

pub fn json_opt_string(o: Option<&str>) -> (res: JsonValue)
    ensures
        json_text(res) == opt_quoted(
            match o {
                Some(s) => Some(s@),
                None => None,
            },
        ),
{
    match o {
        Some(s) => JsonValue::Str(s.to_owned()),
        None => JsonValue::Null,
    }
}

/// Append an entry to an object under construction.
pub fn push_entry(entries: &mut Vec<(String, JsonValue)>, key: &str, value: JsonValue)
    ensures
        final(entries)@.len() == old(entries)@.len() + 1,
        entries_text(final(entries)@) == if old(entries)@.len() == 0 {
            quoted(key@) + seq![':'] + json_text(value)
        } else {
            entries_text(old(entries)@) + seq![','] + quoted(key@) + seq![':'] + json_text(value)
        },
{
    let k = key.to_owned();
    let ghost e = (k, value);
    entries.push((k, value));
    proof {
        lemma_entries_text_push(old(entries)@, e);
    }
}

/// The value a reference points to, if there is one.
pub open spec fn deref_json(o: Option<&JsonValue>) -> Option<JsonValue> {
    match o {
        Some(v) => Some(*v),
        None => None,
    }
}

/// A string field of a JSON value.
pub open spec fn str_field(v: JsonValue, key: Seq<char>) -> Option<Seq<char>> {
    match json_get(v, key) {
        Some(x) => json_str(x),
        None => None,
    }
}

/// The string value of a field, when the field is there and holds a string.
pub fn field_string(v: &JsonValue, key: &str) -> (res: Option<String>)
    ensures
        opt_view(res) == str_field(*v, key@),
{
    match get_field(v, key) {
        Some(JsonValue::Str(s)) => Some(s.clone()),
        _ => None,
    }
}

#[verifier::external_type_specification]
#[verifier::external_body]
pub struct ExSerdeJsonValue(serde_json::Value);

/// What `serde_json::from_str` reads from a text as a `serde_json::Value`,
/// held as a `JsonValue`; `None` when the text is not JSON. The JSON
/// grammar is not restated: the result is named as a function of the text.
pub uninterp spec fn parsed_json(text: Seq<char>) -> Option<JsonValue>;

/// `serde_json::from_str::<serde_json::Value>`, its error dropped and its
/// value converted one for one. Claimed: the result depends on the text
/// alone (objects come out in the order of their keys, the map being a
/// `BTreeMap`).
#[verifier::external_body]
pub(crate) fn parse_json(text: &str) -> (res: Option<JsonValue>)
    ensures
        res == parsed_json(text@),
{
    serde_json::from_str::<serde_json::Value>(text).ok().map(json_from_serde)
}

/// The one-for-one conversion of a `serde_json::Value` that `parse_json`
/// hands back: each variant to its own, a number with its text and its
/// `as_u64`, an object's entries in the order its map walks them.
#[verifier::external_body]
fn json_from_serde(value: serde_json::Value) -> JsonValue {
    match value {
        serde_json::Value::Null => JsonValue::Null,
        serde_json::Value::Bool(b) => JsonValue::Bool(b),
        serde_json::Value::Number(n) => JsonValue::Number { text: n.to_string(), unsigned: n.as_u64() },
        serde_json::Value::String(s) => JsonValue::Str(s),
        serde_json::Value::Array(a) => JsonValue::Array(a.into_iter().map(json_from_serde).collect()),
        serde_json::Value::Object(m) => JsonValue::Object(m.into_iter().map(|(k, v)| (k, json_from_serde(v))).collect()),
    }
}

fn hex_char(d: u32) -> (res: char)
    requires
        d < 16,
    ensures
        res == hex_digit(d as nat),
{
    if d < 10 {
        let c = (48u8 + d as u8) as char;
        proof {
            assert(hex_digit(d as nat) == c) by {
                assert(seq!['0', '1', '2', '3', '4', '5', '6', '7', '8', '9', 'a', 'b', 'c', 'd', 'e', 'f'][d as int] == c);
            }
        }
        c
    } else {
        let c = (87u8 + d as u8) as char;
        proof {
            assert(hex_digit(d as nat) == c) by {
                assert(seq!['0', '1', '2', '3', '4', '5', '6', '7', '8', '9', 'a', 'b', 'c', 'd', 'e', 'f'][d as int] == c);
            }
        }
        c
    }
}

} // verus!
