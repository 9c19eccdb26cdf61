//! HTTP headers, and the `X-*` headers of a request.
//!
//! Headers whose names begin with `x-` carry caller-supplied metadata. They
//! are collected into a sorted map that can be logged as a JSON object.

use std::collections::BTreeMap;

use axum::http::{HeaderMap, HeaderName, HeaderValue};
use vstd::prelude::*;

use crate::text;
use crate::text::{chars_of, has_prefix, text_eq};

verus! {

/// `axum::http::HeaderMap`.
#[verifier::external_type_specification]
#[verifier::external_body]
#[verifier::reject_recursive_types(T)]
pub struct ExHeaderMap<T>(axum::http::HeaderMap<T>);

/// `axum::http::HeaderValue`.
#[verifier::external_type_specification]
#[verifier::external_body]
pub struct ExHeaderValue(axum::http::HeaderValue);

/// `axum::http::HeaderName`.
#[verifier::external_type_specification]
#[verifier::external_body]
pub struct ExHeaderName(axum::http::HeaderName);

/// `axum::http::header::InvalidHeaderValue`, carried through and never looked
/// into.
#[verifier::external_type_specification]
#[verifier::external_body]
pub struct ExInvalidHeaderValue(axum::http::header::InvalidHeaderValue);

/// The characters that a header name holds.
pub uninterp spec fn name_text(name: HeaderName) -> Seq<char>;

/// The bytes that a header value holds.
pub uninterp spec fn value_bytes(value: HeaderValue) -> Seq<u8>;

/// A text without upper-case letters of the ASCII range.
pub open spec fn is_lowercase(text: Seq<char>) -> bool {
    forall|i: int| 0 <= i < text.len() ==> !('A' <= #[trigger] text[i] <= 'Z')
}

/// `HeaderName::as_str` hands out the name's characters, which are lower case.
pub assume_specification[ HeaderName::as_str ](name: &HeaderName) -> (letters: &str)
    ensures
        letters@ == name_text(*name),
        is_lowercase(letters@),
;

/// `HeaderName::clone` makes the same name.
pub assume_specification[ <HeaderName as Clone>::clone ](name: &HeaderName) -> (copy: HeaderName)
    ensures
        name_text(copy) == name_text(*name),
;

/// `HeaderName::from_static` makes the name with these characters. It panics on
/// what is no lowercase header name.
pub assume_specification[ HeaderName::from_static ](src: &'static str) -> (name: HeaderName)
    requires
        is_header_name(src@),
    ensures
        name_text(name) == src@,
;

/// `HeaderValue::as_bytes` hands out the value's bytes.
pub assume_specification[ HeaderValue::as_bytes ](value: &HeaderValue) -> (bytes: &[u8])
    ensures
        bytes@ == value_bytes(*value),
;

/// `HeaderValue::clone` makes the same value. That it keeps the mark of a
/// sensitive value is not said.
pub assume_specification[ <HeaderValue as Clone>::clone ](value: &HeaderValue) -> (copy:
    HeaderValue)
    ensures
        value_bytes(copy) == value_bytes(*value),
;

/// `HeaderValue::from_str` makes a value of the text's bytes, exactly where they
/// may stand in one.
pub assume_specification[ HeaderValue::from_str ](src: &str) -> (parsed: Result<
    HeaderValue,
    axum::http::header::InvalidHeaderValue,
>)
    ensures
        match parsed {
            Ok(value) => is_header_value(vstd::utf8::encode_utf8(src@)) && value_bytes(value)
                == vstd::utf8::encode_utf8(src@),
            Err(_) => !is_header_value(vstd::utf8::encode_utf8(src@)),
        },
;

/// What a header map holds: for each name that it has, the values stored under
/// it, in the order in which they were added.
pub uninterp spec fn header_contents(headers: HeaderMap<HeaderValue>) -> Map<
    Seq<char>,
    Seq<Seq<u8>>,
>;

/// The values stored under a name, none when the name is absent.
pub open spec fn values_under(contents: Map<Seq<char>, Seq<Seq<u8>>>, name: Seq<char>) -> Seq<
    Seq<u8>,
> {
    if contents.contains_key(name) {
        contents[name]
    } else {
        Seq::empty()
    }
}

/// Header lines as plain values.
pub open spec fn lines_view(lines: Seq<(HeaderName, HeaderValue)>) -> Seq<(Seq<char>, Seq<u8>)> {
    lines.map_values(|line: (HeaderName, HeaderValue)| (name_text(line.0), value_bytes(line.1)))
}

/// The values that a list of header lines has for a name, in order.
pub open spec fn values_of(lines: Seq<(Seq<char>, Seq<u8>)>, name: Seq<char>) -> Seq<Seq<u8>>
    decreases lines.len(),
{
    if lines.len() == 0 {
        Seq::empty()
    } else if lines.last().0 == name {
        values_of(lines.drop_last(), name).push(lines.last().1)
    } else {
        values_of(lines.drop_last(), name)
    }
}

/// The names that stand on a list of header lines.
pub open spec fn line_names(lines: Seq<(Seq<char>, Seq<u8>)>) -> Set<Seq<char>> {
    lines.map_values(|line: (Seq<char>, Seq<u8>)| line.0).to_set()
}

/// Calls `HeaderMap::iter` and clones each name and value. Every value comes
/// once, under its name, every name comes with at least one value, and the
/// values of one name come in the order in which they were added. In which
/// order different names come is not said.
#[verifier::external_body]
pub(crate) fn header_lines(headers: &HeaderMap<HeaderValue>) -> (lines: Vec<
    (HeaderName, HeaderValue),
>)
    ensures
        line_names(lines_view(lines@)) == header_contents(*headers).dom(),
        forall|name: Seq<char>|
            #[trigger] values_of(lines_view(lines@), name) == values_under(
                header_contents(*headers),
                name,
            ),
{
    headers.iter().map(|(name, value)| (name.clone(), value.clone())).collect()
}

/// Calls `HeaderMap::new`, which makes a map without headers.
#[verifier::external_body]
pub(crate) fn no_headers() -> (headers: HeaderMap<HeaderValue>)
    ensures
        header_contents(headers).dom() == Set::<Seq<char>>::empty(),
{
    HeaderMap::new()
}

/// A character that may stand in a lowercase header name.
pub open spec fn is_name_char(c: char) -> bool {
    ||| 'a' <= c <= 'z'
    ||| '0' <= c <= '9'
    ||| '!' <= c <= '\''
    ||| c == '*' || c == '+' || c == '-' || c == '.'
    ||| c == '^' || c == '_' || c == '`' || c == '|' || c == '~'
}

/// A lowercase header name.
pub open spec fn is_header_name(name: Seq<char>) -> bool {
    &&& 0 < name.len() <= 65535
    &&& forall|i: int| 0 <= i < name.len() ==> is_name_char(#[trigger] name[i])
}

/// Bytes that may stand in a header value.
pub open spec fn is_header_value(value: Seq<u8>) -> bool {
    forall|i: int|
        0 <= i < value.len() ==> (32 <= #[trigger] value[i] && value[i] != 127) || value[i] == 9
}

/// A header map with fewer names than this takes one more. How many more it
/// takes beyond that depends on how the names hash.
pub open spec fn settable_names() -> nat {
    6554
}

/// Calls `HeaderMap::try_insert`. The value takes the place of all values that
/// the name had; where it was not set, the map is as before. It is set unless
/// the map is full, which a map of few names never is.
#[verifier::external_body]
pub(crate) fn set_header(
    headers: &mut HeaderMap<HeaderValue>,
    name: HeaderName,
    value: HeaderValue,
) -> (set: bool)
    ensures
        header_contents(*old(headers)).dom().len() < settable_names() ==> set,
        header_contents(*final(headers)) == if set {
            header_contents(*old(headers)).insert(name_text(name), seq![value_bytes(value)])
        } else {
            header_contents(*old(headers))
        },
{
    headers.try_insert(name, value).is_ok()
}

/// A header value that can be read as text: valid UTF-8.
pub open spec fn is_readable(value: Seq<u8>) -> bool {
    vstd::utf8::valid_utf8(value)
}

/// The text of a readable header value.
pub open spec fn value_text(value: Seq<u8>) -> Seq<char> {
    vstd::utf8::decode_utf8(value)
}

/// Calls `std::str::from_utf8`. The text is there exactly when the bytes are
/// valid UTF-8, and is then what they encode.
#[verifier::external_body]
pub(crate) fn value_str(value: &[u8]) -> (text: Option<String>)
    ensures
        match text {
            Some(t) => is_readable(value@) && t@ == value_text(value@),
            None => !is_readable(value@),
        },
{
    std::str::from_utf8(value).ok().map(str::to_owned)
}

/// `a` stands before `b` in the dictionary.
pub open spec fn precedes(a: Seq<char>, b: Seq<char>) -> bool
    decreases a.len(),
{
    if b.len() == 0 {
        false
    } else if a.len() == 0 {
        true
    } else {
        a[0] < b[0] || (a[0] == b[0] && precedes(a.skip(1), b.skip(1)))
    }
}

/// Of two different words one stands before the other.
proof fn precedes_total(a: Seq<char>, b: Seq<char>)
    ensures
        precedes(a, b) || a == b || precedes(b, a),
    decreases a.len(),
{
    if a.len() == 0 || b.len() == 0 {
        if a.len() == 0 && b.len() == 0 {
            assert(a =~= b);
        }
    } else {
        precedes_total(a.skip(1), b.skip(1));
        if a[0] == b[0] && a.skip(1) == b.skip(1) {
            assert(a =~= seq![a[0]] + a.skip(1));
            assert(b =~= seq![b[0]] + b.skip(1));
        }
    }
}

/// No word stands before itself.
proof fn precedes_irreflexive(a: Seq<char>)
    ensures
        !precedes(a, a),
    decreases a.len(),
{
    if a.len() > 0 {
        precedes_irreflexive(a.skip(1));
    }
}

/// Dictionary order is transitive.
proof fn precedes_transitive(a: Seq<char>, b: Seq<char>, c: Seq<char>)
    requires
        precedes(a, b),
        precedes(b, c),
    ensures
        precedes(a, c),
    decreases a.len(),
{
    if a.len() > 0 && a[0] == b[0] && b[0] == c[0] {
        precedes_transitive(a.skip(1), b.skip(1), c.skip(1));
    }
}

/// Whether `a` stands before `b` in the dictionary.
fn stands_before(a: &str, b: &str) -> (before: bool)
    ensures
        before == precedes(a@, b@),
{
    let left = chars_of(a);
    let right = chars_of(b);
    let mut i: usize = 0;
    assert(left@.skip(0) =~= left@);
    assert(right@.skip(0) =~= right@);
    while i < left.len() && i < right.len()
        invariant
            i <= left@.len(),
            i <= right@.len(),
            left@ == a@,
            right@ == b@,
            precedes(a@, b@) == precedes(left@.skip(i as int), right@.skip(i as int)),
        decreases left@.len() - i,
    {
        if left[i] < right[i] {
            return true;
        }
        if left[i] > right[i] {
            return false;
        }
        assert(left@.skip(i as int).skip(1) =~= left@.skip(i + 1));
        assert(right@.skip(i as int).skip(1) =~= right@.skip(i + 1));
        i += 1;
    }
    i < right.len()
}

/// Named texts as plain values.
pub open spec fn pairs_view(pairs: Seq<(String, String)>) -> Seq<(Seq<char>, Seq<char>)> {
    pairs.map_values(|pair: (String, String)| (pair.0@, pair.1@))
}

/// The pairs stand in dictionary order of their names, and no name twice.
pub open spec fn is_sorted(pairs: Seq<(Seq<char>, Seq<char>)>) -> bool {
    forall|i: int, j: int|
        0 <= i < j < pairs.len() ==> precedes((#[trigger] pairs[i]).0, (#[trigger] pairs[j]).0)
}

/// The pairs have this name.
pub open spec fn has_name(pairs: Seq<(Seq<char>, Seq<char>)>, name: Seq<char>) -> bool {
    exists|i: int| 0 <= i < pairs.len() && (#[trigger] pairs[i]).0 == name
}

/// The map from names to texts that the pairs list.
pub open spec fn pairs_map(pairs: Seq<(Seq<char>, Seq<char>)>) -> Map<Seq<char>, Seq<char>> {
    Map::new(
        |name: Seq<char>| has_name(pairs, name),
        |name: Seq<char>| pairs[place_of(pairs, name)].1,
    )
}

/// A place where the name stands.
pub open spec fn place_of(pairs: Seq<(Seq<char>, Seq<char>)>, name: Seq<char>) -> int {
    choose|i: int| 0 <= i < pairs.len() && (#[trigger] pairs[i]).0 == name
}

/// In a sorted list a name stands in one place only.
proof fn sorted_names_differ(pairs: Seq<(Seq<char>, Seq<char>)>, i: int, j: int)
    requires
        is_sorted(pairs),
        0 <= i < pairs.len(),
        0 <= j < pairs.len(),
        pairs[i].0 == pairs[j].0,
    ensures
        i == j,
{
    precedes_irreflexive(pairs[i].0);
    if i < j {
        assert(precedes(pairs[i].0, pairs[j].0));
    } else if j < i {
        assert(precedes(pairs[j].0, pairs[i].0));
    }
}

/// The map holds what stands at each place of a sorted list.
proof fn pairs_map_at(pairs: Seq<(Seq<char>, Seq<char>)>, i: int)
    requires
        is_sorted(pairs),
        0 <= i < pairs.len(),
    ensures
        pairs_map(pairs).contains_key(pairs[i].0),
        pairs_map(pairs)[pairs[i].0] == pairs[i].1,
{
    let name = pairs[i].0;
    sorted_names_differ(pairs, i, place_of(pairs, name));
}

/// Setting the value of a name that stands at `at`.
proof fn pairs_map_set(
    before: Seq<(Seq<char>, Seq<char>)>,
    at: int,
    name: Seq<char>,
    value: Seq<char>,
)
    requires
        is_sorted(before),
        0 <= at < before.len(),
        before[at].0 == name,
    ensures
        is_sorted(before.update(at, (name, value))),
        pairs_map(before.update(at, (name, value))) == pairs_map(before).insert(name, value),
{
    let after = before.update(at, (name, value));
    assert forall|i: int| 0 <= i < before.len() implies (#[trigger] after[i]).0 == before[i].0 by {
    }
    assert(is_sorted(after));
    let want = pairs_map(before).insert(name, value);
    assert forall|q: Seq<char>| pairs_map(after).contains_key(q) == want.contains_key(q) by {
        if has_name(before, q) {
            let i = choose|i: int| 0 <= i < before.len() && (#[trigger] before[i]).0 == q;
            assert(after[i].0 == q);
        }
        if has_name(after, q) {
            let i = choose|i: int| 0 <= i < after.len() && (#[trigger] after[i]).0 == q;
            assert(before[i].0 == q);
        }
    }
    assert forall|q: Seq<char>| #[trigger] pairs_map(after).contains_key(q) implies pairs_map(
        after,
    )[q] == want[q] by {
        let i = choose|i: int| 0 <= i < after.len() && (#[trigger] after[i]).0 == q;
        pairs_map_at(after, i);
        pairs_map_at(before, i);
        if q == name {
            sorted_names_differ(before, i, at);
        }
    }
    assert(pairs_map(after) =~= want);
}

/// Putting a new name in its place.
proof fn pairs_map_insert(
    before: Seq<(Seq<char>, Seq<char>)>,
    at: int,
    name: Seq<char>,
    value: Seq<char>,
)
    requires
        is_sorted(before),
        0 <= at <= before.len(),
        forall|i: int| 0 <= i < at ==> precedes((#[trigger] before[i]).0, name),
        at < before.len() ==> precedes(name, before[at].0),
    ensures
        is_sorted(before.insert(at, (name, value))),
        pairs_map(before.insert(at, (name, value))) == pairs_map(before).insert(name, value),
{
    let after = before.insert(at, (name, value));
    assert forall|j: int| at <= j < before.len() implies precedes(name, (#[trigger] before[j]).0) by {
        if j > at {
            assert(precedes(before[at].0, before[j].0));
            precedes_transitive(name, before[at].0, before[j].0);
        }
    }
    assert(forall|i: int| 0 <= i < at ==> #[trigger] after[i] == before[i]);
    assert(after[at] == (name, value));
    assert(forall|i: int| at < i < after.len() ==> #[trigger] after[i] == before[i - 1]);
    assert forall|i: int, j: int| 0 <= i < j < after.len() implies precedes(
        (#[trigger] after[i]).0,
        (#[trigger] after[j]).0,
    ) by {
        if j < at {
            assert(precedes(before[i].0, before[j].0));
        } else if i < at && j > at {
            assert(precedes(before[i].0, before[j - 1].0));
        } else if i > at {
            assert(precedes(before[i - 1].0, before[j - 1].0));
        }
    }
    let want = pairs_map(before).insert(name, value);
    assert forall|q: Seq<char>| pairs_map(after).contains_key(q) == want.contains_key(q) by {
        if has_name(before, q) {
            let i = choose|i: int| 0 <= i < before.len() && (#[trigger] before[i]).0 == q;
            let k = if i < at {
                i
            } else {
                i + 1
            };
            assert(after[k].0 == q);
        }
        if has_name(after, q) && q != name {
            let i = choose|i: int| 0 <= i < after.len() && (#[trigger] after[i]).0 == q;
            let k = if i < at {
                i
            } else {
                i - 1
            };
            assert(before[k].0 == q);
        }
        if q == name {
            assert(after[at].0 == q);
        }
    }
    assert forall|q: Seq<char>| #[trigger] pairs_map(after).contains_key(q) implies pairs_map(
        after,
    )[q] == want[q] by {
        let i = choose|i: int| 0 <= i < after.len() && (#[trigger] after[i]).0 == q;
        pairs_map_at(after, i);
        if i == at {
            assert(q == name);
        } else {
            if q == name {
                sorted_names_differ(after, i, at);
            }
            let k = if i < at {
                i
            } else {
                i - 1
            };
            pairs_map_at(before, k);
        }
    }
    assert(pairs_map(after) =~= want);
}

/// The map of a sorted list has as many names as the list has pairs.
proof fn pairs_map_len(pairs: Seq<(Seq<char>, Seq<char>)>)
    requires
        is_sorted(pairs),
    ensures
        pairs_map(pairs).dom().finite(),
        pairs_map(pairs).dom().len() == pairs.len(),
    decreases pairs.len(),
{
    if pairs.len() == 0 {
        assert(pairs_map(pairs).dom() =~= Set::<Seq<char>>::empty());
    } else {
        let rest = pairs.drop_last();
        let last = pairs.last();
        assert forall|i: int| 0 <= i < rest.len() implies precedes((#[trigger] rest[i]).0, last.0) by {
            assert(precedes(pairs[i].0, pairs[pairs.len() - 1].0));
        }
        pairs_map_len(rest);
        pairs_map_insert(rest, rest.len() as int, last.0, last.1);
        assert(rest.insert(rest.len() as int, last) =~= pairs);
        if has_name(rest, last.0) {
            let i = place_of(rest, last.0);
            precedes_irreflexive(last.0);
        }
        assert(pairs_map(pairs).dom() =~= pairs_map(rest).dom().insert(last.0));
    }
}

/// Set the value of a name in a sorted list.
fn put(pairs: &mut Vec<(String, String)>, name: String, value: String)
    requires
        is_sorted(pairs_view(old(pairs)@)),
    ensures
        is_sorted(pairs_view(final(pairs)@)),
        pairs_map(pairs_view(final(pairs)@)) == pairs_map(pairs_view(old(pairs)@)).insert(
            name@,
            value@,
        ),
{
    let ghost before = pairs_view(pairs@);
    let ghost key = name@;
    let ghost val = value@;
    let mut at: usize = 0;
    while at < pairs.len() && stands_before(pairs[at].0.as_str(), name.as_str())
        invariant
            at <= pairs@.len(),
            before == pairs_view(pairs@),
            key == name@,
            forall|i: int| 0 <= i < at ==> precedes((#[trigger] before[i]).0, key),
        decreases pairs@.len() - at,
    {
        assert(before[at as int].0 == pairs@[at as int].0@);
        at += 1;
    }
    if at < pairs.len() && text_eq(pairs[at].0.as_str(), name.as_str()) {
        proof {
            assert(before[at as int].0 == key);
            pairs_map_set(before, at as int, key, val);
        }
        pairs.set(at, (name, value));
        assert(pairs_view(pairs@) =~= before.update(at as int, (key, val)));
    } else {
        proof {
            if at < pairs@.len() {
                assert(before[at as int].0 == pairs@[at as int].0@);
                precedes_total(before[at as int].0, key);
            }
            pairs_map_insert(before, at as int, key, val);
        }
        pairs.insert(at, (name, value));
        assert(pairs_view(pairs@) =~= before.insert(at as int, (key, val)));
    }
}

/// A hexadecimal digit, in lower case.
pub open spec fn hex_char(d: u32) -> char {
    if d < 10 {
        (('0' as u32 + d) as u32) as char
    } else {
        (('a' as u32 + d - 10) as u32) as char
    }
}

/// A character inside a JSON string: quotation mark, backslash and control
/// characters are escaped, any other stands for itself.
pub open spec fn json_char(c: char) -> Seq<char> {
    if c == '"' || c == '\\' {
        seq!['\\', c]
    } else if c as u32 == 8 {
        seq!['\\', 'b']
    } else if c == '\t' {
        seq!['\\', 't']
    } else if c == '\n' {
        seq!['\\', 'n']
    } else if c as u32 == 12 {
        seq!['\\', 'f']
    } else if c == '\r' {
        seq!['\\', 'r']
    } else if (c as u32) < 32 {
        seq!['\\', 'u', '0', '0', hex_char(c as u32 / 16), hex_char(c as u32 % 16)]
    } else {
        seq![c]
    }
}

/// The characters of a text inside a JSON string.
pub open spec fn json_chars(text: Seq<char>) -> Seq<char>
    decreases text.len(),
{
    if text.len() == 0 {
        Seq::empty()
    } else {
        json_chars(text.drop_last()) + json_char(text.last())
    }
}

/// A JSON string.
pub open spec fn json_string(text: Seq<char>) -> Seq<char> {
    seq!['"'] + json_chars(text) + seq!['"']
}

/// The members of a JSON object, separated by commas.
pub open spec fn json_members(pairs: Seq<(Seq<char>, Seq<char>)>) -> Seq<char>
    decreases pairs.len(),
{
    if pairs.len() == 0 {
        Seq::empty()
    } else {
        let member = json_string(pairs.last().0) + seq![':'] + json_string(pairs.last().1);
        if pairs.len() == 1 {
            member
        } else {
            json_members(pairs.drop_last()) + seq![','] + member
        }
    }
}

/// A compact JSON object with these members.
pub open spec fn json_object(pairs: Seq<(Seq<char>, Seq<char>)>) -> Seq<char> {
    seq!['{'] + json_members(pairs) + seq!['}']
}

/// Calls `serde_json::to_string` on the map of the pairs. Writing a map of
/// strings to a string does not fail; the members come in dictionary order of
/// their names, without white space, each string quoted and escaped.
#[verifier::external_body]
fn render_object(pairs: &Vec<(String, String)>) -> (json: Option<String>)
    requires
        is_sorted(pairs_view(pairs@)),
    ensures
        json.is_some(),
        json.unwrap()@ == json_object(pairs_view(pairs@)),
{
    let map: BTreeMap<&str, &str> = pairs.iter().map(|p| (p.0.as_str(), p.1.as_str())).collect();
    serde_json::to_string(&map).ok()
}

/// The last of a name's values that can be read as text.
pub open spec fn last_readable(values: Seq<Seq<u8>>) -> Option<Seq<char>>
    decreases values.len(),
{
    if values.len() == 0 {
        None
    } else if is_readable(values.last()) {
        Some(value_text(values.last()))
    } else {
        last_readable(values.drop_last())
    }
}

/// A header of the caller's own: its name begins with `x-`.
pub open spec fn is_x_name(name: Seq<char>) -> bool {
    text::begins_with(name, "x-"@)
}

/// The `X-*` headers of a request, given the values of every name: each with
/// its last readable value.
pub open spec fn x_headers(values: spec_fn(Seq<char>) -> Seq<Seq<u8>>) -> Map<Seq<char>, Seq<char>> {
    Map::new(
        |name: Seq<char>| is_x_name(name) && last_readable(values(name)) is Some,
        |name: Seq<char>| last_readable(values(name))->0,
    )
}

/// A sorted map of `X-*` HTTP request headers.
///
/// Names are lowercase header names (e.g. `"x-request-id"`); values are header
/// values read as UTF-8. Its view is the map.
#[derive(Debug)]
pub struct XHeaders {
    pairs: Vec<(String, String)>,
}

impl View for XHeaders {
    type V = Map<Seq<char>, Seq<char>>;

    closed spec fn view(&self) -> Map<Seq<char>, Seq<char>> {
        pairs_map(pairs_view(self.pairs@))
    }
}

impl XHeaders {
    #[verifier::type_invariant]
    spec fn names_are_sorted(self) -> bool {
        is_sorted(pairs_view(self.pairs@))
    }

    /// Returns `true` when there are no `X-*` headers.
    #[must_use]
    pub fn is_empty(&self) -> (empty: bool)
        ensures
            empty == (self@ == Map::<Seq<char>, Seq<char>>::empty()),
    {
        proof {
            let listed = pairs_view(self.pairs@);
            if self.pairs@.len() > 0 {
                use_type_invariant(self);
                pairs_map_at(listed, 0);
            } else {
                assert(self@ =~= Map::<Seq<char>, Seq<char>>::empty());
            }
        }
        self.pairs.is_empty()
    }

    /// How many headers there are.
    pub fn len(&self) -> (count: usize)
        ensures
            count == self@.dom().len(),
    {
        proof {
            use_type_invariant(self);
            pairs_map_len(pairs_view(self.pairs@));
        }
        self.pairs.len()
    }

    /// The headers as a compact JSON object, names in dictionary order.
    pub fn to_json(&self) -> (json: String)
        ensures
            exists|pairs: Seq<(Seq<char>, Seq<char>)>|
                is_sorted(pairs) && pairs_map(pairs) == self@ && json@ == #[trigger] json_object(
                    pairs,
                ),
    {
        proof {
            use_type_invariant(self);
        }
        match render_object(&self.pairs) {
            Some(json) => json,
            None => "{}".to_owned(),
        }
    }

    /// The headers as they are logged: a compact JSON object, or nothing when
    /// there are none.
    pub fn log_field(&self) -> (field: Option<String>)
        ensures
            match field {
                Some(json) => {
                    &&& self@ != Map::<Seq<char>, Seq<char>>::empty()
                    &&& exists|pairs: Seq<(Seq<char>, Seq<char>)>|
                        is_sorted(pairs) && pairs_map(pairs) == self@ && json@
                            == #[trigger] json_object(pairs)
                },
                None => self@ == Map::<Seq<char>, Seq<char>>::empty(),
            },
    {
        if self.is_empty() {
            None
        } else {
            Some(self.to_json())
        }
    }

    /// The value of a header.
    pub fn get(&self, name: &str) -> (value: Option<&str>)
        ensures
            match value {
                Some(v) => self@.contains_key(name@) && self@[name@] == v@,
                None => !self@.contains_key(name@),
            },
    {
        proof {
            use_type_invariant(self);
        }
        let ghost listed = pairs_view(self.pairs@);
        let mut i: usize = 0;
        while i < self.pairs.len()
            invariant
                i <= self.pairs@.len(),
                listed == pairs_view(self.pairs@),
                is_sorted(listed),
                forall|j: int| 0 <= j < i ==> (#[trigger] listed[j]).0 != name@,
            decreases self.pairs@.len() - i,
        {
            assert(listed[i as int].0 == self.pairs@[i as int].0@);
            if text_eq(self.pairs[i].0.as_str(), name) {
                proof {
                    pairs_map_at(listed, i as int);
                }
                return Some(self.pairs[i].1.as_str());
            }
            i += 1;
        }
        None
    }
}

impl Default for XHeaders {
    fn default() -> (none: Self)
        ensures
            none@ == Map::<Seq<char>, Seq<char>>::empty(),
    {
        let none = XHeaders { pairs: Vec::new() };
        assert(none@ =~= Map::<Seq<char>, Seq<char>>::empty());
        none
    }
}

/// One more line adds its value to its name's.
proof fn values_of_take(lines: Seq<(Seq<char>, Seq<u8>)>, i: int, name: Seq<char>)
    requires
        0 <= i < lines.len(),
    ensures
        values_of(lines.take(i + 1), name) == if lines[i].0 == name {
            values_of(lines.take(i), name).push(lines[i].1)
        } else {
            values_of(lines.take(i), name)
        },
{
    assert(lines.take(i + 1).drop_last() =~= lines.take(i));
    assert(lines.take(i + 1).last() == lines[i]);
}

/// Collect the `X-*` headers of a list of header lines. Of several readable
/// values for one name the last counts.
pub fn collect_lines(lines: &[(HeaderName, HeaderValue)]) -> (collected: XHeaders)
    ensures
        forall|name: Seq<char>| #[trigger]
            collected@.contains_key(name) ==> is_lowercase(name),
        collected@ == x_headers(|name: Seq<char>| values_of(lines_view(lines@), name)),
{
    let ghost all = lines_view(lines@);
    let mut pairs: Vec<(String, String)> = Vec::new();
    let mut i: usize = 0;
    assert(pairs_map(pairs_view(pairs@)) =~= x_headers(
        |name: Seq<char>| values_of(all.take(0), name),
    ));
    while i < lines.len()
        invariant
            i <= lines@.len(),
            all == lines_view(lines@),
            is_sorted(pairs_view(pairs@)),
            forall|name: Seq<char>| #[trigger]
                pairs_map(pairs_view(pairs@)).contains_key(name) ==> is_lowercase(name),
            pairs_map(pairs_view(pairs@)) == x_headers(
                |name: Seq<char>| values_of(all.take(i as int), name),
            ),
        decreases lines@.len() - i,
    {
        let ghost before = pairs_map(pairs_view(pairs@));
        let ghost next = x_headers(|name: Seq<char>| values_of(all.take(i + 1), name));
        let name_str = lines[i].0.as_str();
        let bytes = lines[i].1.as_bytes();
        proof {
            assert(all[i as int] == (name_str@, bytes@));
            assert forall|name: Seq<char>| true implies #[trigger] values_of(all.take(i + 1), name)
                == if name_str@ == name {
                values_of(all.take(i as int), name).push(bytes@)
            } else {
                values_of(all.take(i as int), name)
            } by {
                values_of_take(all, i as int, name);
            }
            let values = values_of(all.take(i as int), name_str@);
            assert(values.push(bytes@).drop_last() =~= values);
        }
        let mut changed = false;
        if has_prefix(name_str, "x-") {
            if let Some(value) = value_str(bytes) {
                put(&mut pairs, name_str.to_owned(), value);
                assert(pairs_map(pairs_view(pairs@)) =~= next);
                changed = true;
            }
        }
        if !changed {
            assert(before =~= next);
        }
        i += 1;
    }
    assert(all.take(all.len() as int) =~= all);
    XHeaders { pairs }
}

/// Collects all headers whose name starts with `x-` into an [`XHeaders`] map.
///
/// Headers whose values are not valid UTF-8 are skipped.
#[must_use]
pub fn collect_x_headers(headers: &HeaderMap<HeaderValue>) -> (collected: XHeaders)
    ensures
        forall|name: Seq<char>| #[trigger]
            collected@.contains_key(name) ==> is_lowercase(name),
        collected@ == x_headers(
            |name: Seq<char>| values_under(header_contents(*headers), name),
        ),
{
    let lines = header_lines(headers);
    let collected = collect_lines(lines.as_slice());
    assert(collected@ =~= x_headers(
        |name: Seq<char>| values_under(header_contents(*headers), name),
    ));
    collected
}

/// Names and values that are listed in dictionary order are listed in one way
/// only: a map determines its sorted list, and so its JSON.
pub proof fn sorted_list_is_unique(
    a: Seq<(Seq<char>, Seq<char>)>,
    b: Seq<(Seq<char>, Seq<char>)>,
)
    requires
        is_sorted(a),
        is_sorted(b),
        pairs_map(a) == pairs_map(b),
    ensures
        a == b,
    decreases a.len(),
{
    pairs_map_len(a);
    pairs_map_len(b);
    if a.len() == 0 {
        assert(a =~= b);
    } else {
        let last_a = a.last();
        let last_b = b.last();
        pairs_map_at(a, a.len() - 1);
        pairs_map_at(b, b.len() - 1);
        if last_a.0 != last_b.0 {
            assert(has_name(b, last_a.0) && has_name(a, last_b.0));
            let i = place_of(b, last_a.0);
            let j = place_of(a, last_b.0);
            assert(precedes(b[i].0, b[b.len() - 1].0));
            assert(precedes(a[j].0, a[a.len() - 1].0));
            precedes_transitive(last_a.0, last_b.0, last_a.0);
            precedes_irreflexive(last_a.0);
        }
        assert(last_a == last_b);
        let rest_a = a.drop_last();
        let rest_b = b.drop_last();
        assert forall|i: int| 0 <= i < rest_a.len() implies precedes(
            (#[trigger] rest_a[i]).0,
            last_a.0,
        ) by {
            assert(precedes(a[i].0, a[a.len() - 1].0));
        }
        assert forall|i: int| 0 <= i < rest_b.len() implies precedes(
            (#[trigger] rest_b[i]).0,
            last_b.0,
        ) by {
            assert(precedes(b[i].0, b[b.len() - 1].0));
        }
        pairs_map_insert(rest_a, rest_a.len() as int, last_a.0, last_a.1);
        pairs_map_insert(rest_b, rest_b.len() as int, last_b.0, last_b.1);
        assert(rest_a.insert(rest_a.len() as int, last_a) =~= a);
        assert(rest_b.insert(rest_b.len() as int, last_b) =~= b);
        precedes_irreflexive(last_a.0);
        assert(!pairs_map(rest_a).contains_key(last_a.0));
        assert(!pairs_map(rest_b).contains_key(last_a.0));
        assert(pairs_map(rest_a) =~= pairs_map(a).remove(last_a.0));
        assert(pairs_map(rest_b) =~= pairs_map(b).remove(last_a.0));
        sorted_list_is_unique(rest_a, rest_b);
        assert(a =~= rest_a.push(last_a));
        assert(b =~= rest_b.push(last_b));
    }
}

/// Only headers whose names begin with `x-` are collected.
pub proof fn only_x_headers_are_collected(
    values: spec_fn(Seq<char>) -> Seq<Seq<u8>>,
    name: Seq<char>,
)
    ensures
        x_headers(values).contains_key(name) ==> is_x_name(name),
        is_x_name(name) && values(name).len() > 0 && is_readable(values(name).last())
            ==> x_headers(values).contains_key(name) && x_headers(values)[name] == value_text(
            values(name).last(),
        ),
        values(name).len() == 0 ==> !x_headers(values).contains_key(name),
{
}

/// The last value that can be read decides: behind it stand unreadable values
/// only. Where none can be read there is no text.
proof fn last_readable_at(values: Seq<Seq<u8>>, k: int)
    requires
        0 <= k < values.len(),
        vstd::utf8::valid_utf8(values[k]),
        forall|j: int| k < j < values.len() ==> !vstd::utf8::valid_utf8(#[trigger] values[j]),
    ensures
        last_readable(values) == Some(vstd::utf8::decode_utf8(values[k])),
    decreases values.len(),
{
    if k < values.len() - 1 {
        let rest = values.drop_last();
        assert(!vstd::utf8::valid_utf8(values[values.len() - 1]));
        assert forall|j: int| k < j < rest.len() implies !vstd::utf8::valid_utf8(
            #[trigger] rest[j],
        ) by {
            assert(rest[j] == values[j]);
        }
        last_readable_at(rest, k);
    }
}

/// Unreadable values have no text.
proof fn none_readable(values: Seq<Seq<u8>>)
    requires
        forall|j: int| 0 <= j < values.len() ==> !vstd::utf8::valid_utf8(#[trigger] values[j]),
    ensures
        last_readable(values) is None,
    decreases values.len(),
{
    if values.len() > 0 {
        let rest = values.drop_last();
        assert(!vstd::utf8::valid_utf8(values[values.len() - 1]));
        assert forall|j: int| 0 <= j < rest.len() implies !vstd::utf8::valid_utf8(
            #[trigger] rest[j],
        ) by {
            assert(rest[j] == values[j]);
        }
        none_readable(rest);
    }
}

/// Every header whose name begins with the two characters `x-` is collected with
/// the text of its last value that is valid UTF-8, whatever stands before or
/// behind that value.
pub proof fn x_headers_are_collected(
    values: spec_fn(Seq<char>) -> Seq<Seq<u8>>,
    name: Seq<char>,
    k: int,
)
    requires
        name.len() >= 2 && name[0] == 'x' && name[1] == '-',
        0 <= k < values(name).len(),
        vstd::utf8::valid_utf8(values(name)[k]),
        forall|j: int|
            k < j < values(name).len() ==> !vstd::utf8::valid_utf8(#[trigger] values(name)[j]),
    ensures
        x_headers(values).contains_key(name),
        x_headers(values)[name] == vstd::utf8::decode_utf8(values(name)[k]),
{
    reveal_strlit("x-");
    last_readable_at(values(name), k);
    assert(name.subrange(0, 2) =~= "x-"@);
}

/// Nothing else is collected: no header of another name, and none whose values
/// are all unreadable.
pub proof fn nothing_else_is_collected(
    values: spec_fn(Seq<char>) -> Seq<Seq<u8>>,
    name: Seq<char>,
)
    requires
        name.len() < 2 || name[0] != 'x' || name[1] != '-' || (forall|j: int|
            0 <= j < values(name).len() ==> !vstd::utf8::valid_utf8(#[trigger] values(name)[j])),
    ensures
        !x_headers(values).contains_key(name),
{
    reveal_strlit("x-");
    if forall|j: int|
        0 <= j < values(name).len() ==> !vstd::utf8::valid_utf8(#[trigger] values(name)[j]) {
        none_readable(values(name));
    } else if is_x_name(name) {
        assert(name.subrange(0, 2)[0] == "x-"@[0]);
        assert(name.subrange(0, 2)[1] == "x-"@[1]);
    }
}

/// Dictionary order: of two words with a common beginning the one that ends
/// there comes first, or the one whose next character is smaller.
pub proof fn dictionary_order(common: Seq<char>, a: Seq<char>, b: Seq<char>)
    ensures
        a.len() == 0 && b.len() > 0 ==> precedes(common + a, common + b),
        b.len() == 0 ==> !precedes(common + a, common + b),
        a.len() > 0 && b.len() > 0 && a[0] < b[0] ==> precedes(common + a, common + b),
        a.len() > 0 && b.len() > 0 && a[0] > b[0] ==> !precedes(common + a, common + b),
    decreases common.len(),
{
    let left = common + a;
    let right = common + b;
    if common.len() == 0 {
        assert(left =~= a);
        assert(right =~= b);
    } else {
        let rest = common.skip(1);
        assert(left[0] == right[0]);
        assert(left.skip(1) =~= rest + a);
        assert(right.skip(1) =~= rest + b);
        dictionary_order(rest, a, b);
    }
}

/// A sorted list has its names in dictionary order, and stands for the map that
/// has each of its values under its name and nothing else.
pub proof fn sorted_lists_are_maps(pairs: Seq<(Seq<char>, Seq<char>)>, i: int, name: Seq<char>)
    requires
        is_sorted(pairs),
        0 <= i < pairs.len(),
        forall|j: int| 0 <= j < pairs.len() ==> (#[trigger] pairs[j]).0 != name,
    ensures
        i > 0 ==> precedes(pairs[i - 1].0, pairs[i].0),
        pairs_map(pairs).contains_key(pairs[i].0),
        pairs_map(pairs)[pairs[i].0] == pairs[i].1,
        !pairs_map(pairs).contains_key(name),
        pairs_map(pairs).dom().len() == pairs.len(),
{
    pairs_map_at(pairs, i);
    pairs_map_len(pairs);
    if i > 0 {
        assert(precedes(pairs[i - 1].0, pairs[i].0));
    }
}

/// A header line stands for its name and its value, each line for itself, and
/// adds its value behind the earlier values of its name and of no other.
pub proof fn lines_are_names_and_values(
    lines: Seq<(HeaderName, HeaderValue)>,
    line: (HeaderName, HeaderValue),
    name: Seq<char>,
)
    ensures
        lines_view(lines.push(line)) == lines_view(lines).push(
            (name_text(line.0), value_bytes(line.1)),
        ),
        lines_view(Seq::empty()) == Seq::<(Seq<char>, Seq<u8>)>::empty(),
        values_of(Seq::empty(), name) == Seq::<Seq<u8>>::empty(),
        name_text(line.0) == name ==> values_of(lines_view(lines.push(line)), name) == values_of(
            lines_view(lines),
            name,
        ).push(value_bytes(line.1)),
        name_text(line.0) != name ==> values_of(lines_view(lines.push(line)), name) == values_of(
            lines_view(lines),
            name,
        ),
        line_names(lines_view(lines.push(line))) == line_names(lines_view(lines)).insert(
            name_text(line.0),
        ),
{
    let plain = (name_text(line.0), value_bytes(line.1));
    let before = lines_view(lines);
    let after = lines_view(lines.push(line));
    assert(after =~= before.push(plain));
    assert(after.drop_last() =~= before);
    let listed = before.map_values(|l: (Seq<char>, Seq<u8>)| l.0);
    let relisted = after.map_values(|l: (Seq<char>, Seq<u8>)| l.0);
    assert(relisted =~= listed.push(plain.0));
    assert forall|n: Seq<char>| #[trigger] relisted.contains(n) == (listed.contains(n) || n
        == plain.0) by {
        if listed.contains(n) {
            let i = listed.index_of(n);
            assert(relisted[i] == n);
        }
        if n == plain.0 {
            assert(relisted[listed.len() as int] == n);
        }
        if relisted.contains(n) && n != plain.0 {
            let i = relisted.index_of(n);
            assert(listed[i] == n);
        }
    }
    assert(line_names(after) =~= line_names(before).insert(plain.0));
    assert(lines_view(Seq::empty()) =~= Seq::<(Seq<char>, Seq<u8>)>::empty());
}

/// What stands under a name is what the map has there, and nothing where it has
/// no such name.
pub proof fn absent_names_have_no_values(
    contents: Map<Seq<char>, Seq<Seq<u8>>>,
    name: Seq<char>,
)
    ensures
        contents.contains_key(name) ==> values_under(contents, name) == contents[name],
        !contents.contains_key(name) ==> values_under(contents, name) == Seq::<Seq<u8>>::empty(),
{
}

}
