//! HTTP header fields, as the `http` crate holds them.

use crate::text::{ascii_lower, nonempty, nonempty_trimmed};
use axum::http::{HeaderMap, HeaderName, HeaderValue};
use vstd::prelude::*;
use vstd::utf8::encode_utf8;

verus! {

/// `http::HeaderMap`: header names, each with one or more values.
#[verifier::external_type_specification]
#[verifier::external_body]
#[verifier::reject_recursive_types(T)]
pub struct ExHeaderMap<T>(axum::http::HeaderMap<T>);

/// `http::HeaderValue`: the bytes of one header value.
#[verifier::external_type_specification]
#[verifier::external_body]
pub struct ExHeaderValue(axum::http::HeaderValue);

/// `http::HeaderName`: the name of a header, in small letters.
#[verifier::external_type_specification]
#[verifier::external_body]
pub struct ExHeaderName(axum::http::HeaderName);

/// The text of a header name, as `HeaderName::as_str` gives it.
pub uninterp spec fn name_text(name: HeaderName) -> Seq<char>;

/// For the text of each name that a header map holds, the bytes of its values in order.
pub uninterp spec fn all_values(headers: HeaderMap) -> Map<Seq<char>, Seq<Seq<u8>>>;

/// The bytes of a header value.
pub uninterp spec fn value_bytes(value: HeaderValue) -> Seq<u8>;

/// A text in small letters: a text that is looked up counts as a name whatever its case.
pub open spec fn lower_name(name: Seq<char>) -> Seq<char> {
    name.map_values(|c: char| ascii_lower(c))
}

/// Whether a text has at most 64 bytes.
pub open spec fn short_name(name: Seq<char>) -> bool {
    encode_utf8(name).len() <= 64
}

/// Names made of small letters, digits and hyphens.
pub open spec fn plain_name(name: Seq<char>) -> bool {
    &&& 1 <= name.len() <= 64
    &&& forall|i: int|
        0 <= i < name.len() ==> ('a' <= #[trigger] name[i] <= 'z' || '0' <= name[i] <= '9'
            || name[i] == '-')
}

/// The bytes `HeaderValue::to_str` lets pass: visible ASCII, the space and the tab.
pub open spec fn visible_byte(byte: u8) -> bool {
    32 <= byte < 127 || byte == 9
}

/// The characters `HeaderValue::from_str` lets pass: all but the ASCII control characters, of
/// which it keeps the tab.
pub open spec fn header_char(c: char) -> bool {
    (c as u32 >= 32 && c as u32 != 127) || c as u32 == 9
}

/// Whether a text can be the value of a header.
pub open spec fn header_safe(text: Seq<char>) -> bool {
    forall|i: int| 0 <= i < text.len() ==> header_char(#[trigger] text[i])
}

/// The text of a header value, if all of it is visible.
pub open spec fn visible_text(bytes: Seq<u8>) -> Option<Seq<char>> {
    if forall|i: int| 0 <= i < bytes.len() ==> visible_byte(#[trigger] bytes[i]) {
        Some(bytes.map_values(|byte: u8| byte as char))
    } else {
        None
    }
}

/// The text of the first value under `name`, if there is one and all of it is visible.
pub open spec fn header_text(values: Map<Seq<char>, Seq<Seq<u8>>>, name: Seq<char>) -> Option<
    Seq<char>,
> {
    if values.contains_key(name) {
        visible_text(values[name][0])
    } else {
        None
    }
}

/// Whether a text finds a header: one with a quotation mark never does.
pub open spec fn finds(values: Map<Seq<char>, Seq<Seq<u8>>>, name: Seq<char>) -> bool {
    !name.contains('"') && values.contains_key(lower_name(name))
}

/// What a text finds: the text of the first value under that name, whatever the case of its
/// letters.
pub open spec fn text_found(values: Map<Seq<char>, Seq<Seq<u8>>>, name: Seq<char>) -> Option<
    Seq<char>,
> {
    if finds(values, name) {
        header_text(values, lower_name(name))
    } else {
        None
    }
}

/// Whether some name has these bytes as its first value.
pub open spec fn stands_first(values: Map<Seq<char>, Seq<Seq<u8>>>, bytes: Seq<u8>) -> bool {
    exists|name: Seq<char>| #[trigger] values.contains_key(name) && values[name][0] == bytes
}

/// The values of a map without any header.
pub open spec fn no_values() -> Map<Seq<char>, Seq<Seq<u8>>> {
    Map::empty()
}

/// The header values after an attempt to set `name` to `value`: it is the only value under that
/// name afterwards. A value that no header can hold leaves them as they were.
pub open spec fn with_header(
    values: Map<Seq<char>, Seq<Seq<u8>>>,
    name: Seq<char>,
    value: Seq<char>,
) -> Map<Seq<char>, Seq<Seq<u8>>> {
    if header_safe(value) {
        values.insert(name, seq![encode_utf8(value)])
    } else {
        values
    }
}

/// `HeaderName::from_static`: the name with that text. It panics on a text that is no header
/// name in small letters, which the precondition leaves out.
#[verifier::external_body]
pub(crate) fn static_name(text: &'static str) -> (name: HeaderName)
    requires
        plain_name(text@),
    ensures
        name_text(name) == text@,
{
    HeaderName::from_static(text)
}

/// `HeaderMap::get` with a header name as the key: the first value under that name, and none
/// where the map holds no such name.
#[verifier::external_body]
fn get<'a>(headers: &'a HeaderMap, name: &HeaderName) -> (value: Option<&'a HeaderValue>)
    ensures
        value is Some <==> all_values(*headers).contains_key(name_text(*name)),
        value matches Some(v) ==> value_bytes(*v) == all_values(*headers)[name_text(*name)][0],
{
    headers.get(name)
}

/// `HeaderMap::get` with a text as the key. What it finds is the first value under some name
/// that the map holds. A text of at most 64 bytes finds the value under the name that it is in
/// small letters; it finds nothing where the map holds no such name, be it because the text is
/// no header name, and nothing where it holds a quotation mark, though the map can hold such a
/// name. Which name a longer text finds is left unsaid: the map compares it unchecked and may
/// take it for another.
#[verifier::external_body]
fn get_by_text<'a>(headers: &'a HeaderMap, name: &str) -> (value: Option<&'a HeaderValue>)
    ensures
        short_name(name@) ==> (value is Some <==> finds(all_values(*headers), name@)),
        short_name(name@) && value is Some ==> value_bytes(*value->0) == all_values(
            *headers,
        )[lower_name(name@)][0],
        value matches Some(v) ==> stands_first(all_values(*headers), value_bytes(*v)),
{
    headers.get(name)
}

/// `HeaderValue::to_str`: the value as text, if each byte is visible ASCII, a space or a tab.
#[verifier::external_body]
fn to_str(value: &HeaderValue) -> (text: Option<&str>)
    ensures
        text is Some <==> visible_text(value_bytes(*value)) is Some,
        text matches Some(t) ==> visible_text(value_bytes(*value)) == Some(t@),
{
    value.to_str().ok()
}

/// `HeaderValue::from_str`: a value with the UTF-8 bytes of the text, unless the text holds an
/// ASCII control character other than the tab.
#[verifier::external_body]
fn from_str(text: &str) -> (value: Option<HeaderValue>)
    ensures
        value is Some <==> header_safe(text@),
        value matches Some(v) ==> value_bytes(v) == encode_utf8(text@),
{
    HeaderValue::from_str(text).ok()
}

/// `HeaderMap::new`: a map without any header.
#[verifier::external_body]
pub(crate) fn no_headers() -> (headers: HeaderMap)
    ensures
        all_values(headers) == no_values(),
{
    HeaderMap::new()
}

/// `HeaderMap::insert`: the value is the only one under its name afterwards, and the other
/// names keep theirs. It panics on a map near its greatest size, which the precondition leaves
/// out.
#[verifier::external_body]
fn insert(headers: &mut HeaderMap, name: &HeaderName, value: HeaderValue)
    requires
        all_values(*old(headers)).len() < 1000,
    ensures
        all_values(*final(headers)) == all_values(*old(headers)).insert(
            name_text(*name),
            seq![value_bytes(value)],
        ),
{
    headers.insert(name, value);
}

/// The text of the first value under `name`, if there is one and all of it is visible.
pub fn header_str<'a>(headers: &'a HeaderMap, name: &HeaderName) -> (text: Option<&'a str>)
    ensures
        text.deep_view() == header_text(all_values(*headers), name_text(*name)),
{
    match get(headers, name) {
        Some(value) => to_str(value),
        None => None,
    }
}

/// The text of the first value under `name` without the white space around it, if anything is
/// left of it. Of a `name` of more than 64 bytes it is only said that what comes back stands
/// under some name.
pub fn header_value(headers: &HeaderMap, name: &str) -> (text: Option<String>)
    ensures
        short_name(name@) ==> text.deep_view() == nonempty_trimmed(
            text_found(all_values(*headers), name@),
        ),
        text matches Some(t) ==> exists|key: Seq<char>|
            nonempty_trimmed(#[trigger] header_text(all_values(*headers), key)) == Some(t@),
{
    match get_by_text(headers, name) {
        Some(value) => {
            let ghost key = choose|key: Seq<char>| #[trigger]
                all_values(*headers).contains_key(key) && all_values(*headers)[key][0]
                    == value_bytes(*value);
            proof {
                assert(header_text(all_values(*headers), key) == visible_text(
                    value_bytes(*value),
                ));
            }
            match to_str(value) {
                Some(text) => nonempty(text),
                None => None,
            }
        },
        None => None,
    }
}

/// Sets `name` to `value`, if a header can hold that value.
pub(crate) fn insert_header(headers: &mut HeaderMap, name: &HeaderName, value: &str)
    requires
        all_values(*old(headers)).len() < 1000,
    ensures
        all_values(*final(headers)) == with_header(
            all_values(*old(headers)),
            name_text(*name),
            value@,
        ),
{
    match from_str(value) {
        Some(header_value) => insert(headers, name, header_value),
        None => {},
    }
}

} // verus!
