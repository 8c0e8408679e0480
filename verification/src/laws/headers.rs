//! Laws of header fields.

use crate::headers::{
    header_char, header_text, lower_name, text_found, visible_byte, visible_text, with_header,
};
use crate::text::ascii_lower;
use vstd::prelude::*;
use vstd::utf8::{encode_utf8, is_ascii_chars, is_ascii_chars_encode_utf8};

verus! {

/// Whether a text is made of visible ASCII characters, spaces and tabs.
pub open spec fn is_visible(text: Seq<char>) -> bool {
    forall|i: int|
        0 <= i < text.len() ==> ' ' <= #[trigger] text[i] <= '~' || text[i] == '\t'
}

/// The bytes of a visible text are read back as that text.
pub proof fn law_visible_text_reads_back(text: Seq<char>)
    requires
        is_visible(text),
    ensures
        visible_text(encode_utf8(text)) == Some(text),
{
    assert(is_ascii_chars(text)) by {
        assert forall|i: int| 0 <= i < text.len() implies '\0' <= #[trigger] text[i]
            <= '\u{7f}' by {}
    }
    is_ascii_chars_encode_utf8(text);
    let bytes = encode_utf8(text);
    assert forall|i: int| 0 <= i < bytes.len() implies visible_byte(#[trigger] bytes[i]) by {
        assert(text[i] as u8 == bytes[i]);
    }
    assert(bytes.map_values(|byte: u8| byte as char) =~= text) by {
        assert forall|i: int| 0 <= i < text.len() implies bytes[i] as char == #[trigger] text[i] by {
            assert(text[i] as u8 == bytes[i]);
        }
    }
}

/// A header that was set to a visible text is read back, and the headers of other names are as
/// they were.
pub proof fn law_headers_read_back(
    values: Map<Seq<char>, Seq<Seq<u8>>>,
    name: Seq<char>,
    text: Seq<char>,
    other: Seq<char>,
)
    requires
        is_visible(text),
    ensures
        header_text(with_header(values, name, text), name) == Some(text),
        other != name ==> header_text(
            with_header(values, name, text),
            other,
        ) == header_text(values, other),
{
    law_visible_text_reads_back(text);
    assert forall|i: int| 0 <= i < text.len() implies header_char(
        #[trigger] text[i],
    ) by {}
}

/// The text of a header is that of its first value, byte by byte, and there is one exactly where
/// the header is there and each byte of that value is visible ASCII, a space or a tab.
pub proof fn law_the_first_value_is_read(
    values: Map<Seq<char>, Seq<Seq<u8>>>,
    name: Seq<char>,
    i: int,
)
    ensures
        header_text(values, name) is Some <==> values.contains_key(name) && forall|k: int|
            0 <= k < values[name][0].len() ==> (32 <= #[trigger] values[name][0][k] <= 126
                || values[name][0][k] == 9),
        header_text(values, name) matches Some(text) ==> {
            &&& text.len() == values[name][0].len()
            &&& 0 <= i < text.len() ==> text[i] as u32 == values[name][0][i] as u32
        },
{
    let bytes = values[name][0];
    assert forall|k: int| 0 <= k < bytes.len() implies visible_byte(#[trigger] bytes[k]) == (32
        <= bytes[k] <= 126 || bytes[k] == 9) by {}
}

proof fn lemma_small_letter(c: char, small: char)
    requires
        c == small || ('A' <= c <= 'Z' && small as u32 == c as u32 + 32),
        !('A' <= small <= 'Z'),
    ensures
        ascii_lower(c) == small,
{
}

proof fn lemma_header_char(c: char)
    ensures
        header_char(c) == (c == '\t' || (c >= ' ' && c != '\u{7f}')),
{
}

/// Looked up as a text, a header is found under the name that the text is in small letters, and
/// not at all where the text holds a quotation mark.
pub proof fn law_texts_find_headers_in_any_case(
    values: Map<Seq<char>, Seq<Seq<u8>>>,
    one: Seq<char>,
    other: Seq<char>,
)
    requires
        one.len() == other.len(),
        forall|i: int|
            0 <= i < one.len() ==> #[trigger] one[i] == other[i] || ('A' <= one[i] <= 'Z'
                && other[i] as u32 == one[i] as u32 + 32),
        forall|i: int| 0 <= i < other.len() ==> !('A' <= #[trigger] other[i] <= 'Z'),
    ensures
        one.contains('"') ==> text_found(values, one) is None,
        !one.contains('"') ==> text_found(values, one) == header_text(values, other),
{
    assert(lower_name(one) =~= other) by {
        assert forall|i: int| 0 <= i < one.len() implies ascii_lower(one[i]) == #[trigger] other[i] by {
            lemma_small_letter(one[i], other[i]);
        }
    }
}

/// A text can be the value of a header exactly where none of its characters is an ASCII control
/// character other than the tab. Setting it puts its UTF-8 bytes there, alone; setting any other
/// text changes nothing.
pub proof fn law_headers_hold_texts_without_control_characters(
    values: Map<Seq<char>, Seq<Seq<u8>>>,
    name: Seq<char>,
    text: Seq<char>,
)
    ensures
        ({
            let fits = forall|i: int|
                0 <= i < text.len() ==> (#[trigger] text[i] == '\t' || (text[i] >= ' ' && text[i]
                    != '\u{7f}'));
            &&& fits ==> {
                &&& with_header(values, name, text).contains_key(name)
                &&& with_header(values, name, text)[name] == seq![encode_utf8(text)]
                &&& with_header(values, name, text).remove(name) == values.remove(name)
            }
            &&& !fits ==> with_header(values, name, text) == values
        }),
{
    assert forall|i: int| 0 <= i < text.len() implies header_char(#[trigger] text[i]) == (text[i]
        == '\t' || (text[i] >= ' ' && text[i] != '\u{7f}')) by {
        lemma_header_char(text[i]);
    }
    assert(values.insert(name, seq![encode_utf8(text)]).remove(name) =~= values.remove(name));
}

} // verus!
