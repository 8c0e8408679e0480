//! Laws of texts.

use crate::logging::affirmative;
use crate::text::{
    ascii_lower, contains_text, decimal, digit, joined, same_ignoring_case, stands_at, trimmed,
    white_space, without_leading_space, without_trailing_space,
};
use vstd::prelude::*;

verus! {

/// Different numbers are written differently.
pub proof fn law_decimal_is_injective(a: nat, b: nat)
    ensures
        decimal(a) == decimal(b) ==> a == b,
    decreases a,
{
    if decimal(a) == decimal(b) {
        if a < 10 && b < 10 {
            assert(seq![digit(a)][0] == seq![digit(b)][0]);
        } else if a < 10 {
            law_numbers_are_written_in_digits(b / 10);
            assert(decimal(a).len() == 1);
        } else if b < 10 {
            law_numbers_are_written_in_digits(a / 10);
            assert(decimal(b).len() == 1);
        } else {
            let x = decimal(a / 10);
            let y = decimal(b / 10);
            assert(x.push(digit(a % 10)).drop_last() =~= x);
            assert(y.push(digit(b % 10)).drop_last() =~= y);
            assert(x.push(digit(a % 10)).last() == y.push(digit(b % 10)).last());
            law_decimal_is_injective(a / 10, b / 10);
        }
    }
}

/// A number is written with at least one digit, and with digits alone.
pub proof fn law_numbers_are_written_in_digits(n: nat)
    ensures
        decimal(n).len() > 0,
        forall|i: int| 0 <= i < decimal(n).len() ==> '0' <= #[trigger] decimal(n)[i] <= '9',
    decreases n,
{
    if n >= 10 {
        law_numbers_are_written_in_digits(n / 10);
    }
}

proof fn lemma_leading(text: Seq<char>)
    ensures
        without_leading_space(text).len() > 0 ==> !white_space(without_leading_space(text)[0]),
        exists|from: int|
            0 <= from <= text.len() && without_leading_space(text) == #[trigger] text.skip(from),
    decreases text.len(),
{
    if text.len() > 0 && white_space(text[0]) {
        lemma_leading(text.drop_first());
        let inner = choose|from: int|
            0 <= from <= text.drop_first().len() && without_leading_space(text.drop_first())
                == #[trigger] text.drop_first().skip(from);
        assert(text.drop_first().skip(inner) =~= text.skip(inner + 1));
    } else {
        assert(text.skip(0) =~= text);
    }
}

proof fn lemma_trailing(text: Seq<char>)
    ensures
        without_trailing_space(text).len() > 0 ==> !white_space(
            without_trailing_space(text).last(),
        ),
        exists|to: int|
            0 <= to <= text.len() && without_trailing_space(text) == #[trigger] text.take(to),
    decreases text.len(),
{
    if text.len() > 0 && white_space(text.last()) {
        lemma_trailing(text.drop_last());
        let inner = choose|to: int|
            0 <= to <= text.drop_last().len() && without_trailing_space(text.drop_last())
                == #[trigger] text.drop_last().take(to);
        assert(text.drop_last().take(inner) =~= text.take(inner));
    } else {
        assert(text.take(text.len() as int) =~= text);
    }
}

/// A trimmed text neither begins nor ends with white space.
pub proof fn law_trimmed_has_no_outer_space(text: Seq<char>)
    ensures
        trimmed(text).len() > 0 ==> !white_space(trimmed(text)[0]) && !white_space(
            trimmed(text).last(),
        ),
{
    let front = without_leading_space(text);
    lemma_leading(text);
    lemma_trailing(front);
}

/// Trimming a trimmed text changes nothing.
pub proof fn law_trim_is_idempotent(text: Seq<char>)
    ensures
        trimmed(trimmed(text)) == trimmed(text),
{
    law_trimmed_has_no_outer_space(text);
}

/// Equality up to the case of letters is an equivalence.
pub proof fn law_ignoring_case_is_an_equivalence(a: Seq<char>, b: Seq<char>, c: Seq<char>)
    ensures
        same_ignoring_case(a, a),
        same_ignoring_case(a, b) ==> same_ignoring_case(b, a),
        same_ignoring_case(a, b) && same_ignoring_case(b, c) ==> same_ignoring_case(a, c),
{
    if same_ignoring_case(a, b) {
        assert forall|i: int| 0 <= i < b.len() implies ascii_lower(#[trigger] b[i]) == ascii_lower(
            a[i],
        ) by {
            assert(ascii_lower(a[i]) == ascii_lower(b[i]));
        }
        if same_ignoring_case(b, c) {
            assert forall|i: int| 0 <= i < a.len() implies ascii_lower(#[trigger] a[i])
                == ascii_lower(c[i]) by {
                assert(ascii_lower(b[i]) == ascii_lower(c[i]));
            }
        }
    }
}

/// The number that some decimal digits say.
pub open spec fn number_said(digits: Seq<char>) -> int
    decreases digits.len(),
{
    if digits.len() == 0 {
        0
    } else {
        number_said(digits.drop_last()) * 10 + (digits.last() as u32 - 48)
    }
}

/// What is written of a number says that number, and does not begin with a needless zero.
pub proof fn law_what_is_written_says_the_number(n: nat)
    ensures
        number_said(decimal(n)) == n,
        decimal(n)[0] == '0' ==> n == 0,
    decreases n,
{
    reveal_with_fuel(number_said, 2);
    if n < 10 {
        assert(decimal(n).drop_last() =~= Seq::empty());
    } else {
        law_what_is_written_says_the_number(n / 10);
        law_numbers_are_written_in_digits(n / 10);
        assert(decimal(n).drop_last() =~= decimal(n / 10));
        assert(decimal(n)[0] == decimal(n / 10)[0]);
    }
}

/// Trimming takes off the white space at both ends, all of it, and nothing else.
pub proof fn law_trimming_takes_off_white_space(text: Seq<char>)
    ensures
        exists|from: int, to: int|
            {
                &&& 0 <= from <= to <= text.len()
                &&& trimmed(text) == #[trigger] text.subrange(from, to)
                &&& forall|i: int| 0 <= i < from ==> white_space(#[trigger] text[i])
                &&& forall|i: int| to <= i < text.len() ==> white_space(#[trigger] text[i])
                &&& from < to ==> !white_space(text[from]) && !white_space(text[to - 1])
            },
{
    let front = without_leading_space(text);
    lemma_leading(text);
    lemma_leading_is_white(text);
    lemma_trailing(front);
    lemma_trailing_is_white(front);
    let from = text.len() - front.len();
    let to = from + trimmed(text).len();
    assert(front =~= text.skip(from));
    assert(trimmed(text) =~= text.subrange(from, to)) by {
        assert(trimmed(text) =~= front.take(trimmed(text).len() as int));
    }
    assert forall|i: int| to <= i < text.len() implies white_space(#[trigger] text[i]) by {
        assert(front[i - from] == text[i]);
    }
    if from < to {
        assert(text[from] == trimmed(text)[0]);
        assert(text[to - 1] == trimmed(text).last());
        law_trimmed_has_no_outer_space(text);
    }
}

proof fn lemma_leading_is_white(text: Seq<char>)
    ensures
        without_leading_space(text).len() <= text.len(),
        without_leading_space(text) == text.skip(text.len() - without_leading_space(text).len()),
        forall|i: int|
            0 <= i < text.len() - without_leading_space(text).len() ==> white_space(
                #[trigger] text[i],
            ),
    decreases text.len(),
{
    if text.len() > 0 && white_space(text[0]) {
        let rest = text.drop_first();
        lemma_leading_is_white(rest);
        let kept = without_leading_space(text).len();
        assert(rest.skip(rest.len() - kept) =~= text.skip(text.len() - kept));
        assert forall|i: int| 0 <= i < text.len() - kept implies white_space(
            #[trigger] text[i],
        ) by {
            if i > 0 {
                assert(rest[i - 1] == text[i]);
            }
        }
    } else {
        assert(text.skip(0) =~= text);
    }
}

proof fn lemma_trailing_is_white(text: Seq<char>)
    ensures
        without_trailing_space(text).len() <= text.len(),
        without_trailing_space(text) == text.take(without_trailing_space(text).len() as int),
        forall|i: int|
            without_trailing_space(text).len() <= i < text.len() ==> white_space(
                #[trigger] text[i],
            ),
    decreases text.len(),
{
    if text.len() > 0 && white_space(text.last()) {
        let rest = text.drop_last();
        lemma_trailing_is_white(rest);
        let kept = without_trailing_space(text).len();
        assert(rest.take(kept as int) =~= text.take(kept as int));
        assert forall|i: int| kept <= i < text.len() implies white_space(#[trigger] text[i]) by {
            if i < text.len() - 1 {
                assert(rest[i] == text[i]);
            }
        }
    } else {
        assert(text.take(text.len() as int) =~= text);
    }
}

/// A text holds a part exactly where it is that part with something before and behind it.
pub proof fn law_a_part_has_a_place(text: Seq<char>, part: Seq<char>)
    ensures
        contains_text(text, part) <==> exists|before: Seq<char>, behind: Seq<char>|
            text == #[trigger] (before + part + behind),
{
    if contains_text(text, part) {
        let at = choose|at: int| stands_at(text, part, at);
        let before = text.take(at);
        let behind = text.skip(at + part.len());
        assert(text =~= before + part + behind) by {
            assert forall|i: int| 0 <= i < text.len() implies text[i] == (before + part
                + behind)[i] by {
                if at <= i < at + part.len() {
                    assert(text.subrange(at, at + part.len())[i - at] == text[i]);
                }
            }
        }
    }
    if exists|before: Seq<char>, behind: Seq<char>| text == #[trigger] (before + part + behind) {
        let (before, behind) = choose|before: Seq<char>, behind: Seq<char>|
            text == #[trigger] (before + part + behind);
        let at = before.len() as int;
        assert(text.subrange(at, at + part.len()) =~= part);
        assert(stands_at(text, part, at));
    }
}

/// Texts are the same up to case exactly where each two characters are the same, or the capital
/// and the small form of one ASCII letter.
pub proof fn law_case_is_that_of_ascii_letters(a: Seq<char>, b: Seq<char>)
    ensures
        same_ignoring_case(a, b) <==> a.len() == b.len() && forall|i: int|
            0 <= i < a.len() ==> {
                ||| #[trigger] a[i] == b[i]
                ||| 'A' <= a[i] <= 'Z' && b[i] as u32 == a[i] as u32 + 32
                ||| 'A' <= b[i] <= 'Z' && a[i] as u32 == b[i] as u32 + 32
            },
{
    if same_ignoring_case(a, b) {
        assert forall|i: int| 0 <= i < a.len() implies {
            ||| #[trigger] a[i] == b[i]
            ||| 'A' <= a[i] <= 'Z' && b[i] as u32 == a[i] as u32 + 32
            ||| 'A' <= b[i] <= 'Z' && a[i] as u32 == b[i] as u32 + 32
        } by {
            let x: char = a[i];
            let y: char = b[i];
            assert(ascii_lower(x) == ascii_lower(y));
        }
    }
    if a.len() == b.len() && forall|i: int|
        0 <= i < a.len() ==> {
            ||| #[trigger] a[i] == b[i]
            ||| 'A' <= a[i] <= 'Z' && b[i] as u32 == a[i] as u32 + 32
            ||| 'A' <= b[i] <= 'Z' && a[i] as u32 == b[i] as u32 + 32
        } {
        assert forall|i: int| 0 <= i < a.len() implies ascii_lower(#[trigger] a[i])
            == ascii_lower(b[i]) by {
            let x: char = a[i];
            let y: char = b[i];
            assert(ascii_lower(x) == ascii_lower(y));
        }
    }
}

/// Joining puts the separator between neighbours and nowhere else: a list is joined to what
/// comes behind it by one separator, and one text alone stays as it is.
pub proof fn law_joining_separates_neighbours(
    front: Seq<Seq<char>>,
    back: Seq<Seq<char>>,
    separator: Seq<char>,
    part: Seq<char>,
)
    ensures
        joined(Seq::empty(), separator) == Seq::<char>::empty(),
        joined(seq![part], separator) == part,
        front.len() > 0 && back.len() > 0 ==> joined(front + back, separator) == joined(
            front,
            separator,
        ) + separator + joined(back, separator),
    decreases back.len(),
{
    if front.len() > 0 && back.len() > 0 {
        assert((front + back).drop_last() =~= front + back.drop_last());
        assert((front + back).last() == back.last());
        if back.len() == 1 {
            assert(front + back.drop_last() =~= front);
        } else {
            law_joining_separates_neighbours(front, back.drop_last(), separator, part);
            assert(joined(front + back, separator) =~= joined(front, separator) + separator + joined(
                back,
                separator,
            ));
        }
    }
}

/// A setting switches something on where it is one of four words, and no other does.
pub proof fn law_four_words_switch_on(setting: Seq<char>)
    ensures
        affirmative(setting) <==> setting == "true"@ || setting == "1"@ || setting == "yes"@
            || setting == "on"@,
{
}

} // verus!
