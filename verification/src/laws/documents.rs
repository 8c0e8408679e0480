//! Laws of JSON documents.

use crate::claim_fields::{bool_or, filled_text, text_or, u64_or};
use crate::claim_triage::{bool_in_or, text_in, text_in_or, u32_in_or};
use crate::json::{
    items_model, lemma_items_model, members_model, texts, whole_number, Json, JsonModel, Member,
};
use crate::text::{same_ignoring_case, trimmed};
use vstd::prelude::*;

verus! {

// ---------------------------------------------------------------------------------------
// What a document says of a field
// ---------------------------------------------------------------------------------------

/// Whether the member `field` of a document is a text that, without the white space around it,
/// is `name` and not empty.
pub open spec fn names(document: JsonModel, field: Seq<char>, name: Seq<char>) -> bool {
    document.get(field) matches Some(JsonModel::Text(text)) && trimmed(text) == name && name.len()
        > 0
}

/// Whether the member `field` of a document is that truth value.
pub open spec fn says(document: JsonModel, field: Seq<char>, truth: bool) -> bool {
    document.get(field) == Some(JsonModel::Bool(truth))
}

/// Whether a document says that a policy is active.
pub open spec fn says_active(policy: JsonModel) -> bool {
    policy.get("status"@) matches Some(JsonModel::Text(status)) && same_ignoring_case(
        status,
        "active"@,
    )
}

/// Whether the member `field` of a document is a number of 32 bits, and that one.
pub open spec fn counts(document: JsonModel, field: Seq<char>, number: u32) -> bool {
    document.get(field) == Some(JsonModel::Number(number as u64))
}

/// Whether the member `field` of a document is no number of 32 bits.
pub open spec fn counts_nothing(document: JsonModel, field: Seq<char>) -> bool {
    !(document.get(field) matches Some(JsonModel::Number(number)) && number <= u32::MAX)
}

// ---------------------------------------------------------------------------------------
// Documents
// ---------------------------------------------------------------------------------------

/// A document says what it holds: a number kept as a whole number says that number, an array
/// says what its items say, one by one, and an object what its members say.
pub proof fn law_documents_say_what_they_hold(document: Json)
    ensures
        match document {
            Json::Null => document.model() == JsonModel::Null,
            Json::Bool(b) => document.model() == JsonModel::Bool(b),
            Json::Number(n) => match whole_number(n) {
                Some(whole) => document.model() == JsonModel::Number(whole),
                None => document.model() == JsonModel::OtherNumber(n),
            },
            Json::Text(t) => document.model() == JsonModel::Text(t@),
            Json::Array(items) => {
                &&& document.model() matches JsonModel::Array(said)
                &&& said.len() == items@.len()
                &&& forall|i: int| 0 <= i < said.len() ==> #[trigger] said[i] == items@[i].model()
            },
            Json::Object(members) => document.model() matches JsonModel::Object(said) && said
                == members_model(members@),
        },
{
    if let Json::Array(items) = document {
        lemma_items_model(items@);
        assert(document.model() == JsonModel::Array(items_model(items@)));
    }
}

/// An object says of a name what the last member of that name says, and nothing of a name that
/// no member has.
pub proof fn law_the_last_member_of_a_name_counts(members: Seq<Member>, name: Seq<char>)
    ensures
        members_model(members).contains_key(name) <==> exists|i: int|
            0 <= i < members.len() && (#[trigger] members[i]).name@ == name,
        members_model(members).contains_key(name) ==> exists|i: int|
            {
                &&& 0 <= i < members.len()
                &&& (#[trigger] members[i]).name@ == name
                &&& members_model(members)[name] == members[i].value.model()
                &&& forall|j: int| i < j < members.len() ==> (#[trigger] members[j]).name@ != name
            },
    decreases members.len(),
{
    if members.len() > 0 {
        let front = members.drop_last();
        let last = members.len() - 1;
        law_the_last_member_of_a_name_counts(front, name);
        if members[last].name@ == name {
            assert(members_model(members)[name] == members[last].value.model());
        } else if members_model(members).contains_key(name) {
            let i = choose|i: int|
                {
                    &&& 0 <= i < front.len()
                    &&& (#[trigger] front[i]).name@ == name
                    &&& members_model(front)[name] == front[i].value.model()
                    &&& forall|j: int| i < j < front.len() ==> (#[trigger] front[j]).name@ != name
                };
            assert(members[i] == front[i]);
            assert forall|j: int| i < j < members.len() implies (#[trigger] members[j]).name@
                != name by {
                if j < last {
                    assert(front[j] == members[j]);
                }
            }
        } else {
            assert forall|i: int| 0 <= i < members.len() implies (#[trigger] members[i]).name@
                != name by {
                if i < last {
                    assert(front[i] == members[i]);
                }
            }
        }
    }
}

/// A member is read under its own name, of objects alone, and by its type.
pub proof fn law_members_are_read_by_name_and_type(
    document: JsonModel,
    name: Seq<char>,
    text: Seq<char>,
    truth: bool,
    number: u64,
    items: Seq<JsonModel>,
    member: JsonModel,
)
    ensures
        document.get(name) == Some(member) <==> (document matches JsonModel::Object(members)
            && members.contains_key(name) && members[name] == member),
        document.text_at(name) == Some(text) <==> document.get(name) == Some(JsonModel::Text(text)),
        document.bool_at(name) == Some(truth) <==> document.get(name) == Some(
            JsonModel::Bool(truth),
        ),
        document.u64_at(name) == Some(number) <==> document.get(name) == Some(
            JsonModel::Number(number),
        ),
        document.array_at(name) == Some(items) <==> document.get(name) == Some(
            JsonModel::Array(items),
        ),
        document.as_str() == Some(text) <==> document == JsonModel::Text(text),
        document.as_array() == Some(items) <==> document == JsonModel::Array(items),
        document.get(name) is Some ==> Some(document.get_or_null(name)) == document.get(name),
        document.get(name) is None ==> document.get_or_null(name) == JsonModel::Null,
{
}

/// An array of texts holds those texts, in their order.
pub proof fn law_arrays_of_texts_hold_the_texts(parts: Seq<Seq<char>>)
    ensures
        texts(parts) matches JsonModel::Array(items) && items.len() == parts.len() && forall|i: int|
            0 <= i < parts.len() ==> #[trigger] items[i] == JsonModel::Text(parts[i]),
{
}

/// How the rules read a field: as the text, the truth value or the number that it is, or else as
/// the default, whatever the field.
pub proof fn law_fields_are_read_as_they_are(
    document: JsonModel,
    field: Seq<char>,
    text: Seq<char>,
    truth: bool,
    number: u64,
    fallback: Seq<char>,
    default: bool,
    other: u64,
)
    ensures
        document.get(field) == Some(JsonModel::Text(text)) ==> {
            &&& text_or(document, field, fallback) == text
            &&& filled_text(document, field) == (if trimmed(text).len() > 0 {
                Some(text)
            } else {
                None
            })
            &&& text_in(document, field) == (if trimmed(text).len() > 0 {
                Some(trimmed(text))
            } else {
                None
            })
        },
        !(document.get(field) matches Some(JsonModel::Text(_))) ==> text_or(
            document,
            field,
            fallback,
        ) == fallback && filled_text(document, field) is None && text_in(document, field) is None,
        text_in(document, field) == Some(text) ==> text_in_or(document, field, fallback) == text,
        text_in(document, field) is None ==> text_in_or(document, field, fallback) == fallback,
        document.get(field) == Some(JsonModel::Bool(truth)) ==> bool_or(document, field, default)
            == truth && bool_in_or(document, field, default) == truth,
        !(document.get(field) matches Some(JsonModel::Bool(_))) ==> bool_or(document, field, default)
            == default && bool_in_or(document, field, default) == default,
        document.get(field) == Some(JsonModel::Number(number)) ==> u64_or(document, field, other)
            == number,
        !(document.get(field) matches Some(JsonModel::Number(_))) ==> u64_or(document, field, other)
            == other,
{
}

/// A number is read as one of 32 bits where it is one, and as the default where it is greater or
/// no number at all.
pub proof fn law_numbers_are_read_in_32_bits(
    document: JsonModel,
    field: Seq<char>,
    number: u32,
    default: u32,
)
    ensures
        counts(document, field, number) ==> u32_in_or(document, field, default) == number,
        counts_nothing(document, field) ==> u32_in_or(document, field, default) == default,
{
}

} // verus!
