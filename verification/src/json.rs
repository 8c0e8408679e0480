//! JSON documents: what the claim rules read of a request, and what they answer.

use crate::text::{same_text, views};
use vstd::prelude::*;

verus! {

/// The number type of `serde_json`.
#[verifier::external_type_specification]
#[verifier::external_body]
pub struct ExNumber(serde_json::Number);

/// The document type of `serde_json`, which a document becomes to be written as text.
#[verifier::external_type_specification]
#[verifier::external_body]
pub struct ExValue(serde_json::Value);

/// The object type of `serde_json`: values by their names.
#[verifier::external_type_specification]
#[verifier::external_body]
#[verifier::reject_recursive_types(K)]
#[verifier::reject_recursive_types(V)]
pub struct ExMap<K, V>(serde_json::Map<K, V>);

/// The error type of `serde_json`.
#[verifier::external_type_specification]
#[verifier::external_body]
pub struct ExError(serde_json::Error);

/// A JSON document.
#[derive(Debug, PartialEq)]
pub enum Json {
    Null,
    Bool(bool),
    Number(serde_json::Number),
    Text(String),
    Array(Vec<Json>),
    /// The members of an object. Where a name occurs more than once, the last member counts.
    Object(Vec<Member>),
}

/// One member of an object.
#[derive(Debug, PartialEq)]
pub struct Member {
    pub name: String,
    pub value: Json,
}

/// What a document says: the order of an object's members is no part of it.
#[verifier::ext_equal]
pub enum JsonModel {
    Null,
    Bool(bool),
    /// A whole number that is not negative.
    Number(u64),
    /// Any other number.
    OtherNumber(serde_json::Number),
    Text(Seq<char>),
    Array(Seq<JsonModel>),
    Object(Map<Seq<char>, JsonModel>),
}

/// What `serde_json::Number::as_u64` says of a number: the number itself, where it is kept as a
/// whole number that is not negative.
pub uninterp spec fn whole_number(number: serde_json::Number) -> Option<u64>;

/// `Number::as_u64`.
#[verifier::external_body]
fn as_whole(number: &serde_json::Number) -> (whole: Option<u64>)
    ensures
        whole == whole_number(*number),
{
    number.as_u64()
}

/// `Number::from` on a whole number that is not negative: the number is kept as such.
#[verifier::external_body]
fn number_of(whole: u64) -> (number: serde_json::Number)
    ensures
        whole_number(number) == Some(whole),
{
    serde_json::Number::from(whole)
}

/// What a number says.
pub open spec fn number_model(number: serde_json::Number) -> JsonModel {
    match whole_number(number) {
        Some(whole) => JsonModel::Number(whole),
        None => JsonModel::OtherNumber(number),
    }
}

impl Json {
    pub open spec fn model(self) -> JsonModel
        decreases self,
    {
        match self {
            Json::Null => JsonModel::Null,
            Json::Bool(b) => JsonModel::Bool(b),
            Json::Number(n) => number_model(n),
            Json::Text(s) => JsonModel::Text(s@),
            Json::Array(items) => JsonModel::Array(items_model(items@)),
            Json::Object(members) => JsonModel::Object(members_model(members@)),
        }
    }
}

impl DeepView for Json {
    type V = JsonModel;

    open spec fn deep_view(&self) -> JsonModel {
        self.model()
    }
}

/// What the items of an array say.
pub open spec fn items_model(items: Seq<Json>) -> Seq<JsonModel>
    decreases items,
{
    if items.len() == 0 {
        Seq::empty()
    } else {
        items_model(items.drop_last()).push(items.last().model())
    }
}

/// What the members of an object say.
pub open spec fn members_model(members: Seq<Member>) -> Map<Seq<char>, JsonModel>
    decreases members,
{
    if members.len() == 0 {
        Map::empty()
    } else {
        members_model(members.drop_last()).insert(
            members.last().name@,
            members.last().value.model(),
        )
    }
}

impl JsonModel {
    /// The member `name` of an object; nothing of any other document.
    pub open spec fn get(self, name: Seq<char>) -> Option<JsonModel> {
        match self {
            JsonModel::Object(members) => if members.contains_key(name) {
                Some(members[name])
            } else {
                None
            },
            _ => None,
        }
    }

    pub open spec fn as_str(self) -> Option<Seq<char>> {
        match self {
            JsonModel::Text(text) => Some(text),
            _ => None,
        }
    }

    pub open spec fn as_bool(self) -> Option<bool> {
        match self {
            JsonModel::Bool(b) => Some(b),
            _ => None,
        }
    }

    pub open spec fn as_u64(self) -> Option<u64> {
        match self {
            JsonModel::Number(n) => Some(n),
            _ => None,
        }
    }

    pub open spec fn as_array(self) -> Option<Seq<JsonModel>> {
        match self {
            JsonModel::Array(items) => Some(items),
            _ => None,
        }
    }

    /// The member `name`, where it is a text.
    pub open spec fn text_at(self, name: Seq<char>) -> Option<Seq<char>> {
        match self.get(name) {
            Some(value) => value.as_str(),
            None => None,
        }
    }

    /// The member `name`, where it is a truth value.
    pub open spec fn bool_at(self, name: Seq<char>) -> Option<bool> {
        match self.get(name) {
            Some(value) => value.as_bool(),
            None => None,
        }
    }

    /// The member `name`, where it is a whole number that is not negative.
    pub open spec fn u64_at(self, name: Seq<char>) -> Option<u64> {
        match self.get(name) {
            Some(value) => value.as_u64(),
            None => None,
        }
    }

    /// The member `name`, where it is an array.
    pub open spec fn array_at(self, name: Seq<char>) -> Option<Seq<JsonModel>> {
        match self.get(name) {
            Some(value) => value.as_array(),
            None => None,
        }
    }

    /// The member `name`, or null where there is none.
    pub open spec fn get_or_null(self, name: Seq<char>) -> JsonModel {
        match self.get(name) {
            Some(value) => value,
            None => JsonModel::Null,
        }
    }
}

/// An array of texts.
pub open spec fn texts(parts: Seq<Seq<char>>) -> JsonModel {
    JsonModel::Array(parts.map_values(|part: Seq<char>| JsonModel::Text(part)))
}

// ---------------------------------------------------------------------------------------
// Writing a document as text
// ---------------------------------------------------------------------------------------

/// What a `serde_json::Value` holds.
pub uninterp spec fn value_model(value: serde_json::Value) -> JsonModel;

/// What the members of a `serde_json::Map` say, by their names.
pub uninterp spec fn map_model(object: serde_json::Map<String, serde_json::Value>) -> Map<
    Seq<char>,
    JsonModel,
>;

/// The text that `serde_json::to_string` writes of a document.
pub uninterp spec fn json_text(document: JsonModel) -> Seq<char>;

/// One layer of a document, with what stands below it already built.
enum Layer<'a> {
    Null,
    Bool(bool),
    Number(&'a serde_json::Number),
    Text(&'a str),
    Array(Vec<serde_json::Value>),
    Object(serde_json::Map<String, serde_json::Value>),
}

impl<'a> Layer<'a> {
    spec fn model(self) -> JsonModel {
        match self {
            Layer::Null => JsonModel::Null,
            Layer::Bool(b) => JsonModel::Bool(b),
            Layer::Number(n) => number_model(*n),
            Layer::Text(text) => JsonModel::Text(text@),
            Layer::Array(items) => JsonModel::Array(
                items@.map_values(|item: serde_json::Value| value_model(item)),
            ),
            Layer::Object(members) => JsonModel::Object(map_model(members)),
        }
    }
}

/// The members of an object without any.
pub open spec fn no_members() -> Map<Seq<char>, JsonModel> {
    Map::empty()
}

/// `serde_json::Map::new`: an object without members.
#[verifier::external_body]
fn empty_object() -> (object: serde_json::Map<String, serde_json::Value>)
    ensures
        map_model(object) == no_members(),
{
    serde_json::Map::new()
}

/// `serde_json::Map::insert`: the value stands under its name afterwards, in place of any that
/// stood there before, and the other members are as they were.
#[verifier::external_body]
fn insert_member(
    object: &mut serde_json::Map<String, serde_json::Value>,
    name: String,
    value: serde_json::Value,
)
    ensures
        map_model(*final(object)) == map_model(*old(object)).insert(name@, value_model(value)),
{
    object.insert(name, value);
}

/// The constructors of `serde_json::Value`: the value says what the layer says.
#[verifier::external_body]
fn value_of_layer(layer: Layer) -> (value: serde_json::Value)
    ensures
        value_model(value) == layer.model(),
{
    match layer {
        Layer::Null => serde_json::Value::Null,
        Layer::Bool(b) => serde_json::Value::Bool(b),
        Layer::Number(n) => serde_json::Value::Number(n.clone()),
        Layer::Text(text) => serde_json::Value::from(text),
        Layer::Array(items) => serde_json::Value::Array(items),
        Layer::Object(members) => serde_json::Value::Object(members),
    }
}

/// The `serde_json::Value` of a document.
fn value_of(document: &Json) -> (value: serde_json::Value)
    ensures
        value_model(value) == document.model(),
    decreases document,
{
    match document {
        Json::Null => value_of_layer(Layer::Null),
        Json::Bool(b) => value_of_layer(Layer::Bool(*b)),
        Json::Number(n) => value_of_layer(Layer::Number(n)),
        Json::Text(text) => value_of_layer(Layer::Text(text.as_str())),
        Json::Array(items) => {
            let mut built: Vec<serde_json::Value> = Vec::new();
            let ghost meaning = |item: serde_json::Value| value_model(item);
            let mut i: usize = 0;
            proof {
                assert(built@.map_values(meaning) =~= items_model(items@.take(0)));
            }
            while i < items.len()
                invariant
                    i <= items@.len(),
                    *document == Json::Array(*items),
                    meaning == (|item: serde_json::Value| value_model(item)),
                    built@.map_values(meaning) == items_model(items@.take(i as int)),
                decreases items@.len() - i,
            {
                let ghost before = built@;
                proof {
                    assert(decreases_to!(document => document->Array_0));
                    assert(decreases_to!(document->Array_0 => items@));
                    assert(decreases_to!(items@ => items@[i as int]));
                    assert(items@.take(i + 1).drop_last() =~= items@.take(i as int));
                }
                built.push(value_of(&items[i]));
                proof {
                    assert(built@.map_values(meaning) =~= before.map_values(meaning).push(
                        items@[i as int].model(),
                    ));
                }
                i = i + 1;
            }
            proof {
                assert(items@.take(items@.len() as int) =~= items@);
            }
            value_of_layer(Layer::Array(built))
        },
        Json::Object(members) => {
            let mut built = empty_object();
            let mut i: usize = 0;
            proof {
                assert(map_model(built) =~= members_model(members@.take(0)));
            }
            while i < members.len()
                invariant
                    i <= members@.len(),
                    *document == Json::Object(*members),
                    map_model(built) == members_model(members@.take(i as int)),
                decreases members@.len() - i,
            {
                proof {
                    assert(decreases_to!(document => document->Object_0));
                    assert(decreases_to!(document->Object_0 => members@));
                    assert(decreases_to!(members@ => members@[i as int]));
                    assert(decreases_to!(members@[i as int] => members@[i as int].value));
                    assert(members@.take(i + 1).drop_last() =~= members@.take(i as int));
                }
                let value = value_of(&members[i].value);
                insert_member(&mut built, members[i].name.clone(), value);
                i = i + 1;
            }
            proof {
                assert(members@.take(members@.len() as int) =~= members@);
            }
            value_of_layer(Layer::Object(built))
        },
    }
}

/// `serde_json::to_string` on a document: it succeeds, as no document holds a map with keys
/// other than texts, and the text depends on what the document says alone.
#[verifier::external_body]
fn to_string(value: &serde_json::Value) -> (text: Result<String, serde_json::Error>)
    ensures
        text is Ok,
        text matches Ok(t) ==> t@ == json_text(value_model(*value)),
{
    serde_json::to_string(value)
}

// ---------------------------------------------------------------------------------------
// Reading
// ---------------------------------------------------------------------------------------

/// An array has as many items as its model, each saying what it says there.
pub proof fn lemma_items_model(items: Seq<Json>)
    ensures
        items_model(items).len() == items.len(),
        forall|i: int|
            0 <= i < items.len() ==> #[trigger] items_model(items)[i] == items[i].model(),
    decreases items.len(),
{
    if items.len() > 0 {
        lemma_items_model(items.drop_last());
        assert forall|i: int| 0 <= i < items.len() implies #[trigger] items_model(items)[i]
            == items[i].model() by {
            if i < items.len() - 1 {
                assert(items.drop_last()[i] == items[i]);
            }
        }
    }
}

impl Json {
    /// The member `name` of an object; nothing of any other document.
    pub fn get(&self, name: &str) -> (found: Option<&Json>)
        ensures
            found is Some <==> self.model().get(name@) is Some,
            found matches Some(value) ==> self.model().get(name@) == Some(value.model()),
    {
        match self {
            Json::Object(members) => {
                let mut i: usize = members.len();
                proof {
                    assert(members@.take(members@.len() as int) == members@);
                }
                while i > 0
                    invariant
                        i <= members@.len(),
                        *self == Json::Object(*members),
                        members_model(members@).contains_key(name@) == members_model(
                            members@.take(i as int),
                        ).contains_key(name@),
                        members_model(members@.take(i as int)).contains_key(name@) ==> members_model(
                            members@,
                        )[name@] == members_model(members@.take(i as int))[name@],
                    decreases i,
                {
                    let ghost prefix = members@.take(i as int);
                    proof {
                        assert(prefix.drop_last() == members@.take(i - 1));
                        assert(prefix.last() == members@[i - 1]);
                    }
                    if same_text(members[i - 1].name.as_str(), name) {
                        return Some(&members[i - 1].value);
                    }
                    i = i - 1;
                }
                None
            },
            _ => None,
        }
    }

    /// A text document as text.
    pub fn as_str(&self) -> (text: Option<&str>)
        ensures
            text is Some <==> self.model().as_str() is Some,
            text matches Some(t) ==> self.model().as_str() == Some(t@),
    {
        match self {
            Json::Text(text) => Some(text.as_str()),
            _ => None,
        }
    }

    /// A truth value.
    pub fn as_bool(&self) -> (value: Option<bool>)
        ensures
            value == self.model().as_bool(),
    {
        match self {
            Json::Bool(b) => Some(*b),
            _ => None,
        }
    }

    /// A whole number that is not negative.
    pub fn as_u64(&self) -> (value: Option<u64>)
        ensures
            value == self.model().as_u64(),
    {
        match self {
            Json::Number(n) => as_whole(n),
            _ => None,
        }
    }

    /// The items of an array.
    pub fn as_array(&self) -> (items: Option<&Vec<Json>>)
        ensures
            items is Some <==> self.model().as_array() is Some,
            items matches Some(v) ==> self.model().as_array() == Some(items_model(v@)),
    {
        match self {
            Json::Array(items) => Some(items),
            _ => None,
        }
    }

    /// Whether the document is an object.
    pub fn is_object(&self) -> (yes: bool)
        ensures
            yes == (self.model() is Object),
    {
        match self {
            Json::Object(_) => true,
            _ => false,
        }
    }

    /// The member `name`, where it is a text.
    pub fn text_at(&self, name: &str) -> (text: Option<&str>)
        ensures
            text is Some <==> self.model().text_at(name@) is Some,
            text matches Some(t) ==> self.model().text_at(name@) == Some(t@),
    {
        match self.get(name) {
            Some(value) => value.as_str(),
            None => None,
        }
    }

    /// The member `name`, where it is a truth value.
    pub fn bool_at(&self, name: &str) -> (found: Option<bool>)
        ensures
            found == self.model().bool_at(name@),
    {
        match self.get(name) {
            Some(value) => value.as_bool(),
            None => None,
        }
    }

    /// The member `name`, where it is a whole number that is not negative.
    pub fn u64_at(&self, name: &str) -> (found: Option<u64>)
        ensures
            found == self.model().u64_at(name@),
    {
        match self.get(name) {
            Some(value) => value.as_u64(),
            None => None,
        }
    }

    /// The member `name`, where it is an array.
    pub fn array_at(&self, name: &str) -> (items: Option<&Vec<Json>>)
        ensures
            items is Some <==> self.model().array_at(name@) is Some,
            items matches Some(v) ==> self.model().array_at(name@) == Some(items_model(v@)),
    {
        match self.get(name) {
            Some(value) => value.as_array(),
            None => None,
        }
    }

    /// The document as text.
    pub fn to_text(&self) -> (text: String)
        ensures
            text@ == json_text(self.model()),
    {
        match to_string(&value_of(self)) {
            Ok(text) => text,
            Err(_) => "{}".to_string(),
        }
    }
}

// ---------------------------------------------------------------------------------------
// Building
// ---------------------------------------------------------------------------------------

/// Adds a member to the members of an object.
pub fn put(members: &mut Vec<Member>, name: &str, value: Json)
    ensures
        members_model(final(members)@) == members_model(old(members)@).insert(
            name@,
            value.model(),
        ),
{
    let ghost before = members@;
    members.push(Member { name: name.to_string(), value });
    proof {
        assert(members@.drop_last() == before);
    }
}

/// Adds an item to an array.
pub fn add_item(items: &mut Vec<Json>, item: Json)
    ensures
        items_model(final(items)@) == items_model(old(items)@).push(item.model()),
{
    let ghost before = items@;
    items.push(item);
    proof {
        assert(items@.drop_last() == before);
    }
}

/// A text document.
pub fn text(value: &str) -> (document: Json)
    ensures
        document.model() == JsonModel::Text(value@),
{
    Json::Text(value.to_string())
}

/// A whole number that is not negative.
pub fn number(value: u64) -> (document: Json)
    ensures
        document.model() == JsonModel::Number(value),
{
    Json::Number(number_of(value))
}

/// An array of texts.
pub fn text_array(parts: &Vec<String>) -> (document: Json)
    ensures
        document.model() == texts(views(parts@)),
{
    let mut items: Vec<Json> = Vec::new();
    let mut i: usize = 0;
    while i < parts.len()
        invariant
            i <= parts@.len(),
            items_model(items@) == views(parts@).take(i as int).map_values(
                |part: Seq<char>| JsonModel::Text(part),
            ),
        decreases parts@.len() - i,
    {
        let ghost before = items_model(items@);
        add_item(&mut items, Json::Text(parts[i].clone()));
        proof {
            assert(views(parts@).take(i + 1) == views(parts@).take(i as int).push(
                parts@[i as int]@,
            ));
            assert(items_model(items@) =~= views(parts@).take(i + 1).map_values(
                |part: Seq<char>| JsonModel::Text(part),
            ));
        }
        i = i + 1;
    }
    proof {
        assert(views(parts@).take(parts@.len() as int) == views(parts@));
    }
    Json::Array(items)
}

} // verus!
