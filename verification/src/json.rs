//! The JSON documents that the library builds, and the ones that it only carries.
//!
//! A request body or a tool schema is a [`Json`] tree, so its contents can be
//! stated. A document that came from a model is a `serde_json::Value`, which
//! stays opaque: it is parsed, copied and rendered, and never looked into.

use crate::text::same_text;
use vstd::prelude::*;
use vstd::string::*;

verus! {

/// A JSON document of `serde_json`, opaque to the proofs.
#[verifier::external_type_specification]
#[verifier::external_body]
pub struct ExValue(serde_json::Value);

/// What `serde_json::from_str` makes of a text: a document, or the message of its error.
pub uninterp spec fn parsed_document(text: Seq<char>) -> Result<serde_json::Value, Seq<char>>;

/// The compact text that `serde_json` writes for a document.
pub uninterp spec fn document_text(document: serde_json::Value) -> Seq<char>;

/// A parse outcome with its message as a text.
pub open spec fn parse_view(outcome: Result<serde_json::Value, String>) -> Result<
    serde_json::Value,
    Seq<char>,
> {
    match outcome {
        Ok(document) => Ok(document),
        Err(message) => Err(message@),
    }
}

/// A list of parse outcomes with their messages as texts.
pub open spec fn parse_views(outcomes: Seq<Result<serde_json::Value, String>>) -> Seq<
    Result<serde_json::Value, Seq<char>>,
> {
    outcomes.map_values(|outcome: Result<serde_json::Value, String>| parse_view(outcome))
}

/// Calls `serde_json::from_str` for a `serde_json::Value`, and `to_string` of the error where
/// there is one, which says what is wrong and where.
///
/// The outcome depends on the text alone. Nothing is said of which texts are
/// JSON, nor of the document that a text stands for.
#[verifier::external_body]
pub(crate) fn parse_document(text: &str) -> (outcome: Result<serde_json::Value, String>)
    ensures
        parse_view(outcome) == parsed_document(text@),
{
    match serde_json::from_str(text) {
        Ok(document) => Ok(document),
        Err(error) => Err(error.to_string()),
    }
}

/// Calls `to_string` of `serde_json::Value`, which writes the compact form.
///
/// The text depends on the document alone.
#[verifier::external_body]
pub(crate) fn render_document(document: &serde_json::Value) -> (text: String)
    ensures
        text@ == document_text(*document),
{
    document.to_string()
}

/// `clone` of `serde_json::Value`, which is derived: the copy is the same document.
pub assume_specification[ <serde_json::Value as Clone>::clone ](
    value: &serde_json::Value,
) -> (copy: serde_json::Value)
    ensures
        copy == *value,
;

/// A JSON document that the library builds.
#[derive(Debug)]
pub enum Json {
    /// A truth value.
    Bool(bool),
    /// A whole number.
    Number(u64),
    /// A string.
    Text(String),
    /// A list.
    Array(Vec<Json>),
    /// An object: its fields, each with its name.
    Object(Vec<(String, Json)>),
    /// A document from elsewhere, taken over as it is.
    Document(serde_json::Value),
}

/// The contents of a [`Json`] document.
pub enum JsonView {
    /// A truth value.
    Bool(bool),
    /// A whole number.
    Number(nat),
    /// A string.
    Text(Seq<char>),
    /// A list.
    Array(Seq<JsonView>),
    /// An object: its fields, each with its name.
    Object(Seq<(Seq<char>, JsonView)>),
    /// A document from elsewhere, taken over as it is.
    Document(serde_json::Value),
}

impl View for Json {
    type V = JsonView;

    open spec fn view(&self) -> JsonView
        decreases self,
    {
        match self {
            Json::Bool(value) => JsonView::Bool(*value),
            Json::Number(value) => JsonView::Number(*value as nat),
            Json::Text(text) => JsonView::Text(text@),
            Json::Array(items) => JsonView::Array(
                Seq::new(
                    items@.len(),
                    |i: int|
                        if 0 <= i < items@.len() {
                            items@[i].view()
                        } else {
                            arbitrary()
                        },
                ),
            ),
            Json::Object(fields) => JsonView::Object(
                Seq::new(
                    fields@.len(),
                    |i: int|
                        if 0 <= i < fields@.len() {
                            (fields@[i].0@, fields@[i].1.view())
                        } else {
                            arbitrary()
                        },
                ),
            ),
            Json::Document(value) => JsonView::Document(*value),
        }
    }
}

/// The contents of every document of a list.
pub open spec fn json_views(items: Seq<Json>) -> Seq<JsonView> {
    items.map_values(|item: Json| item@)
}

/// The contents of every field of an object.
pub open spec fn field_views(fields: Seq<(String, Json)>) -> Seq<(Seq<char>, JsonView)> {
    fields.map_values(|field: (String, Json)| (field.0@, field.1@))
}

/// The contents of a list are the contents of its items.
proof fn lemma_array_view(items: Vec<Json>)
    ensures
        Json::Array(items)@ == JsonView::Array(json_views(items@)),
{
    reveal_with_fuel(<Json as View>::view, 2);
    assert(Json::Array(items)@->Array_0 =~= json_views(items@));
}

/// The contents of an object are the contents of its fields.
proof fn lemma_object_view(fields: Vec<(String, Json)>)
    ensures
        Json::Object(fields)@ == JsonView::Object(field_views(fields@)),
{
    reveal_with_fuel(<Json as View>::view, 2);
    assert(Json::Object(fields)@->Object_0 =~= field_views(fields@));
}

impl Clone for Json {
    fn clone(&self) -> (copy: Json)
        ensures
            copy@ == self@,
        decreases self,
    {
        match self {
            Json::Bool(value) => Json::Bool(*value),
            Json::Number(value) => Json::Number(*value),
            Json::Text(text) => Json::Text(text.clone()),
            Json::Array(items) => {
                let mut copies: Vec<Json> = Vec::new();
                let mut i: usize = 0;
                while i < items.len()
                    invariant
                        i <= items@.len(),
                        i == copies@.len(),
                        *self == Json::Array(*items),
                        forall|j: int| 0 <= j < i ==> (#[trigger] copies@[j])@ == items@[j]@,
                    decreases items@.len() - i,
                {
                    assert(decreases_to!(*self => self->Array_0));
                    assert(decreases_to!(*items => items@));
                    assert(decreases_to!(items@ => items@[i as int]));
                    let copy = items[i].clone();
                    copies.push(copy);
                    i += 1;
                }
                proof {
                    lemma_array_view(*items);
                    assert(json_views(copies@) =~= json_views(items@));
                }
                array(copies)
            },
            Json::Object(fields) => {
                let mut copies: Vec<(String, Json)> = Vec::new();
                let mut i: usize = 0;
                while i < fields.len()
                    invariant
                        i <= fields@.len(),
                        i == copies@.len(),
                        *self == Json::Object(*fields),
                        forall|j: int|
                            0 <= j < i ==> (#[trigger] copies@[j]).0@ == fields@[j].0@
                                && copies@[j].1@ == fields@[j].1@,
                    decreases fields@.len() - i,
                {
                    let (name, value) = &fields[i];
                    assert(decreases_to!(*self => self->Object_0));
                    assert(decreases_to!(*fields => fields@));
                    assert(decreases_to!(fields@ => fields@[i as int]));
                    assert(decreases_to!(fields@[i as int] => fields@[i as int].1));
                    let copy = value.clone();
                    copies.push((name.clone(), copy));
                    i += 1;
                }
                proof {
                    lemma_object_view(*fields);
                    assert(field_views(copies@) =~= field_views(fields@));
                }
                object(copies)
            },
            Json::Document(value) => Json::Document(value.clone()),
        }
    }
}

/// Builds a string.
pub fn text(value: &str) -> (json: Json)
    ensures
        json@ == JsonView::Text(value@),
{
    Json::Text(value.to_string())
}

/// Builds a list.
pub fn array(items: Vec<Json>) -> (json: Json)
    ensures
        json@ == JsonView::Array(json_views(items@)),
{
    proof {
        lemma_array_view(items);
    }
    Json::Array(items)
}

/// Builds an object.
pub fn object(fields: Vec<(String, Json)>) -> (json: Json)
    ensures
        json@ == JsonView::Object(field_views(fields@)),
{
    proof {
        lemma_object_view(fields);
    }
    Json::Object(fields)
}

/// Builds a field of an object.
pub fn field(name: &str, value: Json) -> (field: (String, Json))
    ensures
        field.0@ == name@,
        field.1 == value,
{
    (name.to_string(), value)
}

/// The fields of an object with one of them set: an old value under the name is replaced.
pub open spec fn with_field(
    fields: Seq<(Seq<char>, JsonView)>,
    name: Seq<char>,
    value: JsonView,
) -> Seq<(Seq<char>, JsonView)>
    decreases fields.len(),
{
    if fields.len() == 0 {
        seq![(name, value)]
    } else if fields[0].0 == name {
        seq![(name, value)] + fields.drop_first()
    } else {
        seq![fields[0]] + with_field(fields.drop_first(), name, value)
    }
}

/// Setting a field that none of the first `count` fields has leaves those in place.
proof fn lemma_with_field_skips(
    fields: Seq<(Seq<char>, JsonView)>,
    name: Seq<char>,
    value: JsonView,
    count: int,
)
    requires
        0 <= count <= fields.len(),
        forall|i: int| 0 <= i < count ==> (#[trigger] fields[i]).0 != name,
    ensures
        with_field(fields, name, value) == fields.take(count) + with_field(
            fields.skip(count),
            name,
            value,
        ),
    decreases count,
{
    if count == 0 {
        assert(fields.skip(0) =~= fields);
        assert(with_field(fields, name, value) =~= fields.take(0) + with_field(
            fields,
            name,
            value,
        ));
    } else {
        let rest = fields.drop_first();
        assert forall|i: int| 0 <= i < count - 1 implies (#[trigger] rest[i]).0 != name by {
            assert(fields[i + 1].0 != name);
        }
        assert(fields[0].0 != name);
        lemma_with_field_skips(rest, name, value, count - 1);
        assert(rest.skip(count - 1) =~= fields.skip(count));
        assert(seq![fields[0]] + rest.take(count - 1) =~= fields.take(count));
        assert(with_field(fields, name, value) =~= fields.take(count) + with_field(
            fields.skip(count),
            name,
            value,
        ));
    }
}

/// A field that an object does not have is added at its end.
pub proof fn lemma_new_field_comes_last(
    fields: Seq<(Seq<char>, JsonView)>,
    name: Seq<char>,
    value: JsonView,
)
    requires
        forall|i: int| 0 <= i < fields.len() ==> (#[trigger] fields[i]).0 != name,
    ensures
        with_field(fields, name, value) == fields.push((name, value)),
{
    lemma_with_field_skips(fields, name, value, fields.len() as int);
    assert(fields.skip(fields.len() as int) =~= Seq::empty());
    assert(with_field(fields, name, value) =~= fields.push((name, value)));
}

/// Sets a field of an object.
pub fn set_field(fields: &mut Vec<(String, Json)>, name: &str, value: Json)
    ensures
        field_views(final(fields)@) == with_field(field_views(old(fields)@), name@, value@),
{
    let ghost before = field_views(fields@);
    let ghost all = fields@;
    let mut i: usize = 0;
    while i < fields.len()
        invariant
            i <= fields@.len(),
            all == fields@,
            all == old(fields)@,
            before == field_views(all),
            forall|j: int| 0 <= j < i ==> (#[trigger] before[j]).0 != name@,
        decreases fields@.len() - i,
    {
        if same_text(fields[i].0.as_str(), name) {
            proof {
                lemma_with_field_skips(before, name@, value@, i as int);
                assert(before.skip(i as int)[0].0 == name@);
            }
            fields[i] = field(name, value);
            assert(field_views(fields@) =~= with_field(before, name@, value@));
            return;
        }
        assert(before[i as int].0 == all[i as int].0@);
        i += 1;
    }
    proof {
        lemma_with_field_skips(before, name@, value@, i as int);
        assert(before.skip(i as int) =~= Seq::<(Seq<char>, JsonView)>::empty());
    }
    fields.push(field(name, value));
    assert(field_views(fields@) =~= with_field(before, name@, value@));
}

} // verus!
