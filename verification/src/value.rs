use crate::json::{json_view, pairs_map, render_json, rendered, JsonValue, JsonView};
use tantivy::schema::OwnedValue;
use vstd::prelude::*;

verus! {

/// tantivy's value of a document field.
#[verifier::external_type_specification]
#[verifier::external_body]
pub struct ExOwnedValue(OwnedValue);

/// A value of a stored document as the contracts see it.
pub enum StoredView {
    Null,
    Text(Seq<char>),
    U64(u64),
    I64(i64),
    /// A float, by the JSON value that serde_json makes of it: a number, or
    /// null for one that is not finite.
    Float(JsonView),
    Bool(bool),
    Array(Seq<StoredView>),
    Object(Seq<(Seq<char>, StoredView)>),
    /// A text that comes with its tokens, by the texts of the tokens. An
    /// index stores the text of such a value alone, so no stored document
    /// holds one.
    Tokens(Seq<Seq<char>>),
    /// A date, a facet, bytes or an address.
    Other,
}

/// What an `OwnedValue` holds.
pub uninterp spec fn stored_view(value: OwnedValue) -> StoredView;

/// What tantivy stores for a JSON value: what `OwnedValue::from` makes of
/// the `serde_json::Value`.
pub uninterp spec fn stored_of_json(value: JsonView) -> StoredView;

/// What a list of token texts holds.
pub open spec fn token_texts(tokens: Seq<String>) -> Seq<Seq<char>> {
    tokens.map_values(|token: String| token@)
}

/// What the list of an array holds.
pub open spec fn stored_items(items: Seq<OwnedValue>) -> Seq<StoredView> {
    items.map_values(|item: OwnedValue| stored_view(item))
}

/// What the member list of an object holds.
pub open spec fn stored_members(
    members: Seq<(String, OwnedValue)>,
) -> Seq<(Seq<char>, StoredView)> {
    members.map_values(|member: (String, OwnedValue)| (member.0@, stored_view(member.1)))
}

/// One level of a stored value, opened: the scalars by value, the members of
/// an array or an object still in tantivy's form.
pub enum StoredValue {
    Null,
    Text(String),
    U64(u64),
    I64(i64),
    Float(serde_json::Value),
    Bool(bool),
    Array(Vec<OwnedValue>),
    Object(Vec<(String, OwnedValue)>),
    Tokens(Vec<String>),
    Other,
}

impl View for StoredValue {
    type V = StoredView;

    open spec fn view(&self) -> StoredView {
        match self {
            StoredValue::Null => StoredView::Null,
            StoredValue::Text(s) => StoredView::Text(s@),
            StoredValue::U64(n) => StoredView::U64(*n),
            StoredValue::I64(n) => StoredView::I64(*n),
            StoredValue::Float(v) => StoredView::Float(json_view(*v)),
            StoredValue::Bool(b) => StoredView::Bool(*b),
            StoredValue::Array(items) => StoredView::Array(stored_items(items@)),
            StoredValue::Object(members) => StoredView::Object(stored_members(members@)),
            StoredValue::Tokens(tokens) => StoredView::Tokens(token_texts(tokens@)),
            StoredValue::Other => StoredView::Other,
        }
    }
}

/// Opens one level of an `OwnedValue`, variant by variant. A float becomes
/// the JSON value that `serde_json::Value::from` makes of it, and a
/// pre-tokenized text the texts of its tokens.
#[verifier::external_body]
fn classify(value: &OwnedValue) -> (r: StoredValue)
    ensures
        r@ == stored_view(*value),
{
    match value {
        OwnedValue::Null => StoredValue::Null,
        OwnedValue::Str(text) => StoredValue::Text(text.clone()),
        OwnedValue::U64(n) => StoredValue::U64(*n),
        OwnedValue::I64(n) => StoredValue::I64(*n),
        OwnedValue::F64(x) => StoredValue::Float(serde_json::Value::from(*x)),
        OwnedValue::Bool(b) => StoredValue::Bool(*b),
        OwnedValue::Array(items) => StoredValue::Array(items.clone()),
        OwnedValue::Object(members) => StoredValue::Object(members.clone()),
        OwnedValue::PreTokStr(pre) => StoredValue::Tokens(
            pre.tokens.iter().map(|token| token.text.clone()).collect(),
        ),
        _ => StoredValue::Other,
    }
}

/// `OwnedValue::from` on a text: the text as a value of a document.
#[verifier::external_body]
pub(crate) fn text_value(text: &str) -> (r: OwnedValue)
    ensures
        stored_view(r) == StoredView::Text(text@),
{
    OwnedValue::from(text)
}

/// `OwnedValue::from` on a `serde_json::Value`: the value as tantivy stores
/// it, which is never a text with tokens.
#[verifier::external_body]
pub(crate) fn json_value(value: serde_json::Value) -> (r: OwnedValue)
    ensures
        stored_view(r) == stored_of_json(json_view(value)),
        !(stored_view(r) is Tokens),
{
    OwnedValue::from(value)
}

/// The JSON value for a member of a stored array: a scalar by its natural
/// JSON type, anything else null.
pub open spec fn item_json(value: StoredView) -> JsonView {
    match value {
        StoredView::Text(text) => JsonView::Text(text),
        StoredView::U64(n) => JsonView::Int(n as int),
        StoredView::I64(n) => JsonView::Int(n as int),
        StoredView::Float(number) => number,
        StoredView::Bool(b) => JsonView::Bool(b),
        _ => JsonView::Null,
    }
}

/// The JSON value for a member of the stored metadata object: a scalar by
/// its natural JSON type, an array member by member, anything else null.
pub open spec fn field_json(value: StoredView) -> JsonView {
    match value {
        StoredView::Array(items) => JsonView::Array(
            items.map_values(|item: StoredView| item_json(item)),
        ),
        _ => item_json(value),
    }
}

/// The JSON object for a stored metadata object.
pub open spec fn object_json(members: Seq<(Seq<char>, StoredView)>) -> JsonView {
    JsonView::Object(
        pairs_map(
            members.map_values(|member: (Seq<char>, StoredView)| (member.0, field_json(member.1))),
        ),
    )
}

/// The metadata text of a result, from the first stored value of the
/// metadata field: a text as it is, an object as JSON, and `{}` for a
/// missing value and for any other one.
pub open spec fn metadata_text(first: Option<StoredView>) -> Seq<char> {
    match first {
        Some(StoredView::Text(text)) => text,
        Some(StoredView::Object(members)) => rendered(object_json(members)),
        _ => "{}"@,
    }
}

/// The text of a result field, from the first stored value of the field: a
/// text as it is, and the empty text for a missing value and for any other
/// one.
pub open spec fn field_text(first: Option<StoredView>) -> Seq<char> {
    match first {
        Some(StoredView::Text(text)) => text,
        _ => Seq::empty(),
    }
}

/// What a value holds that was looked up and may be missing.
pub open spec fn found_view(found: Option<&OwnedValue>) -> Option<StoredView> {
    match found {
        Some(value) => Some(stored_view(*value)),
        None => None,
    }
}

/// Projects a member of a stored array.
pub fn project_item(value: &OwnedValue) -> (json: JsonValue)
    ensures
        json@ == item_json(stored_view(*value)),
{
    match classify(value) {
        StoredValue::Text(text) => JsonValue::Text(text),
        StoredValue::U64(n) => JsonValue::UInt(n),
        StoredValue::I64(n) => JsonValue::Int(n),
        StoredValue::Float(number) => JsonValue::Raw(number),
        StoredValue::Bool(b) => JsonValue::Bool(b),
        _ => JsonValue::Null,
    }
}

/// Projects a member of the stored metadata object.
pub fn project_field(value: &OwnedValue) -> (json: JsonValue)
    ensures
        json@ == field_json(stored_view(*value)),
{
    match classify(value) {
        StoredValue::Text(text) => JsonValue::Text(text),
        StoredValue::U64(n) => JsonValue::UInt(n),
        StoredValue::I64(n) => JsonValue::Int(n),
        StoredValue::Float(number) => JsonValue::Raw(number),
        StoredValue::Bool(b) => JsonValue::Bool(b),
        StoredValue::Array(items) => {
            let ghost views = stored_items(items@);
            let mut out: Vec<JsonValue> = Vec::new();
            let mut i: usize = 0;
            while i < items.len()
                invariant
                    i <= items.len(),
                    out@.len() == i,
                    forall|k: int|
                        0 <= k < i ==> (#[trigger] out@[k])@ == item_json(stored_view(items@[k])),
                decreases items.len() - i,
            {
                let item = project_item(&items[i]);
                out.push(item);
                i = i + 1;
            }
            let json = JsonValue::Array(out);
            assert(json@ == field_json(stored_view(*value))) by {
                let expected = views.map_values(|item: StoredView| item_json(item));
                assert(json.item_views() =~= expected);
            }
            json
        },
        _ => JsonValue::Null,
    }
}

/// Projects the stored metadata object.
pub fn project_object(members: &Vec<(String, OwnedValue)>) -> (json: JsonValue)
    ensures
        json@ == object_json(stored_members(members@)),
{
    let mut out: Vec<(String, JsonValue)> = Vec::new();
    let mut i: usize = 0;
    while i < members.len()
        invariant
            i <= members.len(),
            out@.len() == i,
            forall|k: int|
                0 <= k < i ==> (#[trigger] out@[k]).0@ == members@[k].0@ && out@[k].1@ == field_json(
                    stored_view(members@[k].1),
                ),
        decreases members.len() - i,
    {
        let key = members[i].0.clone();
        let json = project_field(&members[i].1);
        out.push((key, json));
        i = i + 1;
    }
    let json = JsonValue::Object(out);
    assert(json@ == object_json(stored_members(members@))) by {
        let expected = stored_members(members@).map_values(
            |member: (Seq<char>, StoredView)| (member.0, field_json(member.1)),
        );
        assert(json.member_views() =~= expected);
    }
    json
}

/// Projects the first stored value of the metadata field to the metadata
/// text of a result.
pub fn project_metadata(first: Option<&OwnedValue>) -> (text: String)
    ensures
        text@ == metadata_text(found_view(first)),
{
    match first {
        Some(value) => match classify(value) {
            StoredValue::Text(text) => text,
            StoredValue::Object(members) => {
                let json = project_object(&members);
                render_json(&json)
            },
            _ => String::from_str("{}"),
        },
        None => String::from_str("{}"),
    }
}

/// Projects the first stored value of a text field to the text of a result.
pub fn project_text(first: Option<&OwnedValue>) -> (text: String)
    ensures
        text@ == field_text(found_view(first)),
{
    match first {
        Some(value) => match classify(value) {
            StoredValue::Text(text) => text,
            _ => String::new(),
        },
        None => String::new(),
    }
}

} // verus!
