use vstd::prelude::*;

verus! {

/// serde_json's value.
#[verifier::external_type_specification]
#[verifier::external_body]
pub struct ExJsonValue(serde_json::Value);

/// A JSON value as the contracts see it. An object is a map: of two members
/// with one key the later one counts.
pub enum JsonView {
    Null,
    Bool(bool),
    /// An integer number.
    Int(int),
    /// A number that is no integer, by the bits of its IEEE 754 double.
    Float(u64),
    Text(Seq<char>),
    Array(Seq<JsonView>),
    Object(Map<Seq<char>, JsonView>),
}

/// The map that a list of members denotes: a later member replaces an
/// earlier one with the same key.
pub open spec fn pairs_map(pairs: Seq<(Seq<char>, JsonView)>) -> Map<Seq<char>, JsonView>
    decreases pairs.len(),
{
    if pairs.len() == 0 {
        Map::empty()
    } else {
        pairs_map(pairs.drop_last()).insert(pairs.last().0, pairs.last().1)
    }
}

/// The object without members.
pub open spec fn empty_object() -> JsonView {
    JsonView::Object(Map::empty())
}

/// A JSON value that verified code builds.
#[derive(Debug, PartialEq)]
pub enum JsonValue {
    Null,
    Bool(bool),
    Int(i64),
    UInt(u64),
    Text(String),
    /// A value kept in serde_json's own form. A stored float arrives like
    /// this, as the JSON number serde_json made of it.
    Raw(serde_json::Value),
    Array(Vec<JsonValue>),
    Object(Vec<(String, JsonValue)>),
}

impl JsonValue {
    /// What the members of an array hold; empty for any other value.
    pub open spec fn item_views(&self) -> Seq<JsonView>
        decreases self, 0nat,
    {
        match self {
            JsonValue::Array(items) => Seq::new(
                items@.len(),
                |i: int|
                    if 0 <= i < items@.len() {
                        items@[i].to_view()
                    } else {
                        JsonView::Null
                    },
            ),
            _ => Seq::empty(),
        }
    }

    /// What the members of an object hold, in the order in which they
    /// stand; empty for any other value.
    pub open spec fn member_views(&self) -> Seq<(Seq<char>, JsonView)>
        decreases self, 0nat,
    {
        match self {
            JsonValue::Object(members) => Seq::new(
                members@.len(),
                |i: int|
                    if 0 <= i < members@.len() {
                        (members@[i].0@, members@[i].1.to_view())
                    } else {
                        (Seq::empty(), JsonView::Null)
                    },
            ),
            _ => Seq::empty(),
        }
    }

    /// What the value holds.
    pub open spec fn to_view(&self) -> JsonView
        decreases self, 1nat,
    {
        match self {
            JsonValue::Null => JsonView::Null,
            JsonValue::Bool(b) => JsonView::Bool(*b),
            JsonValue::Int(n) => JsonView::Int(*n as int),
            JsonValue::UInt(n) => JsonView::Int(*n as int),
            JsonValue::Text(s) => JsonView::Text(s@),
            JsonValue::Raw(v) => json_view(*v),
            JsonValue::Array(_) => JsonView::Array(self.item_views()),
            JsonValue::Object(_) => JsonView::Object(pairs_map(self.member_views())),
        }
    }
}

impl View for JsonValue {
    type V = JsonView;

    open spec fn view(&self) -> JsonView {
        self.to_view()
    }
}

/// What a `serde_json::Value` holds.
pub uninterp spec fn json_view(value: serde_json::Value) -> JsonView;

/// What `serde_json::from_str` makes of a text: the value it parses to, or
/// `None` where it reports an error.
pub uninterp spec fn json_parse(text: Seq<char>) -> Option<JsonView>;

/// What `serde_json::to_string` makes of a value: its text, or `None` where
/// it reports an error.
pub uninterp spec fn json_text(value: JsonView) -> Option<Seq<char>>;

/// The metadata that is stored for a metadata text: the value the text
/// parses to, and the empty object for a text that is not JSON.
pub open spec fn normalized_metadata(text: Seq<char>) -> JsonView {
    match json_parse(text) {
        Some(value) => value,
        None => empty_object(),
    }
}

/// `serde_json::from_str` into a `serde_json::Value`. An error comes back as
/// `None`; the value and the error are those that `json_parse` names.
#[verifier::external_body]
fn parse_json(text: &str) -> (r: Option<serde_json::Value>)
    ensures
        r matches Some(value) ==> json_parse(text@) == Some(json_view(value)),
        r is None ==> json_parse(text@) is None,
{
    serde_json::from_str::<serde_json::Value>(text).ok()
}

/// Builds the `serde_json::Value` for a value of this crate, variant by
/// variant: `Value::from` for the integers, `Value::String`, `Value::Array`,
/// and for an object a `serde_json::Map` into which the members are put
/// one after the other by `Map::insert`, which replaces the value of a key
/// that is there already.
#[verifier::external_body]
pub(crate) fn to_serde(value: &JsonValue) -> (r: serde_json::Value)
    ensures
        json_view(r) == value@,
{
    let mut map = serde_json::Map::new();
    match value {
        JsonValue::Null => serde_json::Value::Null,
        JsonValue::Bool(b) => serde_json::Value::Bool(*b),
        JsonValue::Int(n) => serde_json::Value::from(*n),
        JsonValue::UInt(n) => serde_json::Value::from(*n),
        JsonValue::Text(s) => serde_json::Value::String(s.clone()),
        JsonValue::Raw(v) => v.clone(),
        JsonValue::Array(items) => serde_json::Value::Array(items.iter().map(to_serde).collect()),
        JsonValue::Object(members) => {
            members.iter().for_each(|(k, v)| { map.insert(k.clone(), to_serde(v)); });
            serde_json::Value::Object(map)
        },
    }
}

/// `serde_json::to_string` on a `serde_json::Value`. An error comes back as
/// `None`; the text and the error are those that `json_text` names.
#[verifier::external_body]
fn serialize_json(value: &serde_json::Value) -> (r: Option<String>)
    ensures
        r matches Some(text) ==> json_text(json_view(*value)) == Some(text@),
        r is None ==> json_text(json_view(*value)) is None,
{
    serde_json::to_string(value).ok()
}

/// Reads a metadata text. A text that is not JSON is no error: it gives the
/// empty object.
pub fn normalize_metadata(metadata_json: &str) -> (value: serde_json::Value)
    ensures
        json_view(value) == normalized_metadata(metadata_json@),
{
    match parse_json(metadata_json) {
        Some(value) => value,
        None => {
            let empty = JsonValue::Object(Vec::new());
            assert(empty.member_views() =~= Seq::empty());
            to_serde(&empty)
        },
    }
}

/// Writes a value as JSON text. Where serde_json reports an error the text
/// is that of the empty object.
pub fn render_json(value: &JsonValue) -> (text: String)
    ensures
        text@ == rendered(value@),
{
    let raw = to_serde(value);
    match serialize_json(&raw) {
        Some(text) => text,
        None => String::from_str("{}"),
    }
}

/// The text of a value, and `{}` where serde_json has none for it.
pub open spec fn rendered(value: JsonView) -> Seq<char> {
    match json_text(value) {
        Some(text) => text,
        None => "{}"@,
    }
}

} // verus!
