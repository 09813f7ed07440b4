use tantivy::schema::{
    IndexRecordOption, JsonObjectOptions, SchemaBuilder, TextFieldIndexing, TextOptions,
};
use vstd::prelude::*;

verus! {

/// tantivy's builder of a schema.
#[verifier::external_type_specification]
#[verifier::external_body]
pub struct ExSchemaBuilder(SchemaBuilder);

/// What a field holds.
#[derive(Clone, Copy, Debug, PartialEq, Eq, Structural)]
pub enum FieldKind {
    /// Free text.
    Text,
    /// A JSON object.
    Json,
    /// Any other kind. This crate declares no such field; an index that
    /// somebody else made may have one.
    Other,
}

/// What the index records for each term of an indexed field.
#[derive(Clone, Copy, Debug, PartialEq, Eq, Structural)]
pub enum RecordOption {
    /// That the term occurs. Enough for a field that is matched exactly.
    Basic,
    /// And how often.
    WithFreqs,
    /// And where. Needed for a ranked free-text field.
    WithFreqsAndPositions,
}

/// A field of a schema as the contracts see it.
pub struct FieldView {
    pub name: Seq<char>,
    pub kind: FieldKind,
    /// The tokenizer's name and what is recorded, for an indexed field.
    pub indexing: Option<(Seq<char>, RecordOption)>,
    /// Whether the value can be read back from the index.
    pub stored: bool,
}

/// A field that this crate declares: indexed with the tokenizer named, and
/// stored.
pub struct FieldSpec {
    pub name: String,
    pub kind: FieldKind,
    pub tokenizer: String,
    pub record: RecordOption,
}

impl View for FieldSpec {
    type V = FieldView;

    open spec fn view(&self) -> FieldView {
        FieldView {
            name: self.name@,
            kind: self.kind,
            indexing: Some((self.tokenizer@, self.record)),
            stored: true,
        }
    }
}

/// The handles of the six fields.
#[derive(Clone, Copy, Debug, PartialEq, Eq, Structural)]
pub struct FieldSet {
    pub id: u32,
    pub title: u32,
    pub body: u32,
    pub title_ngram: u32,
    pub body_ngram: u32,
    pub metadata: u32,
}

/// The name under which the n-gram tokenizer is registered.
pub open spec fn ngram_tokenizer_name() -> Seq<char> {
    "ngram_tokenizer"@
}

/// The name of tantivy's tokenizer that takes a whole value as one term.
pub open spec fn raw_tokenizer_name() -> Seq<char> {
    "raw"@
}

/// An indexed, stored field.
pub open spec fn declared(
    name: Seq<char>,
    kind: FieldKind,
    tokenizer: Seq<char>,
    record: RecordOption,
) -> FieldView {
    FieldView { name, kind, indexing: Some((tokenizer, record)), stored: true }
}

/// The schema of an index whose morphological tokenizer is named
/// `tokenizer`. The identity is matched exactly; title and body stand twice,
/// once under the morphological tokenizer and once under the n-gram
/// tokenizer; the metadata is a JSON object that is matched exactly.
pub open spec fn schema_fields(tokenizer: Seq<char>) -> Seq<FieldView> {
    seq![
        declared("id"@, FieldKind::Text, raw_tokenizer_name(), RecordOption::Basic),
        declared("title"@, FieldKind::Text, tokenizer, RecordOption::WithFreqsAndPositions),
        declared("body"@, FieldKind::Text, tokenizer, RecordOption::WithFreqsAndPositions),
        declared(
            "title_ngram"@,
            FieldKind::Text,
            ngram_tokenizer_name(),
            RecordOption::WithFreqsAndPositions,
        ),
        declared(
            "body_ngram"@,
            FieldKind::Text,
            ngram_tokenizer_name(),
            RecordOption::WithFreqsAndPositions,
        ),
        declared("metadata"@, FieldKind::Json, raw_tokenizer_name(), RecordOption::Basic),
    ]
}

/// The handles that the fields of `schema_fields` get: their places in it.
pub open spec fn schema_field_set() -> FieldSet {
    FieldSet { id: 0, title: 1, body: 2, title_ngram: 3, body_ngram: 4, metadata: 5 }
}

/// The handles of the fields of this crate's schema.
pub fn field_set() -> (fields: FieldSet)
    ensures
        fields == schema_field_set(),
{
    FieldSet { id: 0, title: 1, body: 2, title_ngram: 3, body_ngram: 4, metadata: 5 }
}

/// What a list of declared fields holds.
pub open spec fn plan_view(plan: Seq<FieldSpec>) -> Seq<FieldView> {
    plan.map_values(|spec: FieldSpec| spec@)
}

/// Whether tantivy takes `name` as a field's name: it is not empty and does
/// not begin with a hyphen.
pub open spec fn valid_field_name(name: Seq<char>) -> bool {
    name.len() > 0 && name[0] != '-'
}

/// Whether a field can be declared: it is a text or a JSON field with a
/// name that tantivy takes.
pub open spec fn declarable(field: FieldView) -> bool {
    valid_field_name(field.name) && field.kind != FieldKind::Other
}

/// Whether a schema can be built from `fields`: each can be declared, and no
/// name occurs twice.
pub open spec fn buildable(fields: Seq<FieldView>) -> bool {
    &&& forall|i: int| 0 <= i < fields.len() ==> declarable(#[trigger] fields[i])
    &&& forall|i: int, j: int|
        0 <= i < j < fields.len() ==> (#[trigger] fields[i]).name != (#[trigger] fields[j]).name
}

/// The schema of this crate can be built.
pub proof fn schema_fields_buildable(tokenizer: Seq<char>)
    ensures
        buildable(schema_fields(tokenizer)),
        schema_fields(tokenizer).len() == 6,
{
    reveal_strlit("id");
    reveal_strlit("title");
    reveal_strlit("body");
    reveal_strlit("title_ngram");
    reveal_strlit("body_ngram");
    reveal_strlit("metadata");
    let fields = schema_fields(tokenizer);
    assert(fields[0].name.len() == 2 && fields[0].name[0] == 'i');
    assert(fields[1].name.len() == 5 && fields[1].name[0] == 't');
    assert(fields[2].name.len() == 4 && fields[2].name[0] == 'b');
    assert(fields[3].name.len() == 11 && fields[3].name[0] == 't');
    assert(fields[4].name.len() == 10 && fields[4].name[0] == 'b');
    assert(fields[5].name.len() == 8 && fields[5].name[0] == 'm');
}

/// What a `SchemaBuilder` holds: its fields, in the order in which they were
/// added.
pub uninterp spec fn builder_fields(builder: SchemaBuilder) -> Seq<FieldView>;

/// `Schema::builder`: a builder without fields.
#[verifier::external_body]
pub(crate) fn new_schema_builder() -> (builder: SchemaBuilder)
    ensures
        builder_fields(builder) == Seq::<FieldView>::empty(),
{
    tantivy::schema::Schema::builder()
}

/// `SchemaBuilder::add_text_field` with options that index the field with
/// the tokenizer and the record option given, and store it. The field is
/// added behind those that are there, and its handle is its place. tantivy
/// panics on a name that it does not take or that is there already.
#[verifier::external_body]
pub(crate) fn add_text_field(
    builder: &mut SchemaBuilder,
    name: &str,
    tokenizer: &str,
    record: RecordOption,
) -> (field: u32)
    requires
        valid_field_name(name@),
        forall|i: int|
            0 <= i < builder_fields(*old(builder)).len() ==> (#[trigger] builder_fields(
                *old(builder),
            )[i]).name != name@,
    ensures
        builder_fields(*final(builder)) == builder_fields(*old(builder)).push(
            declared(name@, FieldKind::Text, tokenizer@, record),
        ),
        field == builder_fields(*old(builder)).len(),
{
    let record = match record {
        RecordOption::Basic => IndexRecordOption::Basic,
        RecordOption::WithFreqs => IndexRecordOption::WithFreqs,
        RecordOption::WithFreqsAndPositions => IndexRecordOption::WithFreqsAndPositions,
    };
    let indexing = TextFieldIndexing::default().set_tokenizer(tokenizer).set_index_option(record);
    let options = TextOptions::default().set_indexing_options(indexing).set_stored();
    builder.add_text_field(name, options).field_id()
}

/// `SchemaBuilder::add_json_field` with options that index the field with
/// the tokenizer and the record option given, and store it. The field is
/// added behind those that are there, and its handle is its place. tantivy
/// panics on a name that it does not take or that is there already.
#[verifier::external_body]
pub(crate) fn add_json_field(
    builder: &mut SchemaBuilder,
    name: &str,
    tokenizer: &str,
    record: RecordOption,
) -> (field: u32)
    requires
        valid_field_name(name@),
        forall|i: int|
            0 <= i < builder_fields(*old(builder)).len() ==> (#[trigger] builder_fields(
                *old(builder),
            )[i]).name != name@,
    ensures
        builder_fields(*final(builder)) == builder_fields(*old(builder)).push(
            declared(name@, FieldKind::Json, tokenizer@, record),
        ),
        field == builder_fields(*old(builder)).len(),
{
    let record = match record {
        RecordOption::Basic => IndexRecordOption::Basic,
        RecordOption::WithFreqs => IndexRecordOption::WithFreqs,
        RecordOption::WithFreqsAndPositions => IndexRecordOption::WithFreqsAndPositions,
    };
    let indexing = TextFieldIndexing::default().set_tokenizer(tokenizer).set_index_option(record);
    let options = JsonObjectOptions::default().set_indexing_options(indexing).set_stored();
    builder.add_json_field(name, options).field_id()
}

fn field_spec(
    name: &str,
    kind: FieldKind,
    tokenizer: &str,
    record: RecordOption,
) -> (spec: FieldSpec)
    ensures
        spec@ == declared(name@, kind, tokenizer@, record),
{
    FieldSpec { name: String::from_str(name), kind, tokenizer: String::from_str(tokenizer), record }
}

/// Lists the fields of an index whose morphological tokenizer is named
/// `tokenizer_name`.
pub fn schema_plan(tokenizer_name: &str) -> (plan: Vec<FieldSpec>)
    ensures
        plan_view(plan@) == schema_fields(tokenizer_name@),
{
    let mut plan: Vec<FieldSpec> = Vec::new();
    plan.push(field_spec("id", FieldKind::Text, "raw", RecordOption::Basic));
    let ranked = RecordOption::WithFreqsAndPositions;
    plan.push(field_spec("title", FieldKind::Text, tokenizer_name, ranked));
    plan.push(field_spec("body", FieldKind::Text, tokenizer_name, ranked));
    plan.push(field_spec("title_ngram", FieldKind::Text, "ngram_tokenizer", ranked));
    plan.push(field_spec("body_ngram", FieldKind::Text, "ngram_tokenizer", ranked));
    plan.push(field_spec("metadata", FieldKind::Json, "raw", RecordOption::Basic));
    assert(plan_view(plan@) =~= schema_fields(tokenizer_name@));
    plan
}

/// Declares the fields of `plan` to a new builder, in their order. tantivy
/// panics on a field that cannot be declared and on a name that occurs
/// twice.
pub fn declare_fields(plan: &Vec<FieldSpec>) -> (builder: SchemaBuilder)
    requires
        buildable(plan_view(plan@)),
        plan@.len() <= u32::MAX,
    ensures
        builder_fields(builder) == plan_view(plan@),
{
    let mut builder = new_schema_builder();
    let mut i: usize = 0;
    while i < plan.len()
        invariant
            i <= plan@.len(),
            plan@.len() <= u32::MAX,
            buildable(plan_view(plan@)),
            builder_fields(builder) == plan_view(plan@).subrange(0, i as int),
        decreases plan.len() - i,
    {
        let spec = &plan[i];
        let ghost fields = plan_view(plan@);
        assert(fields[i as int] == spec@);
        assert(declarable(fields[i as int]));
        let ghost declared_so_far = builder_fields(builder);
        assert forall|k: int| 0 <= k < declared_so_far.len() implies (#[trigger] declared_so_far[k]).name
            != spec.name@ by {
            assert(builder_fields(builder)[k] == fields[k]);
            assert(fields[k].name != fields[i as int].name);
        }
        let name = spec.name.as_str();
        let tokenizer = spec.tokenizer.as_str();
        match spec.kind {
            FieldKind::Json => {
                add_json_field(&mut builder, name, tokenizer, spec.record);
            },
            _ => {
                add_text_field(&mut builder, name, tokenizer, spec.record);
            },
        }
        assert(builder_fields(builder) =~= fields.subrange(0, i + 1));
        i = i + 1;
    }
    assert(plan_view(plan@).subrange(0, plan@.len() as int) =~= plan_view(plan@));
    builder
}

} // verus!
