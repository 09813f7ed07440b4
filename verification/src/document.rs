use crate::ident::uuid_text;
use crate::json::{normalize_metadata, normalized_metadata, JsonView};
use crate::schema::{field_set, schema_field_set, schema_fields};
use crate::store::{apply_ops, doc_fits, entries_view, entry_fits, without_term, DocView, WriteOp};
use crate::value::{json_value, stored_of_json, text_value, StoredView};
use tantivy::schema::OwnedValue;
use vstd::multiset::Multiset;
use vstd::prelude::*;

verus! {

/// The document that is stored for an identity, a title, a body and a
/// metadata value. Title and body stand twice, with the same text: once for
/// the morphological field and once for the n-gram field.
pub open spec fn document(
    id: Seq<char>,
    title: Seq<char>,
    body: Seq<char>,
    metadata: JsonView,
) -> DocView {
    let fields = schema_field_set();
    seq![
        (fields.id, StoredView::Text(id)),
        (fields.title, StoredView::Text(title)),
        (fields.body, StoredView::Text(body)),
        (fields.metadata, stored_of_json(metadata)),
        (fields.title_ngram, StoredView::Text(title)),
        (fields.body_ngram, StoredView::Text(body)),
    ]
}

/// An index with the schema of any profile keeps a document as it is, if
/// tantivy stores its metadata as it is.
pub proof fn lemma_document_fits(
    tokenizer: Seq<char>,
    id: Seq<char>,
    title: Seq<char>,
    body: Seq<char>,
    metadata: JsonView,
)
    requires
        !(stored_of_json(metadata) is Tokens),
    ensures
        doc_fits(schema_fields(tokenizer), document(id, title, body, metadata)),
{
    let doc = document(id, title, body, metadata);
    assert forall|i: int| 0 <= i < doc.len() implies entry_fits(
        schema_fields(tokenizer),
        #[trigger] doc[i],
    ) by {
        assert(0 <= doc[i].0 < 6);
    }
}

/// Lists the fields and values that are stored for a document, in their
/// order. A metadata text that is not JSON is stored as the empty object.
pub fn stored_document(
    id: &str,
    title: &str,
    body: &str,
    metadata_json: &str,
) -> (entries: Vec<(u32, OwnedValue)>)
    ensures
        entries_view(entries@) == document(id@, title@, body@, normalized_metadata(metadata_json@)),
        !(stored_of_json(normalized_metadata(metadata_json@)) is Tokens),
{
    let fields = field_set();
    let metadata = normalize_metadata(metadata_json);
    let mut entries: Vec<(u32, OwnedValue)> = Vec::new();
    entries.push((fields.id, text_value(id)));
    entries.push((fields.title, text_value(title)));
    entries.push((fields.body, text_value(body)));
    entries.push((fields.metadata, json_value(metadata)));
    entries.push((fields.title_ngram, text_value(title)));
    entries.push((fields.body_ngram, text_value(body)));
    assert(entries_view(entries@) =~= document(
        id@,
        title@,
        body@,
        normalized_metadata(metadata_json@),
    ));
    entries
}

/// What an update leaves: the documents that the identity does not find,
/// and the new one.
pub open spec fn updated_docs(
    docs: Multiset<DocView>,
    id: Seq<char>,
    title: Seq<char>,
    body: Seq<char>,
    metadata: JsonView,
) -> Multiset<DocView> {
    without_term(docs, schema_field_set().id, id).insert(document(id, title, body, metadata))
}

/// A document that a caller hands in. An empty identity asks for a
/// generated one.
#[derive(Clone, Debug)]
pub struct DocumentInput {
    pub id: String,
    pub title: String,
    pub body: String,
    /// The metadata as JSON text.
    pub metadata: String,
}

/// A document that a caller hands in, as the contracts see it.
pub struct InputView {
    pub id: Seq<char>,
    pub title: Seq<char>,
    pub body: Seq<char>,
    pub metadata: Seq<char>,
}

impl View for DocumentInput {
    type V = InputView;

    open spec fn view(&self) -> InputView {
        InputView { id: self.id@, title: self.title@, body: self.body@, metadata: self.metadata@ }
    }
}

/// What a list of documents holds that a caller hands in.
pub open spec fn inputs_view(inputs: Seq<DocumentInput>) -> Seq<InputView> {
    inputs.map_values(|input: DocumentInput| input@)
}

/// The document that is stored for `input` under the identity `id`.
pub open spec fn input_document(input: InputView, id: Seq<char>) -> DocView {
    document(id, input.title, input.body, normalized_metadata(input.metadata))
}

/// The documents that are stored for `inputs` under the identities `ids`.
pub open spec fn batch_documents(inputs: Seq<InputView>, ids: Seq<Seq<char>>) -> Seq<DocView> {
    Seq::new(inputs.len(), |i: int| input_document(inputs[i], ids[i]))
}

/// How many of `inputs` ask for a generated identity.
pub open spec fn generated_count(inputs: Seq<InputView>) -> nat
    decreases inputs.len(),
{
    if inputs.len() == 0 {
        0
    } else {
        generated_count(inputs.drop_last()) + if inputs.last().id.len() == 0 {
            1nat
        } else {
            0nat
        }
    }
}

/// The counter that stands `steps` after `counter`.
pub open spec fn counter_at(counter: nat, steps: nat) -> nat {
    (counter + steps) % 0x1_0000_0000_0000_0000
}

/// Whether `ids` are the identities under which `inputs` are stored when the
/// counter stands at `counter` and the clock shows `stamps`, each of at most
/// 128 bits: an identity
/// that was handed in is kept, and an empty one is replaced by one that is
/// generated from the clock and the counter, which then moves on.
pub open spec fn assigned(
    inputs: Seq<InputView>,
    ids: Seq<Seq<char>>,
    stamps: Seq<nat>,
    counter: nat,
) -> bool {
    &&& ids.len() == inputs.len()
    &&& stamps.len() == inputs.len()
    &&& forall|i: int| 0 <= i < stamps.len() ==> #[trigger] stamps[i] <= u128::MAX
    &&& forall|i: int|
        0 <= i < inputs.len() ==> #[trigger] ids[i] == if inputs[i].id.len() == 0 {
            uuid_text(stamps[i], counter_at(counter, generated_count(inputs.take(i))))
        } else {
            inputs[i].id
        }
}

/// Whether `ids` are identities under which `inputs` can be stored when the
/// counter stands at `counter`, whatever the clock shows.
pub open spec fn assigned_ids(inputs: Seq<InputView>, ids: Seq<Seq<char>>, counter: nat) -> bool {
    exists|stamps: Seq<nat>| assigned(inputs, ids, stamps, counter)
}

/// The documents with those of `batch` added.
pub open spec fn insert_all(docs: Multiset<DocView>, batch: Seq<DocView>) -> Multiset<DocView>
    decreases batch.len(),
{
    if batch.len() == 0 {
        docs
    } else {
        insert_all(docs, batch.drop_last()).insert(batch.last())
    }
}

/// Whether `after` is `before` with the documents of `inputs` added, each
/// under the identity that it is given when the counter stands at
/// `counter`.
pub open spec fn batch_added(
    before: Multiset<DocView>,
    after: Multiset<DocView>,
    inputs: Seq<InputView>,
    counter: nat,
) -> bool {
    exists|ids: Seq<Seq<char>>| #[trigger]
        assigned_ids(inputs, ids, counter) && after == insert_all(
            before,
            batch_documents(inputs, ids),
        )
}

/// The documents that are left when each of `texts` in turn has deleted
/// those that it finds as a term of `field`.
pub open spec fn without_terms(
    docs: Multiset<DocView>,
    field: u32,
    texts: Seq<Seq<char>>,
) -> Multiset<DocView>
    decreases texts.len(),
{
    if texts.len() == 0 {
        docs
    } else {
        without_term(without_terms(docs, field, texts.drop_last()), field, texts.last())
    }
}

/// What a list of texts holds.
pub open spec fn texts_view(texts: Seq<String>) -> Seq<Seq<char>> {
    texts.map_values(|text: String| text@)
}

/// The operations that add the documents of `batch`, in their order.
pub open spec fn add_ops(batch: Seq<DocView>) -> Seq<WriteOp> {
    batch.map_values(|doc: DocView| WriteOp::Add(doc))
}

/// The operations that delete by the terms `texts` of `field`, in their
/// order.
pub open spec fn delete_ops(field: u32, texts: Seq<Seq<char>>) -> Seq<WriteOp> {
    texts.map_values(|text: Seq<char>| WriteOp::DeleteTerm(field, text))
}

/// Additions that are committed together add their documents.
pub proof fn lemma_apply_adds(docs: Multiset<DocView>, batch: Seq<DocView>)
    ensures
        apply_ops(docs, add_ops(batch)) == insert_all(docs, batch),
    decreases batch.len(),
{
    if batch.len() > 0 {
        lemma_apply_adds(docs, batch.drop_last());
        assert(add_ops(batch).drop_last() =~= add_ops(batch.drop_last()));
    }
}

/// Deletions that are committed together delete one after the other.
pub proof fn lemma_apply_deletes(docs: Multiset<DocView>, field: u32, texts: Seq<Seq<char>>)
    ensures
        apply_ops(docs, delete_ops(field, texts)) == without_terms(docs, field, texts),
    decreases texts.len(),
{
    if texts.len() > 0 {
        lemma_apply_deletes(docs, field, texts.drop_last());
        assert(delete_ops(field, texts).drop_last() =~= delete_ops(field, texts.drop_last()));
    }
}

/// The counter moves on by one step at a time.
pub proof fn lemma_counter_step(counter: nat, steps: nat)
    requires
        counter <= u64::MAX,
    ensures
        counter_after(counter_at(counter, steps)) == counter_at(counter, steps + 1),
        counter_at(counter, 0) == counter,
        counter_at(counter, steps) <= u64::MAX,
{
}

/// One more document asks for one more identity, or for none.
pub proof fn lemma_generated_count_take(inputs: Seq<InputView>, i: int)
    requires
        0 <= i < inputs.len(),
    ensures
        inputs[i].id.len() == 0 ==> generated_count(inputs.take(i + 1)) == generated_count(
            inputs.take(i),
        ) + 1,
        inputs[i].id.len() != 0 ==> generated_count(inputs.take(i + 1)) == generated_count(
            inputs.take(i),
        ),
        generated_count(inputs.take(i)) <= i,
    decreases i,
{
    assert(inputs.take(i + 1).drop_last() =~= inputs.take(i));
    if i > 0 {
        lemma_generated_count_take(inputs, i - 1);
    }
}

/// The counter after `counter`: it starts again at zero after the largest
/// value.
pub open spec fn counter_after(counter: nat) -> nat {
    if counter == u64::MAX {
        0
    } else {
        counter + 1
    }
}

} // verus!
