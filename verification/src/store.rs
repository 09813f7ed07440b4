//! The index as the contracts see it, and the calls into tantivy and lindera.
//!
//! tantivy keeps an index behind handles that share their state. The
//! contracts speak of an index as a value with a schema, tokenizers and
//! documents, and of a writer as the list of operations that wait for its
//! commit. This holds as long as nothing else writes to the index, which
//! tantivy's writer lock sees to while a writer is open. Of an index that
//! is opened from a directory it holds as long as its documents were
//! written through this crate: tantivy does not keep the tokenizers with
//! the index, so the contracts cannot tell how the documents of somebody
//! else were indexed.

use crate::schema::{builder_fields, raw_tokenizer_name, FieldKind, FieldView};
use crate::value::{stored_view, StoredView};
use lindera::dictionary::UserDictionary;
use lindera::error::LinderaError;
use lindera::mode::{Mode, Penalty};
use lindera_tantivy::tokenizer::LinderaTokenizer;
use tantivy::query::QueryParserError;
use tantivy::schema::{Field, OwnedValue, SchemaBuilder};
use tantivy::tokenizer::NgramTokenizer;
use tantivy::{Index, Searcher, TantivyError};
use vstd::multiset::Multiset;
use vstd::prelude::*;

verus! {

/// tantivy's handle of an index.
#[verifier::external_type_specification]
#[verifier::external_body]
pub struct ExIndex(Index);

/// tantivy's searcher: a view of an index as it was when the searcher was
/// made.
#[verifier::external_type_specification]
#[verifier::external_body]
pub struct ExSearcher(Searcher);

/// tantivy's error.
#[verifier::external_type_specification]
#[verifier::external_body]
pub struct ExTantivyError(TantivyError);

/// The error of tantivy's query parser.
#[verifier::external_type_specification]
#[verifier::external_body]
pub struct ExQueryParserError(QueryParserError);

/// lindera's dictionary of a user.
#[verifier::external_type_specification]
#[verifier::external_body]
pub struct ExUserDictionary(UserDictionary);

/// lindera's error.
#[verifier::external_type_specification]
#[verifier::external_body]
pub struct ExLinderaError(LinderaError);

/// A writer of an index: a `tantivy::IndexWriter`, with the operations that
/// wait for its next commit. tantivy's type is generic in a trait of its
/// own, so it is held here and not declared as it is.
#[verifier::external_body]
pub struct Writer {
    inner: tantivy::IndexWriter,
}

/// A query that tantivy's parser has accepted: a `Box<dyn Query>`, which has
/// no name of its own under which it could be declared.
#[verifier::external_body]
pub struct ParsedQuery {
    inner: Box<dyn tantivy::query::Query>,
}

/// Whether `text` is the text of an error of tantivy, as `to_string` gives
/// it.
pub open spec fn is_tantivy_error_text(text: String) -> bool {
    exists|error: TantivyError| #[trigger]
        vstd::string::to_string_from_display_ensures::<TantivyError>(&error, text)
}

/// Whether `text` is the text of an error of tantivy's query parser, as
/// `to_string` gives it.
pub open spec fn is_query_error_text(text: String) -> bool {
    exists|error: QueryParserError| #[trigger]
        vstd::string::to_string_from_display_ensures::<QueryParserError>(&error, text)
}

/// Whether `text` is the text of an error of lindera, as `to_string` gives
/// it.
pub open spec fn is_lindera_error_text(text: String) -> bool {
    exists|error: LinderaError| #[trigger]
        vstd::string::to_string_from_display_ensures::<LinderaError>(&error, text)
}

/// How lindera segments a text: into the words of the dictionary, or with
/// long words split further, by penalties on words above a length.
#[derive(Clone, Copy, Debug, PartialEq, Eq, Structural)]
pub enum SegmenterMode {
    Normal,
    Decompose(Penalties),
}

/// The penalties of the decomposing mode: a word of kanji, or any other
/// word, that is longer than its threshold costs its penalty for each
/// character above it.
#[derive(Clone, Copy, Debug, PartialEq, Eq, Structural)]
pub struct Penalties {
    pub kanji_threshold: usize,
    pub kanji_penalty: i32,
    pub other_threshold: usize,
    pub other_penalty: i32,
}

/// A tokenizer of an index as the contracts see it.
pub enum TokenizerView {
    /// tantivy's `RawTokenizer`: the whole value is one term.
    Raw,
    /// tantivy's `NgramTokenizer`.
    Ngram { min_gram: nat, max_gram: nat, prefix_only: bool },
    /// lindera's tokenizer over the dictionary loaded from `dictionary`, in
    /// the mode given, with or without a dictionary of the user.
    Morphological { dictionary: Seq<char>, mode: SegmenterMode, user_dictionary: bool },
    /// Any other tokenizer.
    Other,
}

/// A stored document as the contracts see it: its fields and values, in the
/// order in which they were added.
pub type DocView = Seq<(u32, StoredView)>;

/// An operation that waits in a writer.
pub enum WriteOp {
    /// Add the document.
    Add(DocView),
    /// Delete the documents that hold the term in the field.
    DeleteTerm(u32, Seq<char>),
    /// Delete every document.
    DeleteAll,
}

/// The longest term in bytes that tantivy indexes. A longer one is left out
/// of the index, so its document is not found by it.
pub open spec fn max_term_bytes() -> nat {
    65530
}

/// Whether tantivy indexes `text` as one term of a field that is tokenized
/// `raw`.
pub open spec fn indexable(text: Seq<char>) -> bool {
    vstd::utf8::encode_utf8(text).len() <= max_term_bytes()
}

/// Whether a value of a field that is tokenized `raw` gives the term
/// `text`: it is that text.
pub open spec fn gives_term(value: StoredView, text: Seq<char>) -> bool {
    match value {
        StoredView::Text(whole) => whole == text,
        _ => false,
    }
}

/// Whether `doc` is found by the term `text` of `field`, a field that is
/// tokenized `raw`: one of its values for the field gives that term, and the
/// term is short enough to be indexed.
pub open spec fn has_term(doc: DocView, field: u32, text: Seq<char>) -> bool {
    indexable(text) && exists|i: int|
        0 <= i < doc.len() && (#[trigger] doc[i]).0 == field && gives_term(doc[i].1, text)
}

/// The documents that are left when those are deleted that are found by the
/// term `text` of `field`.
pub open spec fn without_term(
    docs: Multiset<DocView>,
    field: u32,
    text: Seq<char>,
) -> Multiset<DocView> {
    docs.filter(|doc: DocView| !has_term(doc, field, text))
}

/// The documents of an index after one operation.
pub open spec fn apply_op(docs: Multiset<DocView>, op: WriteOp) -> Multiset<DocView> {
    match op {
        WriteOp::Add(doc) => docs.insert(doc),
        WriteOp::DeleteTerm(field, text) => without_term(docs, field, text),
        WriteOp::DeleteAll => Multiset::empty(),
    }
}

/// Nothing changes where no operation waits.
pub proof fn lemma_apply_none(docs: Multiset<DocView>)
    ensures
        apply_ops(docs, Seq::<WriteOp>::empty()) == docs,
{
}

/// The operation that came last is carried out last.
pub proof fn lemma_apply_push(docs: Multiset<DocView>, ops: Seq<WriteOp>, op: WriteOp)
    ensures
        apply_ops(docs, ops.push(op)) == apply_op(apply_ops(docs, ops), op),
{
    assert(ops.push(op).drop_last() =~= ops);
}

/// The documents of an index after the operations of a writer, in their
/// order: a deletion reaches the documents that were there and those that
/// were added before it, and none that is added after it.
pub open spec fn apply_ops(docs: Multiset<DocView>, ops: Seq<WriteOp>) -> Multiset<DocView>
    decreases ops.len(),
{
    if ops.len() == 0 {
        docs
    } else {
        apply_op(apply_ops(docs, ops.drop_last()), ops.last())
    }
}

/// The schema of an index: its fields, in the order of their handles.
pub uninterp spec fn index_fields(index: Index) -> Seq<FieldView>;

/// The tokenizers that are registered with an index, by name.
pub uninterp spec fn index_tokenizers(index: Index) -> Map<Seq<char>, TokenizerView>;

/// The documents of an index: those that a reader sees that is opened now.
pub uninterp spec fn index_docs(index: Index) -> Multiset<DocView>;

/// The index that a writer writes to.
pub uninterp spec fn writer_index(writer: Writer) -> Index;

/// The operations that wait in a writer for its next commit, oldest first.
pub uninterp spec fn writer_ops(writer: Writer) -> Seq<WriteOp>;

/// The documents that a searcher sees.
pub uninterp spec fn searcher_docs(searcher: Searcher) -> Multiset<DocView>;

/// Whether the address is that of a document that the searcher sees.
pub uninterp spec fn searcher_holds(searcher: Searcher, segment: u32, doc: u32) -> bool;

/// The document at an address that the searcher holds.
pub uninterp spec fn searcher_doc(searcher: Searcher, segment: u32, doc: u32) -> DocView;

/// What tantivy's parser makes of a query text, for the schema and the
/// tokenizers of the index and for the default fields given: the query, or
/// `None` where it refuses the text.
pub uninterp spec fn parsed_query(
    index: Index,
    fields: Seq<u32>,
    text: Seq<char>,
) -> Option<ParsedQuery>;

/// The hits that a search with the searcher finds for the query when it
/// collects the best `limit` by score: best first.
pub uninterp spec fn top_hits(searcher: Searcher, query: ParsedQuery, limit: nat) -> Seq<Hit>;

/// Whether the index has tantivy's own `raw` tokenizer under that name.
pub open spec fn has_raw_tokenizer(index: Index) -> bool {
    index_tokenizers(index).contains_key(raw_tokenizer_name()) && index_tokenizers(
        index,
    )[raw_tokenizer_name()] == TokenizerView::Raw
}

/// Whether `field` is a stored text field of the index whose values are
/// indexed whole, each as one term.
pub open spec fn raw_keyed(index: Index, field: u32) -> bool {
    let fields = index_fields(index);
    &&& field < fields.len()
    &&& fields[field as int].kind == FieldKind::Text
    &&& fields[field as int].stored
    &&& fields[field as int].indexing matches Some(indexing) && indexing.0 == raw_tokenizer_name()
    &&& has_raw_tokenizer(index)
}

/// Whether the index keeps a value of a document as it is: its field is a
/// stored text or JSON field, and the value is no text that comes with its
/// tokens, of which tantivy stores the text alone.
pub open spec fn entry_fits(fields: Seq<FieldView>, entry: (u32, StoredView)) -> bool {
    &&& entry.0 < fields.len()
    &&& entry.0 <= 0xffff
    &&& fields[entry.0 as int].stored
    &&& fields[entry.0 as int].kind != FieldKind::Other
    &&& !(entry.1 is Tokens)
}

/// Whether the index keeps every value of a document as it is.
pub open spec fn doc_fits(fields: Seq<FieldView>, doc: DocView) -> bool {
    forall|i: int| 0 <= i < doc.len() ==> entry_fits(fields, #[trigger] doc[i])
}

/// What a document holds that is handed over as fields and values.
pub open spec fn entries_view(entries: Seq<(u32, OwnedValue)>) -> DocView {
    entries.map_values(|entry: (u32, OwnedValue)| (entry.0, stored_view(entry.1)))
}

/// The view of a tokenizer of lindera.
pub open spec fn morphological_view(
    dictionary: Seq<char>,
    mode: SegmenterMode,
    user_dictionary: bool,
) -> TokenizerView {
    TokenizerView::Morphological { dictionary, mode, user_dictionary }
}

/// The view of an n-gram tokenizer.
pub open spec fn ngram_view(min_gram: nat, max_gram: nat, prefix_only: bool) -> TokenizerView {
    TokenizerView::Ngram { min_gram, max_gram, prefix_only }
}

/// A document that a search has found.
#[derive(Clone, Copy, Debug, PartialEq, Eq, Structural)]
pub struct Hit {
    /// The relevance score, an IEEE 754 single, by its bits.
    pub score_bits: u32,
    /// The place of the document's segment in the searcher.
    pub segment: u32,
    /// The place of the document in its segment.
    pub doc: u32,
}

/// `Index::create_in_ram` on the schema that the builder builds: an index
/// in memory with that schema, tantivy's own tokenizers and no document.
#[verifier::external_body]
pub(crate) fn create_in_ram(builder: SchemaBuilder) -> (index: Index)
    ensures
        index_fields(index) == builder_fields(builder),
        has_raw_tokenizer(index),
        index_docs(index) == Multiset::<DocView>::empty(),
{
    Index::create_in_ram(builder.build())
}

/// `Index::create_in_dir` on the schema that the builder builds: a new index
/// in the directory, with that schema, tantivy's own tokenizers and no
/// document. tantivy reports an error where the directory holds an index.
#[verifier::external_body]
pub(crate) fn create_in_dir(path: &str, builder: SchemaBuilder) -> (r: Result<Index, TantivyError>)
    ensures
        r matches Ok(index) ==> index_fields(index) == builder_fields(builder),
        r matches Ok(index) ==> has_raw_tokenizer(index),
        r matches Ok(index) ==> index_docs(index) == Multiset::<DocView>::empty(),
{
    Index::create_in_dir(path, builder.build())
}

/// `Index::open_in_dir`: the index that the directory holds, with the schema
/// found there and tantivy's own tokenizers.
#[verifier::external_body]
pub(crate) fn open_in_dir(path: &str) -> (r: Result<Index, TantivyError>)
    ensures
        r matches Ok(index) ==> has_raw_tokenizer(index),
{
    Index::open_in_dir(path)
}

/// `==` on the index's schema and the schema that the builder builds.
/// tantivy compares the fields one by one, each with all its options.
#[verifier::external_body]
pub(crate) fn schema_matches(index: &Index, builder: SchemaBuilder) -> (same: bool)
    ensures
        same ==> index_fields(*index) == builder_fields(builder),
{
    index.schema() == builder.build()
}

/// `TokenizerManager::register` on the index's tokenizers, with an
/// `NgramTokenizer` made by `NgramTokenizer::new`, which refuses a minimum
/// of zero and a minimum above the maximum. A tokenizer that was registered
/// under the name is replaced.
#[verifier::external_body]
pub(crate) fn register_ngram(
    index: &mut Index,
    name: &str,
    min_gram: usize,
    max_gram: usize,
    prefix_only: bool,
)
    requires
        0 < min_gram <= max_gram,
    ensures
        index_tokenizers(*final(index)) == index_tokenizers(*old(index)).insert(
            name@,
            ngram_view(min_gram as nat, max_gram as nat, prefix_only),
        ),
        index_fields(*final(index)) == index_fields(*old(index)),
        index_docs(*final(index)) == index_docs(*old(index)),
{
    let tokenizer = NgramTokenizer::new(min_gram, max_gram, prefix_only).unwrap();
    index.tokenizers().register(name, tokenizer);
}

/// `lindera::dictionary::load_dictionary` on the URI, then
/// `TokenizerManager::register` with a `LinderaTokenizer` made from a
/// `Segmenter` over that dictionary, with the mode and the user dictionary
/// given. Where the dictionary does not load nothing is registered.
#[verifier::external_body]
pub(crate) fn register_morphological(
    index: &mut Index,
    name: &str,
    dictionary: &str,
    mode: SegmenterMode,
    user_dictionary: Option<UserDictionary>,
) -> (r: Result<(), LinderaError>)
    ensures
        r is Ok ==> index_tokenizers(*final(index)) == index_tokenizers(*old(index)).insert(
            name@,
            morphological_view(dictionary@, mode, user_dictionary is Some),
        ),
        r is Err ==> index_tokenizers(*final(index)) == index_tokenizers(*old(index)),
        index_fields(*final(index)) == index_fields(*old(index)),
        index_docs(*final(index)) == index_docs(*old(index)),
{
    let loaded = lindera::dictionary::load_dictionary(dictionary)?;
    let mode = match mode {
        SegmenterMode::Normal => Mode::Normal,
        SegmenterMode::Decompose(penalties) => Mode::Decompose(Penalty {
            kanji_penalty_length_threshold: penalties.kanji_threshold,
            kanji_penalty_length_penalty: penalties.kanji_penalty,
            other_penalty_length_threshold: penalties.other_threshold,
            other_penalty_length_penalty: penalties.other_penalty,
        }),
    };
    let segmenter = lindera::segmenter::Segmenter::new(mode, loaded, user_dictionary);
    index.tokenizers().register(name, LinderaTokenizer::from_segmenter(segmenter));
    Ok(())
}

/// `Index::writer` with a memory budget in bytes: a writer of the index in
/// which no operation waits.
#[verifier::external_body]
pub(crate) fn open_writer(index: &Index, memory_budget: usize) -> (r: Result<Writer, TantivyError>)
    ensures
        r matches Ok(writer) ==> writer_index(writer) == *index,
        r matches Ok(writer) ==> writer_ops(writer) == Seq::<WriteOp>::empty(),
{
    index.writer(memory_budget).map(|inner| Writer { inner })
}

/// `IndexWriter::add_document` on a `TantivyDocument` to which the values
/// were added in their order, each by `add_field_value`. The document waits
/// for the commit. A handle above `u16::MAX` makes tantivy panic. A text
/// that comes with its tokens is left out: the document store keeps its
/// text alone, so the document would not come back as it was added.
#[verifier::external_body]
pub(crate) fn writer_add(
    writer: &mut Writer,
    entries: &Vec<(u32, OwnedValue)>,
) -> (r: Result<(), TantivyError>)
    requires
        doc_fits(index_fields(writer_index(*old(writer))), entries_view(entries@)),
    ensures
        writer_index(*final(writer)) == writer_index(*old(writer)),
        r is Ok ==> writer_ops(*final(writer)) == writer_ops(*old(writer)).push(
            WriteOp::Add(entries_view(entries@)),
        ),
        r is Err ==> writer_ops(*final(writer)) == writer_ops(*old(writer)),
{
    let mut document = tantivy::TantivyDocument::default();
    for (field, value) in entries.iter() {
        document.add_field_value(Field::from_field_id(*field), value);
    }
    writer.inner.add_document(document).map(|_| ())
}

/// `IndexWriter::delete_term` on the term that `Term::from_field_text`
/// makes. The deletion waits for the commit. tantivy panics on a field that
/// the schema does not have.
#[verifier::external_body]
pub(crate) fn writer_delete_term(writer: &mut Writer, field: u32, text: &str)
    requires
        raw_keyed(writer_index(*old(writer)), field),
    ensures
        writer_index(*final(writer)) == writer_index(*old(writer)),
        writer_ops(*final(writer)) == writer_ops(*old(writer)).push(
            WriteOp::DeleteTerm(field, text@),
        ),
{
    let term = tantivy::Term::from_field_text(Field::from_field_id(field), text);
    writer.inner.delete_term(term);
}

/// `IndexWriter::delete_all_documents`, on a writer in which nothing waits.
/// The deletion waits for the commit.
#[verifier::external_body]
pub(crate) fn writer_delete_all(writer: &mut Writer) -> (r: Result<(), TantivyError>)
    requires
        writer_ops(*old(writer)).len() == 0,
    ensures
        writer_index(*final(writer)) == writer_index(*old(writer)),
        r is Ok ==> writer_ops(*final(writer)) == seq![WriteOp::DeleteAll],
        r is Err ==> writer_ops(*final(writer)) == writer_ops(*old(writer)),
{
    writer.inner.delete_all_documents().map(|_| ())
}

/// `IndexWriter::commit`, on the writer of `index`. Where it succeeds the
/// operations that waited have been carried out in their order, and a reader
/// that is opened from now on sees the outcome. Where it fails nothing is
/// said of the documents. Schema and tokenizers stay as they are.
#[verifier::external_body]
pub(crate) fn writer_commit(index: &mut Index, writer: &mut Writer) -> (r: Result<(), TantivyError>)
    requires
        writer_index(*old(writer)) == *old(index),
    ensures
        index_fields(*final(index)) == index_fields(*old(index)),
        index_tokenizers(*final(index)) == index_tokenizers(*old(index)),
        writer_index(*final(writer)) == *final(index),
        r is Ok ==> index_docs(*final(index)) == apply_ops(
            index_docs(*old(index)),
            writer_ops(*old(writer)),
        ),
        r is Ok ==> writer_ops(*final(writer)) == Seq::<WriteOp>::empty(),
{
    writer.inner.commit().map(|_| ())
}

/// `Index::reader`, then `IndexReader::searcher`: a searcher that sees the
/// documents of the index as they are now.
#[verifier::external_body]
pub(crate) fn open_searcher(index: &Index) -> (r: Result<Searcher, TantivyError>)
    ensures
        r matches Ok(searcher) ==> searcher_docs(searcher) == index_docs(*index),
{
    index.reader().map(|reader| reader.searcher())
}

/// `Searcher::num_docs`: the number of documents that the searcher sees.
#[verifier::external_body]
pub(crate) fn searcher_count(searcher: &Searcher) -> (count: u64)
    ensures
        count == searcher_docs(*searcher).len(),
{
    searcher.num_docs()
}

/// `QueryParser::for_index` with the default fields given, then
/// `QueryParser::parse_query`: the query and the refusal are those that
/// `parsed_query` names. tantivy panics on a default field that the schema
/// does not have.
#[verifier::external_body]
pub(crate) fn parse_query(
    index: &Index,
    fields: &Vec<u32>,
    text: &str,
) -> (r: Result<ParsedQuery, QueryParserError>)
    requires
        forall|i: int|
            0 <= i < fields@.len() ==> #[trigger] fields@[i] < index_fields(*index).len(),
    ensures
        r matches Ok(query) ==> parsed_query(*index, fields@, text@) == Some(query),
        r is Err ==> parsed_query(*index, fields@, text@) is None,
{
    let defaults = fields.iter().map(|field| Field::from_field_id(*field)).collect();
    let parser = tantivy::query::QueryParser::for_index(index, defaults);
    parser.parse_query(text).map(|inner| ParsedQuery { inner })
}

/// `Searcher::search` with `TopDocs::with_limit(limit).order_by_score()`:
/// where it succeeds, the hits that `top_hits` names, which are at most
/// `limit` documents that the searcher sees, each with its score. tantivy
/// panics on a limit of zero, and allocates room for twice the limit: the
/// limit is kept to the number of documents.
#[verifier::external_body]
pub(crate) fn search_top(
    searcher: &Searcher,
    query: &ParsedQuery,
    limit: usize,
) -> (r: Result<Vec<Hit>, TantivyError>)
    requires
        0 < limit <= searcher_docs(*searcher).len(),
    ensures
        r matches Ok(hits) ==> hits@ == top_hits(*searcher, *query, limit as nat),
        r matches Ok(hits) ==> hits@.len() <= limit,
        r matches Ok(hits) ==> forall|i: int|
            0 <= i < hits@.len() ==> searcher_holds(
                *searcher,
                (#[trigger] hits@[i]).segment,
                hits@[i].doc,
            ),
{
    let collector = tantivy::collector::TopDocs::with_limit(limit).order_by_score();
    let found = searcher.search(&*query.inner, &collector)?;
    let hit = |(score, at): (tantivy::Score, tantivy::DocAddress)| Hit {
        score_bits: score.to_bits(),
        segment: at.segment_ord,
        doc: at.doc_id,
    };
    Ok(found.into_iter().map(hit).collect())
}

/// `Searcher::doc` into a `TantivyDocument`, handed out as its fields and
/// values in their order: where it succeeds, the document at the address,
/// which is one of the documents that the searcher sees. tantivy panics on a
/// segment that the searcher does not have.
#[verifier::external_body]
pub(crate) fn fetch_document(
    searcher: &Searcher,
    segment: u32,
    doc: u32,
) -> (r: Result<Vec<(u32, OwnedValue)>, TantivyError>)
    requires
        searcher_holds(*searcher, segment, doc),
    ensures
        r matches Ok(entries) ==> entries_view(entries@) == searcher_doc(*searcher, segment, doc),
        r matches Ok(entries) ==> searcher_docs(*searcher).contains(entries_view(entries@)),
{
    let document: tantivy::TantivyDocument = searcher.doc(tantivy::DocAddress::new(segment, doc))?;
    Ok(
        document.field_values().map(
            |(field, value)| (field.field_id(), OwnedValue::from(value)),
        ).collect(),
    )
}

} // verus!
