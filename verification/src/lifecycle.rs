use crate::document::{
    add_ops, assigned, assigned_ids, batch_added, batch_documents, counter_after, counter_at,
    delete_ops, document, generated_count, input_document, inputs_view, lemma_apply_adds,
    lemma_apply_deletes, lemma_counter_step, lemma_document_fits, lemma_generated_count_take,
    stored_document, texts_view, updated_docs, without_terms, DocumentInput, InputView,
};
use crate::engine::{fails_with, SearchEngine, SearchIndex, WRITER_MEMORY_BUDGET};
use crate::ident::{is_generated_id, uuid_text};
use crate::json::normalized_metadata;
use crate::messages::{
    added_message, added_text, cleared_message, cleared_text, deleted_many_message,
    deleted_many_text, deleted_message, deleted_text, not_initialized_message,
    not_initialized_text, samples_indexed_message, samples_indexed_text, updated_message,
    updated_text,
};
use crate::samples::{sample_documents, sample_inputs};
use crate::schema::schema_field_set;
use crate::store::{
    apply_ops, doc_fits, entries_view, index_fields, indexable, is_tantivy_error_text,
    lemma_apply_none, lemma_apply_push, open_writer, raw_keyed, without_term, writer_add,
    writer_commit, writer_delete_all, writer_delete_term, writer_index, writer_ops, DocView,
    WriteOp, Writer,
};
use tantivy::schema::OwnedValue;
use vstd::multiset::Multiset;
use vstd::prelude::*;

verus! {

impl SearchIndex {
    /// The fields and values of a document, which the schema of the index
    /// keeps as they are.
    fn entries_of(
        &self,
        id: &str,
        title: &str,
        body: &str,
        metadata_json: &str,
    ) -> (entries: Vec<(u32, OwnedValue)>)
        ensures
            entries_view(entries@) == document(
                id@,
                title@,
                body@,
                normalized_metadata(metadata_json@),
            ),
            doc_fits(index_fields(self.index), entries_view(entries@)),
    {
        let entries = stored_document(id, title, body, metadata_json);
        proof {
            use_type_invariant(self);
            lemma_document_fits(
                self.dictionary.tokenizer_name(),
                id@,
                title@,
                body@,
                normalized_metadata(metadata_json@),
            );
        }
        entries
    }

    /// Opens a writer of the index, in which no operation waits. Where
    /// tantivy opens none the error is tantivy's, as text.
    fn writer(&self) -> (r: Result<Writer, String>)
        ensures
            r matches Ok(writer) ==> writer_index(writer) == self.index,
            r matches Ok(writer) ==> writer_ops(writer) == Seq::<WriteOp>::empty(),
            r matches Err(text) ==> is_tantivy_error_text(text),
    {
        match open_writer(&self.index, WRITER_MEMORY_BUDGET) {
            Ok(writer) => Ok(writer),
            Err(error) => Err(error.to_string()),
        }
    }

    /// Commits what waits in the writer.
    fn commit(self, writer: &mut Writer) -> (out: (SearchIndex, Result<(), String>))
        requires
            writer_index(*old(writer)) == self.index,
        ensures
            out.0.profile() == self.profile(),
            out.1 matches Err(text) ==> is_tantivy_error_text(text),
            out.1 is Ok ==> out.0.docs() == apply_ops(self.docs(), writer_ops(*old(writer))),
    {
        proof {
            use_type_invariant(&self);
        }
        let SearchIndex { index, fields, dictionary } = self;
        let mut index = index;
        let committed = writer_commit(&mut index, writer);
        let search_index = SearchIndex { index, fields, dictionary };
        match committed {
            Ok(()) => (search_index, Ok(())),
            Err(error) => (search_index, Err(error.to_string())),
        }
    }

    /// Adds one document and commits.
    fn add(
        self,
        id: &str,
        title: &str,
        body: &str,
        metadata_json: &str,
    ) -> (out: (SearchIndex, Result<(), String>))
        ensures
            out.0.profile() == self.profile(),
            out.1 matches Err(text) ==> is_tantivy_error_text(text),
            out.1 is Ok ==> out.0.docs() == self.docs().insert(
                document(id@, title@, body@, normalized_metadata(metadata_json@)),
            ),
    {
        let mut writer = match self.writer() {
            Ok(writer) => writer,
            Err(error) => {
                return (self, Err(error));
            },
        };
        let entries = self.entries_of(id, title, body, metadata_json);
        match writer_add(&mut writer, &entries) {
            Ok(()) => {},
            Err(error) => {
                return (self, Err(error.to_string()));
            },
        }
        proof {
            lemma_apply_none(self.docs());
            lemma_apply_push(self.docs(), Seq::empty(), WriteOp::Add(entries_view(entries@)));
        }
        self.commit(&mut writer)
    }

    /// Deletes the documents that the identity finds, adds the new one, and
    /// commits.
    fn update(
        self,
        id: &str,
        title: &str,
        body: &str,
        metadata_json: &str,
    ) -> (out: (SearchIndex, Result<(), String>))
        ensures
            out.0.profile() == self.profile(),
            out.1 matches Err(text) ==> is_tantivy_error_text(text),
            out.1 is Ok ==> out.0.docs() == updated_docs(
                self.docs(),
                id@,
                title@,
                body@,
                normalized_metadata(metadata_json@),
            ),
    {
        proof {
            use_type_invariant(&self);
        }
        let mut writer = match self.writer() {
            Ok(writer) => writer,
            Err(error) => {
                return (self, Err(error));
            },
        };
        writer_delete_term(&mut writer, self.fields.id, id);
        let entries = self.entries_of(id, title, body, metadata_json);
        match writer_add(&mut writer, &entries) {
            Ok(()) => {},
            Err(error) => {
                return (self, Err(error.to_string()));
            },
        }
        proof {
            let delete = WriteOp::DeleteTerm(self.fields.id, id@);
            let add = WriteOp::Add(entries_view(entries@));
            lemma_apply_none(self.docs());
            lemma_apply_push(self.docs(), Seq::empty(), delete);
            lemma_apply_push(self.docs(), Seq::empty().push(delete), add);
        }
        self.commit(&mut writer)
    }

    /// Deletes the documents that the identity finds, and commits.
    fn delete(self, id: &str) -> (out: (SearchIndex, Result<(), String>))
        ensures
            out.0.profile() == self.profile(),
            out.1 matches Err(text) ==> is_tantivy_error_text(text),
            out.1 is Ok ==> out.0.docs() == without_term(self.docs(), schema_field_set().id, id@),
    {
        proof {
            use_type_invariant(&self);
        }
        let mut writer = match self.writer() {
            Ok(writer) => writer,
            Err(error) => {
                return (self, Err(error));
            },
        };
        writer_delete_term(&mut writer, self.fields.id, id);
        proof {
            lemma_apply_none(self.docs());
            lemma_apply_push(self.docs(), Seq::empty(), WriteOp::DeleteTerm(self.fields.id, id@));
        }
        self.commit(&mut writer)
    }

    /// Deletes the documents that the identities find, and commits.
    fn delete_all_of(self, ids: &Vec<String>) -> (out: (SearchIndex, Result<(), String>))
        ensures
            out.0.profile() == self.profile(),
            out.1 matches Err(text) ==> is_tantivy_error_text(text),
            out.1 is Ok ==> out.0.docs() == without_terms(
                self.docs(),
                schema_field_set().id,
                texts_view(ids@),
            ),
    {
        proof {
            use_type_invariant(&self);
        }
        let mut writer = match self.writer() {
            Ok(writer) => writer,
            Err(error) => {
                return (self, Err(error));
            },
        };
        let ghost texts = texts_view(ids@);
        let mut i: usize = 0;
        proof {
            assert(delete_ops(self.fields.id, texts.take(0)) =~= Seq::<WriteOp>::empty());
        }
        while i < ids.len()
            invariant
                i <= ids.len(),
                texts == texts_view(ids@),
                self.fields == schema_field_set(),
                raw_keyed(self.index, self.fields.id),
                writer_index(writer) == self.index,
                writer_ops(writer) == delete_ops(self.fields.id, texts.take(i as int)),
            decreases ids.len() - i,
        {
            writer_delete_term(&mut writer, self.fields.id, ids[i].as_str());
            proof {
                assert(texts[i as int] == ids@[i as int]@);
                assert(texts.take(i + 1) =~= texts.take(i as int).push(texts[i as int]));
                assert(delete_ops(self.fields.id, texts.take(i + 1)) =~= delete_ops(
                    self.fields.id,
                    texts.take(i as int),
                ).push(WriteOp::DeleteTerm(self.fields.id, texts[i as int])));
            }
            i = i + 1;
        }
        proof {
            assert(texts.take(i as int) =~= texts);
            lemma_apply_deletes(self.docs(), self.fields.id, texts);
        }
        self.commit(&mut writer)
    }

    /// Deletes every document, and commits.
    fn clear(self) -> (out: (SearchIndex, Result<(), String>))
        ensures
            out.0.profile() == self.profile(),
            out.1 matches Err(text) ==> is_tantivy_error_text(text),
            out.1 is Ok ==> out.0.docs() == Multiset::<DocView>::empty(),
    {
        let mut writer = match self.writer() {
            Ok(writer) => writer,
            Err(error) => {
                return (self, Err(error));
            },
        };
        match writer_delete_all(&mut writer) {
            Ok(()) => {},
            Err(error) => {
                return (self, Err(error.to_string()));
            },
        }
        proof {
            lemma_apply_none(self.docs());
            lemma_apply_push(self.docs(), Seq::empty(), WriteOp::DeleteAll);
            assert(seq![WriteOp::DeleteAll] =~= Seq::empty().push(WriteOp::DeleteAll));
        }
        self.commit(&mut writer)
    }
}

/// Adds `documents` to the index through one writer and one commit, drawing
/// an identity for each that has none.
fn add_batch(
    engine: &mut SearchEngine,
    search_index: SearchIndex,
    documents: &Vec<DocumentInput>,
) -> (out: (SearchIndex, Result<(), String>))
    requires
        old(engine).index is None,
    ensures
        final(engine).index is None,
        out.0.profile() == search_index.profile(),
        out.1 matches Err(text) ==> is_tantivy_error_text(text),
        out.1 is Ok ==> final(engine).next_counter() == counter_at(
            old(engine).next_counter(),
            generated_count(inputs_view(documents@)),
        ),
        out.1 is Ok ==> batch_added(
            search_index.docs(),
            out.0.docs(),
            inputs_view(documents@),
            old(engine).next_counter(),
        ),
{
    let mut writer = match search_index.writer() {
        Ok(writer) => writer,
        Err(error) => {
            return (search_index, Err(error));
        },
    };
    let ghost inputs = inputs_view(documents@);
    let ghost start = engine.next_counter();
    let ghost mut ids: Seq<Seq<char>> = Seq::empty();
    let ghost mut stamps: Seq<nat> = Seq::empty();
    let mut i: usize = 0;
    proof {
        lemma_counter_step(start, 0);
        assert(inputs.take(0) =~= Seq::<InputView>::empty());
        assert(add_ops(batch_documents(inputs.take(0), ids)) =~= Seq::<WriteOp>::empty());
    }
    while i < documents.len()
        invariant
            i <= documents.len(),
            inputs == inputs_view(documents@),
            engine.index is None,
            start <= u64::MAX,
            engine.next_counter() == counter_at(start, generated_count(inputs.take(i as int))),
            writer_index(writer) == search_index.index,
            writer_ops(writer) == add_ops(batch_documents(inputs.take(i as int), ids)),
            assigned(inputs.take(i as int), ids, stamps, start),
        decreases documents.len() - i,
    {
        let input = &documents[i];
        assert(inputs[i as int] == input@);
        let ghost before = engine.next_counter();
        let ghost mut stamp: nat = 0;
        let id = if input.id.as_str().is_empty() {
            let id = engine.next_id();
            proof {
                stamp = choose|timestamp: nat|
                    timestamp <= u128::MAX && id@ == #[trigger] uuid_text(timestamp, before);
            }
            id
        } else {
            input.id.clone()
        };
        let entries = search_index.entries_of(
            id.as_str(),
            input.title.as_str(),
            input.body.as_str(),
            input.metadata.as_str(),
        );
        match writer_add(&mut writer, &entries) {
            Ok(()) => {},
            Err(error) => {
                return (search_index, Err(error.to_string()));
            },
        }
        proof {
            let old_ids = ids;
            let old_stamps = stamps;
            let prefix = inputs.take(i as int);
            let longer = inputs.take(i + 1);
            ids = ids.push(id@);
            stamps = stamps.push(stamp);
            lemma_generated_count_take(inputs, i as int);
            lemma_counter_step(start, generated_count(prefix));
            assert(longer =~= prefix.push(inputs[i as int]));
            assert forall|k: int| 0 <= k < longer.len() implies #[trigger] ids[k] == if longer[k].id.len()
                == 0 {
                uuid_text(stamps[k], counter_at(start, generated_count(longer.take(k))))
            } else {
                longer[k].id
            } by {
                if k < i {
                    assert(ids[k] == old_ids[k]);
                    assert(stamps[k] == old_stamps[k]);
                    assert(longer.take(k) =~= prefix.take(k));
                    assert(longer[k] == prefix[k]);
                } else {
                    assert(longer.take(k) =~= prefix);
                }
            }
            assert(batch_documents(longer, ids) =~= batch_documents(prefix, old_ids).push(
                input_document(input@, id@),
            ));
            assert(add_ops(batch_documents(longer, ids)) =~= add_ops(batch_documents(prefix, old_ids)).push(
                WriteOp::Add(entries_view(entries@)),
            ));
        }
        i = i + 1;
    }
    proof {
        assert(inputs.take(i as int) =~= inputs);
        lemma_apply_adds(search_index.docs(), batch_documents(inputs, ids));
        assert(assigned_ids(inputs, ids, start));
    }
    search_index.commit(&mut writer)
}

/// Adds a document under a new identity, and answers the identity.
///
/// A metadata text that is not JSON is no error: the empty object is stored
/// for it. The identity is drawn before the index is written to, so the
/// counter moves on also where the writing fails.
pub fn add_document(
    engine: &mut SearchEngine,
    title: String,
    body: String,
    metadata_json: String,
) -> (r: Result<String, String>)
    ensures
        final(engine).is_initialized() == old(engine).is_initialized(),
        final(engine).profile() == old(engine).profile(),
        !old(engine).is_initialized() ==> *final(engine) == *old(engine),
        !old(engine).is_initialized() ==> fails_with(r, not_initialized_text()),
        old(engine).is_initialized() && r is Err ==> is_tantivy_error_text(r->Err_0),
        old(engine).is_initialized() ==> final(engine).next_counter() == counter_after(
            old(engine).next_counter(),
        ),
        r matches Ok(id) ==> is_generated_id(id@, old(engine).next_counter()),
        r matches Ok(id) ==> indexable(id@),
        r matches Ok(id) ==> final(engine).docs() == old(engine).docs().insert(
            document(id@, title@, body@, normalized_metadata(metadata_json@)),
        ),
{
    match engine.index.take() {
        Some(search_index) => {
            let id = engine.next_id();
            let (search_index, added) = search_index.add(
                id.as_str(),
                title.as_str(),
                body.as_str(),
                metadata_json.as_str(),
            );
            engine.index = Some(search_index);
            match added {
                Ok(()) => Ok(id),
                Err(error) => Err(error),
            }
        },
        None => Err(not_initialized_message()),
    }
}

/// Adds the documents in one commit: all of them become visible, or none.
///
/// A document with an empty identity gets a generated one; an identity that
/// was handed in is kept as it is, also where another document has it.
pub fn add_documents(
    engine: &mut SearchEngine,
    documents: Vec<DocumentInput>,
) -> (r: Result<String, String>)
    ensures
        final(engine).is_initialized() == old(engine).is_initialized(),
        final(engine).profile() == old(engine).profile(),
        !old(engine).is_initialized() ==> *final(engine) == *old(engine),
        !old(engine).is_initialized() ==> fails_with(r, not_initialized_text()),
        old(engine).is_initialized() && r is Err ==> is_tantivy_error_text(r->Err_0),
        r matches Ok(text) ==> text@ == added_text(documents@.len()),
        r is Ok ==> final(engine).next_counter() == counter_at(
            old(engine).next_counter(),
            generated_count(inputs_view(documents@)),
        ),
        r is Ok ==> batch_added(
            old(engine).docs(),
            final(engine).docs(),
            inputs_view(documents@),
            old(engine).next_counter(),
        ),
{
    match engine.index.take() {
        Some(search_index) => {
            let (search_index, added) = add_batch(engine, search_index, &documents);
            engine.index = Some(search_index);
            match added {
                Ok(()) => Ok(added_message(documents.len())),
                Err(error) => Err(error),
            }
        },
        None => Err(not_initialized_message()),
    }
}

/// Adds the sample documents, each under a generated identity, in one
/// commit.
pub fn index_sample_documents(engine: &mut SearchEngine) -> (r: Result<String, String>)
    ensures
        final(engine).is_initialized() == old(engine).is_initialized(),
        final(engine).profile() == old(engine).profile(),
        !old(engine).is_initialized() ==> *final(engine) == *old(engine),
        !old(engine).is_initialized() ==> fails_with(r, not_initialized_text()),
        old(engine).is_initialized() && r is Err ==> is_tantivy_error_text(r->Err_0),
        r matches Ok(text) ==> text@ == samples_indexed_text(),
        r is Ok ==> final(engine).next_counter() == counter_at(
            old(engine).next_counter(),
            generated_count(sample_inputs()),
        ),
        r is Ok ==> batch_added(
            old(engine).docs(),
            final(engine).docs(),
            sample_inputs(),
            old(engine).next_counter(),
        ),
{
    match engine.index.take() {
        Some(search_index) => {
            let documents = sample_documents();
            let (search_index, added) = add_batch(engine, search_index, &documents);
            engine.index = Some(search_index);
            match added {
                Ok(()) => Ok(samples_indexed_message()),
                Err(error) => Err(error),
            }
        },
        None => Err(not_initialized_message()),
    }
}

/// Puts the content given in the place of the document `id`: the documents
/// that the identity finds are deleted and the new one is added under the
/// same identity, in one commit.
pub fn update_document(
    engine: &mut SearchEngine,
    id: String,
    title: String,
    body: String,
    metadata_json: String,
) -> (r: Result<String, String>)
    ensures
        final(engine).is_initialized() == old(engine).is_initialized(),
        final(engine).profile() == old(engine).profile(),
        final(engine).next_counter() == old(engine).next_counter(),
        !old(engine).is_initialized() ==> *final(engine) == *old(engine),
        !old(engine).is_initialized() ==> fails_with(r, not_initialized_text()),
        old(engine).is_initialized() && r is Err ==> is_tantivy_error_text(r->Err_0),
        r matches Ok(text) ==> text@ == updated_text(id@),
        r is Ok ==> final(engine).docs() == updated_docs(
            old(engine).docs(),
            id@,
            title@,
            body@,
            normalized_metadata(metadata_json@),
        ),
{
    match engine.index.take() {
        Some(search_index) => {
            let (search_index, updated) = search_index.update(
                id.as_str(),
                title.as_str(),
                body.as_str(),
                metadata_json.as_str(),
            );
            engine.index = Some(search_index);
            match updated {
                Ok(()) => Ok(updated_message(id.as_str())),
                Err(error) => Err(error),
            }
        },
        None => Err(not_initialized_message()),
    }
}

/// Deletes the documents that the identity finds. An identity that finds
/// none is no error.
pub fn delete_document(engine: &mut SearchEngine, id: String) -> (r: Result<String, String>)
    ensures
        final(engine).is_initialized() == old(engine).is_initialized(),
        final(engine).profile() == old(engine).profile(),
        final(engine).next_counter() == old(engine).next_counter(),
        !old(engine).is_initialized() ==> *final(engine) == *old(engine),
        !old(engine).is_initialized() ==> fails_with(r, not_initialized_text()),
        old(engine).is_initialized() && r is Err ==> is_tantivy_error_text(r->Err_0),
        r matches Ok(text) ==> text@ == deleted_text(id@),
        r is Ok ==> final(engine).docs() == without_term(
            old(engine).docs(),
            schema_field_set().id,
            id@,
        ),
{
    match engine.index.take() {
        Some(search_index) => {
            let (search_index, deleted) = search_index.delete(id.as_str());
            engine.index = Some(search_index);
            match deleted {
                Ok(()) => Ok(deleted_message(id.as_str())),
                Err(error) => Err(error),
            }
        },
        None => Err(not_initialized_message()),
    }
}

/// Deletes, in one commit, the documents that the identities find.
pub fn delete_documents(engine: &mut SearchEngine, ids: Vec<String>) -> (r: Result<String, String>)
    ensures
        final(engine).is_initialized() == old(engine).is_initialized(),
        final(engine).profile() == old(engine).profile(),
        final(engine).next_counter() == old(engine).next_counter(),
        !old(engine).is_initialized() ==> *final(engine) == *old(engine),
        !old(engine).is_initialized() ==> fails_with(r, not_initialized_text()),
        old(engine).is_initialized() && r is Err ==> is_tantivy_error_text(r->Err_0),
        r matches Ok(text) ==> text@ == deleted_many_text(ids@.len()),
        r is Ok ==> final(engine).docs() == without_terms(
            old(engine).docs(),
            schema_field_set().id,
            texts_view(ids@),
        ),
{
    match engine.index.take() {
        Some(search_index) => {
            let (search_index, deleted) = search_index.delete_all_of(&ids);
            engine.index = Some(search_index);
            match deleted {
                Ok(()) => Ok(deleted_many_message(ids.len())),
                Err(error) => Err(error),
            }
        },
        None => Err(not_initialized_message()),
    }
}

/// Deletes every document.
pub fn clear_all_documents(engine: &mut SearchEngine) -> (r: Result<String, String>)
    ensures
        final(engine).is_initialized() == old(engine).is_initialized(),
        final(engine).profile() == old(engine).profile(),
        final(engine).next_counter() == old(engine).next_counter(),
        !old(engine).is_initialized() ==> *final(engine) == *old(engine),
        !old(engine).is_initialized() ==> fails_with(r, not_initialized_text()),
        old(engine).is_initialized() && r is Err ==> is_tantivy_error_text(r->Err_0),
        r matches Ok(text) ==> text@ == cleared_text(),
        r is Ok ==> final(engine).docs() == Multiset::<DocView>::empty(),
{
    match engine.index.take() {
        Some(search_index) => {
            let (search_index, cleared) = search_index.clear();
            engine.index = Some(search_index);
            match cleared {
                Ok(()) => Ok(cleared_message()),
                Err(error) => Err(error),
            }
        },
        None => Err(not_initialized_message()),
    }
}

} // verus!
