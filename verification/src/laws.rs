use crate::document::{
    assigned, assigned_ids, batch_added, batch_documents, counter_at, document, generated_count,
    insert_all, updated_docs, without_terms, InputView,
};
use crate::ident::{is_generated_id, uuid_text, uuid_text_injective, uuid_text_is_short};
use crate::json::{empty_object, json_parse, normalized_metadata, JsonView};
use crate::query::found_among;
use crate::result::{first_value, lemma_first_value_contained, projected, ResultView};
use crate::schema::schema_field_set;
use crate::store::{
    apply_op, gives_term, has_term, indexable, without_term, DocView, WriteOp,
};
use crate::value::StoredView;
use vstd::multiset::Multiset;
use vstd::prelude::*;

verus! {

/// The documents that the identity finds.
pub open spec fn with_id(docs: Multiset<DocView>, id: Seq<char>) -> Multiset<DocView> {
    docs.filter(|doc: DocView| has_term(doc, schema_field_set().id, id))
}

/// Whether every document has a text as the first value of its identity
/// field. It holds of every document that this crate stores.
pub open spec fn all_keyed(docs: Multiset<DocView>) -> bool {
    forall|doc: DocView| #[trigger]
        docs.contains(doc) ==> first_value(doc, schema_field_set().id) matches Some(
            StoredView::Text(_),
        )
}

/// A document that is stored under an identity is found by it, if the
/// identity is short enough to be indexed, and by no other identity.
pub proof fn document_found_by_its_id(
    id: Seq<char>,
    title: Seq<char>,
    body: Seq<char>,
    metadata: JsonView,
    other: Seq<char>,
)
    ensures
        has_term(document(id, title, body, metadata), schema_field_set().id, other) <==> other == id
            && indexable(id),
{
    let doc = document(id, title, body, metadata);
    let key = schema_field_set().id;
    assert(doc[0] == (key, StoredView::Text(id)));
    if has_term(doc, key, other) {
        let k = choose|k: int|
            0 <= k < doc.len() && (#[trigger] doc[k]).0 == key && gives_term(doc[k].1, other);
        assert(k == 0);
    }
}

/// The title and the body of a stored document stand under the n-gram
/// fields with the same text as under the morphological fields.
pub proof fn ngram_fields_hold_the_same_text(
    id: Seq<char>,
    title: Seq<char>,
    body: Seq<char>,
    metadata: JsonView,
)
    ensures
        first_value(document(id, title, body, metadata), schema_field_set().title) == Some(
            StoredView::Text(title),
        ),
        first_value(document(id, title, body, metadata), schema_field_set().title_ngram) == Some(
            StoredView::Text(title),
        ),
        first_value(document(id, title, body, metadata), schema_field_set().body) == Some(
            StoredView::Text(body),
        ),
        first_value(document(id, title, body, metadata), schema_field_set().body_ngram) == Some(
            StoredView::Text(body),
        ),
        first_value(document(id, title, body, metadata), schema_field_set().id) == Some(
            StoredView::Text(id),
        ),
{
    reveal_with_fuel(first_value, 6);
    let doc = document(id, title, body, metadata);
    let d1 = doc.drop_first();
    let d2 = d1.drop_first();
    let d3 = d2.drop_first();
    let d4 = d3.drop_first();
    let d5 = d4.drop_first();
    assert(d1[0] == doc[1]);
    assert(d2[0] == doc[2]);
    assert(d3[0] == doc[3]);
    assert(d4[0] == doc[4]);
    assert(d5[0] == doc[5]);
}

/// An identity that is generated is short enough to be indexed, so that it
/// finds its document.
pub proof fn generated_identity_is_indexable(id: Seq<char>, counter: nat)
    requires
        is_generated_id(id, counter),
        counter <= u64::MAX,
    ensures
        indexable(id),
{
    let timestamp = choose|timestamp: nat|
        timestamp <= u128::MAX && id == #[trigger] uuid_text(timestamp, counter);
    uuid_text_is_short(timestamp, counter);
}

/// The identities that are generated for a batch are short enough to be
/// indexed.
pub proof fn batch_identity_is_indexable(
    inputs: Seq<InputView>,
    ids: Seq<Seq<char>>,
    counter: nat,
    i: int,
)
    requires
        assigned_ids(inputs, ids, counter),
        0 <= i < inputs.len(),
        inputs[i].id.len() == 0,
    ensures
        indexable(ids[i]),
{
    let stamps = choose|stamps: Seq<nat>| assigned(inputs, ids, stamps, counter);
    assert(stamps[i] <= u128::MAX);
    uuid_text_is_short(stamps[i], counter_at(counter, generated_count(inputs.take(i))));
}

/// A document that was added under an identity which is short enough to be
/// indexed, as every generated one is, is found by that identity, and a
/// deletion by that identity takes it away again.
pub proof fn added_document_is_found_by_its_identity(
    docs: Multiset<DocView>,
    id: Seq<char>,
    title: Seq<char>,
    body: Seq<char>,
    metadata: JsonView,
)
    requires
        indexable(id),
    ensures
        with_id(docs.insert(document(id, title, body, metadata)), id).contains(
            document(id, title, body, metadata),
        ),
        without_term(docs.insert(document(id, title, body, metadata)), schema_field_set().id, id)
            == without_term(docs, schema_field_set().id, id),
{
    let doc = document(id, title, body, metadata);
    let key = schema_field_set().id;
    document_found_by_its_id(id, title, body, metadata, id);
    assert(with_id(docs.insert(doc), id).count(doc) == docs.insert(doc).count(doc));
    assert forall|other: DocView|
        without_term(docs.insert(doc), key, id).count(other) == without_term(docs, key, id).count(
            other,
        ) by {
        if other != doc {
            assert(docs.insert(doc).count(other) == docs.count(other));
        }
    }
    assert(without_term(docs.insert(doc), key, id) =~= without_term(docs, key, id));
}

/// An update that is made twice leaves what it leaves when made once, and
/// then exactly one document is found by the identity: the new one. This
/// holds of an identity that is short enough to be indexed.
pub proof fn update_is_idempotent(
    docs: Multiset<DocView>,
    id: Seq<char>,
    title: Seq<char>,
    body: Seq<char>,
    metadata: JsonView,
)
    requires
        indexable(id),
    ensures
        updated_docs(updated_docs(docs, id, title, body, metadata), id, title, body, metadata)
            == updated_docs(docs, id, title, body, metadata),
        with_id(updated_docs(docs, id, title, body, metadata), id) == Multiset::singleton(
            document(id, title, body, metadata),
        ),
{
    let doc = document(id, title, body, metadata);
    let key = schema_field_set().id;
    let once = updated_docs(docs, id, title, body, metadata);
    let twice = updated_docs(once, id, title, body, metadata);
    document_found_by_its_id(id, title, body, metadata, id);
    assert forall|other: DocView| twice.count(other) == once.count(other) by {
        if has_term(other, key, id) {
            assert(without_term(docs, key, id).count(other) == 0);
            assert(without_term(once, key, id).count(other) == 0);
        } else {
            assert(other != doc);
            assert(without_term(once, key, id).count(other) == once.count(other));
        }
    }
    assert(twice =~= once);
    assert forall|other: DocView|
        with_id(once, id).count(other) == Multiset::singleton(doc).count(other) by {
        if other == doc {
            assert(without_term(docs, key, id).count(doc) == 0);
        } else if has_term(other, key, id) {
            assert(without_term(docs, key, id).count(other) == 0);
        }
    }
    assert(with_id(once, id) =~= Multiset::singleton(doc));
}

/// After a deletion no search result has the identity that was deleted.
/// This holds of an identity that is short enough to be indexed; of the
/// empty identity it holds where every document has an identity.
pub proof fn deleted_is_not_found(docs: Multiset<DocView>, id: Seq<char>, result: ResultView)
    requires
        indexable(id),
        id.len() > 0 || all_keyed(docs),
        found_among(without_term(docs, schema_field_set().id, id), result),
    ensures
        result.id != id,
{
    let key = schema_field_set().id;
    let left = without_term(docs, key, id);
    let doc = choose|doc: DocView| #[trigger]
        left.contains(doc) && result == projected(doc, schema_field_set(), result.score_bits);
    assert(left.count(doc) > 0);
    assert(!has_term(doc, key, id));
    assert(docs.contains(doc));
    lemma_first_value_contained(doc, key);
    if result.id == id {
        match first_value(doc, key) {
            Some(StoredView::Text(text)) => {
                assert(doc.contains((key, StoredView::Text(id))));
            },
            _ => {
                assert(id.len() == 0);
            },
        }
    }
}

/// A deletion by an identity that finds no document changes nothing.
pub proof fn delete_of_unknown_id_changes_nothing(docs: Multiset<DocView>, id: Seq<char>)
    requires
        with_id(docs, id).len() == 0,
    ensures
        without_term(docs, schema_field_set().id, id) == docs,
{
    let key = schema_field_set().id;
    assert forall|doc: DocView| without_term(docs, key, id).count(doc) == docs.count(doc) by {
        if has_term(doc, key, id) {
            assert(with_id(docs, id).count(doc) == docs.count(doc));
            assert(with_id(docs, id).count(doc) <= with_id(docs, id).len());
        }
    }
    assert(without_term(docs, key, id) =~= docs);
}

/// After a deletion the identity finds no document.
pub proof fn deleted_id_finds_nothing(docs: Multiset<DocView>, id: Seq<char>)
    ensures
        with_id(without_term(docs, schema_field_set().id, id), id) == Multiset::<DocView>::empty(),
{
    let key = schema_field_set().id;
    assert forall|doc: DocView| with_id(without_term(docs, key, id), id).count(doc) == 0 by {
        if has_term(doc, key, id) {
            assert(without_term(docs, key, id).count(doc) == 0);
        }
    }
    assert(with_id(without_term(docs, key, id), id) =~= Multiset::<DocView>::empty());
}

/// A batch adds as many documents as it holds.
pub proof fn batch_adds_its_length(docs: Multiset<DocView>, batch: Seq<DocView>)
    ensures
        insert_all(docs, batch).len() == docs.len() + batch.len(),
    decreases batch.len(),
{
    if batch.len() > 0 {
        batch_adds_its_length(docs, batch.drop_last());
    }
}

/// An addition of several documents raises the number of documents by
/// their number, whether their identities were handed in or generated.
pub proof fn batch_raises_the_count(
    before: Multiset<DocView>,
    after: Multiset<DocView>,
    inputs: Seq<InputView>,
    counter: nat,
)
    requires
        batch_added(before, after, inputs, counter),
    ensures
        after.len() == before.len() + inputs.len(),
{
    let ids = choose|ids: Seq<Seq<char>>| #[trigger]
        assigned_ids(inputs, ids, counter) && after == insert_all(
            before,
            batch_documents(inputs, ids),
        );
    batch_adds_its_length(before, batch_documents(inputs, ids));
}

proof fn lemma_generated_count_grows(inputs: Seq<InputView>, i: int, j: int)
    requires
        0 <= i < j <= inputs.len(),
        inputs[i].id.len() == 0,
    ensures
        generated_count(inputs.take(i)) < generated_count(inputs.take(j)) <= j,
    decreases j - i,
{
    assert(inputs.take(j).drop_last() =~= inputs.take(j - 1));
    if j == i + 1 {
        lemma_generated_count_bound(inputs.take(i));
    } else {
        lemma_generated_count_grows(inputs, i, j - 1);
    }
}

proof fn lemma_generated_count_bound(inputs: Seq<InputView>)
    ensures
        generated_count(inputs) <= inputs.len(),
    decreases inputs.len(),
{
    if inputs.len() > 0 {
        lemma_generated_count_bound(inputs.drop_last());
    }
}

/// The identities that are generated for one batch differ from each other.
pub proof fn generated_ids_are_distinct(
    inputs: Seq<InputView>,
    ids: Seq<Seq<char>>,
    counter: nat,
    i: int,
    j: int,
)
    requires
        assigned_ids(inputs, ids, counter),
        inputs.len() <= u64::MAX,
        counter <= u64::MAX,
        0 <= i < j < inputs.len(),
        inputs[i].id.len() == 0,
        inputs[j].id.len() == 0,
    ensures
        ids[i] != ids[j],
{
    let stamps = choose|stamps: Seq<nat>| assigned(inputs, ids, stamps, counter);
    let ki = generated_count(inputs.take(i));
    let kj = generated_count(inputs.take(j));
    lemma_generated_count_grows(inputs, i, j);
    assert(ids[i] == uuid_text(stamps[i], counter_at(counter, ki)));
    assert(ids[j] == uuid_text(stamps[j], counter_at(counter, kj)));
    assert(counter_at(counter, ki) != counter_at(counter, kj));
    if ids[i] == ids[j] {
        uuid_text_injective(stamps[i], counter_at(counter, ki), stamps[j], counter_at(counter, kj));
    }
}

/// An index that was cleared counts no document, whatever it held.
pub proof fn cleared_index_counts_nothing(docs: Multiset<DocView>)
    ensures
        apply_op(docs, WriteOp::DeleteAll).len() == 0,
{
}

/// For a metadata text that is not JSON the empty object is stored.
pub proof fn malformed_metadata_is_empty(text: Seq<char>)
    requires
        json_parse(text) is None,
    ensures
        normalized_metadata(text) == empty_object(),
{
}

/// Deleting by no identity changes nothing, and deleting by several deletes
/// by each in turn.
pub proof fn delete_documents_deletes_each(
    docs: Multiset<DocView>,
    ids: Seq<Seq<char>>,
    id: Seq<char>,
)
    ensures
        without_terms(docs, schema_field_set().id, Seq::<Seq<char>>::empty()) == docs,
        without_terms(docs, schema_field_set().id, ids.push(id)) == without_term(
            without_terms(docs, schema_field_set().id, ids),
            schema_field_set().id,
            id,
        ),
{
    assert(ids.push(id).drop_last() =~= ids);
}

} // verus!
