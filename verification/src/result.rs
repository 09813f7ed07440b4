use crate::schema::FieldSet;
use crate::store::{entries_view, DocView};
use crate::value::{
    field_text, metadata_text, project_metadata, project_text, stored_view, StoredView,
};
use tantivy::schema::OwnedValue;
use vstd::prelude::*;

verus! {

/// A document that a search has found, with its score.
#[derive(Clone, Debug)]
pub struct SearchResult {
    pub id: String,
    pub title: String,
    pub body: String,
    /// The relevance score, an IEEE 754 single, by its bits. A higher score
    /// is a better match.
    pub score_bits: u32,
    /// The metadata as JSON text.
    pub metadata: String,
}

/// A search result as the contracts see it.
pub struct ResultView {
    pub id: Seq<char>,
    pub title: Seq<char>,
    pub body: Seq<char>,
    pub score_bits: u32,
    pub metadata: Seq<char>,
}

impl View for SearchResult {
    type V = ResultView;

    open spec fn view(&self) -> ResultView {
        ResultView {
            id: self.id@,
            title: self.title@,
            body: self.body@,
            score_bits: self.score_bits,
            metadata: self.metadata@,
        }
    }
}

/// The first value that a document has for a field.
pub open spec fn first_value(doc: DocView, field: u32) -> Option<StoredView>
    decreases doc.len(),
{
    if doc.len() == 0 {
        None
    } else if doc[0].0 == field {
        Some(doc[0].1)
    } else {
        first_value(doc.drop_first(), field)
    }
}

/// The result that stands for a stored document: identity, title and body
/// are the first values of their fields, or empty where the document has no
/// text there; the metadata is the text of the first value of its field.
pub open spec fn projected(doc: DocView, fields: FieldSet, score_bits: u32) -> ResultView {
    ResultView {
        id: field_text(first_value(doc, fields.id)),
        title: field_text(first_value(doc, fields.title)),
        body: field_text(first_value(doc, fields.body)),
        score_bits,
        metadata: metadata_text(first_value(doc, fields.metadata)),
    }
}

/// A document whose first values for a field lie elsewhere has the first
/// value of its rest.
proof fn lemma_first_value_skip(doc: DocView, field: u32, start: int)
    requires
        0 <= start <= doc.len(),
        forall|k: int| 0 <= k < start ==> (#[trigger] doc[k]).0 != field,
    ensures
        first_value(doc, field) == first_value(doc.skip(start), field),
    decreases start,
{
    if start == 0 {
        assert(doc.skip(0) =~= doc);
    } else {
        assert(doc[0].0 != field);
        let rest = doc.drop_first();
        assert forall|k: int| 0 <= k < start - 1 implies (#[trigger] rest[k]).0 != field by {
            assert(rest[k] == doc[k + 1]);
        }
        lemma_first_value_skip(rest, field, start - 1);
        assert(rest.skip(start - 1) =~= doc.skip(start));
    }
}

/// The first value that a document has for a field is one of its values
/// for the field.
pub proof fn lemma_first_value_contained(doc: DocView, field: u32)
    ensures
        first_value(doc, field) matches Some(value) ==> doc.contains((field, value)),
    decreases doc.len(),
{
    if doc.len() > 0 {
        if doc[0].0 == field {
            assert(doc[0] == (field, doc[0].1));
        } else {
            lemma_first_value_contained(doc.drop_first(), field);
            if first_value(doc, field) is Some {
                let value = first_value(doc, field)->Some_0;
                let rest = doc.drop_first();
                let k = choose|k: int| 0 <= k < rest.len() && rest[k] == (field, value);
                assert(doc[k + 1] == (field, value));
            }
        }
    }
}

/// Finds the first value of a field among the fields and values of a
/// document.
pub fn find_first(entries: &Vec<(u32, OwnedValue)>, field: u32) -> (found: Option<&OwnedValue>)
    ensures
        found matches Some(value) ==> first_value(entries_view(entries@), field) == Some(
            stored_view(*value),
        ),
        found is None ==> first_value(entries_view(entries@), field) is None,
{
    let ghost doc = entries_view(entries@);
    let mut i: usize = 0;
    while i < entries.len()
        invariant
            i <= entries.len(),
            doc == entries_view(entries@),
            forall|k: int| 0 <= k < i ==> (#[trigger] doc[k]).0 != field,
        decreases entries.len() - i,
    {
        if entries[i].0 == field {
            proof {
                lemma_first_value_skip(doc, field, i as int);
                assert(doc.skip(i as int)[0] == doc[i as int]);
            }
            return Some(&entries[i].1);
        }
        i = i + 1;
    }
    proof {
        lemma_first_value_skip(doc, field, i as int);
        assert(doc.skip(i as int).len() == 0);
    }
    None
}

/// Projects the fields and values of a stored document to a result. A
/// field that is missing, or that holds no text, gives an empty text; it is
/// no failure.
pub fn project_document(
    entries: &Vec<(u32, OwnedValue)>,
    fields: &FieldSet,
    score_bits: u32,
) -> (result: SearchResult)
    ensures
        result@ == projected(entries_view(entries@), *fields, score_bits),
{
    let id = project_text(find_first(entries, fields.id));
    let title = project_text(find_first(entries, fields.title));
    let body = project_text(find_first(entries, fields.body));
    let metadata = project_metadata(find_first(entries, fields.metadata));
    SearchResult { id, title, body, score_bits, metadata }
}

} // verus!
