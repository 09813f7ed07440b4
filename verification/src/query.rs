use crate::engine::{fails_with, SearchEngine};
use crate::messages::{not_initialized_message, not_initialized_text};
use crate::result::{project_document, projected, ResultView, SearchResult};
use crate::schema::schema_field_set;
use crate::store::{
    entries_view, fetch_document, is_query_error_text, is_tantivy_error_text, open_searcher,
    parse_query, parsed_query, search_top,
    searcher_count, searcher_doc, searcher_docs, searcher_holds, top_hits, DocView, Hit,
};
use tantivy::{Index, Searcher};
use vstd::multiset::Multiset;
use vstd::prelude::*;

verus! {

/// The fields that a query searches where it names none: title and body,
/// each by its morphological and by its n-gram field.
pub open spec fn search_fields() -> Seq<u32> {
    let fields = schema_field_set();
    seq![fields.title, fields.body, fields.title_ngram, fields.body_ngram]
}

/// The number of hits that a search asks for: the limit, but no more than
/// there are documents.
pub open spec fn wanted_hits(limit: nat, total: nat) -> nat {
    if limit <= total {
        limit
    } else {
        total
    }
}

/// The results that stand for the hits of a searcher, in their order.
pub open spec fn results_of(searcher: Searcher, hits: Seq<Hit>) -> Seq<ResultView> {
    hits.map_values(
        |hit: Hit|
            projected(
                searcher_doc(searcher, hit.segment, hit.doc),
                schema_field_set(),
                hit.score_bits,
            ),
    )
}

/// What a list of results holds.
pub open spec fn results_view(results: Seq<SearchResult>) -> Seq<ResultView> {
    results.map_values(|result: SearchResult| result@)
}

/// Whether `results` are what a search for `text` answers on `index` through
/// `searcher`, which sees `docs`: the parser accepts the text, and the
/// results stand for the best hits, best first. Where no hit is asked for
/// there is no result.
pub open spec fn answers(
    index: Index,
    docs: Multiset<DocView>,
    searcher: Searcher,
    text: Seq<char>,
    limit: nat,
    results: Seq<ResultView>,
) -> bool {
    &&& searcher_docs(searcher) == docs
    &&& parsed_query(index, search_fields(), text) is Some
    &&& results == if wanted_hits(limit, docs.len()) == 0 {
        Seq::<ResultView>::empty()
    } else {
        results_of(
            searcher,
            top_hits(
                searcher,
                parsed_query(index, search_fields(), text)->Some_0,
                wanted_hits(limit, docs.len()),
            ),
        )
    }
}

/// Whether `result` stands for one of `docs`.
pub open spec fn found_among(docs: Multiset<DocView>, result: ResultView) -> bool {
    exists|doc: DocView| #[trigger]
        docs.contains(doc) && result == projected(doc, schema_field_set(), result.score_bits)
}

/// The number of hits to ask for: the limit, but no more than there are
/// documents.
pub fn hits_to_ask_for(limit: usize, total: u64) -> (wanted: usize)
    ensures
        wanted == wanted_hits(limit as nat, total as nat),
{
    if limit as u64 <= total {
        limit
    } else {
        total as usize
    }
}

/// Counts the documents of the index in use.
pub fn get_document_count(engine: &SearchEngine) -> (r: Result<u64, String>)
    ensures
        !engine.is_initialized() ==> fails_with(r, not_initialized_text()),
        engine.is_initialized() && r is Err ==> is_tantivy_error_text(r->Err_0),
        r matches Ok(count) ==> count == engine.docs().len(),
{
    match &engine.index {
        Some(search_index) => match open_searcher(&search_index.index) {
            Ok(searcher) => Ok(searcher_count(&searcher)),
            Err(error) => Err(error.to_string()),
        },
        None => Err(not_initialized_message()),
    }
}

/// Searches title and body, each by its morphological and by its n-gram
/// field, and answers the best matches, at most `limit` of them, best first
/// as tantivy ranks them.
///
/// The reader is opened for this search: it sees what was committed before.
/// A query that tantivy's parser refuses is an error, also where the limit
/// is zero. A limit of zero is no error: it gives no result.
pub fn search_documents(
    engine: &SearchEngine,
    query_str: String,
    limit: usize,
) -> (r: Result<Vec<SearchResult>, String>)
    ensures
        !engine.is_initialized() ==> fails_with(r, not_initialized_text()),
        engine.is_initialized() && r is Err ==> is_tantivy_error_text(r->Err_0)
            || is_query_error_text(r->Err_0),
        engine.is_initialized() && parsed_query(
            engine.handle(),
            search_fields(),
            query_str@,
        ) is None ==> r is Err,
        r is Ok ==> exists|searcher: Searcher| #[trigger]
            answers(
                engine.handle(),
                engine.docs(),
                searcher,
                query_str@,
                limit as nat,
                results_view(r->Ok_0@),
            ),
        r matches Ok(results) ==> results@.len() <= limit,
        r matches Ok(results) ==> results@.len() <= engine.docs().len(),
        r matches Ok(results) ==> forall|i: int|
            0 <= i < results@.len() ==> found_among(engine.docs(), (#[trigger] results@[i])@),
{
    let search_index = match &engine.index {
        Some(search_index) => search_index,
        None => {
            return Err(not_initialized_message());
        },
    };
    proof {
        use_type_invariant(search_index);
    }
    let searcher = match open_searcher(&search_index.index) {
        Ok(searcher) => searcher,
        Err(error) => {
            return Err(error.to_string());
        },
    };
    let fields = search_index.fields;
    let mut defaults: Vec<u32> = Vec::new();
    defaults.push(fields.title);
    defaults.push(fields.body);
    defaults.push(fields.title_ngram);
    defaults.push(fields.body_ngram);
    assert(defaults@ =~= search_fields());
    let query = match parse_query(&search_index.index, &defaults, query_str.as_str()) {
        Ok(query) => query,
        Err(error) => {
            return Err(error.to_string());
        },
    };
    let wanted = hits_to_ask_for(limit, searcher_count(&searcher));
    let mut results: Vec<SearchResult> = Vec::new();
    if wanted == 0 {
        let r = Ok(results);
        proof {
            assert(results_view(r->Ok_0@) =~= Seq::<ResultView>::empty());
            assert(answers(
                engine.handle(),
                engine.docs(),
                searcher,
                query_str@,
                limit as nat,
                results_view(r->Ok_0@),
            ));
        }
        return r;
    }
    let hits = match search_top(&searcher, &query, wanted) {
        Ok(hits) => hits,
        Err(error) => {
            return Err(error.to_string());
        },
    };
    let mut i: usize = 0;
    while i < hits.len()
        invariant
            i <= hits@.len(),
            results@.len() == i,
            engine.is_initialized(),
            hits@.len() <= wanted <= limit,
            wanted <= engine.docs().len(),
            fields == schema_field_set(),
            searcher_docs(searcher) == engine.docs(),
            forall|k: int|
                0 <= k < hits@.len() ==> searcher_holds(
                    searcher,
                    (#[trigger] hits@[k]).segment,
                    hits@[k].doc,
                ),
            forall|k: int| 0 <= k < i ==> found_among(engine.docs(), (#[trigger] results@[k])@),
            results_view(results@) == results_of(searcher, hits@.take(i as int)),
        decreases hits.len() - i,
    {
        let hit = hits[i];
        let entries = match fetch_document(&searcher, hit.segment, hit.doc) {
            Ok(entries) => entries,
            Err(error) => {
                return Err(error.to_string());
            },
        };
        let result = project_document(&entries, &fields, hit.score_bits);
        proof {
            assert(engine.docs().contains(entries_view(entries@)));
            let shorter = hits@.take(i as int);
            let longer = hits@.take(i + 1);
            assert(longer =~= shorter.push(hit));
            assert(result@ == projected(
                searcher_doc(searcher, hit.segment, hit.doc),
                schema_field_set(),
                hit.score_bits,
            ));
            assert(results_of(searcher, longer) =~= results_of(searcher, shorter).push(result@));
            assert(results_view(results@.push(result)) =~= results_view(results@).push(result@));
        }
        results.push(result);
        i = i + 1;
    }
    let r = Ok(results);
    proof {
        assert(hits@.take(i as int) =~= hits@);
        assert(answers(
            engine.handle(),
            engine.docs(),
            searcher,
            query_str@,
            limit as nat,
            results_view(r->Ok_0@),
        ));
    }
    r
}

} // verus!
