use crate::dictionary::{tokenizer_names_distinct, DictionaryType};
use crate::document::counter_after;
use crate::ident::{generate_uuid, is_generated_id, uuid_text, uuid_text_is_short};
use crate::messages::{
    create_error_message, create_error_text, initialized_at_message, initialized_at_text,
    initialized_message, initialized_text, open_error_message, open_error_text,
    schema_mismatch_message, schema_mismatch_text,
};
use crate::schema::{
    declare_fields, field_set, ngram_tokenizer_name, raw_tokenizer_name, schema_field_set,
    schema_fields, schema_fields_buildable, schema_plan, FieldSet, FieldView,
};
use crate::store::{
    create_in_dir, create_in_ram, has_raw_tokenizer, index_docs, index_fields, index_tokenizers,
    indexable, is_lindera_error_text, is_tantivy_error_text, ngram_view, open_in_dir,
    morphological_view, register_morphological, register_ngram, schema_matches, DocView,
    SegmenterMode, TokenizerView,
};
use tantivy::Index;
use vstd::multiset::Multiset;
use vstd::prelude::*;

verus! {

/// The shortest n-gram that is indexed.
pub const NGRAM_MIN: usize = 2;

/// The longest n-gram that is indexed.
pub const NGRAM_MAX: usize = 3;

/// The memory that a writer may use, in bytes.
pub const WRITER_MEMORY_BUDGET: usize = 50_000_000;

/// Whether the tokenizers of an index are those of the profile: tantivy's
/// `raw`, the n-gram tokenizer over two and three characters that may start
/// anywhere, and the profile's segmenter under the profile's name.
pub open spec fn tokenizers_ready(index: Index, dictionary: DictionaryType) -> bool {
    let tokenizers = index_tokenizers(index);
    &&& has_raw_tokenizer(index)
    &&& tokenizers.contains_key(ngram_tokenizer_name())
    &&& tokenizers[ngram_tokenizer_name()] == TokenizerView::Ngram {
        min_gram: 2,
        max_gram: 3,
        prefix_only: false,
    }
    &&& tokenizers.contains_key(dictionary.tokenizer_name())
    &&& tokenizers[dictionary.tokenizer_name()] == segmenter_of(dictionary)
}

/// The segmenter of a profile: lindera's tokenizer over the dictionary of
/// the profile, in normal mode, without a dictionary of the user.
pub open spec fn segmenter_of(dictionary: DictionaryType) -> TokenizerView {
    morphological_view(dictionary.embedded_path(), SegmenterMode::Normal, false)
}

/// An index with its language profile and the handles of its fields.
pub struct SearchIndex {
    pub(crate) index: Index,
    pub(crate) fields: FieldSet,
    pub(crate) dictionary: DictionaryType,
}

impl SearchIndex {
    /// The schema, the handles and the tokenizers are those of the profile.
    #[verifier::type_invariant]
    pub open(crate) spec fn well_formed(self) -> bool {
        &&& index_fields(self.index) == schema_fields(self.dictionary.tokenizer_name())
        &&& self.fields == schema_field_set()
        &&& tokenizers_ready(self.index, self.dictionary)
    }

    /// The documents of the index.
    pub open(crate) spec fn docs(self) -> Multiset<DocView> {
        index_docs(self.index)
    }

    /// The language profile of the index.
    pub open(crate) spec fn profile(self) -> DictionaryType {
        self.dictionary
    }
}

/// The engine: the index that is in use, if one has been made, and the
/// counter from which identities are drawn.
pub struct SearchEngine {
    pub(crate) index: Option<SearchIndex>,
    pub(crate) counter: u64,
}

impl SearchEngine {
    /// Whether an index is in use.
    pub open(crate) spec fn is_initialized(self) -> bool {
        self.index is Some
    }

    /// The documents of the index in use; none where there is no index.
    pub open(crate) spec fn docs(self) -> Multiset<DocView> {
        match self.index {
            Some(search_index) => search_index.docs(),
            None => Multiset::empty(),
        }
    }

    /// The language profile of the index in use.
    pub open(crate) spec fn profile(self) -> Option<DictionaryType> {
        match self.index {
            Some(search_index) => Some(search_index.profile()),
            None => None,
        }
    }

    /// The handle of the index in use. It has no meaning where there is no
    /// index.
    pub open(crate) spec fn handle(self) -> Index {
        self.index->Some_0.index
    }

    /// The schema of the index in use; empty where there is no index.
    pub open(crate) spec fn schema(self) -> Seq<FieldView> {
        match self.index {
            Some(search_index) => index_fields(search_index.index),
            None => Seq::empty(),
        }
    }

    /// Whether an index is in use whose tokenizers are those of the profile.
    pub open(crate) spec fn has_tokenizers_of(self, dictionary: DictionaryType) -> bool {
        match self.index {
            Some(search_index) => tokenizers_ready(search_index.index, dictionary),
            None => false,
        }
    }

    /// The counter that the next generated identity gets.
    pub open(crate) spec fn next_counter(self) -> nat {
        self.counter as nat
    }

    /// An engine without an index, whose counter stands at zero.
    pub fn new() -> (engine: SearchEngine)
        ensures
            !engine.is_initialized(),
            engine.next_counter() == 0,
    {
        SearchEngine { index: None, counter: 0 }
    }
}

/// Whether `r` is the error with the text given.
pub open spec fn fails_with<T>(r: Result<T, String>, text: Seq<char>) -> bool {
    r matches Err(error) && error@ == text
}

/// The time in microseconds since the Unix epoch, from
/// `SystemTime::now().duration_since(UNIX_EPOCH)`; zero for a clock that
/// stands before the epoch. Nothing is known of the value.
#[verifier::external_body]
fn clock_micros() -> u128 {
    let since_epoch = std::time::SystemTime::now().duration_since(std::time::UNIX_EPOCH);
    since_epoch.unwrap_or_default().as_micros()
}

/// The tokenizers of an index after the n-gram tokenizer was registered
/// with it: over two and three characters, starting anywhere.
pub open spec fn with_ngram_tokenizer(
    tokenizers: Map<Seq<char>, TokenizerView>,
) -> Map<Seq<char>, TokenizerView> {
    tokenizers.insert(ngram_tokenizer_name(), ngram_view(2, 3, false))
}

/// The tokenizers of an index after the n-gram tokenizer and the segmenter
/// of the profile were registered with it.
pub open spec fn with_tokenizers_of(
    tokenizers: Map<Seq<char>, TokenizerView>,
    dictionary: DictionaryType,
) -> Map<Seq<char>, TokenizerView> {
    with_ngram_tokenizer(tokenizers).insert(
        dictionary.tokenizer_name(),
        segmenter_of(dictionary),
    )
}

/// Whether `text` is an error that an initialization in a directory
/// answers: the error of the dictionary as lindera words it; for a directory
/// that is there, the load error around tantivy's error or around the
/// schema mismatch; for one that is not, the creation error around tantivy's
/// error.
pub open spec fn is_path_failure(path_exists: bool, text: String) -> bool {
    ||| is_lindera_error_text(text)
    ||| path_exists && text@ == open_error_text(schema_mismatch_text())
    ||| path_exists && exists|detail: String| #[trigger]
        is_tantivy_error_text(detail) && text@ == open_error_text(detail@)
    ||| !path_exists && exists|detail: String| #[trigger]
        is_tantivy_error_text(detail) && text@ == create_error_text(detail@)
}

/// Registers the n-gram tokenizer and the profile's segmenter. The n-gram
/// tokenizer is registered first and stays where the dictionary of the
/// segmenter does not load; the error is then lindera's, as text.
fn install_tokenizers(index: &mut Index, dictionary: DictionaryType) -> (r: Result<(), String>)
    requires
        has_raw_tokenizer(*old(index)),
    ensures
        index_fields(*final(index)) == index_fields(*old(index)),
        index_docs(*final(index)) == index_docs(*old(index)),
        r is Ok ==> index_tokenizers(*final(index)) == with_tokenizers_of(
            index_tokenizers(*old(index)),
            dictionary,
        ),
        r is Err ==> index_tokenizers(*final(index)) == with_ngram_tokenizer(
            index_tokenizers(*old(index)),
        ),
        r matches Err(text) ==> is_lindera_error_text(text),
        r is Ok ==> tokenizers_ready(*final(index), dictionary),
{
    proof {
        tokenizer_names_distinct(dictionary, dictionary);
        reveal_strlit("ngram_tokenizer");
        reveal_strlit("raw");
        assert(ngram_tokenizer_name()[0] == 'n');
        assert(raw_tokenizer_name()[0] == 'r');
    }
    register_ngram(index, "ngram_tokenizer", NGRAM_MIN, NGRAM_MAX, false);
    match register_morphological(
        index,
        dictionary.to_tokenizer_name(),
        dictionary.to_embedded_path(),
        SegmenterMode::Normal,
        None,
    ) {
        Ok(()) => Ok(()),
        Err(error) => Err(error.to_string()),
    }
}

/// Makes a new index in memory for the profile and puts it in use.
///
/// The only failure is a dictionary that does not load; the engine then
/// stays as it was.
pub fn initialize_search_index(
    engine: &mut SearchEngine,
    dictionary_type: DictionaryType,
) -> (r: Result<String, String>)
    ensures
        final(engine).next_counter() == old(engine).next_counter(),
        r matches Ok(text) ==> text@ == initialized_text(),
        r is Ok ==> final(engine).is_initialized(),
        r is Ok ==> final(engine).profile() == Some(dictionary_type),
        r is Ok ==> final(engine).schema() == schema_fields(dictionary_type.tokenizer_name()),
        r is Ok ==> final(engine).has_tokenizers_of(dictionary_type),
        r is Ok ==> final(engine).docs() == Multiset::<DocView>::empty(),
        r is Err ==> *final(engine) == *old(engine),
        r matches Err(text) ==> is_lindera_error_text(text),
{
    let tokenizer_name = dictionary_type.to_tokenizer_name();
    let plan = schema_plan(tokenizer_name);
    proof {
        schema_fields_buildable(tokenizer_name@);
    }
    let builder = declare_fields(&plan);
    let mut index = create_in_ram(builder);
    match install_tokenizers(&mut index, dictionary_type) {
        Ok(()) => {},
        Err(error) => {
            return Err(error);
        },
    }
    engine.index = Some(SearchIndex { index, fields: field_set(), dictionary: dictionary_type });
    Ok(initialized_message())
}

/// Puts an index in use that was opened from the directory `index_path`.
/// `same_schema` is the answer of the comparison of its schema with that of
/// the profile: an index with another schema is refused with the load
/// error, and the engine stays as it was. An index with the schema of the
/// profile gets the tokenizers of the profile and is put in use with the
/// documents that it holds; the only failure is then a dictionary that does
/// not load, and the engine stays as it was.
pub fn use_opened_index(
    engine: &mut SearchEngine,
    dictionary_type: DictionaryType,
    index: Index,
    same_schema: bool,
    index_path: &str,
) -> (r: Result<String, String>)
    requires
        has_raw_tokenizer(index),
        same_schema ==> index_fields(index) == schema_fields(dictionary_type.tokenizer_name()),
    ensures
        final(engine).next_counter() == old(engine).next_counter(),
        !same_schema ==> fails_with(r, open_error_text(schema_mismatch_text())),
        same_schema && r is Err ==> is_lindera_error_text(r->Err_0),
        r is Err ==> *final(engine) == *old(engine),
        r matches Ok(text) ==> text@ == initialized_at_text(index_path@),
        r is Ok ==> final(engine).is_initialized(),
        r is Ok ==> final(engine).profile() == Some(dictionary_type),
        r is Ok ==> final(engine).schema() == schema_fields(dictionary_type.tokenizer_name()),
        r is Ok ==> final(engine).has_tokenizers_of(dictionary_type),
        r is Ok ==> final(engine).docs() == index_docs(index),
{
    if !same_schema {
        return Err(schema_mismatch_message());
    }
    let mut index = index;
    match install_tokenizers(&mut index, dictionary_type) {
        Ok(()) => {},
        Err(error) => {
            return Err(error);
        },
    }
    engine.index = Some(SearchIndex { index, fields: field_set(), dictionary: dictionary_type });
    Ok(initialized_at_message(index_path))
}

/// Opens the index in the directory `index_path`, or makes a new one there,
/// for the profile, and puts it in use. `path_exists` says whether the
/// directory is there: if so the index in it is opened, else a new index is
/// made in it, and the caller has made the directory.
///
/// An index that is there must have the schema of the profile; one that has
/// another is refused like one that cannot be read. On any failure the
/// engine stays as it was.
pub fn initialize_search_index_with_path(
    engine: &mut SearchEngine,
    dictionary_type: DictionaryType,
    index_path: String,
    path_exists: bool,
) -> (r: Result<String, String>)
    ensures
        final(engine).next_counter() == old(engine).next_counter(),
        r matches Ok(text) ==> text@ == initialized_at_text(index_path@),
        r is Ok ==> final(engine).is_initialized(),
        r is Ok ==> final(engine).profile() == Some(dictionary_type),
        r is Ok ==> final(engine).schema() == schema_fields(dictionary_type.tokenizer_name()),
        r is Ok ==> final(engine).has_tokenizers_of(dictionary_type),
        r is Ok && !path_exists ==> final(engine).docs() == Multiset::<DocView>::empty(),
        r is Err ==> *final(engine) == *old(engine),
        r matches Err(text) ==> is_path_failure(path_exists, text),
{
    let tokenizer_name = dictionary_type.to_tokenizer_name();
    let plan = schema_plan(tokenizer_name);
    proof {
        schema_fields_buildable(tokenizer_name@);
    }
    let builder = declare_fields(&plan);
    if path_exists {
        return match open_in_dir(index_path.as_str()) {
            Ok(index) => {
                let same_schema = schema_matches(&index, builder);
                use_opened_index(engine, dictionary_type, index, same_schema, index_path.as_str())
            },
            Err(error) => {
                let detail = error.to_string();
                let text = open_error_message(detail.as_str());
                assert(is_tantivy_error_text(detail) && text@ == open_error_text(detail@));
                Err(text)
            },
        };
    }
    let mut index = match create_in_dir(index_path.as_str(), builder) {
        Ok(index) => index,
        Err(error) => {
            let detail = error.to_string();
            let text = create_error_message(detail.as_str());
            assert(is_tantivy_error_text(detail) && text@ == create_error_text(detail@));
            return Err(text);
        },
    };
    match install_tokenizers(&mut index, dictionary_type) {
        Ok(()) => {},
        Err(error) => {
            return Err(error);
        },
    }
    engine.index = Some(SearchIndex { index, fields: field_set(), dictionary: dictionary_type });
    Ok(initialized_at_message(index_path.as_str()))
}

impl SearchEngine {
    /// Draws an identity from the clock and the counter, and moves the
    /// counter on.
    pub(crate) fn next_id(&mut self) -> (id: String)
        ensures
            is_generated_id(id@, old(self).next_counter()),
            indexable(id@),
            final(self).next_counter() == counter_after(old(self).next_counter()),
            final(self).index == old(self).index,
    {
        let timestamp = clock_micros();
        let counter = self.counter;
        self.counter = if counter == u64::MAX {
            0
        } else {
            counter + 1
        };
        let id = generate_uuid(timestamp, counter);
        proof {
            assert(id@ == uuid_text(timestamp as nat, old(self).next_counter()));
            uuid_text_is_short(timestamp as nat, counter as nat);
        }
        id
    }
}

} // verus!
