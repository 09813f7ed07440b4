use vstd::prelude::*;

verus! {

/// The language profile of an index. It is chosen when the index is made and
/// fixes the morphological segmenter for every document in it.
#[derive(Clone, Copy, Debug, PartialEq, Eq, Structural)]
pub enum DictionaryType {
    /// Korean, segmented with ko-dic.
    Korean,
    /// Japanese, segmented with IPADIC.
    JapaneseIpadic,
    /// Japanese, segmented with UniDic.
    JapaneseUnidic,
    /// Chinese, segmented with CC-CEDICT.
    Chinese,
}

impl DictionaryType {
    /// The resource from which the profile's dictionary is loaded.
    pub open spec fn embedded_path(self) -> Seq<char> {
        match self {
            DictionaryType::Korean => "embedded://ko-dic"@,
            DictionaryType::JapaneseIpadic => "embedded://ipadic"@,
            DictionaryType::JapaneseUnidic => "embedded://unidic"@,
            DictionaryType::Chinese => "embedded://cc-cedict"@,
        }
    }

    /// The name under which the profile's segmenter is registered with the
    /// index, and which the morphological fields name as their tokenizer.
    pub open spec fn tokenizer_name(self) -> Seq<char> {
        match self {
            DictionaryType::Korean => "lang_ko"@,
            DictionaryType::JapaneseIpadic => "lang_ja_ipadic"@,
            DictionaryType::JapaneseUnidic => "lang_ja_unidic"@,
            DictionaryType::Chinese => "lang_zh"@,
        }
    }

    pub fn to_embedded_path(&self) -> (path: &'static str)
        ensures
            path@ == self.embedded_path(),
    {
        match self {
            DictionaryType::Korean => "embedded://ko-dic",
            DictionaryType::JapaneseIpadic => "embedded://ipadic",
            DictionaryType::JapaneseUnidic => "embedded://unidic",
            DictionaryType::Chinese => "embedded://cc-cedict",
        }
    }

    pub fn to_tokenizer_name(&self) -> (name: &'static str)
        ensures
            name@ == self.tokenizer_name(),
    {
        match self {
            DictionaryType::Korean => "lang_ko",
            DictionaryType::JapaneseIpadic => "lang_ja_ipadic",
            DictionaryType::JapaneseUnidic => "lang_ja_unidic",
            DictionaryType::Chinese => "lang_zh",
        }
    }
}

/// No two profiles share a tokenizer name, and none is named like the n-gram
/// tokenizer or like tantivy's `raw` tokenizer.
pub proof fn tokenizer_names_distinct(a: DictionaryType, b: DictionaryType)
    ensures
        a.tokenizer_name() == b.tokenizer_name() ==> a == b,
        a.tokenizer_name() != "ngram_tokenizer"@,
        a.tokenizer_name() != "raw"@,
        a.tokenizer_name().len() > 0,
        a.tokenizer_name()[0] != '-',
{
    reveal_strlit("lang_ko");
    reveal_strlit("lang_ja_ipadic");
    reveal_strlit("lang_ja_unidic");
    reveal_strlit("lang_zh");
    reveal_strlit("ngram_tokenizer");
    reveal_strlit("raw");
    assert("lang_ko"@[5] == 'k');
    assert("lang_ja_ipadic"@[5] == 'j');
    assert("lang_ja_ipadic"@[8] == 'i');
    assert("lang_ja_unidic"@[5] == 'j');
    assert("lang_ja_unidic"@[8] == 'u');
    assert("lang_zh"@[5] == 'z');
    assert("ngram_tokenizer"@[0] == 'n');
    assert("lang_ko"@[0] == 'l');
    assert("lang_ja_ipadic"@[0] == 'l');
    assert("lang_ja_unidic"@[0] == 'l');
    assert("lang_zh"@[0] == 'l');
    assert("raw"@[0] == 'r');
}

} // verus!
